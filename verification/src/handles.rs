//! Ownership of foreign object handles.
//!
//! A foreign object referenced from the host must be registered as a
//! garbage-collection root while the host uses it, and that registration
//! must be released exactly once: never zero times (a leak) and never twice
//! (a double free).  [`OwnedKotlinPtr`] owns one registration; it cannot be
//! duplicated, and disposing it consumes it, so the type system rules out a
//! second release.  [`KsonPtr`] shares one registration among many proxy
//! values through an explicit reference count; the registration is released
//! exactly when the count reaches zero.
//!
//! The counting discipline is stated as a transition system over one cell
//! ([`share_step`]) and the exactly-once-release guarantee is proved for
//! every interleaving of clones and drops ([`lemma_share_exactly_one_release`]).

use vstd::prelude::*;

use crate::runtime::ForeignRuntime;
use crate::runtime::ShareCell;
use crate::runtime::rec_meta_eq;
use crate::runtime::records_unchanged_except;

verus! {

/// Owner of exactly one root registration for one foreign object.  There is
/// no way to duplicate it, and [`OwnedKotlinPtr::dispose`] consumes it, so
/// each owner releases its registration exactly once.
pub struct OwnedKotlinPtr {
    record: usize,
}

impl OwnedKotlinPtr {
    /// The handle of the record this owner protects.
    pub closed spec fn id(self) -> int {
        self.record as int
    }

    /// The handle of the record this owner protects.
    pub fn record_id(&self) -> (h: usize)
        ensures
            h as int == self.id(),
    {
        self.record
    }

    /// Take ownership of a registration that was just made (crate-internal:
    /// the callers have incremented the record's root count themselves).
    pub(crate) fn from_raw(record: usize) -> (p: OwnedKotlinPtr)
        ensures
            p.id() == record as int,
    {
        OwnedKotlinPtr { record }
    }

    /// Register the object behind `h` as a garbage-collection root and take
    /// ownership of that registration.
    pub fn wrap(rt: &mut ForeignRuntime, h: usize) -> (p: OwnedKotlinPtr)
        requires
            old(rt).wf(),
            (h as int) < old(rt).records@.len(),
        ensures
            final(rt).wf(),
            p.id() == h as int,
            records_unchanged_except(old(rt).records@, final(rt).records@, h as int),
            rec_meta_eq(old(rt).records@[h as int], final(rt).records@[h as int]),
            final(rt).records@[h as int].roots == crate::runtime::bump(
                old(rt).records@[h as int].roots,
            ),
            final(rt).records@[h as int].releases == old(rt).records@[h as int].releases,
            final(rt).cells@ == old(rt).cells@,
            final(rt).replies@ == old(rt).replies@,
            final(rt).calls@ == old(rt).calls@,
            final(rt).classes@ == old(rt).classes@,
            final(rt).pending_fault == old(rt).pending_fault,
    {
        let rec = &mut rt.records[h];
        if rec.roots < u64::MAX {
            rec.roots = rec.roots + 1;
        }
        OwnedKotlinPtr { record: h }
    }

    /// Release the registration this owner holds.  Consuming `self` is what
    /// makes the release the only one: no copy of the owner survives to
    /// release again.
    pub fn dispose(self, rt: &mut ForeignRuntime)
        requires
            old(rt).wf(),
            0 <= self.id() < old(rt).records@.len(),
        ensures
            final(rt).wf(),
            records_unchanged_except(old(rt).records@, final(rt).records@, self.id()),
            rec_meta_eq(old(rt).records@[self.id()], final(rt).records@[self.id()]),
            final(rt).records@[self.id()].roots == old(rt).records@[self.id()].roots,
            final(rt).records@[self.id()].releases == crate::runtime::bump(
                old(rt).records@[self.id()].releases,
            ),
            final(rt).cells@ == old(rt).cells@,
            final(rt).replies@ == old(rt).replies@,
            final(rt).calls@ == old(rt).calls@,
            final(rt).classes@ == old(rt).classes@,
            final(rt).pending_fault == old(rt).pending_fault,
    {
        let rec = &mut rt.records[self.record];
        if rec.releases < u64::MAX {
            rec.releases = rec.releases + 1;
        }
    }
}

/// A reference-counted shared handle: many proxy values over one root
/// registration.  Cloning goes through [`KsonPtr::clone_ref`], the only
/// sanctioned way to duplicate access to a foreign object; dropping goes
/// through [`KsonPtr::drop_ref`], and the last drop releases the root.
pub struct KsonPtr {
    cell: usize,
}

impl KsonPtr {
    /// The reference-count cell this handle shares.
    pub closed spec fn cell_id(self) -> int {
        self.cell as int
    }

    /// The reference-count cell this handle shares.
    pub fn cell_index(&self) -> (c: usize)
        ensures
            c as int == self.cell_id(),
    {
        self.cell
    }

    /// This handle is backed by a live cell of the runtime.
    pub open spec fn live(self, rt: ForeignRuntime) -> bool {
        &&& 0 <= self.cell_id() < rt.cells@.len()
        &&& rt.cells@[self.cell_id()].count >= 1
        &&& !rt.cells@[self.cell_id()].disposed
    }

    /// The record this handle refers to.
    pub open spec fn spec_record(self, rt: ForeignRuntime) -> int
        recommends
            0 <= self.cell_id() < rt.cells@.len(),
    {
        rt.cells@[self.cell_id()].record as int
    }

    /// The record this handle refers to.
    pub fn record_id(&self, rt: &ForeignRuntime) -> (h: usize)
        requires
            0 <= self.cell_id() < rt.cells@.len(),
        ensures
            h as int == self.spec_record(*rt),
    {
        rt.cells[self.cell].record
    }

    /// Share an owned registration: the owner is consumed and its single
    /// registration is now governed by a reference count starting at one.
    pub fn share(owned: OwnedKotlinPtr, rt: &mut ForeignRuntime) -> (p: KsonPtr)
        requires
            old(rt).wf(),
            0 <= owned.id() < old(rt).records@.len(),
        ensures
            final(rt).wf(),
            p.cell_id() == old(rt).cells@.len(),
            p.live(*final(rt)),
            p.spec_record(*final(rt)) == owned.id(),
            final(rt).cells@ == old(rt).cells@.push(
                ShareCell { record: owned.record_spec(), count: 1, disposed: false },
            ),
            final(rt).records@ == old(rt).records@,
            final(rt).replies@ == old(rt).replies@,
            final(rt).calls@ == old(rt).calls@,
            final(rt).classes@ == old(rt).classes@,
            final(rt).pending_fault == old(rt).pending_fault,
    {
        let c = rt.cells.len();
        rt.cells.push(ShareCell { record: owned.record, count: 1, disposed: false });
        KsonPtr { cell: c }
    }

    /// Increment the shared count and hand out another reference to the same
    /// registration.
    pub fn clone_ref(&self, rt: &mut ForeignRuntime) -> (p: KsonPtr)
        requires
            old(rt).wf(),
            self.live(*old(rt)),
            old(rt).cells@[self.cell_id()].count < u64::MAX,
        ensures
            final(rt).wf(),
            p == *self,
            p.live(*final(rt)),
            cell_state(*final(rt), self.cell_id()) == share_step(
                cell_state(*old(rt), self.cell_id()),
                ShareOp::Dup,
            ),
            cells_unchanged_except(old(rt).cells@, final(rt).cells@, self.cell_id()),
            final(rt).cells@[self.cell_id()].record == old(rt).cells@[self.cell_id()].record,
            final(rt).records@ == old(rt).records@,
            final(rt).replies@ == old(rt).replies@,
            final(rt).calls@ == old(rt).calls@,
            final(rt).classes@ == old(rt).classes@,
            final(rt).pending_fault == old(rt).pending_fault,
    {
        let cell = &mut rt.cells[self.cell];
        cell.count = cell.count + 1;
        KsonPtr { cell: self.cell }
    }

    /// Drop one reference.  Only the drop that takes the count to zero
    /// releases the underlying registration; every other drop releases
    /// nothing.  Together with [`lemma_share_exactly_one_release`] this
    /// gives exactly one release however clones and drops interleave.
    pub fn drop_ref(self, rt: &mut ForeignRuntime)
        requires
            old(rt).wf(),
            self.live(*old(rt)),
        ensures
            final(rt).wf(),
            cell_state(*final(rt), self.cell_id()) == share_step(
                cell_state(*old(rt), self.cell_id()),
                ShareOp::Release,
            ),
            cells_unchanged_except(old(rt).cells@, final(rt).cells@, self.cell_id()),
            final(rt).cells@[self.cell_id()].record == old(rt).cells@[self.cell_id()].record,
            ({
                let rec = self.spec_record(*old(rt));
                if old(rt).cells@[self.cell_id()].count == 1 {
                    &&& records_unchanged_except(old(rt).records@, final(rt).records@, rec)
                    &&& rec_meta_eq(old(rt).records@[rec], final(rt).records@[rec])
                    &&& final(rt).records@[rec].roots == old(rt).records@[rec].roots
                    &&& final(rt).records@[rec].releases == crate::runtime::bump(
                        old(rt).records@[rec].releases,
                    )
                } else {
                    final(rt).records@ == old(rt).records@
                }
            }),
            final(rt).replies@ == old(rt).replies@,
            final(rt).calls@ == old(rt).calls@,
            final(rt).classes@ == old(rt).classes@,
            final(rt).pending_fault == old(rt).pending_fault,
    {
        let count = rt.cells[self.cell].count;
        if count == 1 {
            let rec_h = rt.cells[self.cell].record;
            let cell = &mut rt.cells[self.cell];
            cell.count = 0;
            cell.disposed = true;
            let rec = &mut rt.records[rec_h];
            if rec.releases < u64::MAX {
                rec.releases = rec.releases + 1;
            }
        } else {
            let cell = &mut rt.cells[self.cell];
            cell.count = cell.count - 1;
        }
    }
}

impl OwnedKotlinPtr {
    /// The record index, for stating [`KsonPtr::share`]'s contract.
    pub closed spec fn record_spec(self) -> usize {
        self.record
    }
}

/// The cell seqs agree everywhere except possibly at the given cell.
pub open spec fn cells_unchanged_except(a: Seq<ShareCell>, b: Seq<ShareCell>, c: int) -> bool {
    &&& a.len() == b.len()
    &&& forall|i: int| 0 <= i < a.len() && i != c ==> a[i] == #[trigger] b[i]
}

/// The abstract state of one reference-count cell: its live count and how
/// many times its registration has been released.
pub struct ShareState {
    pub count: nat,
    pub releases: nat,
}

/// What can happen to a shared handle: it is cloned, or one reference is
/// dropped.
pub enum ShareOp {
    Dup,
    Release,
}

/// The abstract state of a cell of the runtime.
pub open spec fn cell_state(rt: ForeignRuntime, c: int) -> ShareState
    recommends
        0 <= c < rt.cells@.len(),
{
    ShareState {
        count: rt.cells@[c].count as nat,
        releases: if rt.cells@[c].disposed {
            1nat
        } else {
            0nat
        },
    }
}

/// An operation is enabled only while a reference is live to perform it.
pub open spec fn share_enabled(s: ShareState, op: ShareOp) -> bool {
    s.count >= 1
}

/// One step of the counting discipline: a clone increments the count; a
/// drop decrements it, and the drop that reaches zero performs the one
/// release.
pub open spec fn share_step(s: ShareState, op: ShareOp) -> ShareState {
    match op {
        ShareOp::Dup => ShareState { count: s.count + 1, releases: s.releases },
        ShareOp::Release => if s.count == 1 {
            ShareState { count: 0, releases: s.releases + 1 }
        } else {
            ShareState { count: (s.count - 1) as nat, releases: s.releases }
        },
    }
}

/// Run a sequence of operations from a state.
pub open spec fn share_run(s: ShareState, ops: Seq<ShareOp>) -> ShareState
    decreases ops.len(),
{
    if ops.len() == 0 {
        s
    } else {
        share_run(share_step(s, ops[0]), ops.drop_first())
    }
}

/// Every operation of the sequence is enabled when its turn comes.
pub open spec fn share_valid(s: ShareState, ops: Seq<ShareOp>) -> bool
    decreases ops.len(),
{
    ops.len() == 0 || (share_enabled(s, ops[0]) && share_valid(
        share_step(s, ops[0]),
        ops.drop_first(),
    ))
}

/// How many clones a sequence contains.
pub open spec fn count_dups(ops: Seq<ShareOp>) -> nat
    decreases ops.len(),
{
    if ops.len() == 0 {
        0nat
    } else {
        (if ops[0] is Dup {
            1nat
        } else {
            0nat
        }) + count_dups(ops.drop_first())
    }
}

/// How many drops a sequence contains.
pub open spec fn count_releases(ops: Seq<ShareOp>) -> nat
    decreases ops.len(),
{
    if ops.len() == 0 {
        0nat
    } else {
        (if ops[0] is Release {
            1nat
        } else {
            0nat
        }) + count_releases(ops.drop_first())
    }
}

/// The invariant of the counting discipline: the registration has been
/// released exactly when no reference is left, and never more than once.
pub open spec fn share_inv(s: ShareState) -> bool {
    s.releases == if s.count == 0 {
        1nat
    } else {
        0nat
    }
}

/// Each enabled step preserves the invariant and accounts for the count
/// exactly.
pub proof fn lemma_share_step(s: ShareState, op: ShareOp)
    requires
        share_inv(s),
        share_enabled(s, op),
    ensures
        share_inv(share_step(s, op)),
{
}

/// Running a valid sequence keeps the invariant, and the final count is the
/// initial count plus clones minus drops.
pub proof fn lemma_share_run(s: ShareState, ops: Seq<ShareOp>)
    requires
        share_inv(s),
        share_valid(s, ops),
    ensures
        share_inv(share_run(s, ops)),
        share_run(s, ops).count + count_releases(ops) == s.count + count_dups(ops),
    decreases ops.len(),
{
    if ops.len() > 0 {
        lemma_share_step(s, ops[0]);
        lemma_share_run(share_step(s, ops[0]), ops.drop_first());
    }
}

/// Cloning a shared handle N times and dropping all N+1 references releases
/// the underlying registration exactly once, regardless of the order in
/// which the clones and drops happen.
pub proof fn lemma_share_exactly_one_release(ops: Seq<ShareOp>)
    requires
        share_valid(ShareState { count: 1, releases: 0 }, ops),
        count_releases(ops) == count_dups(ops) + 1,
    ensures
        share_run(ShareState { count: 1, releases: 0 }, ops).releases == 1,
        share_run(ShareState { count: 1, releases: 0 }, ops).count == 0,
{
    let init = ShareState { count: 1, releases: 0 };
    lemma_share_run(init, ops);
}

/// An owned handle is the clone-free case: its one registration sees
/// exactly one release over its lifetime.  The missing half of the argument
/// is carried by the types: [`OwnedKotlinPtr`] cannot be duplicated and
/// [`OwnedKotlinPtr::dispose`] consumes it, so exactly one drop happens.
pub proof fn lemma_owned_exactly_one_release(ops: Seq<ShareOp>)
    requires
        share_valid(ShareState { count: 1, releases: 0 }, ops),
        count_dups(ops) == 0,
        count_releases(ops) == 1,
    ensures
        share_run(ShareState { count: 1, releases: 0 }, ops).releases == 1,
{
    lemma_share_exactly_one_release(ops);
}

} // verus!
