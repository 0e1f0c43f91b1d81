//! Lazy proxies over the parsed document tree.
//!
//! A parsed document stays foreign-resident: each node is reached through a
//! shared handle and its fields are marshalled out on demand.  Building a
//! proxy roots the node and dispatches its runtime class to the matching
//! local variant ([`dispatch_value`]); reading a collection drains the
//! foreign iterator protocol ([`drain_list`], [`drain_map`]), releasing the
//! iterator handle once draining completes.

use vstd::prelude::*;

use crate::dispatch::KsonValueType;
use crate::dispatch::dispatch_value_class;
use crate::dispatch::value_class_name;
use crate::handles::KsonPtr;
use crate::handles::OwnedKotlinPtr;
use crate::handles::ShareOp;
use crate::handles::cell_state;
use crate::handles::cells_unchanged_except;
use crate::handles::share_step;
use crate::runtime::ContractViolation;
use crate::runtime::ForeignRuntime;
use crate::runtime::ObjectRecord;
use crate::runtime::Payload;
use crate::runtime::ShareCell;
use crate::runtime::rec_meta_eq;
use crate::text::encode_utf16;
use crate::values::Position;
use crate::values::chars_at;
use crate::values::pos_at;
use crate::values::position_from_handle;

verus! {

/// A foreign-resident object node.
pub struct KsonObject {
    ptr: KsonPtr,
}

/// A foreign-resident array node.
pub struct KsonArray {
    ptr: KsonPtr,
}

/// A foreign-resident string node.
pub struct KsonString {
    ptr: KsonPtr,
}

/// A foreign-resident integer node.
pub struct KsonInteger {
    ptr: KsonPtr,
}

/// A foreign-resident decimal node; its numeric payload is read as its
/// source text.
pub struct KsonDecimal {
    ptr: KsonPtr,
}

/// A foreign-resident boolean node.
pub struct KsonBoolean {
    ptr: KsonPtr,
}

/// A foreign-resident null node.
pub struct KsonNull {
    ptr: KsonPtr,
}

/// A foreign-resident embed node.
pub struct KsonEmbed {
    ptr: KsonPtr,
}

/// A numeric node: the integer-valued and decimal-valued leaves share one
/// foreign parent class and are told apart during dispatch.
pub enum KsonNumber {
    Integer(KsonInteger),
    Decimal(KsonDecimal),
}

/// A document value node, as the local tagged union of the foreign class
/// hierarchy.
pub enum KsonValue {
    KsonObject(KsonObject),
    KsonArray(KsonArray),
    KsonString(KsonString),
    KsonNumber(KsonNumber),
    KsonBoolean(KsonBoolean),
    KsonNull(KsonNull),
    KsonEmbed(KsonEmbed),
}

impl KsonObject {
    /// The shared handle behind this proxy.
    pub closed spec fn handle(self) -> KsonPtr {
        self.ptr
    }
}

impl KsonArray {
    /// The shared handle behind this proxy.
    pub closed spec fn handle(self) -> KsonPtr {
        self.ptr
    }
}

impl KsonString {
    /// The shared handle behind this proxy.
    pub closed spec fn handle(self) -> KsonPtr {
        self.ptr
    }
}

impl KsonInteger {
    /// The shared handle behind this proxy.
    pub closed spec fn handle(self) -> KsonPtr {
        self.ptr
    }
}

impl KsonDecimal {
    /// The shared handle behind this proxy.
    pub closed spec fn handle(self) -> KsonPtr {
        self.ptr
    }
}

impl KsonBoolean {
    /// The shared handle behind this proxy.
    pub closed spec fn handle(self) -> KsonPtr {
        self.ptr
    }
}

impl KsonNull {
    /// The shared handle behind this proxy.
    pub closed spec fn handle(self) -> KsonPtr {
        self.ptr
    }
}

impl KsonEmbed {
    /// The shared handle behind this proxy.
    pub closed spec fn handle(self) -> KsonPtr {
        self.ptr
    }
}

/// The shared handle behind a value proxy, whichever variant it is.
pub open spec fn value_handle(v: KsonValue) -> KsonPtr {
    match v {
        KsonValue::KsonObject(o) => o.handle(),
        KsonValue::KsonArray(a) => a.handle(),
        KsonValue::KsonString(s) => s.handle(),
        KsonValue::KsonNumber(KsonNumber::Integer(i)) => i.handle(),
        KsonValue::KsonNumber(KsonNumber::Decimal(d)) => d.handle(),
        KsonValue::KsonBoolean(b) => b.handle(),
        KsonValue::KsonNull(n) => n.handle(),
        KsonValue::KsonEmbed(e) => e.handle(),
    }
}

/// The concrete subtype a value proxy instantiates.
pub open spec fn value_variant(v: KsonValue) -> KsonValueType {
    match v {
        KsonValue::KsonObject(_) => KsonValueType::Object,
        KsonValue::KsonArray(_) => KsonValueType::Array,
        KsonValue::KsonString(_) => KsonValueType::Str,
        KsonValue::KsonNumber(KsonNumber::Integer(_)) => KsonValueType::Integer,
        KsonValue::KsonNumber(KsonNumber::Decimal(_)) => KsonValueType::Decimal,
        KsonValue::KsonBoolean(_) => KsonValueType::Boolean,
        KsonValue::KsonNull(_) => KsonValueType::Null,
        KsonValue::KsonEmbed(_) => KsonValueType::Embed,
    }
}

/// The proxy is a live reference to the given record, and its variant is the
/// one the record's class instantiates.
pub open spec fn value_matches(rt: ForeignRuntime, v: KsonValue, rec: int) -> bool {
    &&& value_handle(v).live(rt)
    &&& value_handle(v).spec_record(rt) == rec
    &&& rt.records@[rec].class_name@ == value_class_name(value_variant(v))
}

/// The record's class is one of the declared value classes.
pub open spec fn class_declared(recs: Seq<ObjectRecord>, h: int) -> bool {
    exists|t: KsonValueType| #[trigger] value_class_name(t) == recs[h].class_name@
}

/// The cell seqs agree on a prefix: nothing already shared is disturbed.
pub open spec fn cells_grow(a: Seq<ShareCell>, b: Seq<ShareCell>) -> bool {
    &&& a.len() <= b.len()
    &&& forall|i: int| 0 <= i < a.len() ==> a[i] == #[trigger] b[i]
}

/// The heap grows and existing records keep everything but their counters.
pub open spec fn heap_grows_meta(a: Seq<ObjectRecord>, b: Seq<ObjectRecord>) -> bool {
    &&& a.len() <= b.len()
    &&& forall|i: int| 0 <= i < a.len() ==> rec_meta_eq(a[i], #[trigger] b[i])
}

/// Inspect a reply object's runtime class and construct the matching local
/// variant over a shared handle.  The owner's registration is handed to the
/// new proxy; an unrecognized class is a fatal dispatch miss, and the
/// registration is released on that path so nothing leaks.
pub fn dispatch_value(rt: &mut ForeignRuntime, owned: OwnedKotlinPtr) -> (r: Result<
    KsonValue,
    ContractViolation,
>)
    requires
        old(rt).wf(),
        0 <= owned.id() < old(rt).records@.len(),
    ensures
        final(rt).wf(),
        final(rt).replies@ == old(rt).replies@,
        final(rt).calls@ == old(rt).calls@,
        final(rt).classes@ == old(rt).classes@,
        final(rt).pending_fault == old(rt).pending_fault,
        match r {
            Ok(v) => {
                &&& class_declared(old(rt).records@, owned.id())
                &&& value_matches(*final(rt), v, owned.id())
                &&& value_handle(v).cell_id() == old(rt).cells@.len()
                &&& final(rt).records@ == old(rt).records@
                &&& final(rt).cells@ == old(rt).cells@.push(
                    ShareCell { record: owned.record_spec(), count: 1, disposed: false },
                )
            },
            Err(e) => {
                &&& e is DispatchMiss
                &&& !class_declared(old(rt).records@, owned.id())
                &&& final(rt).cells@ == old(rt).cells@
                &&& crate::runtime::records_unchanged_except(
                    old(rt).records@,
                    final(rt).records@,
                    owned.id(),
                )
                &&& rec_meta_eq(old(rt).records@[owned.id()], final(rt).records@[owned.id()])
                &&& final(rt).records@[owned.id()].releases == crate::runtime::bump(
                    old(rt).records@[owned.id()].releases,
                )
            },
        },
{
    let h: usize = owned.record_id();
    let tag_or = dispatch_value_class(rt.records[h].class_name.as_str());
    match tag_or {
        Ok(tag) => {
            let ptr = KsonPtr::share(owned, rt);
            let v = match tag {
                KsonValueType::Object => KsonValue::KsonObject(KsonObject { ptr }),
                KsonValueType::Array => KsonValue::KsonArray(KsonArray { ptr }),
                KsonValueType::Str => KsonValue::KsonString(KsonString { ptr }),
                KsonValueType::Integer => KsonValue::KsonNumber(
                    KsonNumber::Integer(KsonInteger { ptr }),
                ),
                KsonValueType::Decimal => KsonValue::KsonNumber(
                    KsonNumber::Decimal(KsonDecimal { ptr }),
                ),
                KsonValueType::Boolean => KsonValue::KsonBoolean(KsonBoolean { ptr }),
                KsonValueType::Null => KsonValue::KsonNull(KsonNull { ptr }),
                KsonValueType::Embed => KsonValue::KsonEmbed(KsonEmbed { ptr }),
            };
            Ok(v)
        },
        Err(_) => {
            owned.dispose(rt);
            Err(ContractViolation::DispatchMiss)
        },
    }
}

impl KsonValue {
    /// The concrete subtype this proxy instantiates.  Dispatch settled it
    /// when the proxy was built, so no foreign call is needed.
    pub fn type_(&self) -> (r: KsonValueType)
        ensures
            r == value_variant(*self),
    {
        match self {
            KsonValue::KsonObject(_) => KsonValueType::Object,
            KsonValue::KsonArray(_) => KsonValueType::Array,
            KsonValue::KsonString(_) => KsonValueType::Str,
            KsonValue::KsonNumber(KsonNumber::Integer(_)) => KsonValueType::Integer,
            KsonValue::KsonNumber(KsonNumber::Decimal(_)) => KsonValueType::Decimal,
            KsonValue::KsonBoolean(_) => KsonValueType::Boolean,
            KsonValue::KsonNull(_) => KsonValueType::Null,
            KsonValue::KsonEmbed(_) => KsonValueType::Embed,
        }
    }

    /// The simple name of the foreign subtype this proxy instantiates.
    pub fn name(&self) -> (r: String)
        ensures
            r@ == value_variant(*self).spec_name(),
    {
        self.type_().name()
    }

    /// The shared handle behind this proxy, whichever variant it is.
    pub fn ptr(&self) -> (r: &KsonPtr)
        ensures
            *r == value_handle(*self),
    {
        match self {
            KsonValue::KsonObject(o) => &o.ptr,
            KsonValue::KsonArray(a) => &a.ptr,
            KsonValue::KsonString(s) => &s.ptr,
            KsonValue::KsonNumber(KsonNumber::Integer(i)) => &i.ptr,
            KsonValue::KsonNumber(KsonNumber::Decimal(d)) => &d.ptr,
            KsonValue::KsonBoolean(b) => &b.ptr,
            KsonValue::KsonNull(n) => &n.ptr,
            KsonValue::KsonEmbed(e) => &e.ptr,
        }
    }

    /// Duplicate this proxy: the sanctioned way, through the shared count.
    pub fn clone_ref(&self, rt: &mut ForeignRuntime) -> (r: KsonValue)
        requires
            old(rt).wf(),
            value_handle(*self).live(*old(rt)),
            old(rt).cells@[value_handle(*self).cell_id()].count < u64::MAX,
        ensures
            final(rt).wf(),
            value_handle(r) == value_handle(*self),
            value_variant(r) == value_variant(*self),
            cell_state(*final(rt), value_handle(*self).cell_id()) == share_step(
                cell_state(*old(rt), value_handle(*self).cell_id()),
                ShareOp::Dup,
            ),
            cells_unchanged_except(old(rt).cells@, final(rt).cells@, value_handle(*self).cell_id()),
            final(rt).cells@[value_handle(*self).cell_id()].record
                == old(rt).cells@[value_handle(*self).cell_id()].record,
            final(rt).records@ == old(rt).records@,
            final(rt).replies@ == old(rt).replies@,
            final(rt).calls@ == old(rt).calls@,
            final(rt).classes@ == old(rt).classes@,
            final(rt).pending_fault == old(rt).pending_fault,
    {
        match self {
            KsonValue::KsonObject(o) => KsonValue::KsonObject(
                KsonObject { ptr: o.ptr.clone_ref(rt) },
            ),
            KsonValue::KsonArray(a) => KsonValue::KsonArray(KsonArray { ptr: a.ptr.clone_ref(rt) }),
            KsonValue::KsonString(s) => KsonValue::KsonString(
                KsonString { ptr: s.ptr.clone_ref(rt) },
            ),
            KsonValue::KsonNumber(KsonNumber::Integer(i)) => KsonValue::KsonNumber(
                KsonNumber::Integer(KsonInteger { ptr: i.ptr.clone_ref(rt) }),
            ),
            KsonValue::KsonNumber(KsonNumber::Decimal(d)) => KsonValue::KsonNumber(
                KsonNumber::Decimal(KsonDecimal { ptr: d.ptr.clone_ref(rt) }),
            ),
            KsonValue::KsonBoolean(b) => KsonValue::KsonBoolean(
                KsonBoolean { ptr: b.ptr.clone_ref(rt) },
            ),
            KsonValue::KsonNull(n) => KsonValue::KsonNull(KsonNull { ptr: n.ptr.clone_ref(rt) }),
            KsonValue::KsonEmbed(e) => KsonValue::KsonEmbed(KsonEmbed { ptr: e.ptr.clone_ref(rt) }),
        }
    }

    /// Drop this proxy's reference; the last reference releases the
    /// registration.
    pub fn drop_ref(self, rt: &mut ForeignRuntime)
        requires
            old(rt).wf(),
            value_handle(self).live(*old(rt)),
        ensures
            final(rt).wf(),
            cell_state(*final(rt), value_handle(self).cell_id()) == share_step(
                cell_state(*old(rt), value_handle(self).cell_id()),
                ShareOp::Release,
            ),
            cells_unchanged_except(old(rt).cells@, final(rt).cells@, value_handle(self).cell_id()),
            heap_grows_meta(old(rt).records@, final(rt).records@),
            final(rt).records@.len() == old(rt).records@.len(),
            final(rt).replies@ == old(rt).replies@,
            final(rt).calls@ == old(rt).calls@,
            final(rt).classes@ == old(rt).classes@,
            final(rt).pending_fault == old(rt).pending_fault,
    {
        match self {
            KsonValue::KsonObject(o) => o.ptr.drop_ref(rt),
            KsonValue::KsonArray(a) => a.ptr.drop_ref(rt),
            KsonValue::KsonString(s) => s.ptr.drop_ref(rt),
            KsonValue::KsonNumber(KsonNumber::Integer(i)) => i.ptr.drop_ref(rt),
            KsonValue::KsonNumber(KsonNumber::Decimal(d)) => d.ptr.drop_ref(rt),
            KsonValue::KsonBoolean(b) => b.ptr.drop_ref(rt),
            KsonValue::KsonNull(n) => n.ptr.drop_ref(rt),
            KsonValue::KsonEmbed(e) => e.ptr.drop_ref(rt),
        }
    }
}

/// Drain a foreign list object through the iterator protocol: obtain an
/// iterator handle, take elements until the end sentinel, and release the
/// iterator handle once draining completes (the contract shows it balanced:
/// as many releases as registrations).  Returns the element handles in
/// order; tolerates the empty list.
pub fn drain_list(rt: &mut ForeignRuntime, list_h: usize) -> (r: Result<
    Vec<usize>,
    ContractViolation,
>)
    requires
        old(rt).wf(),
        (list_h as int) < old(rt).records@.len(),
    ensures
        final(rt).wf(),
        final(rt).cells@ == old(rt).cells@,
        final(rt).replies@ == old(rt).replies@,
        final(rt).calls@ == old(rt).calls@,
        final(rt).classes@ == old(rt).classes@,
        final(rt).pending_fault == old(rt).pending_fault,
        match r {
            Ok(ids) => {
                &&& old(rt).records@[list_h as int].payload matches Payload::ListObj(es) && ids@
                    == es@
                &&& final(rt).records@.len() == old(rt).records@.len() + 1
                &&& forall|i: int|
                    0 <= i < old(rt).records@.len() ==> old(rt).records@[i]
                        == #[trigger] final(rt).records@[i]
                &&& final(rt).records@[old(rt).records@.len() as int].roots
                    == final(rt).records@[old(rt).records@.len() as int].releases
            },
            Err(e) => {
                &&& e is MalformedReply
                &&& !(old(rt).records@[list_h as int].payload is ListObj)
                &&& final(rt).records@ == old(rt).records@
            },
        },
{
    let n: usize = match &rt.records[list_h].payload {
        Payload::ListObj(es) => es.len(),
        _ => {
            return Err(ContractViolation::MalformedReply);
        },
    };
    let iter_rec = ObjectRecord {
        class_name: String::new(),
        type_token: 0,
        ordinal: 0,
        value_id: 0,
        display: Vec::new(),
        payload: Payload::IterObj { target: list_h, cursor: 0 },
        roots: 1,
        releases: 0,
    };
    let iter_h: usize = rt.alloc_record(iter_rec);
    let iter_owned = OwnedKotlinPtr::from_raw(iter_h);
    let ghost heap0 = rt.records@;
    let mut ids: Vec<usize> = Vec::new();
    let mut i: usize = 0;
    while i < n
        invariant
            rt.wf(),
            rt.records@.len() == heap0.len(),
            (list_h as int) < heap0.len() - 1,
            (iter_h as int) == heap0.len() - 1,
            i <= n,
            forall|k: int| 0 <= k < heap0.len() - 1 ==> heap0[k] == #[trigger] rt.records@[k],
            rt.records@[list_h as int].payload matches Payload::ListObj(es) && es@.len() == n
                && ids@ == es@.take(i as int),
            rt.records@[iter_h as int].payload == (Payload::IterObj {
                target: list_h,
                cursor: i,
            }),
            rt.records@[iter_h as int].roots == 1,
            rt.records@[iter_h as int].releases == 0,
            rt.cells@ == old(rt).cells@,
            rt.replies@ == old(rt).replies@,
            rt.calls@ == old(rt).calls@,
            rt.classes@ == old(rt).classes@,
            rt.pending_fault == old(rt).pending_fault,
        decreases n - i,
    {
        let elem: usize = match &rt.records[list_h].payload {
            Payload::ListObj(es) => es[i],
            _ => {
                return Err(ContractViolation::MalformedReply);
            },
        };
        ids.push(elem);
        let iter = &mut rt.records[iter_h];
        iter.payload = Payload::IterObj { target: list_h, cursor: i + 1 };
        i = i + 1;
        proof {
            let es = rt.records@[list_h as int].payload->ListObj_0;
            assert(ids@ =~= es@.take(i as int));
        }
    }
    proof {
        let es = rt.records@[list_h as int].payload->ListObj_0;
        assert(ids@ =~= es@);
    }
    iter_owned.dispose(rt);
    Ok(ids)
}

/// Drain a foreign key/value object through its entry iterator, like
/// [`drain_list`].  Returns the key and value handles of each entry in
/// order; tolerates the empty map.
pub fn drain_map(rt: &mut ForeignRuntime, map_h: usize) -> (r: Result<
    Vec<(usize, usize)>,
    ContractViolation,
>)
    requires
        old(rt).wf(),
        (map_h as int) < old(rt).records@.len(),
    ensures
        final(rt).wf(),
        final(rt).cells@ == old(rt).cells@,
        final(rt).replies@ == old(rt).replies@,
        final(rt).calls@ == old(rt).calls@,
        final(rt).classes@ == old(rt).classes@,
        final(rt).pending_fault == old(rt).pending_fault,
        match r {
            Ok(entries) => {
                &&& old(rt).records@[map_h as int].payload matches Payload::MapObj(es) && entries@
                    == es@
                &&& final(rt).records@.len() == old(rt).records@.len() + 1
                &&& forall|i: int|
                    0 <= i < old(rt).records@.len() ==> old(rt).records@[i]
                        == #[trigger] final(rt).records@[i]
                &&& final(rt).records@[old(rt).records@.len() as int].roots
                    == final(rt).records@[old(rt).records@.len() as int].releases
            },
            Err(e) => {
                &&& e is MalformedReply
                &&& !(old(rt).records@[map_h as int].payload is MapObj)
                &&& final(rt).records@ == old(rt).records@
            },
        },
{
    let n: usize = match &rt.records[map_h].payload {
        Payload::MapObj(es) => es.len(),
        _ => {
            return Err(ContractViolation::MalformedReply);
        },
    };
    let iter_rec = ObjectRecord {
        class_name: String::new(),
        type_token: 0,
        ordinal: 0,
        value_id: 0,
        display: Vec::new(),
        payload: Payload::IterObj { target: map_h, cursor: 0 },
        roots: 1,
        releases: 0,
    };
    let iter_h: usize = rt.alloc_record(iter_rec);
    let iter_owned = OwnedKotlinPtr::from_raw(iter_h);
    let ghost heap0 = rt.records@;
    let mut entries: Vec<(usize, usize)> = Vec::new();
    let mut i: usize = 0;
    while i < n
        invariant
            rt.wf(),
            rt.records@.len() == heap0.len(),
            (map_h as int) < heap0.len() - 1,
            (iter_h as int) == heap0.len() - 1,
            i <= n,
            forall|k: int| 0 <= k < heap0.len() - 1 ==> heap0[k] == #[trigger] rt.records@[k],
            rt.records@[map_h as int].payload matches Payload::MapObj(es) && es@.len() == n
                && entries@ == es@.take(i as int),
            rt.records@[iter_h as int].payload == (Payload::IterObj { target: map_h, cursor: i }),
            rt.records@[iter_h as int].roots == 1,
            rt.records@[iter_h as int].releases == 0,
            rt.cells@ == old(rt).cells@,
            rt.replies@ == old(rt).replies@,
            rt.calls@ == old(rt).calls@,
            rt.classes@ == old(rt).classes@,
            rt.pending_fault == old(rt).pending_fault,
        decreases n - i,
    {
        let entry: (usize, usize) = match &rt.records[map_h].payload {
            Payload::MapObj(es) => es[i],
            _ => {
                return Err(ContractViolation::MalformedReply);
            },
        };
        entries.push(entry);
        let iter = &mut rt.records[iter_h];
        iter.payload = Payload::IterObj { target: map_h, cursor: i + 1 };
        i = i + 1;
        proof {
            let es = rt.records@[map_h as int].payload->MapObj_0;
            assert(entries@ =~= es@.take(i as int));
        }
    }
    proof {
        let es = rt.records@[map_h as int].payload->MapObj_0;
        assert(entries@ =~= es@);
    }
    iter_owned.dispose(rt);
    Ok(entries)
}


/// The record is a string node whose text reference is a foreign string.
pub open spec fn str_value_ok(recs: Seq<ObjectRecord>, rec: int) -> bool {
    recs[rec].payload matches Payload::StrVal { text, .. } && recs[text as int].payload is Text
}

/// The host text a string node carries.
pub open spec fn str_value_chars(recs: Seq<ObjectRecord>, rec: int) -> Seq<char> {
    match recs[rec].payload {
        Payload::StrVal { text, .. } => chars_at(recs, text as int),
        _ => Seq::empty(),
    }
}

/// The record is an integer node.
pub open spec fn int_value_ok(recs: Seq<ObjectRecord>, rec: int) -> bool {
    recs[rec].payload is IntVal
}

/// The value an integer node carries.
pub open spec fn int_value(recs: Seq<ObjectRecord>, rec: int) -> i64 {
    match recs[rec].payload {
        Payload::IntVal { value, .. } => value,
        _ => 0,
    }
}

/// The record is a decimal node whose text reference is a foreign string.
pub open spec fn dec_value_ok(recs: Seq<ObjectRecord>, rec: int) -> bool {
    recs[rec].payload matches Payload::DecVal { text, .. } && recs[text as int].payload is Text
}

/// The source text a decimal node carries.
pub open spec fn dec_value_chars(recs: Seq<ObjectRecord>, rec: int) -> Seq<char> {
    match recs[rec].payload {
        Payload::DecVal { text, .. } => chars_at(recs, text as int),
        _ => Seq::empty(),
    }
}

/// The record is a boolean node.
pub open spec fn bool_value_ok(recs: Seq<ObjectRecord>, rec: int) -> bool {
    recs[rec].payload is BoolVal
}

/// The value a boolean node carries.
pub open spec fn bool_value(recs: Seq<ObjectRecord>, rec: int) -> bool {
    match recs[rec].payload {
        Payload::BoolVal { value, .. } => value,
        _ => false,
    }
}

/// The record is an embed node whose tag, when present, is a foreign
/// string.
pub open spec fn embed_tag_ok(recs: Seq<ObjectRecord>, rec: int) -> bool {
    recs[rec].payload matches Payload::EmbedVal { tag, .. } && (tag matches Some(t)
        ==> recs[t as int].payload is Text)
}

/// The tag an embed node carries, if any.
pub open spec fn embed_tag_chars(recs: Seq<ObjectRecord>, rec: int) -> Option<Seq<char>> {
    match recs[rec].payload {
        Payload::EmbedVal { tag, .. } => match tag {
            Some(t) => Some(chars_at(recs, t as int)),
            None => None,
        },
        _ => None,
    }
}

/// The record is an embed node whose content is a foreign string.
pub open spec fn embed_content_ok(recs: Seq<ObjectRecord>, rec: int) -> bool {
    recs[rec].payload matches Payload::EmbedVal { content, .. } && recs[content as int].payload
        is Text
}

/// The content an embed node carries.
pub open spec fn embed_content_chars(recs: Seq<ObjectRecord>, rec: int) -> Seq<char> {
    match recs[rec].payload {
        Payload::EmbedVal { content, .. } => chars_at(recs, content as int),
        _ => Seq::empty(),
    }
}

/// The start-position reference of a value node, by payload shape.
pub open spec fn node_start_ref(p: Payload) -> Option<usize> {
    match p {
        Payload::StrVal { start, .. } => Some(start),
        Payload::IntVal { start, .. } => Some(start),
        Payload::DecVal { start, .. } => Some(start),
        Payload::BoolVal { start, .. } => Some(start),
        Payload::NullVal { start, .. } => Some(start),
        Payload::ArrVal { start, .. } => Some(start),
        Payload::ObjVal { start, .. } => Some(start),
        Payload::EmbedVal { start, .. } => Some(start),
        _ => None,
    }
}

/// The end-position reference of a value node, by payload shape.
pub open spec fn node_end_ref(p: Payload) -> Option<usize> {
    match p {
        Payload::StrVal { end, .. } => Some(end),
        Payload::IntVal { end, .. } => Some(end),
        Payload::DecVal { end, .. } => Some(end),
        Payload::BoolVal { end, .. } => Some(end),
        Payload::NullVal { end, .. } => Some(end),
        Payload::ArrVal { end, .. } => Some(end),
        Payload::ObjVal { end, .. } => Some(end),
        Payload::EmbedVal { end, .. } => Some(end),
        _ => None,
    }
}

/// The record is a value node with a well-shaped start position.
pub open spec fn start_ok(recs: Seq<ObjectRecord>, rec: int) -> bool {
    node_start_ref(recs[rec].payload) matches Some(s) && recs[s as int].payload is Pos
}

/// The record is a value node with a well-shaped end position.
pub open spec fn end_ok(recs: Seq<ObjectRecord>, rec: int) -> bool {
    node_end_ref(recs[rec].payload) matches Some(e) && recs[e as int].payload is Pos
}

/// Where a value node starts.
pub open spec fn node_start_pos(recs: Seq<ObjectRecord>, rec: int) -> Position {
    match node_start_ref(recs[rec].payload) {
        Some(s) => pos_at(recs, s as int),
        None => Position { line: 0, column: 0 },
    }
}

/// Where a value node ends.
pub open spec fn node_end_pos(recs: Seq<ObjectRecord>, rec: int) -> Position {
    match node_end_ref(recs[rec].payload) {
        Some(e) => pos_at(recs, e as int),
        None => Position { line: 0, column: 0 },
    }
}

/// What reading a node's start position gives: the position for a
/// well-shaped node, and a fatal malformed-reply condition exactly
/// otherwise.
pub open spec fn start_result(
    recs: Seq<ObjectRecord>,
    rec: int,
    r: Result<Position, ContractViolation>,
) -> bool {
    match r {
        Ok(p) => start_ok(recs, rec) && p == node_start_pos(recs, rec),
        Err(e) => e is MalformedReply && !start_ok(recs, rec),
    }
}

/// What reading a node's end position gives.
pub open spec fn end_result(
    recs: Seq<ObjectRecord>,
    rec: int,
    r: Result<Position, ContractViolation>,
) -> bool {
    match r {
        Ok(p) => end_ok(recs, rec) && p == node_end_pos(recs, rec),
        Err(e) => e is MalformedReply && !end_ok(recs, rec),
    }
}

/// Read the start position of a value node.
fn node_start(rt: &ForeignRuntime, rec: usize) -> (r: Result<Position, ContractViolation>)
    requires
        rt.wf(),
        (rec as int) < rt.records@.len(),
    ensures
        start_result(rt.records@, rec as int, r),
{
    let s: usize = match &rt.records[rec].payload {
        Payload::StrVal { start, .. } => *start,
        Payload::IntVal { start, .. } => *start,
        Payload::DecVal { start, .. } => *start,
        Payload::BoolVal { start, .. } => *start,
        Payload::NullVal { start, .. } => *start,
        Payload::ArrVal { start, .. } => *start,
        Payload::ObjVal { start, .. } => *start,
        Payload::EmbedVal { start, .. } => *start,
        _ => {
            return Err(ContractViolation::MalformedReply);
        },
    };
    proof {
        assert(crate::runtime::payload_refs_ok(rt.records@[rec as int].payload, rec as int));
    }
    position_from_handle(rt, s)
}

/// Read the end position of a value node.
fn node_end(rt: &ForeignRuntime, rec: usize) -> (r: Result<Position, ContractViolation>)
    requires
        rt.wf(),
        (rec as int) < rt.records@.len(),
    ensures
        end_result(rt.records@, rec as int, r),
{
    let e: usize = match &rt.records[rec].payload {
        Payload::StrVal { end, .. } => *end,
        Payload::IntVal { end, .. } => *end,
        Payload::DecVal { end, .. } => *end,
        Payload::BoolVal { end, .. } => *end,
        Payload::NullVal { end, .. } => *end,
        Payload::ArrVal { end, .. } => *end,
        Payload::ObjVal { end, .. } => *end,
        Payload::EmbedVal { end, .. } => *end,
        _ => {
            return Err(ContractViolation::MalformedReply);
        },
    };
    proof {
        assert(crate::runtime::payload_refs_ok(rt.records@[rec as int].payload, rec as int));
    }
    position_from_handle(rt, e)
}

impl KsonString {
    /// The text this string node carries, transcoded to host text.
    pub fn value(&self, rt: &ForeignRuntime) -> (r: Result<String, ContractViolation>)
        requires
            rt.wf(),
            self.handle().live(*rt),
        ensures
            ({
                let rec = self.handle().spec_record(*rt);
                match r {
                    Ok(s) => str_value_ok(rt.records@, rec) && s@ == str_value_chars(
                        rt.records@,
                        rec,
                    ),
                    Err(e) => e is MalformedReply && !str_value_ok(rt.records@, rec),
                }
            }),
    {
        let rec: usize = self.ptr.record_id(rt);
        match &rt.records[rec].payload {
            Payload::StrVal { text, .. } => {
                let text_h: usize = *text;
                proof {
                    assert(crate::runtime::payload_refs_ok(
                        rt.records@[rec as int].payload,
                        rec as int,
                    ));
                }
                match &rt.records[text_h].payload {
                    Payload::Text(u) => Ok(crate::text::str_of_utf16(u)),
                    _ => Err(ContractViolation::MalformedReply),
                }
            },
            _ => Err(ContractViolation::MalformedReply),
        }
    }

    /// Where this node starts.
    pub fn start(&self, rt: &ForeignRuntime) -> (r: Result<Position, ContractViolation>)
        requires
            rt.wf(),
            self.handle().live(*rt),
        ensures
            start_result(rt.records@, self.handle().spec_record(*rt), r),
    {
        node_start(rt, self.ptr.record_id(rt))
    }

    /// Where this node ends.
    pub fn end(&self, rt: &ForeignRuntime) -> (r: Result<Position, ContractViolation>)
        requires
            rt.wf(),
            self.handle().live(*rt),
        ensures
            end_result(rt.records@, self.handle().spec_record(*rt), r),
    {
        node_end(rt, self.ptr.record_id(rt))
    }

    /// The concrete subtype of this node.
    pub fn type_(&self) -> (r: KsonValueType)
        ensures
            r == KsonValueType::Str,
    {
        KsonValueType::Str
    }
}

impl KsonInteger {
    /// The value this integer node carries.
    pub fn value(&self, rt: &ForeignRuntime) -> (r: Result<i64, ContractViolation>)
        requires
            rt.wf(),
            self.handle().live(*rt),
        ensures
            ({
                let rec = self.handle().spec_record(*rt);
                match r {
                    Ok(v) => int_value_ok(rt.records@, rec) && v == int_value(rt.records@, rec),
                    Err(e) => e is MalformedReply && !int_value_ok(rt.records@, rec),
                }
            }),
    {
        let rec: usize = self.ptr.record_id(rt);
        match &rt.records[rec].payload {
            Payload::IntVal { value, .. } => Ok(*value),
            _ => Err(ContractViolation::MalformedReply),
        }
    }

    /// Where this node starts.
    pub fn start(&self, rt: &ForeignRuntime) -> (r: Result<Position, ContractViolation>)
        requires
            rt.wf(),
            self.handle().live(*rt),
        ensures
            start_result(rt.records@, self.handle().spec_record(*rt), r),
    {
        node_start(rt, self.ptr.record_id(rt))
    }

    /// Where this node ends.
    pub fn end(&self, rt: &ForeignRuntime) -> (r: Result<Position, ContractViolation>)
        requires
            rt.wf(),
            self.handle().live(*rt),
        ensures
            end_result(rt.records@, self.handle().spec_record(*rt), r),
    {
        node_end(rt, self.ptr.record_id(rt))
    }

    /// The concrete subtype of this node.
    pub fn type_(&self) -> (r: KsonValueType)
        ensures
            r == KsonValueType::Integer,
    {
        KsonValueType::Integer
    }
}

impl KsonDecimal {
    /// The source text of this decimal node: the numeric payload crosses
    /// the boundary as text and is never a host float.
    pub fn value(&self, rt: &ForeignRuntime) -> (r: Result<String, ContractViolation>)
        requires
            rt.wf(),
            self.handle().live(*rt),
        ensures
            ({
                let rec = self.handle().spec_record(*rt);
                match r {
                    Ok(s) => dec_value_ok(rt.records@, rec) && s@ == dec_value_chars(
                        rt.records@,
                        rec,
                    ),
                    Err(e) => e is MalformedReply && !dec_value_ok(rt.records@, rec),
                }
            }),
    {
        let rec: usize = self.ptr.record_id(rt);
        match &rt.records[rec].payload {
            Payload::DecVal { text, .. } => {
                let text_h: usize = *text;
                proof {
                    assert(crate::runtime::payload_refs_ok(
                        rt.records@[rec as int].payload,
                        rec as int,
                    ));
                }
                match &rt.records[text_h].payload {
                    Payload::Text(u) => Ok(crate::text::str_of_utf16(u)),
                    _ => Err(ContractViolation::MalformedReply),
                }
            },
            _ => Err(ContractViolation::MalformedReply),
        }
    }

    /// Where this node starts.
    pub fn start(&self, rt: &ForeignRuntime) -> (r: Result<Position, ContractViolation>)
        requires
            rt.wf(),
            self.handle().live(*rt),
        ensures
            start_result(rt.records@, self.handle().spec_record(*rt), r),
    {
        node_start(rt, self.ptr.record_id(rt))
    }

    /// Where this node ends.
    pub fn end(&self, rt: &ForeignRuntime) -> (r: Result<Position, ContractViolation>)
        requires
            rt.wf(),
            self.handle().live(*rt),
        ensures
            end_result(rt.records@, self.handle().spec_record(*rt), r),
    {
        node_end(rt, self.ptr.record_id(rt))
    }

    /// The concrete subtype of this node.
    pub fn type_(&self) -> (r: KsonValueType)
        ensures
            r == KsonValueType::Decimal,
    {
        KsonValueType::Decimal
    }
}

impl KsonBoolean {
    /// The value this boolean node carries.
    pub fn value(&self, rt: &ForeignRuntime) -> (r: Result<bool, ContractViolation>)
        requires
            rt.wf(),
            self.handle().live(*rt),
        ensures
            ({
                let rec = self.handle().spec_record(*rt);
                match r {
                    Ok(v) => bool_value_ok(rt.records@, rec) && v == bool_value(rt.records@, rec),
                    Err(e) => e is MalformedReply && !bool_value_ok(rt.records@, rec),
                }
            }),
    {
        let rec: usize = self.ptr.record_id(rt);
        match &rt.records[rec].payload {
            Payload::BoolVal { value, .. } => Ok(*value),
            _ => Err(ContractViolation::MalformedReply),
        }
    }

    /// Where this node starts.
    pub fn start(&self, rt: &ForeignRuntime) -> (r: Result<Position, ContractViolation>)
        requires
            rt.wf(),
            self.handle().live(*rt),
        ensures
            start_result(rt.records@, self.handle().spec_record(*rt), r),
    {
        node_start(rt, self.ptr.record_id(rt))
    }

    /// Where this node ends.
    pub fn end(&self, rt: &ForeignRuntime) -> (r: Result<Position, ContractViolation>)
        requires
            rt.wf(),
            self.handle().live(*rt),
        ensures
            end_result(rt.records@, self.handle().spec_record(*rt), r),
    {
        node_end(rt, self.ptr.record_id(rt))
    }

    /// The concrete subtype of this node.
    pub fn type_(&self) -> (r: KsonValueType)
        ensures
            r == KsonValueType::Boolean,
    {
        KsonValueType::Boolean
    }
}

impl KsonNull {
    /// Where this node starts.
    pub fn start(&self, rt: &ForeignRuntime) -> (r: Result<Position, ContractViolation>)
        requires
            rt.wf(),
            self.handle().live(*rt),
        ensures
            start_result(rt.records@, self.handle().spec_record(*rt), r),
    {
        node_start(rt, self.ptr.record_id(rt))
    }

    /// Where this node ends.
    pub fn end(&self, rt: &ForeignRuntime) -> (r: Result<Position, ContractViolation>)
        requires
            rt.wf(),
            self.handle().live(*rt),
        ensures
            end_result(rt.records@, self.handle().spec_record(*rt), r),
    {
        node_end(rt, self.ptr.record_id(rt))
    }

    /// The concrete subtype of this node.
    pub fn type_(&self) -> (r: KsonValueType)
        ensures
            r == KsonValueType::Null,
    {
        KsonValueType::Null
    }
}

impl KsonEmbed {
    /// The tag this embed node carries, if any.
    pub fn tag(&self, rt: &ForeignRuntime) -> (r: Result<Option<String>, ContractViolation>)
        requires
            rt.wf(),
            self.handle().live(*rt),
        ensures
            ({
                let rec = self.handle().spec_record(*rt);
                match r {
                    Ok(t) => embed_tag_ok(rt.records@, rec) && match t {
                        Some(s) => embed_tag_chars(rt.records@, rec) == Some(s@),
                        None => embed_tag_chars(rt.records@, rec) is None,
                    },
                    Err(e) => e is MalformedReply && !embed_tag_ok(rt.records@, rec),
                }
            }),
    {
        let rec: usize = self.ptr.record_id(rt);
        match &rt.records[rec].payload {
            Payload::EmbedVal { tag, .. } => match tag {
                Some(t) => {
                    let t_h: usize = *t;
                    proof {
                        assert(crate::runtime::payload_refs_ok(
                            rt.records@[rec as int].payload,
                            rec as int,
                        ));
                    }
                    match &rt.records[t_h].payload {
                        Payload::Text(u) => Ok(Some(crate::text::str_of_utf16(u))),
                        _ => Err(ContractViolation::MalformedReply),
                    }
                },
                None => Ok(None),
            },
            _ => Err(ContractViolation::MalformedReply),
        }
    }

    /// The content this embed node carries.
    pub fn content(&self, rt: &ForeignRuntime) -> (r: Result<String, ContractViolation>)
        requires
            rt.wf(),
            self.handle().live(*rt),
        ensures
            ({
                let rec = self.handle().spec_record(*rt);
                match r {
                    Ok(s) => embed_content_ok(rt.records@, rec) && s@ == embed_content_chars(
                        rt.records@,
                        rec,
                    ),
                    Err(e) => e is MalformedReply && !embed_content_ok(rt.records@, rec),
                }
            }),
    {
        let rec: usize = self.ptr.record_id(rt);
        match &rt.records[rec].payload {
            Payload::EmbedVal { content, .. } => {
                let c_h: usize = *content;
                proof {
                    assert(crate::runtime::payload_refs_ok(
                        rt.records@[rec as int].payload,
                        rec as int,
                    ));
                }
                match &rt.records[c_h].payload {
                    Payload::Text(u) => Ok(crate::text::str_of_utf16(u)),
                    _ => Err(ContractViolation::MalformedReply),
                }
            },
            _ => Err(ContractViolation::MalformedReply),
        }
    }

    /// Where this node starts.
    pub fn start(&self, rt: &ForeignRuntime) -> (r: Result<Position, ContractViolation>)
        requires
            rt.wf(),
            self.handle().live(*rt),
        ensures
            start_result(rt.records@, self.handle().spec_record(*rt), r),
    {
        node_start(rt, self.ptr.record_id(rt))
    }

    /// Where this node ends.
    pub fn end(&self, rt: &ForeignRuntime) -> (r: Result<Position, ContractViolation>)
        requires
            rt.wf(),
            self.handle().live(*rt),
        ensures
            end_result(rt.records@, self.handle().spec_record(*rt), r),
    {
        node_end(rt, self.ptr.record_id(rt))
    }

    /// The concrete subtype of this node.
    pub fn type_(&self) -> (r: KsonValueType)
        ensures
            r == KsonValueType::Embed,
    {
        KsonValueType::Embed
    }
}

impl KsonValue {
    /// Where this node starts.
    pub fn start(&self, rt: &ForeignRuntime) -> (r: Result<Position, ContractViolation>)
        requires
            rt.wf(),
            value_handle(*self).live(*rt),
        ensures
            start_result(rt.records@, value_handle(*self).spec_record(*rt), r),
    {
        node_start(rt, self.ptr().record_id(rt))
    }

    /// Where this node ends.
    pub fn end(&self, rt: &ForeignRuntime) -> (r: Result<Position, ContractViolation>)
        requires
            rt.wf(),
            value_handle(*self).live(*rt),
        ensures
            end_result(rt.records@, value_handle(*self).spec_record(*rt), r),
    {
        node_end(rt, self.ptr().record_id(rt))
    }
}



/// The record is an array node whose elements reference is a foreign list.
pub open spec fn array_ok(recs: Seq<ObjectRecord>, rec: int) -> bool {
    recs[rec].payload matches Payload::ArrVal { elements, .. } && recs[elements as int].payload
        is ListObj
}

/// The element handles of an array node.
pub open spec fn array_elems(recs: Seq<ObjectRecord>, rec: int) -> Seq<usize> {
    match recs[rec].payload {
        Payload::ArrVal { elements, .. } => match recs[elements as int].payload {
            Payload::ListObj(es) => es@,
            _ => Seq::empty(),
        },
        _ => Seq::empty(),
    }
}

/// Every handle of the sequence refers to an object of a declared value
/// class.
pub open spec fn all_declared(recs: Seq<ObjectRecord>, es: Seq<usize>) -> bool {
    forall|i: int| 0 <= i < es.len() ==> class_declared(recs, #[trigger] es[i] as int)
}

/// The record is an object node whose properties reference is a foreign
/// key/value collection.
pub open spec fn object_ok(recs: Seq<ObjectRecord>, rec: int) -> bool {
    recs[rec].payload matches Payload::ObjVal { properties, .. } && recs[properties as int].payload
        is MapObj
}

/// The property entries of an object node: key-node and value-node handles.
pub open spec fn object_entries(recs: Seq<ObjectRecord>, rec: int) -> Seq<(usize, usize)> {
    match recs[rec].payload {
        Payload::ObjVal { properties, .. } => match recs[properties as int].payload {
            Payload::MapObj(es) => es@,
            _ => Seq::empty(),
        },
        _ => Seq::empty(),
    }
}

/// The record is an object node whose key index is a foreign key/value
/// collection.
pub open spec fn object_keys_ok(recs: Seq<ObjectRecord>, rec: int) -> bool {
    recs[rec].payload matches Payload::ObjVal { keys, .. } && recs[keys as int].payload is MapObj
}

/// The key-index entries of an object node: name-string and key-node
/// handles.
pub open spec fn object_key_entries(recs: Seq<ObjectRecord>, rec: int) -> Seq<(usize, usize)> {
    match recs[rec].payload {
        Payload::ObjVal { keys, .. } => match recs[keys as int].payload {
            Payload::MapObj(es) => es@,
            _ => Seq::empty(),
        },
        _ => Seq::empty(),
    }
}

/// Every entry of the sequence has a key and a value of declared classes.
pub open spec fn entries_all_declared(recs: Seq<ObjectRecord>, es: Seq<(usize, usize)>) -> bool {
    forall|i: int|
        0 <= i < es.len() ==> class_declared(recs, (#[trigger] es[i]).0 as int) && class_declared(
            recs,
            es[i].1 as int,
        )
}

/// Every entry of the sequence has a value whose class is the string node
/// class.
pub open spec fn entries_all_string(recs: Seq<ObjectRecord>, es: Seq<(usize, usize)>) -> bool {
    forall|i: int|
        0 <= i < es.len() ==> recs[(#[trigger] es[i]).1 as int].class_name@ == value_class_name(
            KsonValueType::Str,
        )
}

/// The proxy is a live string-node reference to the given record.
pub open spec fn string_node_matches(rt: ForeignRuntime, s: KsonString, rec: int) -> bool {
    &&& s.handle().live(rt)
    &&& s.handle().spec_record(rt) == rec
    &&& rt.records@[rec].class_name@ == value_class_name(KsonValueType::Str)
}

/// The key node is a string node carrying exactly the given code units.
pub open spec fn entry_key_is(recs: Seq<ObjectRecord>, k: int, units: Seq<u16>) -> bool {
    recs[k].payload matches Payload::StrVal { text, .. } && recs[text as int].payload matches
        Payload::Text(u) && u@ == units
}

/// The value handle of the first entry whose key node carries the given
/// code units, if any.
pub open spec fn first_value_for_key(
    recs: Seq<ObjectRecord>,
    es: Seq<(usize, usize)>,
    units: Seq<u16>,
) -> Option<usize>
    decreases es.len(),
{
    if es.len() == 0 {
        None
    } else if entry_key_is(recs, es[0].0 as int, units) {
        Some(es[0].1)
    } else {
        first_value_for_key(recs, es.drop_first(), units)
    }
}

/// A proxy built against one runtime state still matches after operations
/// that only grow the heap and the cells and touch no existing cell and no
/// existing record's identity.
pub proof fn lemma_value_matches_stable(
    rt1: ForeignRuntime,
    rt2: ForeignRuntime,
    v: KsonValue,
    rec: int,
)
    requires
        value_matches(rt1, v, rec),
        cells_grow(rt1.cells@, rt2.cells@),
        heap_grows_meta(rt1.records@, rt2.records@),
        0 <= rec < rt1.records@.len(),
    ensures
        value_matches(rt2, v, rec),
{
    let c = value_handle(v).cell_id();
    assert(rt2.cells@[c] == rt1.cells@[c]);
    assert(rec_meta_eq(rt1.records@[rec], rt2.records@[rec]));
}

/// Meta-preserving growth composes.
pub proof fn lemma_heap_grows_meta_trans(
    a: Seq<ObjectRecord>,
    b: Seq<ObjectRecord>,
    c: Seq<ObjectRecord>,
)
    requires
        heap_grows_meta(a, b),
        heap_grows_meta(b, c),
    ensures
        heap_grows_meta(a, c),
{
    assert forall|i: int| 0 <= i < a.len() implies rec_meta_eq(a[i], #[trigger] c[i]) by {
        assert(rec_meta_eq(a[i], b[i]));
        assert(rec_meta_eq(b[i], c[i]));
    }
}

/// A change that touches one record and keeps its identity is
/// meta-preserving growth.
pub proof fn lemma_unchanged_to_grows(a: Seq<ObjectRecord>, b: Seq<ObjectRecord>, h: int)
    requires
        crate::runtime::records_unchanged_except(a, b, h),
        0 <= h < a.len() ==> rec_meta_eq(a[h], b[h]),
    ensures
        heap_grows_meta(a, b),
{
    assert forall|i: int| 0 <= i < a.len() implies rec_meta_eq(a[i], #[trigger] b[i]) by {
        if i != h {
            assert(a[i] == b[i]);
        }
    }
}

/// Prefix preservation of the cells composes.
pub proof fn lemma_cells_grow_trans(a: Seq<ShareCell>, b: Seq<ShareCell>, c: Seq<ShareCell>)
    requires
        cells_grow(a, b),
        cells_grow(b, c),
    ensures
        cells_grow(a, c),
{
    assert forall|i: int| 0 <= i < a.len() implies a[i] == #[trigger] c[i] by {
        assert(a[i] == b[i]);
        assert(b[i] == c[i]);
    }
}

/// Appending a cell preserves the prefix.
pub proof fn lemma_cells_push_grows(a: Seq<ShareCell>, cell: ShareCell)
    ensures
        cells_grow(a, a.push(cell)),
{
}

/// Touching one cell beyond the preserved prefix keeps it preserved.
pub proof fn lemma_cells_grow_after_touch(
    base: Seq<ShareCell>,
    x: Seq<ShareCell>,
    y: Seq<ShareCell>,
    c: int,
)
    requires
        cells_grow(base, x),
        crate::handles::cells_unchanged_except(x, y, c),
        c >= base.len(),
    ensures
        cells_grow(base, y),
{
    assert forall|i: int| 0 <= i < base.len() implies base[i] == #[trigger] y[i] by {
        assert(base[i] == x[i]);
        assert(x[i] == y[i]);
    }
}

/// Compare two foreign string buffers for equality of their code units.
fn units_eq(a: &Vec<u16>, b: &Vec<u16>) -> (r: bool)
    ensures
        r == (a@ == b@),
{
    if a.len() != b.len() {
        return false;
    }
    let mut i: usize = 0;
    while i < a.len()
        invariant
            i <= a@.len(),
            a@.len() == b@.len(),
            forall|j: int| 0 <= j < i ==> a@[j] == #[trigger] b@[j],
        decreases a@.len() - i,
    {
        if a[i] != b[i] {
            return false;
        }
        i = i + 1;
    }
    proof {
        assert(a@ =~= b@);
    }
    true
}

impl KsonArray {
    /// Marshal this array node's elements out: the foreign list is drained
    /// through the iterator protocol and each element is dispatched to its
    /// local variant.  An empty foreign array gives an empty host sequence.
    pub fn elements(&self, rt: &mut ForeignRuntime) -> (r: Result<Vec<KsonValue>, ContractViolation>)
        requires
            old(rt).wf(),
            self.handle().live(*old(rt)),
        ensures
            final(rt).wf(),
            heap_grows_meta(old(rt).records@, final(rt).records@),
            cells_grow(old(rt).cells@, final(rt).cells@),
            final(rt).replies@ == old(rt).replies@,
            final(rt).calls@ == old(rt).calls@,
            final(rt).classes@ == old(rt).classes@,
            final(rt).pending_fault == old(rt).pending_fault,
            ({
                let rec = self.handle().spec_record(*old(rt));
                let recs = old(rt).records@;
                match r {
                    Ok(vs) => {
                        &&& array_ok(recs, rec)
                        &&& all_declared(recs, array_elems(recs, rec))
                        &&& vs@.len() == array_elems(recs, rec).len()
                        &&& forall|i: int|
                            0 <= i < vs@.len() ==> value_matches(
                                *final(rt),
                                #[trigger] vs@[i],
                                array_elems(recs, rec)[i] as int,
                            )
                    },
                    Err(e) => {
                        &&& (e is MalformedReply <==> !array_ok(recs, rec))
                        &&& (e is DispatchMiss <==> array_ok(recs, rec) && !all_declared(
                            recs,
                            array_elems(recs, rec),
                        ))
                        &&& (e is MalformedReply || e is DispatchMiss)
                    },
                }
            }),
    {
        let rec: usize = self.ptr.record_id(rt);
        let list_h: usize = match &rt.records[rec].payload {
            Payload::ArrVal { elements, .. } => *elements,
            _ => {
                return Err(ContractViolation::MalformedReply);
            },
        };
        proof {
            assert(crate::runtime::payload_refs_ok(rt.records@[rec as int].payload, rec as int));
        }
        let ids: Vec<usize> = match drain_list(rt, list_h) {
            Ok(ids) => ids,
            Err(e) => {
                return Err(e);
            },
        };
        let ghost recs0 = old(rt).records@;
        let ghost es = array_elems(recs0, self.handle().spec_record(*old(rt)));
        proof {
            assert(crate::runtime::payload_refs_ok(recs0[list_h as int].payload, list_h as int));
            assert(array_ok(recs0, self.handle().spec_record(*old(rt))));
            assert(ids@ == es);
        }
        let mut vs: Vec<KsonValue> = Vec::new();
        let mut i: usize = 0;
        while i < ids.len()
            invariant
                rt.wf(),
                recs0 == old(rt).records@,
                es == array_elems(recs0, self.handle().spec_record(*old(rt))),
                array_ok(recs0, self.handle().spec_record(*old(rt))),
                all_declared(recs0, es) ==> all_declared(old(rt).records@, es),
                ids@ == es,
                i <= es.len(),
                vs@.len() == i,
                forall|k: int| 0 <= k < es.len() ==> (#[trigger] es[k] as int) < recs0.len(),
                recs0.len() <= rt.records@.len(),
                heap_grows_meta(recs0, rt.records@),
                cells_grow(old(rt).cells@, rt.cells@),
                rt.replies@ == old(rt).replies@,
                rt.calls@ == old(rt).calls@,
                rt.classes@ == old(rt).classes@,
                rt.pending_fault == old(rt).pending_fault,
                forall|k: int|
                    0 <= k < i ==> value_matches(*rt, #[trigger] vs@[k], es[k] as int),
                forall|k: int| 0 <= k < i ==> class_declared(recs0, #[trigger] es[k] as int),
            decreases es.len() - i,
        {
            let h: usize = ids[i];
            let ghost pre = *rt;
            let owned = OwnedKotlinPtr::wrap(rt, h);
            let ghost mid = *rt;
            proof {
                lemma_unchanged_to_grows(pre.records@, mid.records@, h as int);
                lemma_heap_grows_meta_trans(recs0, pre.records@, mid.records@);
                assert(rec_meta_eq(recs0[h as int], mid.records@[h as int]));
            }
            match dispatch_value(rt, owned) {
                Ok(v) => {
                    proof {
                        lemma_heap_grows_meta_trans(recs0, mid.records@, rt.records@);
                        lemma_cells_push_grows(mid.cells@, rt.cells@[rt.cells@.len() - 1]);
                        lemma_cells_grow_trans(old(rt).cells@, mid.cells@, rt.cells@);
                        lemma_unchanged_to_grows(pre.records@, rt.records@, h as int);
                        lemma_cells_grow_trans(pre.cells@, mid.cells@, rt.cells@);
                        assert forall|k: int|
                            0 <= k < i implies value_matches(
                            *rt,
                            #[trigger] vs@[k],
                            es[k] as int,
                        ) by {
                            lemma_value_matches_stable(pre, *rt, vs@[k], es[k] as int);
                        }
                        assert(rt.records@[h as int].class_name@ == recs0[h as int].class_name@);
                        assert(class_declared(recs0, es[i as int] as int));
                    }
                    vs.push(v);
                },
                Err(_) => {
                    proof {
                        lemma_unchanged_to_grows(mid.records@, rt.records@, h as int);
                        lemma_heap_grows_meta_trans(recs0, mid.records@, rt.records@);
                        assert(rt.records@[h as int].class_name@ == recs0[h as int].class_name@);
                        assert(!class_declared(recs0, es[i as int] as int));
                        assert(!all_declared(recs0, es));
                    }
                    return Err(ContractViolation::DispatchMiss);
                },
            }
            i = i + 1;
        }
        Ok(vs)
    }

    /// Where this node starts.
    pub fn start(&self, rt: &ForeignRuntime) -> (r: Result<Position, ContractViolation>)
        requires
            rt.wf(),
            self.handle().live(*rt),
        ensures
            start_result(rt.records@, self.handle().spec_record(*rt), r),
    {
        node_start(rt, self.ptr.record_id(rt))
    }

    /// Where this node ends.
    pub fn end(&self, rt: &ForeignRuntime) -> (r: Result<Position, ContractViolation>)
        requires
            rt.wf(),
            self.handle().live(*rt),
        ensures
            end_result(rt.records@, self.handle().spec_record(*rt), r),
    {
        node_end(rt, self.ptr.record_id(rt))
    }

    /// The concrete subtype of this node.
    pub fn type_(&self) -> (r: KsonValueType)
        ensures
            r == KsonValueType::Array,
    {
        KsonValueType::Array
    }
}

impl KsonObject {
    /// Marshal this object node's properties out: the foreign entry
    /// collection is drained and each key and value node is dispatched to
    /// its local variant, in entry order.  An empty foreign object gives an
    /// empty host collection.
    pub fn properties(&self, rt: &mut ForeignRuntime) -> (r: Result<
        Vec<(KsonValue, KsonValue)>,
        ContractViolation,
    >)
        requires
            old(rt).wf(),
            self.handle().live(*old(rt)),
        ensures
            final(rt).wf(),
            heap_grows_meta(old(rt).records@, final(rt).records@),
            cells_grow(old(rt).cells@, final(rt).cells@),
            final(rt).replies@ == old(rt).replies@,
            final(rt).calls@ == old(rt).calls@,
            final(rt).classes@ == old(rt).classes@,
            final(rt).pending_fault == old(rt).pending_fault,
            ({
                let rec = self.handle().spec_record(*old(rt));
                let recs = old(rt).records@;
                match r {
                    Ok(ps) => {
                        &&& object_ok(recs, rec)
                        &&& entries_all_declared(recs, object_entries(recs, rec))
                        &&& ps@.len() == object_entries(recs, rec).len()
                        &&& forall|i: int|
                            0 <= i < ps@.len() ==> value_matches(
                                *final(rt),
                                (#[trigger] ps@[i]).0,
                                object_entries(recs, rec)[i].0 as int,
                            ) && value_matches(
                                *final(rt),
                                ps@[i].1,
                                object_entries(recs, rec)[i].1 as int,
                            )
                    },
                    Err(e) => {
                        &&& (e is MalformedReply <==> !object_ok(recs, rec))
                        &&& (e is DispatchMiss <==> object_ok(recs, rec) && !entries_all_declared(
                            recs,
                            object_entries(recs, rec),
                        ))
                        &&& (e is MalformedReply || e is DispatchMiss)
                    },
                }
            }),
    {
        let rec: usize = self.ptr.record_id(rt);
        let map_h: usize = match &rt.records[rec].payload {
            Payload::ObjVal { properties, .. } => *properties,
            _ => {
                return Err(ContractViolation::MalformedReply);
            },
        };
        proof {
            assert(crate::runtime::payload_refs_ok(rt.records@[rec as int].payload, rec as int));
        }
        let entries: Vec<(usize, usize)> = match drain_map(rt, map_h) {
            Ok(entries) => entries,
            Err(e) => {
                return Err(e);
            },
        };
        let ghost recs0 = old(rt).records@;
        let ghost es = object_entries(recs0, self.handle().spec_record(*old(rt)));
        proof {
            assert(crate::runtime::payload_refs_ok(recs0[map_h as int].payload, map_h as int));
        }
        let mut ps: Vec<(KsonValue, KsonValue)> = Vec::new();
        let mut i: usize = 0;
        while i < entries.len()
            invariant
                rt.wf(),
                recs0 == old(rt).records@,
                es == object_entries(recs0, self.handle().spec_record(*old(rt))),
                object_ok(recs0, self.handle().spec_record(*old(rt))),
                entries@ == es,
                i <= es.len(),
                ps@.len() == i,
                forall|k: int|
                    0 <= k < es.len() ==> ((#[trigger] es[k]).0 as int) < recs0.len() && (es[k].1
                        as int) < recs0.len(),
                recs0.len() <= rt.records@.len(),
                heap_grows_meta(recs0, rt.records@),
                cells_grow(old(rt).cells@, rt.cells@),
                rt.replies@ == old(rt).replies@,
                rt.calls@ == old(rt).calls@,
                rt.classes@ == old(rt).classes@,
                rt.pending_fault == old(rt).pending_fault,
                forall|k: int|
                    0 <= k < i ==> value_matches(*rt, (#[trigger] ps@[k]).0, es[k].0 as int)
                        && value_matches(*rt, ps@[k].1, es[k].1 as int),
                forall|k: int|
                    0 <= k < i ==> class_declared(recs0, (#[trigger] es[k]).0 as int)
                        && class_declared(recs0, es[k].1 as int),
            decreases es.len() - i,
        {
            let k_h: usize = entries[i].0;
            let v_h: usize = entries[i].1;
            let ghost pre = *rt;
            let key_owned = OwnedKotlinPtr::wrap(rt, k_h);
            let key = match dispatch_value(rt, key_owned) {
                Ok(key) => key,
                Err(_) => {
                    proof {
                        lemma_unchanged_to_grows(pre.records@, rt.records@, k_h as int);
                        lemma_heap_grows_meta_trans(recs0, pre.records@, rt.records@);
                        assert(rt.records@[k_h as int].class_name@ == recs0[k_h
                            as int].class_name@);
                        assert(!class_declared(recs0, es[i as int].0 as int));
                        assert(!entries_all_declared(recs0, es));
                    }
                    return Err(ContractViolation::DispatchMiss);
                },
            };
            let ghost mid = *rt;
            let val_owned = OwnedKotlinPtr::wrap(rt, v_h);
            let val = match dispatch_value(rt, val_owned) {
                Ok(val) => val,
                Err(_) => {
                    proof {
                        lemma_unchanged_to_grows(mid.records@, rt.records@, v_h as int);
                        lemma_heap_grows_meta_trans(recs0, mid.records@, rt.records@);
                        assert(rt.records@[v_h as int].class_name@ == recs0[v_h
                            as int].class_name@);
                        assert(!class_declared(recs0, es[i as int].1 as int));
                        assert(!entries_all_declared(recs0, es));
                    }
                    let ghost predrop = *rt;
                    key.drop_ref(rt);
                    proof {
                        lemma_heap_grows_meta_trans(recs0, predrop.records@, rt.records@);
                        lemma_cells_push_grows(pre.cells@, predrop.cells@[predrop.cells@.len() - 1]);
                        lemma_cells_grow_trans(old(rt).cells@, pre.cells@, predrop.cells@);
                        lemma_cells_grow_after_touch(
                            old(rt).cells@,
                            predrop.cells@,
                            rt.cells@,
                            value_handle(key).cell_id(),
                        );
                    }
                    return Err(ContractViolation::DispatchMiss);
                },
            };
            proof {
                assert(heap_grows_meta(pre.records@, rt.records@));
                assert(cells_grow(pre.cells@, rt.cells@));
                assert forall|k: int|
                    0 <= k < i implies value_matches(*rt, (#[trigger] ps@[k]).0, es[k].0 as int)
                    && value_matches(*rt, ps@[k].1, es[k].1 as int) by {
                    lemma_value_matches_stable(pre, *rt, ps@[k].0, es[k].0 as int);
                    lemma_value_matches_stable(pre, *rt, ps@[k].1, es[k].1 as int);
                }
                assert(cells_grow(mid.cells@, rt.cells@));
                assert(heap_grows_meta(mid.records@, rt.records@));
                lemma_value_matches_stable(mid, *rt, key, es[i as int].0 as int);
                assert(class_declared(recs0, es[i as int].0 as int));
                assert(class_declared(recs0, es[i as int].1 as int));
            }
            ps.push((key, val));
            i = i + 1;
        }
        Ok(ps)
    }

    /// Where this node starts.
    pub fn start(&self, rt: &ForeignRuntime) -> (r: Result<Position, ContractViolation>)
        requires
            rt.wf(),
            self.handle().live(*rt),
        ensures
            start_result(rt.records@, self.handle().spec_record(*rt), r),
    {
        node_start(rt, self.ptr.record_id(rt))
    }

    /// Where this node ends.
    pub fn end(&self, rt: &ForeignRuntime) -> (r: Result<Position, ContractViolation>)
        requires
            rt.wf(),
            self.handle().live(*rt),
        ensures
            end_result(rt.records@, self.handle().spec_record(*rt), r),
    {
        node_end(rt, self.ptr.record_id(rt))
    }

    /// The concrete subtype of this node.
    pub fn type_(&self) -> (r: KsonValueType)
        ensures
            r == KsonValueType::Object,
    {
        KsonValueType::Object
    }

    /// This node's foreign display rendering, transcoded to host text.
    pub fn to_string(&self, rt: &ForeignRuntime) -> (r: String)
        requires
            rt.wf(),
            self.handle().live(*rt),
        ensures
            r@ == crate::text::decode_utf16(
                rt.records@[self.handle().spec_record(*rt)].display@,
            ),
    {
        crate::reflect::to_string(rt, self.ptr.record_id(rt))
    }

    /// The value of the first property whose key carries the given name,
    /// or `None` when no property does.  The name is transcoded once and
    /// compared against each key's foreign representation.
    pub fn get_property_by_name(&self, rt: &mut ForeignRuntime, name: &str) -> (r: Result<
        Option<KsonValue>,
        ContractViolation,
    >)
        requires
            old(rt).wf(),
            self.handle().live(*old(rt)),
        ensures
            final(rt).wf(),
            heap_grows_meta(old(rt).records@, final(rt).records@),
            cells_grow(old(rt).cells@, final(rt).cells@),
            final(rt).replies@ == old(rt).replies@,
            final(rt).calls@ == old(rt).calls@,
            final(rt).classes@ == old(rt).classes@,
            final(rt).pending_fault == old(rt).pending_fault,
            ({
                let rec = self.handle().spec_record(*old(rt));
                let recs = old(rt).records@;
                let units = encode_utf16(name@);
                let found = first_value_for_key(recs, object_entries(recs, rec), units);
                match r {
                    Ok(opt) => object_ok(recs, rec) && match opt {
                        None => found is None,
                        Some(v) => found matches Some(h) && value_matches(*final(rt), v, h as int),
                    },
                    Err(e) => {
                        &&& (e is MalformedReply <==> !object_ok(recs, rec))
                        &&& (e is DispatchMiss <==> object_ok(recs, rec) && (found matches Some(h)
                            && !class_declared(recs, h as int)))
                        &&& (e is MalformedReply || e is DispatchMiss)
                    },
                }
            }),
    {
        let rec: usize = self.ptr.record_id(rt);
        let map_h: usize = match &rt.records[rec].payload {
            Payload::ObjVal { properties, .. } => *properties,
            _ => {
                return Err(ContractViolation::MalformedReply);
            },
        };
        proof {
            assert(crate::runtime::payload_refs_ok(rt.records@[rec as int].payload, rec as int));
        }
        let entries: Vec<(usize, usize)> = match drain_map(rt, map_h) {
            Ok(entries) => entries,
            Err(e) => {
                return Err(e);
            },
        };
        let target: Vec<u16> = crate::text::utf16_of_str(name);
        let ghost recs0 = old(rt).records@;
        let ghost es = object_entries(recs0, self.handle().spec_record(*old(rt)));
        let ghost units = encode_utf16(name@);
        proof {
            assert(crate::runtime::payload_refs_ok(recs0[map_h as int].payload, map_h as int));
            assert(es.skip(0) =~= es);
        }
        let mut i: usize = 0;
        while i < entries.len()
            invariant
                rt.wf(),
                recs0 == old(rt).records@,
                es == object_entries(recs0, self.handle().spec_record(*old(rt))),
                object_ok(recs0, self.handle().spec_record(*old(rt))),
                units == encode_utf16(name@),
                entries@ == es,
                i <= es.len(),
                target@ == units,
                forall|k: int|
                    0 <= k < es.len() ==> ((#[trigger] es[k]).0 as int) < recs0.len() && (es[k].1
                        as int) < recs0.len(),
                recs0.len() <= rt.records@.len(),
                heap_grows_meta(recs0, rt.records@),
                cells_grow(old(rt).cells@, rt.cells@),
                rt.replies@ == old(rt).replies@,
                rt.calls@ == old(rt).calls@,
                rt.classes@ == old(rt).classes@,
                rt.pending_fault == old(rt).pending_fault,
                first_value_for_key(recs0, es.skip(i as int), units) == first_value_for_key(
                    recs0,
                    es,
                    units,
                ),
            decreases es.len() - i,
        {
            let k_h: usize = entries[i].0;
            let ghost rest = es.skip(i as int);
            proof {
                assert(rest[0] == es[i as int]);
                assert(rest.drop_first() =~= es.skip(i + 1));
            }
            let matched: bool = match &rt.records[k_h].payload {
                Payload::StrVal { text, .. } => {
                    let text_h: usize = *text;
                    proof {
                        assert(crate::runtime::payload_refs_ok(
                            rt.records@[k_h as int].payload,
                            k_h as int,
                        ));
                        assert(rec_meta_eq(recs0[k_h as int], rt.records@[k_h as int]));
                    }
                    match &rt.records[text_h].payload {
                        Payload::Text(u) => units_eq(u, &target),
                        _ => false,
                    }
                },
                _ => false,
            };
            proof {
                assert(rec_meta_eq(recs0[k_h as int], rt.records@[k_h as int]));
                assert(matched == entry_key_is(recs0, es[i as int].0 as int, units));
            }
            if matched {
                let v_h: usize = entries[i].1;
                let owned = OwnedKotlinPtr::wrap(rt, v_h);
                match dispatch_value(rt, owned) {
                    Ok(v) => {
                        return Ok(Some(v));
                    },
                    Err(_) => {
                        return Err(ContractViolation::DispatchMiss);
                    },
                }
            }
            i = i + 1;
        }
        proof {
            assert(es.skip(es.len() as int) =~= Seq::<(usize, usize)>::empty());
        }
        Ok(None)
    }

    /// Marshal this object node's key index out: each entry pairs a plain
    /// property name (read through the generic to-string call on the foreign
    /// key) with the string node that carries it in the document.
    pub fn property_keys(&self, rt: &mut ForeignRuntime) -> (r: Result<
        Vec<(String, KsonString)>,
        ContractViolation,
    >)
        requires
            old(rt).wf(),
            self.handle().live(*old(rt)),
        ensures
            final(rt).wf(),
            heap_grows_meta(old(rt).records@, final(rt).records@),
            cells_grow(old(rt).cells@, final(rt).cells@),
            final(rt).replies@ == old(rt).replies@,
            final(rt).calls@ == old(rt).calls@,
            final(rt).classes@ == old(rt).classes@,
            final(rt).pending_fault == old(rt).pending_fault,
            ({
                let rec = self.handle().spec_record(*old(rt));
                let recs = old(rt).records@;
                match r {
                    Ok(ks) => {
                        &&& object_keys_ok(recs, rec)
                        &&& entries_all_string(recs, object_key_entries(recs, rec))
                        &&& ks@.len() == object_key_entries(recs, rec).len()
                        &&& forall|i: int|
                            0 <= i < ks@.len() ==> (#[trigger] ks@[i]).0@
                                == crate::text::decode_utf16(
                                recs[object_key_entries(recs, rec)[i].0 as int].display@,
                            ) && string_node_matches(
                                *final(rt),
                                ks@[i].1,
                                object_key_entries(recs, rec)[i].1 as int,
                            )
                    },
                    Err(e) => {
                        &&& (e is MalformedReply || e is DispatchMiss)
                        &&& !(object_keys_ok(recs, rec) && entries_all_string(
                            recs,
                            object_key_entries(recs, rec),
                        ))
                    },
                }
            }),
    {
        let rec: usize = self.ptr.record_id(rt);
        let keys_h: usize = match &rt.records[rec].payload {
            Payload::ObjVal { keys, .. } => *keys,
            _ => {
                return Err(ContractViolation::MalformedReply);
            },
        };
        proof {
            assert(crate::runtime::payload_refs_ok(rt.records@[rec as int].payload, rec as int));
        }
        let entries: Vec<(usize, usize)> = match drain_map(rt, keys_h) {
            Ok(entries) => entries,
            Err(e) => {
                return Err(e);
            },
        };
        let ghost recs0 = old(rt).records@;
        let ghost es = object_key_entries(recs0, self.handle().spec_record(*old(rt)));
        proof {
            assert(crate::runtime::payload_refs_ok(recs0[keys_h as int].payload, keys_h as int));
        }
        let mut ks: Vec<(String, KsonString)> = Vec::new();
        let mut i: usize = 0;
        while i < entries.len()
            invariant
                rt.wf(),
                recs0 == old(rt).records@,
                es == object_key_entries(recs0, self.handle().spec_record(*old(rt))),
                object_keys_ok(recs0, self.handle().spec_record(*old(rt))),
                entries@ == es,
                i <= es.len(),
                ks@.len() == i,
                forall|k: int|
                    0 <= k < es.len() ==> ((#[trigger] es[k]).0 as int) < recs0.len() && (es[k].1
                        as int) < recs0.len(),
                recs0.len() <= rt.records@.len(),
                heap_grows_meta(recs0, rt.records@),
                cells_grow(old(rt).cells@, rt.cells@),
                rt.replies@ == old(rt).replies@,
                rt.calls@ == old(rt).calls@,
                rt.classes@ == old(rt).classes@,
                rt.pending_fault == old(rt).pending_fault,
                forall|k: int|
                    0 <= k < i ==> (#[trigger] ks@[k]).0@ == crate::text::decode_utf16(
                        recs0[es[k].0 as int].display@,
                    ) && string_node_matches(*rt, ks@[k].1, es[k].1 as int),
                forall|k: int|
                    0 <= k < i ==> recs0[(#[trigger] es[k]).1 as int].class_name@
                        == value_class_name(KsonValueType::Str),
            decreases es.len() - i,
        {
            let k_h: usize = entries[i].0;
            let v_h: usize = entries[i].1;
            let ghost pre = *rt;
            proof {
                assert(rec_meta_eq(recs0[k_h as int], rt.records@[k_h as int]));
            }
            let name_s: String = crate::reflect::to_string(rt, k_h);
            let owned = OwnedKotlinPtr::wrap(rt, v_h);
            let ghost mid = *rt;
            proof {
                lemma_unchanged_to_grows(pre.records@, mid.records@, v_h as int);
                lemma_heap_grows_meta_trans(recs0, pre.records@, mid.records@);
            }
            let node = match dispatch_value(rt, owned) {
                Ok(KsonValue::KsonString(s)) => s,
                Ok(other) => {
                    proof {
                        lemma_heap_grows_meta_trans(recs0, mid.records@, rt.records@);
                        assert(rt.records@[v_h as int].class_name@ == value_class_name(
                            value_variant(other),
                        ));
                        assert(rt.records@[v_h as int].class_name@ == recs0[v_h
                            as int].class_name@);
                        if recs0[(es[i as int]).1 as int].class_name@ == value_class_name(
                            KsonValueType::Str,
                        ) {
                            crate::dispatch::lemma_value_class_names_distinct(
                                value_variant(other),
                                KsonValueType::Str,
                            );
                            assert(false);
                        }
                        assert(!entries_all_string(recs0, es));
                    }
                    let ghost predrop = *rt;
                    other.drop_ref(rt);
                    proof {
                        lemma_heap_grows_meta_trans(recs0, predrop.records@, rt.records@);
                        lemma_cells_push_grows(mid.cells@, predrop.cells@[predrop.cells@.len() - 1]);
                        lemma_cells_grow_trans(old(rt).cells@, mid.cells@, predrop.cells@);
                        lemma_cells_grow_after_touch(
                            old(rt).cells@,
                            predrop.cells@,
                            rt.cells@,
                            value_handle(other).cell_id(),
                        );
                    }
                    return Err(ContractViolation::MalformedReply);
                },
                Err(_) => {
                    proof {
                        lemma_unchanged_to_grows(mid.records@, rt.records@, v_h as int);
                        lemma_heap_grows_meta_trans(recs0, mid.records@, rt.records@);
                        assert(rt.records@[v_h as int].class_name@ == recs0[v_h
                            as int].class_name@);
                        assert(!class_declared(recs0, (es[i as int]).1 as int));
                        assert(recs0[(es[i as int]).1 as int].class_name@ != value_class_name(
                            KsonValueType::Str,
                        ));
                        assert(!entries_all_string(recs0, es));
                    }
                    return Err(ContractViolation::DispatchMiss);
                },
            };
            proof {
                assert(heap_grows_meta(pre.records@, rt.records@));
                assert(cells_grow(pre.cells@, rt.cells@));
                assert forall|k: int|
                    0 <= k < i implies (#[trigger] ks@[k]).0@ == crate::text::decode_utf16(
                    recs0[es[k].0 as int].display@,
                ) && string_node_matches(*rt, ks@[k].1, es[k].1 as int) by {
                    let c = ks@[k].1.handle().cell_id();
                    assert(rt.cells@[c] == pre.cells@[c]);
                    assert(rec_meta_eq(pre.records@[es[k].1 as int], rt.records@[es[k].1 as int]));
                }
            }
            ks.push((name_s, node));
            i = i + 1;
        }
        Ok(ks)
    }
}



impl KsonNumber {
    /// The simple name of the numeric leaf this proxy instantiates.
    pub fn name(&self) -> (r: String)
        ensures
            ({
                match self {
                    KsonNumber::Integer(_) => r@ == KsonValueType::Integer.spec_name(),
                    KsonNumber::Decimal(_) => r@ == KsonValueType::Decimal.spec_name(),
                }
            }),
    {
        match self {
            KsonNumber::Integer(_) => KsonValueType::Integer.name(),
            KsonNumber::Decimal(_) => KsonValueType::Decimal.name(),
        }
    }

    /// The concrete subtype of this node.
    pub fn type_(&self) -> (r: KsonValueType)
        ensures
            ({
                match self {
                    KsonNumber::Integer(_) => r == KsonValueType::Integer,
                    KsonNumber::Decimal(_) => r == KsonValueType::Decimal,
                }
            }),
    {
        match self {
            KsonNumber::Integer(_) => KsonValueType::Integer,
            KsonNumber::Decimal(_) => KsonValueType::Decimal,
        }
    }

    /// The shared handle behind this proxy.
    pub closed spec fn handle(self) -> KsonPtr {
        match self {
            KsonNumber::Integer(i) => i.handle(),
            KsonNumber::Decimal(d) => d.handle(),
        }
    }

    /// Where this node starts.
    pub fn start(&self, rt: &ForeignRuntime) -> (r: Result<Position, ContractViolation>)
        requires
            rt.wf(),
            self.handle().live(*rt),
        ensures
            start_result(rt.records@, self.handle().spec_record(*rt), r),
    {
        match self {
            KsonNumber::Integer(i) => i.start(rt),
            KsonNumber::Decimal(d) => d.start(rt),
        }
    }

    /// Where this node ends.
    pub fn end(&self, rt: &ForeignRuntime) -> (r: Result<Position, ContractViolation>)
        requires
            rt.wf(),
            self.handle().live(*rt),
        ensures
            end_result(rt.records@, self.handle().spec_record(*rt), r),
    {
        match self {
            KsonNumber::Integer(i) => i.end(rt),
            KsonNumber::Decimal(d) => d.end(rt),
        }
    }
}


} // verus!
