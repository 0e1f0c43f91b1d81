//! An explicit model of the foreign runtime, as far as the bridge observes
//! it.
//!
//! The engine lives in a separately compiled, garbage-collected runtime; the
//! bridge reaches it only through opaque object handles and a fixed set of
//! entry points.  This module models exactly that observable surface: a heap
//! of [`ObjectRecord`]s (one per foreign object, holding what the bridge can
//! read of it), the garbage-collection root and release bookkeeping the
//! bridge is responsible for, the reference-count cells behind shared
//! handles, the pending-fault flag that must be checked after every call,
//! and the replies the engine gives to entry-point invocations.
//!
//! The engine's replies are data of the model (the `replies` queue), not
//! something this crate computes: the document language itself is an
//! external collaborator.  Every bridge operation is verified for every
//! reply the engine may give.

use vstd::prelude::*;

use crate::handles::OwnedKotlinPtr;
use crate::text::encode_utf16;
use crate::text::utf16_of_str;

verus! {

/// One foreign class: its fully-qualified name and the runtime-assigned
/// identity token used by the token-table dispatch strategy.
pub struct ClassDef {
    pub name: String,
    pub token: u64,
}

/// An embed rule as marshalled into a foreign format-options object.
pub struct EmbedRuleRec {
    pub pattern: Vec<u16>,
    pub tag: Option<Vec<u16>>,
}

/// What the bridge can read of one foreign object, by the shape of its
/// class.  References are handles of other records; a record only ever
/// references records allocated before it, which is what makes reading a
/// reply tree terminate.
pub enum Payload {
    /// An object the bridge holds but never reads into (e.g. a validator).
    Opaque,
    /// A foreign string: UTF-16 code units.
    Text(Vec<u16>),
    /// A source position, zero-based.
    Pos { line: i32, column: i32 },
    /// A string node of a parsed document.
    StrVal { text: usize, start: usize, end: usize },
    /// An integer node.
    IntVal { value: i64, start: usize, end: usize },
    /// A decimal node; the numeric payload is carried as its source text.
    DecVal { text: usize, start: usize, end: usize },
    /// A boolean node.
    BoolVal { value: bool, start: usize, end: usize },
    /// A null node.
    NullVal { start: usize, end: usize },
    /// An array node; `elements` is a foreign list object.
    ArrVal { elements: usize, start: usize, end: usize },
    /// An object node; `properties` maps key nodes to value nodes and
    /// `keys` maps plain property names to their key nodes.
    ObjVal { properties: usize, keys: usize, start: usize, end: usize },
    /// An embed node.
    EmbedVal { tag: Option<usize>, content: usize, start: usize, end: usize },
    /// A diagnostic message.
    Msg { text: usize, severity: usize, start: usize, end: usize },
    /// A lexer token.
    Tok { kind: usize, text: usize, start: usize, end: usize },
    /// An analysis result: diagnostics, tokens, and the parsed root if any.
    Report { errors: usize, tokens: usize, value: Option<usize> },
    /// A foreign ordered collection.
    ListObj(Vec<usize>),
    /// A foreign key/value collection, as its entry list.
    MapObj(Vec<(usize, usize)>),
    /// A successful transpilation: the output text.
    TranspileOk { output: usize },
    /// A failed transpilation: a list of diagnostics.
    TranspileFail { errors: usize },
    /// A successfully parsed schema: a validator object.
    SchemaOk { validator: usize },
    /// A schema that failed to parse: a list of diagnostics.
    SchemaFail { errors: usize },
    /// Marshalled format options: indent (spaces count, or tabs when
    /// absent), formatting-style ordinal, and embed rules.
    FmtOpts { spaces: Option<i32>, style: u64, rules: Vec<EmbedRuleRec> },
    /// Marshalled transpile options.
    TransOpts { retain_embed_tags: bool, yaml: bool },
    /// An iterator over a list or map object, with its cursor.
    IterObj { target: usize, cursor: usize },
}

/// One foreign object, as the bridge observes it, together with the
/// bookkeeping counters for it.
pub struct ObjectRecord {
    /// The fully-qualified name of its class.
    pub class_name: String,
    /// The identity token of its class.
    pub type_token: u64,
    /// Its position in its enum class, where it is an enum constant.
    pub ordinal: u64,
    /// The abstract identity backing the foreign equals/hashCode pair.
    pub value_id: u64,
    /// Its foreign display rendering (what the generic to-string call gives).
    pub display: Vec<u16>,
    /// What the bridge can read of it.
    pub payload: Payload,
    /// How many root (garbage-collection protection) registrations were
    /// made for it.
    pub roots: u64,
    /// How many release (deregistration) calls were observed for it.
    pub releases: u64,
}

/// The host-side reference count behind one shared handle: one root
/// registration shared by `count` live references; `disposed` records
/// whether that root has been released.
pub struct ShareCell {
    pub record: usize,
    pub count: u64,
    pub disposed: bool,
}

/// What the engine gives back for one entry-point invocation: a handle to a
/// reply object, or a foreign-side fault.
pub enum Reply {
    Value(usize),
    Fault,
}

/// An entry-point invocation as the engine sees it: which entry point, with
/// which (already marshalled) argument handles.
pub enum EngineCall {
    Format { kson: usize, options: usize },
    ToJson { kson: usize, options: usize },
    ToYaml { kson: usize, options: usize },
    Analyze { kson: usize, filepath: Option<usize> },
    ParseSchema { schema: usize },
    Validate { validator: usize, kson: usize, filepath: Option<usize> },
}

/// An invariant break between the bridge and the engine's declared
/// interface.  These are never user-facing: the caller treats them as fatal,
/// in contrast to domain diagnostics, which are ordinary return values.
#[derive(Clone, Copy, PartialEq, Eq, Structural, Debug)]
pub enum ContractViolation {
    /// A foreign-side fault was pending after a call.
    ForeignFault,
    /// A reply object's class resolved to no declared local variant.
    DispatchMiss,
    /// An enum ordinal fell outside the declared contiguous range.
    OrdinalRange,
    /// A reply object did not have the shape its class promises.
    MalformedReply,
}

/// The foreign runtime: its object heap, the bridge's bookkeeping state, and
/// the engine's scripted behaviour at the entry points.
pub struct ForeignRuntime {
    /// The classes the runtime knows, for token resolution.
    pub classes: Vec<ClassDef>,
    /// The foreign heap, indexed by handle.
    pub records: Vec<ObjectRecord>,
    /// Reference-count cells behind shared handles.
    pub cells: Vec<ShareCell>,
    /// The replies the engine will give to entry-point invocations, in
    /// order, front first.  A reply handle refers to an object already laid
    /// out in the heap: the engine builds its reply before handing the
    /// reference across.
    pub replies: Vec<Reply>,
    /// The invocations made so far, in order.
    pub calls: Vec<EngineCall>,
    /// Whether a foreign-side fault is pending and must be cleared.
    pub pending_fault: bool,
}

/// Every handle the payload references lies strictly below the given bound.
pub open spec fn payload_refs_ok(p: Payload, bound: int) -> bool {
    match p {
        Payload::Opaque => true,
        Payload::Text(_) => true,
        Payload::Pos { .. } => true,
        Payload::StrVal { text, start, end } => text < bound && start < bound && end < bound,
        Payload::IntVal { value: _, start, end } => start < bound && end < bound,
        Payload::DecVal { text, start, end } => text < bound && start < bound && end < bound,
        Payload::BoolVal { value: _, start, end } => start < bound && end < bound,
        Payload::NullVal { start, end } => start < bound && end < bound,
        Payload::ArrVal { elements, start, end } => elements < bound && start < bound && end
            < bound,
        Payload::ObjVal { properties, keys, start, end } => properties < bound && keys < bound
            && start < bound && end < bound,
        Payload::EmbedVal { tag, content, start, end } => (tag matches Some(t) ==> t < bound)
            && content < bound && start < bound && end < bound,
        Payload::Msg { text, severity, start, end } => text < bound && severity < bound && start
            < bound && end < bound,
        Payload::Tok { kind, text, start, end } => kind < bound && text < bound && start < bound
            && end < bound,
        Payload::Report { errors, tokens, value } => errors < bound && tokens < bound && (
        value matches Some(v) ==> v < bound),
        Payload::ListObj(es) => forall|j: int| 0 <= j < es@.len() ==> (es@[j] as int) < bound,
        Payload::MapObj(es) => forall|j: int|
            0 <= j < es@.len() ==> (es@[j].0 as int) < bound && (es@[j].1 as int) < bound,
        Payload::TranspileOk { output } => output < bound,
        Payload::TranspileFail { errors } => errors < bound,
        Payload::SchemaOk { validator } => validator < bound,
        Payload::SchemaFail { errors } => errors < bound,
        Payload::FmtOpts { .. } => true,
        Payload::TransOpts { .. } => true,
        Payload::IterObj { target, cursor: _ } => target < bound,
    }
}

/// One more root registration: the counter saturates rather than wrap, so
/// registering can never overflow (no real heap approaches the limit).
pub open spec fn bump(x: u64) -> u64 {
    if x < u64::MAX {
        (x + 1) as u64
    } else {
        x
    }
}

/// Everything of a record except its root/release counters.
pub open spec fn rec_meta_eq(a: ObjectRecord, b: ObjectRecord) -> bool {
    &&& a.class_name@ == b.class_name@
    &&& a.type_token == b.type_token
    &&& a.ordinal == b.ordinal
    &&& a.value_id == b.value_id
    &&& a.display@ == b.display@
    &&& a.payload == b.payload
}

/// The heaps agree on everything except possibly the counters.
pub open spec fn same_records_meta(a: Seq<ObjectRecord>, b: Seq<ObjectRecord>) -> bool {
    &&& a.len() == b.len()
    &&& forall|i: int| 0 <= i < a.len() ==> rec_meta_eq(a[i], #[trigger] b[i])
}

/// The heaps agree everywhere except possibly at the given handle.
pub open spec fn records_unchanged_except(
    a: Seq<ObjectRecord>,
    b: Seq<ObjectRecord>,
    h: int,
) -> bool {
    &&& a.len() == b.len()
    &&& forall|i: int| 0 <= i < a.len() && i != h ==> a[i] == #[trigger] b[i]
}

/// The second heap is the first with `n` records appended.
pub open spec fn records_extended(a: Seq<ObjectRecord>, b: Seq<ObjectRecord>, n: int) -> bool {
    &&& b.len() == a.len() + n
    &&& forall|i: int| 0 <= i < a.len() ==> a[i] == #[trigger] b[i]
}

impl ForeignRuntime {
    /// Structural well-formedness: every reference a record, cell or reply
    /// holds points into the heap, and records only reference records
    /// allocated before them.
    pub open spec fn wf(self) -> bool {
        &&& forall|i: int|
            0 <= i < self.records@.len() ==> payload_refs_ok(
                #[trigger] self.records@[i].payload,
                i,
            )
        &&& forall|i: int|
            0 <= i < self.cells@.len() ==> (#[trigger] self.cells@[i].record as int)
                < self.records@.len()
        &&& forall|i: int|
            0 <= i < self.replies@.len() ==> (#[trigger] self.replies@[i] matches Reply::Value(h)
                ==> (h as int) < self.records@.len())
    }

    /// A runtime with an empty heap and no scripted replies.
    pub fn new() -> (rt: ForeignRuntime)
        ensures
            rt.wf(),
            rt.records@.len() == 0,
            rt.cells@.len() == 0,
            rt.replies@.len() == 0,
            rt.calls@.len() == 0,
            !rt.pending_fault,
    {
        ForeignRuntime {
            classes: Vec::new(),
            records: Vec::new(),
            cells: Vec::new(),
            replies: Vec::new(),
            calls: Vec::new(),
            pending_fault: false,
        }
    }

    /// Append a record to the heap, returning its handle.  The record may
    /// only reference objects that already exist.
    pub fn alloc_record(&mut self, rec: ObjectRecord) -> (h: usize)
        requires
            old(self).wf(),
            payload_refs_ok(rec.payload, old(self).records@.len() as int),
        ensures
            final(self).wf(),
            h as int == old(self).records@.len(),
            final(self).records@ == old(self).records@.push(rec),
            final(self).cells@ == old(self).cells@,
            final(self).replies@ == old(self).replies@,
            final(self).calls@ == old(self).calls@,
            final(self).classes@ == old(self).classes@,
            final(self).pending_fault == old(self).pending_fault,
    {
        let h = self.records.len();
        self.records.push(rec);
        h
    }

    /// Marshal host text into a fresh foreign string object, rooted once for
    /// the host.  This is the inbound half of string marshalling: the text
    /// crosses the boundary as UTF-16 code units.
    pub fn new_string(&mut self, s: &str) -> (p: OwnedKotlinPtr)
        requires
            old(self).wf(),
        ensures
            final(self).wf(),
            p.id() == old(self).records@.len(),
            records_extended(old(self).records@, final(self).records@, 1),
            ({
                let rec = final(self).records@[old(self).records@.len() as int];
                &&& rec.payload matches Payload::Text(t) && t@ == encode_utf16(s@)
                &&& rec.roots == 1
                &&& rec.releases == 0
            }),
            final(self).cells@ == old(self).cells@,
            final(self).replies@ == old(self).replies@,
            final(self).calls@ == old(self).calls@,
            final(self).classes@ == old(self).classes@,
            final(self).pending_fault == old(self).pending_fault,
    {
        let units = utf16_of_str(s);
        let display = utf16_of_str(s);
        let rec = ObjectRecord {
            class_name: String::new(),
            type_token: 0,
            ordinal: 0,
            value_id: 0,
            display,
            payload: Payload::Text(units),
            roots: 1,
            releases: 0,
        };
        let h: usize = self.records.len();
        self.records.push(rec);
        OwnedKotlinPtr::from_raw(h)
    }

    /// Resolve a class by name, as the runtime's class-lookup entry point
    /// does, returning its identity token.  An unknown name is a fatal
    /// dispatch condition for the bridge, reported as such.
    pub fn find_class(&self, name: &str) -> (r: Result<u64, ContractViolation>)
        ensures
            match r {
                Ok(token) => exists|i: int|
                    0 <= i < self.classes@.len() && #[trigger] self.classes@[i].name@ == name@
                        && self.classes@[i].token == token,
                Err(e) => e is DispatchMiss && forall|i: int|
                    0 <= i < self.classes@.len() ==> #[trigger] self.classes@[i].name@ != name@,
            },
    {
        let mut i: usize = 0;
        while i < self.classes.len()
            invariant
                i <= self.classes@.len(),
                forall|j: int| 0 <= j < i ==> #[trigger] self.classes@[j].name@ != name@,
            decreases self.classes@.len() - i,
        {
            if crate::text::str_eq(self.classes[i].name.as_str(), name) {
                return Ok(self.classes[i].token);
            }
            i = i + 1;
        }
        Err(ContractViolation::DispatchMiss)
    }

    /// Invoke an engine entry point with already-marshalled arguments.  The
    /// engine answers with the next scripted reply: a handle, which the
    /// bridge immediately roots for the host, or a fault, which is left
    /// pending for [`ForeignRuntime::check_fault`].
    pub fn invoke(&mut self, call: EngineCall) -> (r: Option<OwnedKotlinPtr>)
        requires
            old(self).wf(),
            old(self).replies@.len() > 0,
            !old(self).pending_fault,
        ensures
            final(self).wf(),
            final(self).calls@ == old(self).calls@.push(call),
            final(self).replies@ == old(self).replies@.drop_first(),
            final(self).cells@ == old(self).cells@,
            final(self).classes@ == old(self).classes@,
            match old(self).replies@[0] {
                Reply::Fault => {
                    &&& r is None
                    &&& final(self).pending_fault
                    &&& final(self).records@ == old(self).records@
                },
                Reply::Value(h) => {
                    &&& r matches Some(p) && p.id() == h as int
                    &&& !final(self).pending_fault
                    &&& records_unchanged_except(old(self).records@, final(self).records@, h as int)
                    &&& rec_meta_eq(old(self).records@[h as int], final(self).records@[h as int])
                    &&& final(self).records@[h as int].roots == bump(
                        old(self).records@[h as int].roots,
                    )
                    &&& final(self).records@[h as int].releases == old(self).records@[h as
                        int].releases
                },
            },
    {
        self.calls.push(call);
        let reply = self.replies.remove(0);
        match reply {
            Reply::Fault => {
                self.pending_fault = true;
                None
            },
            Reply::Value(h) => {
                // the reply crosses as a fresh reference which the bridge
                // promotes to a root it owns
                let rec = &mut self.records[h];
                if rec.roots < u64::MAX {
                    rec.roots = rec.roots + 1;
                }
                Some(OwnedKotlinPtr::from_raw(h))
            },
        }
    }

    /// Check for, describe and clear a pending foreign-side fault, as the
    /// bridge must after every foreign call.  A fault is an invariant break,
    /// never a user-facing error: it surfaces as a contract violation.
    pub fn check_fault(&mut self) -> (r: Result<(), ContractViolation>)
        ensures
            !final(self).pending_fault,
            final(self).records@ == old(self).records@,
            final(self).cells@ == old(self).cells@,
            final(self).replies@ == old(self).replies@,
            final(self).calls@ == old(self).calls@,
            final(self).classes@ == old(self).classes@,
            r is Err <==> old(self).pending_fault,
            r matches Err(e) ==> e is ForeignFault,
            old(self).wf() ==> final(self).wf(),
    {
        if self.pending_fault {
            self.pending_fault = false;
            Err(ContractViolation::ForeignFault)
        } else {
            Ok(())
        }
    }
}

} // verus!
