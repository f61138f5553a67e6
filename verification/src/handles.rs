//! The key-handle manager and path resolver of the shared surface.
//!
//! Foreign callers never see a pointer: every handle is an opaque non-zero
//! integer naming a slot in a table, and `0` is the universal "absent or
//! failed" sentinel. A slot is never reused once freed, so a closed handle
//! can only ever be seen as stale and rejected; this is the liveness check
//! that a bare address could not give.
//!
//! A key handle borrows the document stored behind a keyspace key; a path
//! handle records the location of a resolved sub-value together with a
//! back-reference to the key handle it was derived from, and shares its
//! lifetime: closing the key handle leaves every path handle derived from
//! it stale. Handles are strictly call-scoped: the keyspace entry behind a
//! live handle must not change while the handle is open, which the host's
//! serialized command execution guarantees; well-formedness of the table
//! with respect to the context carries exactly this obligation.

#![verifier::loop_isolation(false)]

use vstd::prelude::*;

use crate::host::{spec_key_doc, spec_key_index, RedisModuleCtx, Stored};
use crate::host::{lemma_key_index_at, lemma_key_index_in_range};
use crate::path::{parse_path, resolve_first, spec_parse_path, spec_resolve, str_eq, PathStep};
use crate::value::{json_type, spec_json_type, spec_type_code, type_code, JSONType, JsonValue};

verus! {

/// A key handle: an exclusive reference to the keyspace entry it was opened
/// from, identified by its position in the context's keyspace.
pub struct JSONApiKey {
    pub key_index: usize,
}

/// A path handle: the parsed steps of a resolved path expression, together
/// with the handle of the key the resolution was made through.
pub struct JSONApiPath {
    pub parent: usize,
    pub steps: Vec<PathStep>,
}

/// One slot of the handle table. A freed slot stays `Free` forever: handle
/// values are never reused within one table's lifetime.
pub enum Slot {
    Free,
    Key(JSONApiKey),
    Path(JSONApiPath),
}

/// Why a key could not be opened as a document.
#[derive(Clone, Copy, Debug, PartialEq, Eq, Structural)]
pub enum OpenKeyError {
    NoSuchKey,
    WrongType,
}

/// The table mapping opaque handles to their backing state. Handle `h`
/// names slot `h - 1`; handle `0` never names a slot.
pub struct HandleTable {
    pub slots: Vec<Slot>,
}

impl HandleTable {
    /// A fresh table with no handles.
    pub fn new() -> (t: HandleTable)
        ensures
            t.slots@.len() == 0,
    {
        HandleTable { slots: Vec::new() }
    }

    /// `h` names a live key handle.
    pub open spec fn is_live_key(self, h: usize) -> bool {
        1 <= h <= self.slots@.len() && self.slots@[h - 1] is Key
    }

    /// The key handle behind `h`.
    pub open spec fn key_of(self, h: usize) -> JSONApiKey
        recommends
            self.is_live_key(h),
    {
        self.slots@[h - 1]->Key_0
    }

    /// `h` names a live path handle: its own slot is a path slot and the
    /// key handle it was derived from is still live.
    pub open spec fn is_live_path(self, h: usize) -> bool {
        &&& 1 <= h <= self.slots@.len()
        &&& self.slots@[h - 1] is Path
        &&& self.is_live_key(self.slots@[h - 1]->Path_0.parent)
    }

    /// The path handle behind `h`.
    pub open spec fn path_of(self, h: usize) -> JSONApiPath
        recommends
            self.is_live_path(h),
    {
        self.slots@[h - 1]->Path_0
    }

    /// The document a live key handle borrows.
    pub open spec fn doc_of(self, ctx: RedisModuleCtx, h: usize) -> JsonValue
        recommends
            self.is_live_key(h),
    {
        ctx.keys@[self.key_of(h).key_index as int].1->Doc_0
    }

    /// A key slot points inside the keyspace, at an entry that holds a
    /// document.
    pub open spec fn key_slot_wf(self, ctx: RedisModuleCtx, k: JSONApiKey) -> bool {
        &&& k.key_index < ctx.keys@.len()
        &&& ctx.keys@[k.key_index as int].1 is Doc
    }

    /// A path slot points back at a slot of this table, and as long as that
    /// parent is a live key handle, its recorded steps resolve inside the
    /// parent's document.
    pub open spec fn path_slot_wf(self, ctx: RedisModuleCtx, p: JSONApiPath) -> bool {
        &&& 1 <= p.parent <= self.slots@.len()
        &&& self.is_live_key(p.parent) ==> spec_resolve(
            self.doc_of(ctx, p.parent),
            p.steps.deep_view(),
        ) is Some
    }

    /// The table is well formed with respect to the context it was built
    /// against. The host must not move the keyspace entries behind live
    /// handles between calls; carrying this relation from call to call is
    /// exactly that obligation.
    pub open spec fn wf(self, ctx: RedisModuleCtx) -> bool {
        forall|i: int|
            0 <= i < self.slots@.len() ==> match #[trigger] self.slots@[i] {
                Slot::Free => true,
                Slot::Key(k) => self.key_slot_wf(ctx, k),
                Slot::Path(p) => self.path_slot_wf(ctx, p),
            }
    }

    /// What introspecting handle `h` reports: the type of the document
    /// behind a live key handle, the type of the sub-value behind a live
    /// path handle, and the error discriminant for everything else — the
    /// null handle, a freed handle, and a path handle whose key handle was
    /// closed.
    pub open spec fn info_type(self, ctx: RedisModuleCtx, h: usize) -> JSONType {
        if self.is_live_key(h) {
            spec_json_type(self.doc_of(ctx, h))
        } else if self.is_live_path(h) {
            match spec_resolve(
                self.doc_of(ctx, self.path_of(h).parent),
                self.path_of(h).steps.deep_view(),
            ) {
                Some(v) => spec_json_type(v),
                None => JSONType::Error,
            }
        } else {
            JSONType::Error
        }
    }
}

impl JSONApiKey {
    /// Opens the keyspace entry called `key_name` as a document reference:
    /// the entry must exist and must hold a document, anything else is
    /// refused with the reason.
    pub fn new(ctx: &RedisModuleCtx, key_name: &str) -> (r: Result<JSONApiKey, OpenKeyError>)
        ensures
            r is Ok <==> spec_key_doc(ctx.keys@, key_name@) is Some,
            r matches Ok(k) ==> Some(k.key_index as int) == spec_key_index(ctx.keys@, key_name@),
            r matches Err(e) ==> (e == OpenKeyError::NoSuchKey <==> spec_key_index(
                ctx.keys@,
                key_name@,
            ) is None),
    {
        let mut m: usize = 0;
        while m < ctx.keys.len()
            invariant
                m <= ctx.keys@.len(),
                forall|i: int| 0 <= i < m ==> ctx.keys@[i].0@ != key_name@,
            decreases ctx.keys@.len() - m,
        {
            if str_eq(ctx.keys[m].0.as_str(), key_name) {
                proof {
                    lemma_key_index_at(ctx.keys@, key_name@, m as int);
                }
                match &ctx.keys[m].1 {
                    Stored::Doc(_) => {
                        return Ok(JSONApiKey { key_index: m });
                    },
                    Stored::Other => {
                        return Err(OpenKeyError::WrongType);
                    },
                }
            }
            m = m + 1;
        }
        proof {
            lemma_key_index_at(ctx.keys@, key_name@, ctx.keys@.len() as int);
        }
        Err(OpenKeyError::NoSuchKey)
    }
}

/// Opens `key_name` as a document handle. The null handle `0` is returned
/// exactly when the key does not exist, exists with a non-document type, or
/// the lookup fails; otherwise a fresh live key handle is returned.
#[allow(non_snake_case)]
pub fn JSONAPI_openKey(ctx: &RedisModuleCtx, table: &mut HandleTable, key_name: &str) -> (h:
    usize)
    requires
        old(table).wf(*ctx),
        old(table).slots@.len() < usize::MAX,
    ensures
        final(table).wf(*ctx),
        h == 0 <==> spec_key_doc(ctx.keys@, key_name@) is None,
        h == 0 ==> *final(table) == *old(table),
        h != 0 ==> h == old(table).slots@.len() + 1,
        h != 0 ==> final(table).slots@.len() == old(table).slots@.len() + 1,
        forall|i: int|
            0 <= i < old(table).slots@.len() ==> final(table).slots@[i] == old(table).slots@[i],
        h != 0 ==> final(table).is_live_key(h),
        h != 0 ==> Some(final(table).doc_of(*ctx, h)) == spec_key_doc(ctx.keys@, key_name@),
{
    match JSONApiKey::new(ctx, key_name) {
        Ok(key) => {
            proof {
                lemma_key_index_in_range(ctx.keys@, key_name@);
            }
            table.slots.push(Slot::Key(key));
            table.slots.len()
        },
        Err(_) => 0,
    }
}

/// Releases the handle `h`: its slot is freed and every later use of `h`
/// is rejected as stale. The null handle, an out-of-range handle and an
/// already freed handle are tolerated as no-ops. Closing a key handle also
/// leaves every path handle derived from it stale.
#[allow(non_snake_case)]
pub fn JSONAPI_closeKey(table: &mut HandleTable, h: usize)
    ensures
        final(table).slots@.len() == old(table).slots@.len(),
        1 <= h <= old(table).slots@.len() ==> final(table).slots@ == old(table).slots@.update(
            h - 1,
            Slot::Free,
        ),
        !(1 <= h <= old(table).slots@.len()) ==> *final(table) == *old(table),
        !final(table).is_live_key(h),
        !final(table).is_live_path(h),
        forall|ctx: RedisModuleCtx| old(table).wf(ctx) ==> final(table).wf(ctx),
{
    if 1 <= h && h <= table.slots.len() {
        table.slots.set(h - 1, Slot::Free);
        proof {
            assert forall|ctx: RedisModuleCtx| old(table).wf(ctx) implies table.wf(ctx) by {
                assert forall|i: int|
                    0 <= i < table.slots@.len() implies match #[trigger] table.slots@[i] {
                    Slot::Free => true,
                    Slot::Key(k) => table.key_slot_wf(ctx, k),
                    Slot::Path(p) => table.path_slot_wf(ctx, p),
                } by {
                    if i != h - 1 {
                        assert(table.slots@[i] == old(table).slots@[i]);
                    }
                }
            }
        }
    }
}

/// Resolves the path expression `path` against the document behind the key
/// handle `h`. The null handle `0` is returned exactly when `h` is not a
/// live key handle, the expression is malformed, or nothing matches;
/// otherwise a fresh live path handle to the first match is returned.
#[allow(non_snake_case)]
pub fn JSONAPI_getPath(ctx: &RedisModuleCtx, table: &mut HandleTable, h: usize, path: &str) -> (r:
    usize)
    requires
        old(table).wf(*ctx),
        old(table).slots@.len() < usize::MAX,
    ensures
        final(table).wf(*ctx),
        r == 0 ==> *final(table) == *old(table),
        (r != 0) <==> (old(table).is_live_key(h) && (spec_parse_path(path@) matches Some(steps)
            && spec_resolve(old(table).doc_of(*ctx, h), steps) is Some)),
        r != 0 ==> r == old(table).slots@.len() + 1,
        r != 0 ==> final(table).slots@.len() == old(table).slots@.len() + 1,
        forall|i: int|
            0 <= i < old(table).slots@.len() ==> final(table).slots@[i] == old(table).slots@[i],
        r != 0 ==> final(table).is_live_path(r),
        r != 0 ==> final(table).path_of(r).parent == h,
        r != 0 ==> Some(final(table).path_of(r).steps.deep_view()) == spec_parse_path(path@),
        r != 0 ==> final(table).info_type(*ctx, r) == spec_json_type(
            spec_resolve(old(table).doc_of(*ctx, h), spec_parse_path(path@)->Some_0)->Some_0,
        ),
{
    if h < 1 || h > table.slots.len() {
        return 0;
    }
    let key_index: usize = match &table.slots[h - 1] {
        Slot::Key(k) => k.key_index,
        _ => {
            return 0;
        },
    };
    let steps = match parse_path(path) {
        Some(steps) => steps,
        None => {
            return 0;
        },
    };
    let doc: &JsonValue = match &ctx.keys[key_index].1 {
        Stored::Doc(d) => d,
        Stored::Other => {
            return 0;
        },
    };
    if resolve_first(doc, &steps).is_none() {
        return 0;
    }
    table.slots.push(Slot::Path(JSONApiPath { parent: h, steps }));
    let r = table.slots.len();
    proof {
        assert(table.slots@[r - 1] is Path);
        assert(table.is_live_key(h));
        assert(table.doc_of(*ctx, h) == old(table).doc_of(*ctx, h));
        assert forall|i: int|
            0 <= i < table.slots@.len() implies match #[trigger] table.slots@[i] {
            Slot::Free => true,
            Slot::Key(k) => table.key_slot_wf(*ctx, k),
            Slot::Path(p) => table.path_slot_wf(*ctx, p),
        } by {
            if i < r - 1 {
                assert(table.slots@[i] == old(table).slots@[i]);
                match table.slots@[i] {
                    Slot::Free => {},
                    Slot::Key(k) => {},
                    Slot::Path(p) => {
                        assert(old(table).path_slot_wf(*ctx, p));
                        if table.is_live_key(p.parent) {
                            assert(old(table).is_live_key(p.parent));
                            assert(table.doc_of(*ctx, p.parent) == old(table).doc_of(
                                *ctx,
                                p.parent,
                            ));
                        }
                    },
                }
            }
        }
    }
    r
}

/// Reports the type of the value behind `h` through the out-parameters:
/// the discriminant's wire code into `jtype`, and a size into `size`. Size
/// reporting is an extension point for variable-length types and is always
/// `0` here. The call itself is infallible — the status is always `0` — and
/// a null or stale handle yields the error discriminant in-band instead of
/// failing the call.
#[allow(non_snake_case)]
pub fn JSONAPI_getInfo(
    ctx: &RedisModuleCtx,
    table: &HandleTable,
    h: usize,
    jtype: &mut i32,
    size: &mut usize,
) -> (status: i32)
    requires
        table.wf(*ctx),
    ensures
        status == 0,
        *final(jtype) == spec_type_code(table.info_type(*ctx, h)),
        *final(size) == 0,
{
    let t: JSONType = info_lookup(ctx, table, h);
    *jtype = type_code(t);
    *size = 0;
    0
}

/// The introspected type of the value behind `h`, with the error
/// discriminant for the null handle and every stale handle.
fn info_lookup(ctx: &RedisModuleCtx, table: &HandleTable, h: usize) -> (t: JSONType)
    requires
        table.wf(*ctx),
    ensures
        t == table.info_type(*ctx, h),
{
    if h < 1 || h > table.slots.len() {
        return JSONType::Error;
    }
    match &table.slots[h - 1] {
        Slot::Free => JSONType::Error,
        Slot::Key(k) => {
            match &ctx.keys[k.key_index].1 {
                Stored::Doc(d) => json_type(d),
                Stored::Other => JSONType::Error,
            }
        },
        Slot::Path(p) => {
            if p.parent < 1 || p.parent > table.slots.len() {
                return JSONType::Error;
            }
            let key_index: usize = match &table.slots[p.parent - 1] {
                Slot::Key(k) => k.key_index,
                _ => {
                    return JSONType::Error;
                },
            };
            match &ctx.keys[key_index].1 {
                Stored::Doc(d) => {
                    match resolve_first(d, &p.steps) {
                        Some(v) => json_type(v),
                        None => JSONType::Error,
                    }
                },
                Stored::Other => JSONType::Error,
            }
        },
    }
}

/// A handle that is neither a live key handle nor a live path handle —
/// the null handle, a closed handle, or a path handle whose key handle was
/// closed — is always introspected as the error discriminant: a freed
/// handle can never reach a document again.
pub proof fn lemma_stale_handle_reports_err(table: HandleTable, ctx: RedisModuleCtx, h: usize)
    requires
        !table.is_live_key(h),
        !table.is_live_path(h),
    ensures
        table.info_type(ctx, h) == JSONType::Error,
{
}

/// The null handle is never live, and introspecting it reports the error
/// discriminant with the successful status, whatever the table holds.
pub proof fn lemma_null_handle_reports_err(table: HandleTable, ctx: RedisModuleCtx)
    ensures
        !table.is_live_key(0),
        !table.is_live_path(0),
        table.info_type(ctx, 0) == JSONType::Error,
{
}

} // verus!
