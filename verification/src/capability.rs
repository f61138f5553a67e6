//! The exported capability table and its registry.
//!
//! The four entry points of the shared surface are published as one
//! immutable table of opaque entry-point addresses, registered once under a
//! fixed, versioned name. Foreign extensions resolve the table by that name
//! and cache it; an incompatible layout must therefore register under a new
//! version tag, never mutate a published table.

#![verifier::loop_isolation(false)]

use vstd::prelude::*;

use crate::host::RedisModuleCtx;
use crate::path::str_eq;

verus! {

/// The versioned capability table: one opaque entry-point address per
/// operation of the shared surface, in a fixed field order that is part of
/// the published ABI. Callers never interpret an address; they only call
/// through it.
#[allow(non_camel_case_types)]
#[allow(non_snake_case)]
#[derive(Clone, Copy, Debug, PartialEq, Eq, Structural)]
pub struct RedisJSONAPI_V1 {
    pub openKey: usize,
    pub getPath: usize,
    pub getInfo: usize,
    pub closeKey: usize,
}

/// The fixed name, version tag included, under which the table is exported.
pub open spec fn spec_api_name() -> Seq<char> {
    "RedisJSON_V1"@
}

/// The fixed registration name of the capability table.
pub fn api_name() -> (r: &'static str)
    ensures
        r@ == spec_api_name(),
{
    "RedisJSON_V1"
}

/// The table registered first under `name`, if any: a registered table is
/// never replaced by a later registration under the same name.
pub open spec fn spec_lookup_api(
    apis: Seq<(String, RedisJSONAPI_V1)>,
    name: Seq<char>,
) -> Option<RedisJSONAPI_V1>
    decreases apis.len(),
{
    if apis.len() == 0 {
        None
    } else if apis[0].0@ == name {
        Some(apis[0].1)
    } else {
        spec_lookup_api(apis.drop_first(), name)
    }
}

/// When the first registration under `name` stands at `k`, the lookup
/// yields exactly its table; when none does, it yields none.
proof fn lemma_lookup_api_at(apis: Seq<(String, RedisJSONAPI_V1)>, name: Seq<char>, k: int)
    requires
        0 <= k <= apis.len(),
        forall|m: int| 0 <= m < k ==> apis[m].0@ != name,
        k < apis.len() ==> apis[k].0@ == name,
    ensures
        k < apis.len() ==> spec_lookup_api(apis, name) == Some(apis[k].1),
        k == apis.len() ==> spec_lookup_api(apis, name) is None,
    decreases apis.len(),
{
    if apis.len() > 0 && k > 0 {
        lemma_lookup_api_at(apis.drop_first(), name, k - 1);
    }
}

/// Registers the capability table under the fixed versioned name. Pure
/// registration: one entry is appended and nothing else moves.
pub fn export_shared_api(ctx: &mut RedisModuleCtx, api: RedisJSONAPI_V1)
    ensures
        final(ctx).apis@.len() == old(ctx).apis@.len() + 1,
        forall|i: int| 0 <= i < old(ctx).apis@.len() ==> final(ctx).apis@[i] == old(ctx).apis@[i],
        final(ctx).apis@.last().0@ == spec_api_name(),
        final(ctx).apis@.last().1 == api,
        final(ctx).keys == old(ctx).keys,
        final(ctx).events == old(ctx).events,
{
    let name = api_name().to_string();
    ctx.apis.push((name, api));
}

/// Resolves a capability table by name, as an independent extension would.
/// The result is a pure function of the registry, so repeated lookups in an
/// unchanged process yield the same table and the same entry-point
/// addresses.
pub fn lookup_shared_api(ctx: &RedisModuleCtx, name: &str) -> (r: Option<RedisJSONAPI_V1>)
    ensures
        r == spec_lookup_api(ctx.apis@, name@),
{
    let mut k: usize = 0;
    while k < ctx.apis.len()
        invariant
            k <= ctx.apis@.len(),
            forall|m: int| 0 <= m < k ==> ctx.apis@[m].0@ != name@,
        decreases ctx.apis@.len() - k,
    {
        if str_eq(ctx.apis[k].0.as_str(), name) {
            proof {
                lemma_lookup_api_at(ctx.apis@, name@, k as int);
            }
            return Some(ctx.apis[k].1);
        }
        k = k + 1;
    }
    proof {
        lemma_lookup_api_at(ctx.apis@, name@, ctx.apis@.len() as int);
    }
    None
}

/// Registering a table under a name that is not yet taken, then looking
/// that name up, yields exactly the registered table; and because a lookup
/// is a pure function of the registry, every later lookup in an unchanged
/// registry yields that same table again.
pub proof fn lemma_register_then_lookup(
    apis: Seq<(String, RedisJSONAPI_V1)>,
    entry: (String, RedisJSONAPI_V1),
)
    requires
        spec_lookup_api(apis, entry.0@) is None,
    ensures
        spec_lookup_api(apis.push(entry), entry.0@) == Some(entry.1),
    decreases apis.len(),
{
    if apis.len() == 0 {
        assert(apis.push(entry)[0] == entry);
    } else {
        assert(apis.push(entry)[0] == apis[0]);
        assert(apis.push(entry).drop_first() =~= apis.drop_first().push(entry));
        lemma_register_then_lookup(apis.drop_first(), entry);
    }
}

} // verus!
