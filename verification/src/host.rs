//! A model of the host store's context: the keyspace visible to this core,
//! the registry of exported capability tables, and the keyspace-notification
//! channel.
//!
//! The host serializes command execution, so one context value is threaded
//! through a whole command invocation; nothing here locks. A keyspace key
//! holds either a JSON document owned by this core's document type, or a
//! value of some other type that this core must refuse to open.

#![verifier::loop_isolation(false)]

use vstd::prelude::*;

use crate::capability::RedisJSONAPI_V1;
use crate::value::JsonValue;

verus! {

broadcast use vstd::string::group_string_axioms;

/// What a keyspace key holds, as far as this core can observe it: a JSON
/// document, or a value of some foreign type.
pub enum Stored {
    Doc(JsonValue),
    Other,
}

/// The event-kind flag set carried by a keyspace notification. The host
/// defines the meaning of each bit; this core forwards the set verbatim.
#[derive(Clone, Copy, Debug, PartialEq, Eq, Structural)]
pub struct NotifyEvent {
    pub flags: u32,
}

/// The host's answer to a notification request.
#[derive(Clone, Copy, Debug, PartialEq, Eq, Structural)]
pub enum Status {
    Success,
    Failure,
}

/// One keyspace event as handed to the host's notification channel: the
/// event-kind flags, a short event name, and the affected key's name.
pub struct NotifyRecord {
    pub event_type: NotifyEvent,
    pub event: String,
    pub key: String,
}

/// The host context: keyspace content, exported capability tables, and the
/// notification channel, as observed through this core's calls.
pub struct RedisModuleCtx {
    pub keys: Vec<(String, Stored)>,
    pub apis: Vec<(String, RedisJSONAPI_V1)>,
    pub events: Vec<NotifyRecord>,
}

/// The position of the first keyspace key named `name`, if any.
pub open spec fn spec_key_index(keys: Seq<(String, Stored)>, name: Seq<char>) -> Option<int>
    decreases keys.len(),
{
    if keys.len() == 0 {
        None
    } else if keys[0].0@ == name {
        Some(0)
    } else {
        match spec_key_index(keys.drop_first(), name) {
            Some(i) => Some(i + 1),
            None => None,
        }
    }
}

/// What the first keyspace key named `name` holds, if any.
pub open spec fn spec_key_lookup(keys: Seq<(String, Stored)>, name: Seq<char>) -> Option<Stored> {
    match spec_key_index(keys, name) {
        Some(i) => Some(keys[i].1),
        None => None,
    }
}

/// The document stored under `name`, when `name` exists and holds one.
pub open spec fn spec_key_doc(keys: Seq<(String, Stored)>, name: Seq<char>) -> Option<JsonValue> {
    match spec_key_lookup(keys, name) {
        Some(Stored::Doc(d)) => Some(d),
        _ => None,
    }
}

/// A found key index lies in range and names the key searched for.
pub proof fn lemma_key_index_in_range(keys: Seq<(String, Stored)>, name: Seq<char>)
    ensures
        match spec_key_index(keys, name) {
            Some(i) => 0 <= i < keys.len() && keys[i].0@ == name,
            None => true,
        },
    decreases keys.len(),
{
    if keys.len() > 0 && keys[0].0@ != name {
        lemma_key_index_in_range(keys.drop_first(), name);
    }
}

/// When the first key named `name` stands at `k`, the search finds exactly
/// `k`; when no key matches, it finds none.
pub proof fn lemma_key_index_at(keys: Seq<(String, Stored)>, name: Seq<char>, k: int)
    requires
        0 <= k <= keys.len(),
        forall|m: int| 0 <= m < k ==> keys[m].0@ != name,
        k < keys.len() ==> keys[k].0@ == name,
    ensures
        k < keys.len() ==> spec_key_index(keys, name) == Some(k),
        k == keys.len() ==> spec_key_index(keys, name) is None,
    decreases keys.len(),
{
    if keys.len() > 0 {
        if k > 0 {
            lemma_key_index_at(keys.drop_first(), name, k - 1);
        }
    }
}

impl RedisModuleCtx {
    /// A fresh context: empty keyspace, no exported tables, no events.
    pub fn new() -> (ctx: RedisModuleCtx)
        ensures
            ctx.keys@.len() == 0,
            ctx.apis@.len() == 0,
            ctx.events@.len() == 0,
    {
        RedisModuleCtx { keys: Vec::new(), apis: Vec::new(), events: Vec::new() }
    }

    /// The host stores `value` under a fresh or existing name; this model
    /// appends, and lookups keep answering for the first occurrence.
    pub fn add_key(&mut self, name: String, value: Stored)
        ensures
            final(self).keys@ == old(self).keys@.push((name, value)),
            final(self).apis == old(self).apis,
            final(self).events == old(self).events,
    {
        self.keys.push((name, value));
    }
}

/// Forwards one keyspace event to the host's notification channel, verbatim
/// and synchronously: exactly one record is appended per call, so a mutation
/// that notifies in its own call frame emits exactly one notification.
pub fn notify_keyspace_event(
    ctx: &mut RedisModuleCtx,
    event_type: NotifyEvent,
    event: &str,
    keyname: &str,
) -> (s: Status)
    ensures
        s == Status::Success,
        final(ctx).events@.len() == old(ctx).events@.len() + 1,
        forall|i: int|
            0 <= i < old(ctx).events@.len() ==> final(ctx).events@[i] == old(ctx).events@[i],
        final(ctx).events@.last().event_type == event_type,
        final(ctx).events@.last().event@ == event@,
        final(ctx).events@.last().key@ == keyname@,
        final(ctx).keys == old(ctx).keys,
        final(ctx).apis == old(ctx).apis,
{
    let record = NotifyRecord { event_type, event: event.to_string(), key: keyname.to_string() };
    ctx.events.push(record);
    Status::Success
}

} // verus!
