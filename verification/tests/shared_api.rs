use redisjson_api::capability::{api_name, export_shared_api, lookup_shared_api, RedisJSONAPI_V1};
use redisjson_api::handles::{
    HandleTable, JSONApiKey, JSONAPI_closeKey, JSONAPI_getInfo, JSONAPI_getPath, JSONAPI_openKey,
    OpenKeyError,
};
use redisjson_api::host::{notify_keyspace_event, NotifyEvent, RedisModuleCtx, Status, Stored};
use redisjson_api::value::JsonValue;

fn doc_xs() -> JsonValue {
    // {"x": [1, 2, 3]}
    JsonValue::Object(vec![(
        String::from("x"),
        JsonValue::Array(vec![JsonValue::Int(1), JsonValue::Int(2), JsonValue::Int(3)]),
    )])
}

fn ctx_with(keys: Vec<(&str, Stored)>) -> RedisModuleCtx {
    let mut ctx = RedisModuleCtx::new();
    for (name, value) in keys {
        ctx.add_key(String::from(name), value);
    }
    ctx
}

fn get_type(ctx: &RedisModuleCtx, table: &HandleTable, h: usize) -> (i32, i32, usize) {
    let mut jtype: i32 = -1;
    let mut size: usize = 99;
    let status = JSONAPI_getInfo(ctx, table, h, &mut jtype, &mut size);
    (status, jtype, size)
}

#[test]
fn open_missing_key_returns_null() {
    let ctx = ctx_with(vec![]);
    let mut table = HandleTable::new();
    assert_eq!(JSONAPI_openKey(&ctx, &mut table, "nope"), 0);
}

#[test]
fn open_wrong_type_returns_null() {
    let ctx = ctx_with(vec![("plain", Stored::Other)]);
    let mut table = HandleTable::new();
    assert_eq!(JSONAPI_openKey(&ctx, &mut table, "plain"), 0);
}

#[test]
fn open_document_key_returns_handle() {
    let ctx = ctx_with(vec![("doc", Stored::Doc(doc_xs()))]);
    let mut table = HandleTable::new();
    let h = JSONAPI_openKey(&ctx, &mut table, "doc");
    assert_ne!(h, 0);
}

#[test]
fn open_key_first_match_wins() {
    let ctx = ctx_with(vec![("k", Stored::Other), ("k", Stored::Doc(doc_xs()))]);
    let mut table = HandleTable::new();
    // the first key named "k" holds a non-document value
    assert_eq!(JSONAPI_openKey(&ctx, &mut table, "k"), 0);
}

#[test]
fn key_new_reports_missing_and_wrong_type() {
    let ctx = ctx_with(vec![("plain", Stored::Other), ("doc", Stored::Doc(doc_xs()))]);
    assert!(matches!(JSONApiKey::new(&ctx, "absent"), Err(OpenKeyError::NoSuchKey)));
    assert!(matches!(JSONApiKey::new(&ctx, "plain"), Err(OpenKeyError::WrongType)));
    assert!(JSONApiKey::new(&ctx, "doc").is_ok());
}

#[test]
fn closed_handle_is_rejected() {
    let ctx = ctx_with(vec![("doc", Stored::Doc(doc_xs()))]);
    let mut table = HandleTable::new();
    let h = JSONAPI_openKey(&ctx, &mut table, "doc");
    assert_ne!(h, 0);
    JSONAPI_closeKey(&mut table, h);
    // the closed handle is stale: resolution refuses it and introspection
    // reports the error discriminant
    assert_eq!(JSONAPI_getPath(&ctx, &mut table, h, "$.x"), 0);
    assert_eq!(get_type(&ctx, &table, h), (0, 7, 0));
    // closing again is tolerated as a no-op
    JSONAPI_closeKey(&mut table, h);
}

#[test]
fn close_tolerates_null_and_out_of_range() {
    let mut table = HandleTable::new();
    JSONAPI_closeKey(&mut table, 0);
    JSONAPI_closeKey(&mut table, 17);
}

#[test]
fn closing_key_handle_invalidates_path_handles() {
    let ctx = ctx_with(vec![("doc", Stored::Doc(doc_xs()))]);
    let mut table = HandleTable::new();
    let h = JSONAPI_openKey(&ctx, &mut table, "doc");
    let p = JSONAPI_getPath(&ctx, &mut table, h, "$.x");
    assert_ne!(p, 0);
    JSONAPI_closeKey(&mut table, h);
    assert_eq!(get_type(&ctx, &table, p), (0, 7, 0));
}

#[test]
fn get_path_match_reports_real_type() {
    // {"a": 1}, "$.a" resolves to an integer
    let doc = JsonValue::Object(vec![(String::from("a"), JsonValue::Int(1))]);
    let ctx = ctx_with(vec![("doc", Stored::Doc(doc))]);
    let mut table = HandleTable::new();
    let h = JSONAPI_openKey(&ctx, &mut table, "doc");
    let p = JSONAPI_getPath(&ctx, &mut table, h, "$.a");
    assert_ne!(p, 0);
    assert_eq!(get_type(&ctx, &table, p), (0, 1, 0));
}

#[test]
fn get_path_no_match_returns_null() {
    let ctx = ctx_with(vec![("doc", Stored::Doc(doc_xs()))]);
    let mut table = HandleTable::new();
    let h = JSONAPI_openKey(&ctx, &mut table, "doc");
    assert_eq!(JSONAPI_getPath(&ctx, &mut table, h, "$.y"), 0);
    assert_eq!(JSONAPI_getPath(&ctx, &mut table, h, "$.x[3]"), 0);
    assert_eq!(JSONAPI_getPath(&ctx, &mut table, h, "$.x.a"), 0);
}

#[test]
fn get_path_malformed_returns_null() {
    let ctx = ctx_with(vec![("doc", Stored::Doc(doc_xs()))]);
    let mut table = HandleTable::new();
    let h = JSONAPI_openKey(&ctx, &mut table, "doc");
    assert_eq!(JSONAPI_getPath(&ctx, &mut table, h, ""), 0);
    assert_eq!(JSONAPI_getPath(&ctx, &mut table, h, "x"), 0);
    assert_eq!(JSONAPI_getPath(&ctx, &mut table, h, "$."), 0);
    assert_eq!(JSONAPI_getPath(&ctx, &mut table, h, "$[]"), 0);
    assert_eq!(JSONAPI_getPath(&ctx, &mut table, h, "$[1"), 0);
    assert_eq!(JSONAPI_getPath(&ctx, &mut table, h, "$[4294967296]"), 0);
}

#[test]
fn get_path_rejects_invalid_handles() {
    let ctx = ctx_with(vec![("doc", Stored::Doc(doc_xs()))]);
    let mut table = HandleTable::new();
    let h = JSONAPI_openKey(&ctx, &mut table, "doc");
    assert_eq!(JSONAPI_getPath(&ctx, &mut table, 0, "$.x"), 0);
    assert_eq!(JSONAPI_getPath(&ctx, &mut table, h + 7, "$.x"), 0);
    // a path handle is not a key handle
    let p = JSONAPI_getPath(&ctx, &mut table, h, "$.x");
    assert_ne!(p, 0);
    assert_eq!(JSONAPI_getPath(&ctx, &mut table, p, "$[0]"), 0);
}

#[test]
fn get_info_null_handle_reports_err() {
    let ctx = ctx_with(vec![]);
    let table = HandleTable::new();
    let (status, jtype, size) = get_type(&ctx, &table, 0);
    assert_eq!(status, 0);
    assert_eq!(jtype, 7);
    assert_eq!(size, 0);
}

#[test]
fn get_info_on_key_handle_reports_document_type() {
    let ctx = ctx_with(vec![("doc", Stored::Doc(doc_xs()))]);
    let mut table = HandleTable::new();
    let h = JSONAPI_openKey(&ctx, &mut table, "doc");
    // the whole document is an object
    assert_eq!(get_type(&ctx, &table, h), (0, 4, 0));
}

#[test]
fn round_trip_array_document() {
    // open {"x":[1,2,3]}, resolve "$.x[1]" and "$.x", introspect both
    let ctx = ctx_with(vec![("doc", Stored::Doc(doc_xs()))]);
    let mut table = HandleTable::new();
    let h = JSONAPI_openKey(&ctx, &mut table, "doc");
    assert_ne!(h, 0);
    let p1 = JSONAPI_getPath(&ctx, &mut table, h, "$.x[1]");
    assert_ne!(p1, 0);
    assert_eq!(get_type(&ctx, &table, p1), (0, 1, 0)); // Int
    let p2 = JSONAPI_getPath(&ctx, &mut table, h, "$.x");
    assert_ne!(p2, 0);
    assert_eq!(get_type(&ctx, &table, p2), (0, 5, 0)); // Array
    JSONAPI_closeKey(&mut table, h);
}

#[test]
fn register_then_lookup_is_stable() {
    let mut ctx = RedisModuleCtx::new();
    let api = RedisJSONAPI_V1 { openKey: 11, getPath: 22, getInfo: 33, closeKey: 44 };
    assert!(lookup_shared_api(&ctx, api_name()).is_none());
    export_shared_api(&mut ctx, api);
    let first = lookup_shared_api(&ctx, "RedisJSON_V1").expect("registered table");
    let second = lookup_shared_api(&ctx, "RedisJSON_V1").expect("registered table");
    assert_eq!(first, api);
    assert_eq!(second, api);
    assert_eq!(first.openKey, 11);
    assert_eq!(first.getPath, 22);
    assert_eq!(first.getInfo, 33);
    assert_eq!(first.closeKey, 44);
    assert!(lookup_shared_api(&ctx, "RedisJSON_V2").is_none());
}

#[test]
fn notify_appends_exactly_one_event() {
    let mut ctx = RedisModuleCtx::new();
    let kind = NotifyEvent { flags: 0x8 };
    let s = notify_keyspace_event(&mut ctx, kind, "json.set", "doc");
    assert_eq!(s, Status::Success);
    assert_eq!(ctx.events.len(), 1);
    assert_eq!(ctx.events[0].event_type, kind);
    assert_eq!(ctx.events[0].event, "json.set");
    assert_eq!(ctx.events[0].key, "doc");
    notify_keyspace_event(&mut ctx, kind, "json.del", "doc");
    assert_eq!(ctx.events.len(), 2);
    assert_eq!(ctx.events[1].event, "json.del");
}
