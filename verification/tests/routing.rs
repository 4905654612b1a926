use reedhold_host::{fixed_reply, route, Route};

#[test]
fn readme_routes() {
    assert_eq!(route("GET", "/health"), Route::Health);
    assert_eq!(route("GET", "/v1/invariants"), Route::Invariants);
    assert_eq!(route("GET", "/v1/advertising/limits"), Route::AdvertisingLimits);
    assert_eq!(route("POST", "/v1/account"), Route::Create);
    assert_eq!(route("POST", "/v1/account/restore"), Route::Restore);
    assert_eq!(route("GET", "/v1/account"), Route::Account);
    assert_eq!(route("POST", "/v1/account/emit"), Route::Emit);
    assert_eq!(route("POST", "/v1/account/verify"), Route::Verify);
    assert_eq!(route("POST", "/v1/account/password"), Route::Password);
}

#[test]
fn overlay_routes() {
    assert_eq!(route("POST", "/v1/sync/plan"), Route::SyncPlan);
    assert_eq!(route("POST", "/v1/talk/open"), Route::TalkOpen);
    assert_eq!(route("POST", "/v1/talk/group"), Route::TalkGroup);
    assert_eq!(route("GET", "/v1/talk/inbox"), Route::TalkInbox);
    assert_eq!(route("POST", "/v1/durable/kill"), Route::DurableKill);
    assert_eq!(route("POST", "/v1/chain/verify"), Route::ChainVerify);
    assert_eq!(route("POST", "/v1/rep/transfer"), Route::RepTransfer);
    assert_eq!(route("POST", "/v1/ads/select"), Route::AdsSelect);
    assert_eq!(route("POST", "/v1/work/view"), Route::WorkView);
    assert_eq!(route("POST", "/v1/alias/lookup"), Route::AliasLookup);
    assert_eq!(route("POST", "/v1/contacts"), Route::AddContact);
    assert_eq!(route("GET", "/v1/chats"), Route::Chats);
    assert_eq!(route("GET", "/v1/rooms"), Route::Rooms);
    assert_eq!(route("POST", "/v1/rooms/join"), Route::RoomsJoin);
}

#[test]
fn options_is_always_preflight() {
    for url in ["/health", "/v1/account", "/nope", ""] {
        assert_eq!(route("OPTIONS", url), Route::Preflight);
    }
}

#[test]
fn wrong_method_or_path_is_not_found() {
    assert_eq!(route("GET", "/nope"), Route::NotFound);
    assert_eq!(route("POST", "/health"), Route::NotFound);
    assert_eq!(route("GET", "/v1/account/emit"), Route::NotFound);
    assert_eq!(route("DELETE", "/v1/account"), Route::NotFound);
    assert_eq!(route("get", "/health"), Route::NotFound);
    assert_eq!(route("GET", "/health/"), Route::NotFound);
    let reply = fixed_reply(route("GET", "/nope")).expect("fixed");
    assert_eq!(reply.status, 404);
}

#[test]
fn health_answers_true() {
    let reply = fixed_reply(route("GET", "/health")).expect("fixed");
    assert_eq!(reply.status, 200);
    assert!(reply.body.contains("true"));
}
