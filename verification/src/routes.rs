//! URL dispatch table.

use crate::body::error_json_of;
use crate::reply::{not_found, ok_flag, preflight, Reply};
use crate::text::same_text;
use vstd::prelude::*;

verus! {

/// Where a request goes.
#[derive(Clone, Copy, Debug, PartialEq, Eq, Structural)]
pub enum Route {
    Preflight,
    Health,
    Invariants,
    AdvertisingLimits,
    Account,
    Manifest,
    History,
    TalkInbox,
    Chats,
    Rooms,
    Create,
    Restore,
    Emit,
    Verify,
    Password,
    Split,
    Combine,
    EmitSealed,
    OpenSealed,
    SyncPlan,
    TalkOpen,
    TalkGroup,
    DurableOpen,
    DurablePut,
    DurableGet,
    DurableKill,
    ChainOpen,
    ChainCommit,
    ChainProve,
    ChainVerify,
    RepOpen,
    RepTransfer,
    AdsOpen,
    AdsPost,
    AdsRegister,
    AdsBid,
    AdsClear,
    AdsSelect,
    WorkOpen,
    WorkRecord,
    WorkView,
    WorkTransfer,
    AliasClaim,
    AliasLookup,
    AddContact,
    RoomsJoin,
    RoomsPost,
    NotFound,
}

/// The route of a GET request for `url`.
pub open spec fn get_route_of(url: Seq<char>) -> Route {
    if url == "/health"@ {
        Route::Health
    } else if url == "/v1/invariants"@ {
        Route::Invariants
    } else if url == "/v1/advertising/limits"@ {
        Route::AdvertisingLimits
    } else if url == "/v1/account"@ {
        Route::Account
    } else if url == "/v1/account/manifest"@ {
        Route::Manifest
    } else if url == "/v1/account/history"@ {
        Route::History
    } else if url == "/v1/talk/inbox"@ {
        Route::TalkInbox
    } else if url == "/v1/chats"@ {
        Route::Chats
    } else if url == "/v1/rooms"@ {
        Route::Rooms
    } else {
        Route::NotFound
    }
}

/// The route of a POST request for `url`.
pub open spec fn post_route_of(url: Seq<char>) -> Route {
    if url == "/v1/account"@ {
        Route::Create
    } else if url == "/v1/account/restore"@ {
        Route::Restore
    } else if url == "/v1/account/emit"@ {
        Route::Emit
    } else if url == "/v1/account/verify"@ {
        Route::Verify
    } else if url == "/v1/account/password"@ {
        Route::Password
    } else if url == "/v1/account/split"@ {
        Route::Split
    } else if url == "/v1/account/combine"@ {
        Route::Combine
    } else if url == "/v1/account/sealed"@ {
        Route::EmitSealed
    } else if url == "/v1/account/open"@ {
        Route::OpenSealed
    } else if url == "/v1/sync/plan"@ {
        Route::SyncPlan
    } else if url == "/v1/talk/open"@ {
        Route::TalkOpen
    } else if url == "/v1/talk/group"@ {
        Route::TalkGroup
    } else if url == "/v1/durable/open"@ {
        Route::DurableOpen
    } else if url == "/v1/durable/put"@ {
        Route::DurablePut
    } else if url == "/v1/durable/get"@ {
        Route::DurableGet
    } else if url == "/v1/durable/kill"@ {
        Route::DurableKill
    } else if url == "/v1/chain/open"@ {
        Route::ChainOpen
    } else if url == "/v1/chain/commit"@ {
        Route::ChainCommit
    } else if url == "/v1/chain/prove"@ {
        Route::ChainProve
    } else if url == "/v1/chain/verify"@ {
        Route::ChainVerify
    } else if url == "/v1/rep/open"@ {
        Route::RepOpen
    } else if url == "/v1/rep/transfer"@ {
        Route::RepTransfer
    } else if url == "/v1/ads/open"@ {
        Route::AdsOpen
    } else if url == "/v1/ads/post"@ {
        Route::AdsPost
    } else if url == "/v1/ads/register"@ {
        Route::AdsRegister
    } else if url == "/v1/ads/bid"@ {
        Route::AdsBid
    } else if url == "/v1/ads/clear"@ {
        Route::AdsClear
    } else if url == "/v1/ads/select"@ {
        Route::AdsSelect
    } else if url == "/v1/work/open"@ {
        Route::WorkOpen
    } else if url == "/v1/work/record"@ {
        Route::WorkRecord
    } else if url == "/v1/work/view"@ {
        Route::WorkView
    } else if url == "/v1/work/transfer"@ {
        Route::WorkTransfer
    } else if url == "/v1/alias"@ {
        Route::AliasClaim
    } else if url == "/v1/alias/lookup"@ {
        Route::AliasLookup
    } else if url == "/v1/contacts"@ {
        Route::AddContact
    } else if url == "/v1/rooms/join"@ {
        Route::RoomsJoin
    } else if url == "/v1/rooms/post"@ {
        Route::RoomsPost
    } else {
        Route::NotFound
    }
}

/// The route of a request: every OPTIONS request is a preflight; GET and
/// POST go by the URL; anything else is not found.
pub open spec fn route_of(method: Seq<char>, url: Seq<char>) -> Route {
    if method == "OPTIONS"@ {
        Route::Preflight
    } else if method == "GET"@ {
        get_route_of(url)
    } else if method == "POST"@ {
        post_route_of(url)
    } else {
        Route::NotFound
    }
}

fn get_route(url: &str) -> (route: Route)
    ensures
        route == get_route_of(url@),
{
    if same_text(url, "/health") {
        return Route::Health;
    }
    if same_text(url, "/v1/invariants") {
        return Route::Invariants;
    }
    if same_text(url, "/v1/advertising/limits") {
        return Route::AdvertisingLimits;
    }
    if same_text(url, "/v1/account") {
        return Route::Account;
    }
    if same_text(url, "/v1/account/manifest") {
        return Route::Manifest;
    }
    if same_text(url, "/v1/account/history") {
        return Route::History;
    }
    if same_text(url, "/v1/talk/inbox") {
        return Route::TalkInbox;
    }
    if same_text(url, "/v1/chats") {
        return Route::Chats;
    }
    if same_text(url, "/v1/rooms") {
        return Route::Rooms;
    }
    Route::NotFound
}

fn post_route(url: &str) -> (route: Route)
    ensures
        route == post_route_of(url@),
{
    if same_text(url, "/v1/account") {
        return Route::Create;
    }
    if same_text(url, "/v1/account/restore") {
        return Route::Restore;
    }
    if same_text(url, "/v1/account/emit") {
        return Route::Emit;
    }
    if same_text(url, "/v1/account/verify") {
        return Route::Verify;
    }
    if same_text(url, "/v1/account/password") {
        return Route::Password;
    }
    if same_text(url, "/v1/account/split") {
        return Route::Split;
    }
    if same_text(url, "/v1/account/combine") {
        return Route::Combine;
    }
    if same_text(url, "/v1/account/sealed") {
        return Route::EmitSealed;
    }
    if same_text(url, "/v1/account/open") {
        return Route::OpenSealed;
    }
    if same_text(url, "/v1/sync/plan") {
        return Route::SyncPlan;
    }
    if same_text(url, "/v1/talk/open") {
        return Route::TalkOpen;
    }
    if same_text(url, "/v1/talk/group") {
        return Route::TalkGroup;
    }
    if same_text(url, "/v1/durable/open") {
        return Route::DurableOpen;
    }
    if same_text(url, "/v1/durable/put") {
        return Route::DurablePut;
    }
    if same_text(url, "/v1/durable/get") {
        return Route::DurableGet;
    }
    if same_text(url, "/v1/durable/kill") {
        return Route::DurableKill;
    }
    if same_text(url, "/v1/chain/open") {
        return Route::ChainOpen;
    }
    if same_text(url, "/v1/chain/commit") {
        return Route::ChainCommit;
    }
    if same_text(url, "/v1/chain/prove") {
        return Route::ChainProve;
    }
    if same_text(url, "/v1/chain/verify") {
        return Route::ChainVerify;
    }
    if same_text(url, "/v1/rep/open") {
        return Route::RepOpen;
    }
    if same_text(url, "/v1/rep/transfer") {
        return Route::RepTransfer;
    }
    if same_text(url, "/v1/ads/open") {
        return Route::AdsOpen;
    }
    if same_text(url, "/v1/ads/post") {
        return Route::AdsPost;
    }
    if same_text(url, "/v1/ads/register") {
        return Route::AdsRegister;
    }
    if same_text(url, "/v1/ads/bid") {
        return Route::AdsBid;
    }
    if same_text(url, "/v1/ads/clear") {
        return Route::AdsClear;
    }
    if same_text(url, "/v1/ads/select") {
        return Route::AdsSelect;
    }
    if same_text(url, "/v1/work/open") {
        return Route::WorkOpen;
    }
    if same_text(url, "/v1/work/record") {
        return Route::WorkRecord;
    }
    if same_text(url, "/v1/work/view") {
        return Route::WorkView;
    }
    if same_text(url, "/v1/work/transfer") {
        return Route::WorkTransfer;
    }
    if same_text(url, "/v1/alias") {
        return Route::AliasClaim;
    }
    if same_text(url, "/v1/alias/lookup") {
        return Route::AliasLookup;
    }
    if same_text(url, "/v1/contacts") {
        return Route::AddContact;
    }
    if same_text(url, "/v1/rooms/join") {
        return Route::RoomsJoin;
    }
    if same_text(url, "/v1/rooms/post") {
        return Route::RoomsPost;
    }
    Route::NotFound
}

/// Route one request by its method and URL.
pub fn route(method: &str, url: &str) -> (route: Route)
    ensures
        route == route_of(method@, url@),
{
    if same_text(method, "OPTIONS") {
        Route::Preflight
    } else if same_text(method, "GET") {
        get_route(url)
    } else if same_text(method, "POST") {
        post_route(url)
    } else {
        Route::NotFound
    }
}

/// Whether a route is answered without any state: the preflight, the
/// health check and the unknown route.
pub open spec fn is_fixed(route: Route) -> bool {
    route == Route::Preflight || route == Route::Health || route == Route::NotFound
}

/// The reply of a route that needs no state; `None` for every other route.
pub fn fixed_reply(route: Route) -> (reply: Option<Reply>)
    ensures
        reply is Some <==> is_fixed(route),
        reply is Some <==> (route == Route::Preflight || route == Route::Health || route
            == Route::NotFound),
        route == Route::Preflight ==> (reply matches Some(r) && r.status == 204 && r.body@.len() == 0),
        route == Route::Health ==> (reply matches Some(r) && r.status == 200 && r.body@ == "{\"ok\":true}"@),
        route == Route::NotFound ==> (reply matches Some(r) && r.status == 404 && r.body@ == error_json_of("not found"@)),
{
    match route {
        Route::Preflight => Some(preflight()),
        Route::Health => Some(ok_flag()),
        Route::NotFound => Some(not_found()),
        _ => None,
    }
}

/// Only the preflight, the health check and the unknown route are answered
/// without state; every other route, `GET /v1/account` among them, goes on
/// to its handler.
pub proof fn law_fixed_routes_only(route: Route)
    ensures
        is_fixed(route) <==> (route == Route::Preflight || route == Route::Health || route
            == Route::NotFound),
        is_fixed(route_of("GET"@, "/v1/account"@)) == false,
{
    reveal_strlit("GET");
    reveal_strlit("OPTIONS");
    assert("GET"@[0] != "OPTIONS"@[0]);
    reveal_strlit("/v1/account");
    reveal_strlit("/health");
    reveal_strlit("/v1/invariants");
    reveal_strlit("/v1/advertising/limits");
    assert("/v1/account"@.len() == 11);
    assert("/health"@.len() == 7);
    assert("/v1/invariants"@.len() == 14);
    assert("/v1/advertising/limits"@.len() == 22);
}

/// A preflight is answered the same way whatever the URL.
pub proof fn law_options_is_preflight(url: Seq<char>)
    ensures
        route_of("OPTIONS"@, url) == Route::Preflight,
{
}

/// A method other than OPTIONS, GET and POST is never routed.
pub proof fn law_other_methods_not_found(method: Seq<char>, url: Seq<char>)
    requires
        method != "OPTIONS"@,
        method != "GET"@,
        method != "POST"@,
    ensures
        route_of(method, url) == Route::NotFound,
{
}

/// Whether a route is reached by GET (the others by POST, OPTIONS or none).
pub open spec fn is_read(route: Route) -> bool {
    match route {
        Route::Health => true,
        Route::Invariants => true,
        Route::AdvertisingLimits => true,
        Route::Account => true,
        Route::Manifest => true,
        Route::History => true,
        Route::TalkInbox => true,
        Route::Chats => true,
        Route::Rooms => true,
        _ => false,
    }
}

/// The URL of a route; empty for the preflight and the unknown route.
pub open spec fn url_of(route: Route) -> Seq<char> {
    match route {
        Route::Account => "/v1/account"@,
        Route::AddContact => "/v1/contacts"@,
        Route::AdsBid => "/v1/ads/bid"@,
        Route::AdsClear => "/v1/ads/clear"@,
        Route::AdsOpen => "/v1/ads/open"@,
        Route::AdsPost => "/v1/ads/post"@,
        Route::AdsRegister => "/v1/ads/register"@,
        Route::AdsSelect => "/v1/ads/select"@,
        Route::AdvertisingLimits => "/v1/advertising/limits"@,
        Route::AliasClaim => "/v1/alias"@,
        Route::AliasLookup => "/v1/alias/lookup"@,
        Route::ChainCommit => "/v1/chain/commit"@,
        Route::ChainOpen => "/v1/chain/open"@,
        Route::ChainProve => "/v1/chain/prove"@,
        Route::ChainVerify => "/v1/chain/verify"@,
        Route::Chats => "/v1/chats"@,
        Route::Combine => "/v1/account/combine"@,
        Route::Create => "/v1/account"@,
        Route::DurableGet => "/v1/durable/get"@,
        Route::DurableKill => "/v1/durable/kill"@,
        Route::DurableOpen => "/v1/durable/open"@,
        Route::DurablePut => "/v1/durable/put"@,
        Route::Emit => "/v1/account/emit"@,
        Route::EmitSealed => "/v1/account/sealed"@,
        Route::Health => "/health"@,
        Route::History => "/v1/account/history"@,
        Route::Invariants => "/v1/invariants"@,
        Route::Manifest => "/v1/account/manifest"@,
        Route::OpenSealed => "/v1/account/open"@,
        Route::Password => "/v1/account/password"@,
        Route::RepOpen => "/v1/rep/open"@,
        Route::RepTransfer => "/v1/rep/transfer"@,
        Route::Restore => "/v1/account/restore"@,
        Route::Rooms => "/v1/rooms"@,
        Route::RoomsJoin => "/v1/rooms/join"@,
        Route::RoomsPost => "/v1/rooms/post"@,
        Route::Split => "/v1/account/split"@,
        Route::SyncPlan => "/v1/sync/plan"@,
        Route::TalkGroup => "/v1/talk/group"@,
        Route::TalkInbox => "/v1/talk/inbox"@,
        Route::TalkOpen => "/v1/talk/open"@,
        Route::Verify => "/v1/account/verify"@,
        Route::WorkOpen => "/v1/work/open"@,
        Route::WorkRecord => "/v1/work/record"@,
        Route::WorkTransfer => "/v1/work/transfer"@,
        Route::WorkView => "/v1/work/view"@,
        Route::Preflight => Seq::empty(),
        Route::NotFound => Seq::empty(),
    }
}

/// The method and URL that reach a route. The preflight and the unknown
/// route have no URL of their own.
pub open spec fn endpoint(route: Route) -> (Seq<char>, Seq<char>) {
    if route == Route::Preflight {
        ("OPTIONS"@, Seq::empty())
    } else if route == Route::NotFound {
        (Seq::empty(), Seq::empty())
    } else if is_read(route) {
        ("GET"@, url_of(route))
    } else {
        ("POST"@, url_of(route))
    }
}

/// The route table is one to one: every endpoint reaches its own route,
/// and a request reaches a route only by that route's method and URL.
pub proof fn law_routes_one_to_one(method: Seq<char>, url: Seq<char>)
    ensures
        forall|r: Route| r != Route::Preflight && r != Route::NotFound ==>
            route_of(#[trigger] endpoint(r).0, endpoint(r).1) == r,
        ({
            let r = route_of(method, url);
            r != Route::Preflight && r != Route::NotFound ==> method == endpoint(r).0 && url
                == endpoint(r).1
        }),
{
    reveal_strlit("/health");
    reveal_strlit("/v1/account");
    reveal_strlit("/v1/account/combine");
    reveal_strlit("/v1/account/emit");
    reveal_strlit("/v1/account/history");
    reveal_strlit("/v1/account/manifest");
    reveal_strlit("/v1/account/open");
    reveal_strlit("/v1/account/password");
    reveal_strlit("/v1/account/restore");
    reveal_strlit("/v1/account/sealed");
    reveal_strlit("/v1/account/split");
    reveal_strlit("/v1/account/verify");
    reveal_strlit("/v1/ads/bid");
    reveal_strlit("/v1/ads/clear");
    reveal_strlit("/v1/ads/open");
    reveal_strlit("/v1/ads/post");
    reveal_strlit("/v1/ads/register");
    reveal_strlit("/v1/ads/select");
    reveal_strlit("/v1/advertising/limits");
    reveal_strlit("/v1/alias");
    reveal_strlit("/v1/alias/lookup");
    reveal_strlit("/v1/chain/commit");
    reveal_strlit("/v1/chain/open");
    reveal_strlit("/v1/chain/prove");
    reveal_strlit("/v1/chain/verify");
    reveal_strlit("/v1/chats");
    reveal_strlit("/v1/contacts");
    reveal_strlit("/v1/durable/get");
    reveal_strlit("/v1/durable/kill");
    reveal_strlit("/v1/durable/open");
    reveal_strlit("/v1/durable/put");
    reveal_strlit("/v1/invariants");
    reveal_strlit("/v1/rep/open");
    reveal_strlit("/v1/rep/transfer");
    reveal_strlit("/v1/rooms");
    reveal_strlit("/v1/rooms/join");
    reveal_strlit("/v1/rooms/post");
    reveal_strlit("/v1/sync/plan");
    reveal_strlit("/v1/talk/group");
    reveal_strlit("/v1/talk/inbox");
    reveal_strlit("/v1/talk/open");
    reveal_strlit("/v1/work/open");
    reveal_strlit("/v1/work/record");
    reveal_strlit("/v1/work/transfer");
    reveal_strlit("/v1/work/view");
    reveal_strlit("GET");
    reveal_strlit("OPTIONS");
    reveal_strlit("POST");
    assert("/health"@.len() == 7);
    assert("/v1/account"@.len() == 11);
    assert("/v1/account/combine"@.len() == 19);
    assert("/v1/account/emit"@.len() == 16);
    assert("/v1/account/history"@.len() == 19);
    assert("/v1/account/manifest"@.len() == 20);
    assert("/v1/account/open"@.len() == 16);
    assert("/v1/account/password"@.len() == 20);
    assert("/v1/account/restore"@.len() == 19);
    assert("/v1/account/sealed"@.len() == 18);
    assert("/v1/account/split"@.len() == 17);
    assert("/v1/account/verify"@.len() == 18);
    assert("/v1/ads/bid"@.len() == 11);
    assert("/v1/ads/clear"@.len() == 13);
    assert("/v1/ads/open"@.len() == 12);
    assert("/v1/ads/post"@.len() == 12);
    assert("/v1/ads/register"@.len() == 16);
    assert("/v1/ads/select"@.len() == 14);
    assert("/v1/advertising/limits"@.len() == 22);
    assert("/v1/alias"@.len() == 9);
    assert("/v1/alias/lookup"@.len() == 16);
    assert("/v1/chain/commit"@.len() == 16);
    assert("/v1/chain/open"@.len() == 14);
    assert("/v1/chain/prove"@.len() == 15);
    assert("/v1/chain/verify"@.len() == 16);
    assert("/v1/chats"@.len() == 9);
    assert("/v1/contacts"@.len() == 12);
    assert("/v1/durable/get"@.len() == 15);
    assert("/v1/durable/kill"@.len() == 16);
    assert("/v1/durable/open"@.len() == 16);
    assert("/v1/durable/put"@.len() == 15);
    assert("/v1/invariants"@.len() == 14);
    assert("/v1/rep/open"@.len() == 12);
    assert("/v1/rep/transfer"@.len() == 16);
    assert("/v1/rooms"@.len() == 9);
    assert("/v1/rooms/join"@.len() == 14);
    assert("/v1/rooms/post"@.len() == 14);
    assert("/v1/sync/plan"@.len() == 13);
    assert("/v1/talk/group"@.len() == 14);
    assert("/v1/talk/inbox"@.len() == 14);
    assert("/v1/talk/open"@.len() == 13);
    assert("/v1/work/open"@.len() == 13);
    assert("/v1/work/record"@.len() == 15);
    assert("/v1/work/transfer"@.len() == 17);
    assert("/v1/work/view"@.len() == 13);
    // URLs of one length differ from each other at some character.
    assert("/v1/talk/inbox"@[4] != "/v1/invariants"@[4]);
    assert("/v1/rooms"@[4] != "/v1/chats"@[4]);
    assert("/v1/account/combine"@[12] != "/v1/account/restore"@[12]);
    assert("/v1/account/sealed"@[12] != "/v1/account/verify"@[12]);
    assert("/v1/account/open"@[12] != "/v1/account/emit"@[12]);
    assert("/v1/talk/open"@[4] != "/v1/sync/plan"@[4]);
    assert("/v1/durable/open"@[4] != "/v1/account/emit"@[4]);
    assert("/v1/durable/open"@[4] != "/v1/account/open"@[4]);
    assert("/v1/durable/get"@[12] != "/v1/durable/put"@[12]);
    assert("/v1/durable/kill"@[4] != "/v1/account/emit"@[4]);
    assert("/v1/durable/kill"@[4] != "/v1/account/open"@[4]);
    assert("/v1/durable/kill"@[12] != "/v1/durable/open"@[12]);
    assert("/v1/chain/open"@[4] != "/v1/talk/group"@[4]);
    assert("/v1/chain/commit"@[4] != "/v1/account/emit"@[4]);
    assert("/v1/chain/commit"@[4] != "/v1/account/open"@[4]);
    assert("/v1/chain/commit"@[4] != "/v1/durable/open"@[4]);
    assert("/v1/chain/commit"@[4] != "/v1/durable/kill"@[4]);
    assert("/v1/chain/prove"@[4] != "/v1/durable/put"@[4]);
    assert("/v1/chain/prove"@[4] != "/v1/durable/get"@[4]);
    assert("/v1/chain/verify"@[4] != "/v1/account/emit"@[4]);
    assert("/v1/chain/verify"@[4] != "/v1/account/open"@[4]);
    assert("/v1/chain/verify"@[4] != "/v1/durable/open"@[4]);
    assert("/v1/chain/verify"@[4] != "/v1/durable/kill"@[4]);
    assert("/v1/chain/verify"@[10] != "/v1/chain/commit"@[10]);
    assert("/v1/rep/transfer"@[4] != "/v1/account/emit"@[4]);
    assert("/v1/rep/transfer"@[4] != "/v1/account/open"@[4]);
    assert("/v1/rep/transfer"@[4] != "/v1/durable/open"@[4]);
    assert("/v1/rep/transfer"@[4] != "/v1/durable/kill"@[4]);
    assert("/v1/rep/transfer"@[4] != "/v1/chain/commit"@[4]);
    assert("/v1/rep/transfer"@[4] != "/v1/chain/verify"@[4]);
    assert("/v1/ads/open"@[4] != "/v1/rep/open"@[4]);
    assert("/v1/ads/post"@[4] != "/v1/rep/open"@[4]);
    assert("/v1/ads/post"@[8] != "/v1/ads/open"@[8]);
    assert("/v1/ads/register"@[5] != "/v1/account/emit"@[5]);
    assert("/v1/ads/register"@[5] != "/v1/account/open"@[5]);
    assert("/v1/ads/register"@[4] != "/v1/durable/open"@[4]);
    assert("/v1/ads/register"@[4] != "/v1/durable/kill"@[4]);
    assert("/v1/ads/register"@[4] != "/v1/chain/commit"@[4]);
    assert("/v1/ads/register"@[4] != "/v1/chain/verify"@[4]);
    assert("/v1/ads/register"@[4] != "/v1/rep/transfer"@[4]);
    assert("/v1/ads/bid"@[5] != "/v1/account"@[5]);
    assert("/v1/ads/clear"@[4] != "/v1/sync/plan"@[4]);
    assert("/v1/ads/clear"@[4] != "/v1/talk/open"@[4]);
    assert("/v1/ads/select"@[4] != "/v1/talk/group"@[4]);
    assert("/v1/ads/select"@[4] != "/v1/chain/open"@[4]);
    assert("/v1/work/open"@[4] != "/v1/sync/plan"@[4]);
    assert("/v1/work/open"@[4] != "/v1/talk/open"@[4]);
    assert("/v1/work/open"@[4] != "/v1/ads/clear"@[4]);
    assert("/v1/work/record"@[4] != "/v1/durable/put"@[4]);
    assert("/v1/work/record"@[4] != "/v1/durable/get"@[4]);
    assert("/v1/work/record"@[4] != "/v1/chain/prove"@[4]);
    assert("/v1/work/view"@[4] != "/v1/sync/plan"@[4]);
    assert("/v1/work/view"@[4] != "/v1/talk/open"@[4]);
    assert("/v1/work/view"@[4] != "/v1/ads/clear"@[4]);
    assert("/v1/work/view"@[9] != "/v1/work/open"@[9]);
    assert("/v1/work/transfer"@[4] != "/v1/account/split"@[4]);
    assert("/v1/alias/lookup"@[5] != "/v1/account/emit"@[5]);
    assert("/v1/alias/lookup"@[5] != "/v1/account/open"@[5]);
    assert("/v1/alias/lookup"@[4] != "/v1/durable/open"@[4]);
    assert("/v1/alias/lookup"@[4] != "/v1/durable/kill"@[4]);
    assert("/v1/alias/lookup"@[4] != "/v1/chain/commit"@[4]);
    assert("/v1/alias/lookup"@[4] != "/v1/chain/verify"@[4]);
    assert("/v1/alias/lookup"@[4] != "/v1/rep/transfer"@[4]);
    assert("/v1/alias/lookup"@[5] != "/v1/ads/register"@[5]);
    assert("/v1/contacts"@[4] != "/v1/rep/open"@[4]);
    assert("/v1/contacts"@[4] != "/v1/ads/open"@[4]);
    assert("/v1/contacts"@[4] != "/v1/ads/post"@[4]);
    assert("/v1/rooms/join"@[4] != "/v1/talk/group"@[4]);
    assert("/v1/rooms/join"@[4] != "/v1/chain/open"@[4]);
    assert("/v1/rooms/join"@[4] != "/v1/ads/select"@[4]);
    assert("/v1/rooms/post"@[4] != "/v1/talk/group"@[4]);
    assert("/v1/rooms/post"@[4] != "/v1/chain/open"@[4]);
    assert("/v1/rooms/post"@[4] != "/v1/ads/select"@[4]);
    assert("/v1/rooms/post"@[10] != "/v1/rooms/join"@[10]);
    assert("GET"@[0] != "OPTIONS"@[0]);
    assert("POST"@[0] != "OPTIONS"@[0]);
    assert("POST"@[0] != "GET"@[0]);
    assert forall|r: Route| r != Route::Preflight && r != Route::NotFound implies route_of(
        #[trigger] endpoint(r).0,
        endpoint(r).1,
    ) == r by {}
}

} // verus!
