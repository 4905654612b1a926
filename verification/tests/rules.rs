use reedhold_host::{
    bind_address, byte_hex_text, company_hex, hex_digit_text, missing, prior_commit, repeat_text,
    require, require_mut, response_headers, same_text, talk_candidates, talk_setup, ContactBody,
    PlanBody, PutBody, ReactBody, SecretBody, Service,
};

fn hex(byte: u8) -> String {
    format!("{byte:02x}").repeat(32)
}

#[test]
fn prior_commit_defaults_to_zero_bytes() {
    let zeros = "00".repeat(32);
    assert_eq!(prior_commit(None), zeros);
    assert_eq!(prior_commit(Some("")), zeros);
    assert_eq!(prior_commit(Some("ab12")), "ab12");
    assert_eq!(prior_commit(Some(&prior_commit(None))), zeros);
}

#[test]
fn empty_company_is_none() {
    assert_eq!(company_hex(None), None);
    assert_eq!(company_hex(Some("")), None);
    let company = hex(99);
    assert_eq!(company_hex(Some(&company)), Some(company.as_str()));
}

#[test]
fn plan_body_resolves_defaults() {
    let body = PlanBody {
        epoch: 5,
        candidates: vec![hex(1), hex(2)],
        prior_commit: None,
        company: Some(String::new()),
        relay_count: Some(3),
    };
    let plan = body.resolve();
    assert_eq!(plan.epoch, 5);
    assert_eq!(plan.prior_commit, "00".repeat(32));
    assert_eq!(plan.candidates, vec![hex(1), hex(2)]);
    assert_eq!(plan.company, None);
    assert_eq!(plan.relay_count, Some(3));
    let body = PlanBody {
        epoch: 4,
        candidates: vec![],
        prior_commit: Some(hex(7)),
        company: Some(hex(99)),
        relay_count: None,
    };
    let plan = body.resolve();
    assert_eq!(plan.prior_commit, hex(7));
    assert_eq!(plan.company, Some(hex(99)));
    assert_eq!(plan.relay_count, None);
}

#[test]
fn talk_candidates_are_me_contacts_then_fallbacks() {
    let contacts = vec![hex(2), hex(3)];
    let candidates = talk_candidates(&hex(1), &contacts);
    let mut expected = vec![hex(1), hex(2), hex(3)];
    for byte in 10_u8..=16 {
        expected.push(hex(byte));
    }
    assert_eq!(candidates, expected);
    assert_eq!(candidates.len(), contacts.len() + 8);
    assert_eq!(candidates[3], "0a".repeat(32));
    assert_eq!(candidates[9], "10".repeat(32));
}

#[test]
fn talk_setup_decisions() {
    let contacts = vec![hex(2)];
    assert!(matches!(talk_setup(true, Some("me"), &contacts), Ok(None)));
    assert!(matches!(talk_setup(true, None, &contacts), Ok(None)));
    match talk_setup(false, None, &contacts) {
        Err(error) => assert_eq!(error, "no unlocked session"),
        Ok(_) => panic!("a talk net needs a session"),
    }
    match talk_setup(false, Some("me"), &contacts) {
        Ok(Some(plan)) => {
            assert_eq!(plan.epoch, 1);
            assert_eq!(plan.prior_commit, "00".repeat(32));
            assert_eq!(plan.company, None);
            assert_eq!(plan.relay_count, Some(2));
            assert_eq!(plan.candidates[0], "me");
            assert_eq!(plan.candidates[1], hex(2));
            assert_eq!(plan.candidates.len(), 9);
        }
        _ => panic!("expected a plan"),
    }
}

#[test]
fn missing_services_name_themselves() {
    assert_eq!(missing(Service::Session), "no unlocked session");
    assert_eq!(missing(Service::Market), "market is not open");
    assert_eq!(missing(Service::Chain), "chain is not open");
    assert_eq!(missing(Service::Durable), "durable grid is not open");
    assert_eq!(missing(Service::Reputation), "reputation book is not open");
    assert_eq!(missing(Service::Work), "work book is not open");
    assert_eq!(missing(Service::Talk), "talk net is not open");
}

#[test]
fn require_finds_or_refuses() {
    let open = Some(7_u32);
    assert_eq!(require(&open, Service::Work), Ok(&7));
    let closed: Option<u32> = None;
    assert_eq!(require(&closed, Service::Work), Err("work book is not open".to_owned()));
    let mut slot = Some(1_u32);
    if let Ok(value) = require_mut(&mut slot, Service::Chain) {
        *value = 2;
    }
    assert_eq!(slot, Some(2));
    let mut empty: Option<u32> = None;
    assert_eq!(require_mut(&mut empty, Service::Chain).err(), Some("chain is not open".to_owned()));
    assert_eq!(empty, None);
}

#[test]
fn body_defaults() {
    let secret = SecretBody {
        password: "pw".to_owned(),
        device_secret: hex(0xab),
        manifest_hex: None,
    };
    match secret.manifest() {
        Err(reply) => {
            assert_eq!(reply.status, 400);
            assert_eq!(reply.body, "{\"error\":\"manifest_hex is required\"}");
        }
        Ok(_) => panic!("manifest is required"),
    }
    let secret = SecretBody { manifest_hex: Some("beef".to_owned()), ..secret };
    assert_eq!(secret.manifest().ok(), Some("beef"));
    let put = PutBody { payload: "hello-grid".to_owned(), tier: None };
    assert_eq!(put.tier(), "critical");
    let put = PutBody { payload: "x".to_owned(), tier: Some("bulk".to_owned()) };
    assert_eq!(put.tier(), "bulk");
    let react = ReactBody {
        author: hex(1),
        target: hex(2),
        kind: "like".to_owned(),
        cluster: None,
        now: 3,
    };
    assert_eq!(react.cluster(), "");
    let contact =
        ContactBody { identity: hex(2), messaging_public: hex(3), petname: Some("Bob".to_owned()) };
    assert_eq!(contact.petname(), "Bob");
    let contact = ContactBody { petname: None, ..contact };
    assert_eq!(contact.petname(), "");
}

#[test]
fn listen_address_and_headers() {
    assert_eq!(bind_address(None), "127.0.0.1:4783");
    assert_eq!(bind_address(Some("0.0.0.0:9".to_owned())), "0.0.0.0:9");
    let headers = response_headers();
    assert_eq!(headers.len(), 4);
    assert_eq!(headers[0], ("Content-Type".to_owned(), "application/json".to_owned()));
    assert_eq!(headers[1], ("Access-Control-Allow-Origin".to_owned(), "*".to_owned()));
    assert_eq!(headers[2], ("Access-Control-Allow-Headers".to_owned(), "Content-Type".to_owned()));
    assert_eq!(
        headers[3],
        ("Access-Control-Allow-Methods".to_owned(), "GET, POST, OPTIONS".to_owned())
    );
}

#[test]
fn text_helpers() {
    assert!(same_text("GET", "GET"));
    assert!(!same_text("GET", "GETS"));
    assert!(!same_text("GET", "get"));
    assert_eq!(hex_digit_text(0), "0");
    assert_eq!(hex_digit_text(15), "f");
    assert_eq!(byte_hex_text(0xab), "ab");
    assert_eq!(byte_hex_text(7), "07");
    assert_eq!(repeat_text("ab", 3), "ababab");
    assert_eq!(repeat_text("x", 0), "");
}
