use jaxon::code::code_entry;
use jaxon::products::ProductKind;
use jaxon::roblox::api::{
    build_form, create_gamepass, create_product, is_success, update_gamepass, update_product,
    Action, Event, Exchange, Method, Operation, Phase, RemoteError, RemoteInfo, Stage,
    BACKOFF_STEP_MILLIS, MAX_ATTEMPTS, TOKEN_POLL_MILLIS, TOO_MANY_REQUESTS,
};
use jaxon::roblox::json::{decode_gamepass, decode_product, find_member, JsonMember, JsonScalar};
use jaxon::roblox::{
    gamepass_info_url, gamepass_update_url, gamepass_url, product_info_url, product_update_url,
    product_url, Product,
};

fn shield() -> Product {
    Product {
        name: "Shield".to_string(),
        description: "Blocks".to_string(),
        image_file: "assets/shield.png".to_string(),
        price: 250,
        regional_pricing: true,
    }
}

fn granted() -> Event {
    Event::Token { granted: true }
}

fn reply(status: u16, body: &str) -> Event {
    Event::Reply { status, body: body.to_string() }
}

#[test]
fn addresses_of_the_collections() {
    assert_eq!(
        product_url(77),
        "https://apis.roblox.com/developer-products/v2/universes/77/developer-products"
    );
    assert_eq!(gamepass_url(77), "https://apis.roblox.com/game-passes/v1/universes/77/game-passes");
}

#[test]
fn addresses_of_single_items() {
    assert_eq!(
        product_update_url(77, 555),
        "https://apis.roblox.com/developer-products/v2/universes/77/developer-products/555"
    );
    assert_eq!(
        gamepass_update_url(77, 555),
        "https://apis.roblox.com/game-passes/v1/universes/77/game-passes/555"
    );
}

#[test]
fn addresses_of_item_descriptions() {
    assert_eq!(
        product_info_url(77, 555),
        "https://apis.roblox.com/developer-products/v2/universes/77/developer-products/555/creator"
    );
    assert_eq!(
        gamepass_info_url(77, 555),
        "https://apis.roblox.com/game-passes/v1/universes/77/game-passes/555/creator"
    );
}

#[test]
fn addresses_render_negative_and_large_identifiers() {
    assert_eq!(
        gamepass_update_url(-3, i64::MAX),
        "https://apis.roblox.com/game-passes/v1/universes/-3/game-passes/9223372036854775807"
    );
}

#[test]
fn success_is_the_range_from_200_to_299() {
    assert!(!is_success(199));
    assert!(is_success(200));
    assert!(is_success(204));
    assert!(is_success(299));
    assert!(!is_success(300));
    assert!(!is_success(429));
    assert!(!is_success(0));
    assert!(!is_success(u16::MAX));
}

#[test]
fn the_constants_of_the_retry_policy() {
    assert_eq!(MAX_ATTEMPTS, 5);
    assert_eq!(BACKOFF_STEP_MILLIS, 1000);
    assert_eq!(TOKEN_POLL_MILLIS, 50);
    assert_eq!(TOO_MANY_REQUESTS, 429);
}

#[test]
fn a_form_holds_the_five_text_fields_in_order() {
    let form = build_form(&shield(), false);
    let fields: Vec<(&str, &str)> =
        form.fields.iter().map(|f| (f.name.as_str(), f.value.as_str())).collect();
    assert_eq!(
        fields,
        vec![
            ("name", "Shield"),
            ("description", "Blocks"),
            ("price", "250"),
            ("isForSale", "true"),
            ("isRegionalPricingEnabled", "true"),
        ]
    );
}

#[test]
fn a_form_writes_a_flag_that_is_off() {
    let mut data = shield();
    data.regional_pricing = false;
    data.price = -1;
    let form = build_form(&data, true);
    assert_eq!(form.fields[2].value, "-1");
    assert_eq!(form.fields[4].name, "isRegionalPricingEnabled");
    assert_eq!(form.fields[4].value, "false");
}

#[test]
fn an_image_that_exists_is_attached() {
    let form = build_form(&shield(), true);
    assert_eq!(form.image_file, Some("assets/shield.png".to_string()));
}

#[test]
fn an_image_that_is_missing_is_left_out() {
    let form = build_form(&shield(), false);
    assert_eq!(form.image_file, None);
    assert_eq!(form.fields.len(), 5);
}

#[test]
fn an_empty_image_path_is_left_out() {
    let mut data = shield();
    data.image_file = String::new();
    assert_eq!(build_form(&data, true).image_file, None);
    assert_eq!(build_form(&data, false).image_file, None);
}

#[test]
fn a_reply_about_a_product_is_decoded() {
    let info = decode_product(r#"{"productId": 555, "name": "Sword", "iconImageAssetId": 9}"#)
        .unwrap();
    assert_eq!(info.product_id, 555);
    assert_eq!(info.name, "Sword");
    assert_eq!(info.icon_image_asset_id, Some(9));
}

#[test]
fn a_reply_about_a_game_pass_is_decoded() {
    let info =
        decode_gamepass(r#"{"gamePassId": 12, "name": "VIP", "iconAssetId": 0}"#).unwrap();
    assert_eq!(info.game_pass_id, 12);
    assert_eq!(info.name, "VIP");
    assert_eq!(info.icon_asset_id, Some(0));
}

#[test]
fn members_that_a_reply_is_not_read_for_are_ignored() {
    let body = r#"{"extra": [1, 2], "name": "Sword", "nested": {"productId": 1}, "flag": true, "productId": -4}"#;
    let info = decode_product(body).unwrap();
    assert_eq!(info.product_id, -4);
    assert_eq!(info.name, "Sword");
    assert_eq!(info.icon_image_asset_id, None);
}

#[test]
fn an_icon_that_is_missing_or_null_is_absent() {
    let missing = decode_product(r#"{"productId": 1, "name": "a"}"#).unwrap();
    assert_eq!(missing.icon_image_asset_id, None);
    let null = decode_product(r#"{"productId": 1, "name": "a", "iconImageAssetId": null}"#)
        .unwrap();
    assert_eq!(null.icon_image_asset_id, None);
    let pass = decode_gamepass(r#"{"gamePassId": 1, "name": "a", "iconAssetId": null}"#).unwrap();
    assert_eq!(pass.icon_asset_id, None);
}

#[test]
fn a_reply_without_identifier_or_name_is_malformed() {
    assert!(decode_product(r#"{"name": "Sword"}"#).is_none());
    assert!(decode_product(r#"{"productId": 5}"#).is_none());
    assert!(decode_product(r#"{}"#).is_none());
    assert!(decode_gamepass(r#"{"productId": 5, "name": "Sword"}"#).is_none());
    assert!(decode_product(r#"{"gamePassId": 5, "name": "Sword"}"#).is_none());
}

#[test]
fn a_reply_with_members_of_the_wrong_type_is_malformed() {
    assert!(decode_product(r#"{"productId": "5", "name": "Sword"}"#).is_none());
    assert!(decode_product(r#"{"productId": 5.5, "name": "Sword"}"#).is_none());
    assert!(decode_product(r#"{"productId": null, "name": "Sword"}"#).is_none());
    assert!(decode_product(r#"{"productId": 5, "name": 7}"#).is_none());
    assert!(decode_product(r#"{"productId": 5, "name": null}"#).is_none());
    assert!(decode_product(r#"{"productId": 5, "name": "a", "iconImageAssetId": "x"}"#).is_none());
    assert!(decode_product(r#"{"productId": 5, "name": "a", "iconImageAssetId": 1.5}"#).is_none());
    assert!(decode_product(r#"{"productId": 5, "name": "a", "iconImageAssetId": false}"#)
        .is_none());
    assert!(decode_product(r#"{"productId": 99999999999999999999, "name": "a"}"#).is_none());
}

#[test]
fn a_body_that_is_no_object_is_malformed() {
    assert!(decode_product("").is_none());
    assert!(decode_product("not json").is_none());
    assert!(decode_product("[1, 2]").is_none());
    assert!(decode_product("42").is_none());
    assert!(decode_product("null").is_none());
    assert!(decode_product(r#"{"productId": 5, "name": "a""#).is_none());
    assert!(decode_product(r#"{"productId": 5, "name": "a"} trailing"#).is_none());
    assert!(decode_gamepass("<html></html>").is_none());
}

#[test]
fn a_reply_with_escapes_is_decoded() {
    let info = decode_product(r#"{"productId": 5, "name": "a\"bé"}"#).unwrap();
    assert_eq!(info.name, "a\"bé");
}

#[test]
fn the_first_member_with_a_key_is_found() {
    let members = vec![
        JsonMember { key: "a".to_string(), value: JsonScalar::Number(Some(1)) },
        JsonMember { key: "b".to_string(), value: JsonScalar::Null },
        JsonMember { key: "a".to_string(), value: JsonScalar::Other },
    ];
    assert!(matches!(find_member(&members, "a"), Some(JsonScalar::Number(Some(1)))));
    assert!(matches!(find_member(&members, "b"), Some(JsonScalar::Null)));
    assert!(find_member(&members, "c").is_none());
    assert!(find_member(&Vec::new(), "a").is_none());
}

#[test]
fn errors_are_rendered_for_the_user() {
    assert_eq!(
        RemoteError::RateLimitExceeded { attempts: 5 }.message(),
        "Rate limit hit too many times, giving up after 5 attempts"
    );
    assert_eq!(
        RemoteError::Status { status: 404, body: "not found".to_string() }.message(),
        "Request failed (404): not found"
    );
    assert_eq!(
        RemoteError::Decode { body: "<html>".to_string() }.message(),
        "Failed to decode response: <html>"
    );
    assert_eq!(
        RemoteError::Transport { message: "connection refused".to_string() }.message(),
        "Request could not be sent: connection refused"
    );
}

#[test]
fn an_asset_reference_is_derived_from_the_icon() {
    let with_icon = code_entry(&RemoteInfo { id: 5, name: "Sword".to_string(), icon: Some(777) });
    assert_eq!(with_icon.id, 5);
    assert_eq!(with_icon.name, "Sword");
    assert_eq!(with_icon.image, "rbxassetid://777");
    let zero = code_entry(&RemoteInfo { id: 5, name: "Sword".to_string(), icon: Some(0) });
    assert_eq!(zero.image, "rbxassetid://0");
    let none = code_entry(&RemoteInfo { id: 5, name: "Sword".to_string(), icon: None });
    assert_eq!(none.image, "rbxassetid://0");
}

#[test]
fn an_exchange_begins_by_asking_the_rate_limiter() {
    let exchange = create_product(77, "key", &shield());
    assert_eq!(exchange.kind, ProductKind::Product);
    assert_eq!(exchange.universe_id, 77);
    assert_eq!(exchange.operation, Operation::Create);
    assert_eq!(exchange.api_key, "key");
    assert_eq!(exchange.data.name, "Shield");
    assert_eq!(exchange.phase, Phase::Mutate);
    assert_eq!(exchange.attempts, 0);
    assert!(matches!(exchange.stage, Stage::AwaitToken));
    assert!(matches!(exchange.pending(), Action::PollLimiter));
    assert!(!exchange.is_finished());
}

#[test]
fn the_four_operations_begin_as_their_names_say() {
    let a = create_gamepass(1, "k", &shield());
    assert_eq!((a.kind, a.operation), (ProductKind::Gamepass, Operation::Create));
    let b = update_product(1, 9, "k", &shield());
    assert_eq!((b.kind, b.operation), (ProductKind::Product, Operation::Update { id: 9 }));
    let c = update_gamepass(1, 9, "k", &shield());
    assert_eq!((c.kind, c.operation), (ProductKind::Gamepass, Operation::Update { id: 9 }));
    let d = Exchange::start(ProductKind::Product, 1, Operation::Create, "k", &shield());
    assert_eq!((d.kind, d.operation), (ProductKind::Product, Operation::Create));
}

#[test]
fn no_request_is_sent_before_a_token_is_granted() {
    let mut exchange = create_product(77, "key", &shield());
    for _ in 0..3 {
        match exchange.step(Event::Token { granted: false }) {
            Action::Sleep { millis } => assert_eq!(millis, 50),
            other => panic!("unexpected action {:?}", other),
        }
        assert!(matches!(exchange.step(Event::Slept), Action::PollLimiter));
    }
    assert!(matches!(exchange.step(granted()), Action::Send(_)));
    assert_eq!(exchange.attempts, 0);
}

#[test]
fn a_create_posts_the_payload_to_the_collection() {
    let mut exchange = create_product(77, "key", &shield());
    match exchange.step(granted()) {
        Action::Send(request) => {
            assert_eq!(request.method, Method::Post);
            assert_eq!(
                request.url,
                "https://apis.roblox.com/developer-products/v2/universes/77/developer-products"
            );
            assert_eq!(request.api_key, "key");
            let data = request.data.unwrap();
            assert_eq!(data.name, "Shield");
            assert_eq!(data.description, "Blocks");
            assert_eq!(data.image_file, "assets/shield.png");
            assert_eq!(data.price, 250);
            assert!(data.regional_pricing);
        }
        other => panic!("unexpected action {:?}", other),
    }
    match exchange.step(reply(200, r#"{"productId": 555, "name": "Shield", "iconImageAssetId": 0}"#))
    {
        Action::Done(info) => {
            assert_eq!(info.id, 555);
            assert_eq!(info.name, "Shield");
            assert_eq!(info.icon, Some(0));
        }
        other => panic!("unexpected action {:?}", other),
    }
    assert!(exchange.is_finished());
}

#[test]
fn a_create_of_a_game_pass_reads_the_members_of_a_game_pass() {
    let mut exchange = create_gamepass(77, "key", &shield());
    match exchange.step(granted()) {
        Action::Send(request) => {
            assert_eq!(request.method, Method::Post);
            assert_eq!(
                request.url,
                "https://apis.roblox.com/game-passes/v1/universes/77/game-passes"
            );
        }
        other => panic!("unexpected action {:?}", other),
    }
    match exchange.step(reply(201, r#"{"gamePassId": 8, "name": "VIP"}"#)) {
        Action::Done(info) => {
            assert_eq!(info.id, 8);
            assert_eq!(info.name, "VIP");
            assert_eq!(info.icon, None);
        }
        other => panic!("unexpected action {:?}", other),
    }
}

#[test]
fn an_update_patches_and_then_fetches() {
    let mut exchange = update_product(77, 555, "key", &shield());
    match exchange.step(granted()) {
        Action::Send(request) => {
            assert_eq!(request.method, Method::Patch);
            assert_eq!(
                request.url,
                "https://apis.roblox.com/developer-products/v2/universes/77/developer-products/555"
            );
            assert_eq!(request.api_key, "key");
            assert_eq!(request.data.unwrap().name, "Shield");
        }
        other => panic!("unexpected action {:?}", other),
    }
    assert!(matches!(exchange.step(reply(204, "")), Action::PollLimiter));
    assert_eq!(exchange.phase, Phase::Fetch);
    match exchange.step(granted()) {
        Action::Send(request) => {
            assert_eq!(request.method, Method::Get);
            assert_eq!(
                request.url,
                "https://apis.roblox.com/developer-products/v2/universes/77/developer-products/555/creator"
            );
            assert_eq!(request.api_key, "key");
            assert!(request.data.is_none());
        }
        other => panic!("unexpected action {:?}", other),
    }
    match exchange.step(reply(200, r#"{"productId": 555, "name": "Shield", "iconImageAssetId": 3}"#))
    {
        Action::Done(info) => {
            assert_eq!(info.id, 555);
            assert_eq!(info.icon, Some(3));
        }
        other => panic!("unexpected action {:?}", other),
    }
}

#[test]
fn an_update_of_a_game_pass_uses_the_addresses_of_game_passes() {
    let mut exchange = update_gamepass(77, 8, "key", &shield());
    match exchange.step(granted()) {
        Action::Send(request) => {
            assert_eq!(request.method, Method::Patch);
            assert_eq!(
                request.url,
                "https://apis.roblox.com/game-passes/v1/universes/77/game-passes/8"
            );
        }
        other => panic!("unexpected action {:?}", other),
    }
    exchange.step(reply(200, "ignored"));
    match exchange.step(granted()) {
        Action::Send(request) => {
            assert_eq!(request.method, Method::Get);
            assert_eq!(
                request.url,
                "https://apis.roblox.com/game-passes/v1/universes/77/game-passes/8/creator"
            );
        }
        other => panic!("unexpected action {:?}", other),
    }
}

#[test]
fn five_throttled_attempts_end_an_exchange() {
    let mut exchange = create_product(77, "key", &shield());
    let mut sent = 0;
    let mut pauses = Vec::new();
    let mut action = exchange.pending();
    let error = loop {
        let event = match action {
            Action::PollLimiter => granted(),
            Action::Sleep { millis } => {
                pauses.push(millis);
                Event::Slept
            }
            Action::Send(_) => {
                sent += 1;
                reply(429, "slow down")
            }
            Action::Done(info) => panic!("unexpected success {:?}", info),
            Action::Fail(error) => break error,
        };
        action = exchange.step(event);
    };
    assert_eq!(sent, 5);
    assert_eq!(pauses, vec![1000, 2000, 3000, 4000]);
    assert!(matches!(error, RemoteError::RateLimitExceeded { attempts: 5 }));
    assert!(exchange.is_finished());
}

#[test]
fn a_throttled_attempt_is_repeated_with_the_same_request() {
    let mut exchange = update_product(77, 555, "key", &shield());
    exchange.step(granted());
    match exchange.step(reply(429, "")) {
        Action::Sleep { millis } => assert_eq!(millis, 1000),
        other => panic!("unexpected action {:?}", other),
    }
    assert_eq!(exchange.attempts, 1);
    assert!(matches!(exchange.step(Event::Slept), Action::PollLimiter));
    match exchange.step(granted()) {
        Action::Send(request) => assert_eq!(request.method, Method::Patch),
        other => panic!("unexpected action {:?}", other),
    }
}

#[test]
fn the_fetch_of_an_update_has_attempts_of_its_own() {
    let mut exchange = update_product(77, 555, "key", &shield());
    for expected in [1000u64, 2000, 3000, 4000] {
        exchange.step(granted());
        match exchange.step(reply(429, "")) {
            Action::Sleep { millis } => assert_eq!(millis, expected),
            other => panic!("unexpected action {:?}", other),
        }
        exchange.step(Event::Slept);
    }
    exchange.step(granted());
    assert!(matches!(exchange.step(reply(200, "")), Action::PollLimiter));
    assert_eq!(exchange.attempts, 0);
    for expected in [1000u64, 2000, 3000, 4000] {
        exchange.step(granted());
        match exchange.step(reply(429, "")) {
            Action::Sleep { millis } => assert_eq!(millis, expected),
            other => panic!("unexpected action {:?}", other),
        }
        exchange.step(Event::Slept);
    }
    exchange.step(granted());
    assert!(matches!(
        exchange.step(reply(429, "")),
        Action::Fail(RemoteError::RateLimitExceeded { attempts: 5 })
    ));
}

#[test]
fn a_success_after_throttling_ends_the_exchange_well() {
    let mut exchange = create_product(77, "key", &shield());
    exchange.step(granted());
    exchange.step(reply(429, ""));
    exchange.step(Event::Slept);
    exchange.step(granted());
    match exchange.step(reply(200, r#"{"productId": 1, "name": "Shield"}"#)) {
        Action::Done(info) => assert_eq!(info.id, 1),
        other => panic!("unexpected action {:?}", other),
    }
}

#[test]
fn another_failure_status_ends_an_exchange_at_once() {
    for status in [400u16, 401, 403, 404, 500, 503, 301, 199, 100] {
        let mut exchange = create_product(77, "key", &shield());
        exchange.step(granted());
        match exchange.step(reply(status, "went wrong")) {
            Action::Fail(RemoteError::Status { status: reported, body }) => {
                assert_eq!(reported, status);
                assert_eq!(body, "went wrong");
            }
            other => panic!("unexpected action {:?}", other),
        }
        assert_eq!(exchange.attempts, 0);
        assert!(exchange.is_finished());
    }
}

#[test]
fn a_failure_of_the_change_of_an_update_prevents_the_fetch() {
    let mut exchange = update_gamepass(77, 8, "key", &shield());
    exchange.step(granted());
    assert!(matches!(
        exchange.step(reply(500, "boom")),
        Action::Fail(RemoteError::Status { status: 500, .. })
    ));
    assert_eq!(exchange.phase, Phase::Mutate);
}

#[test]
fn a_malformed_body_is_a_decode_error() {
    let mut exchange = create_product(77, "key", &shield());
    exchange.step(granted());
    match exchange.step(reply(200, "<html>")) {
        Action::Fail(RemoteError::Decode { body }) => assert_eq!(body, "<html>"),
        other => panic!("unexpected action {:?}", other),
    }
    let mut other_kind = create_product(77, "key", &shield());
    other_kind.step(granted());
    assert!(matches!(
        other_kind.step(reply(200, r#"{"gamePassId": 8, "name": "VIP"}"#)),
        Action::Fail(RemoteError::Decode { .. })
    ));
}

#[test]
fn a_request_that_cannot_be_sent_ends_an_exchange() {
    let mut exchange = create_product(77, "key", &shield());
    exchange.step(granted());
    match exchange.step(Event::SendFailed { message: "no route".to_string() }) {
        Action::Fail(RemoteError::Transport { message }) => assert_eq!(message, "no route"),
        other => panic!("unexpected action {:?}", other),
    }
}

#[test]
fn an_event_that_is_not_waited_for_changes_nothing() {
    let mut exchange = create_product(77, "key", &shield());
    assert!(matches!(exchange.step(Event::Slept), Action::PollLimiter));
    assert!(matches!(exchange.step(reply(200, "{}")), Action::PollLimiter));
    assert!(matches!(
        exchange.step(Event::SendFailed { message: String::new() }),
        Action::PollLimiter
    ));
    exchange.step(granted());
    assert!(matches!(exchange.step(Event::Slept), Action::Send(_)));
    assert!(matches!(exchange.step(granted()), Action::Send(_)));
    assert!(matches!(exchange.step(Event::Token { granted: false }), Action::Send(_)));
    exchange.step(reply(429, ""));
    assert!(matches!(exchange.step(granted()), Action::Sleep { millis: 1000 }));
    assert!(matches!(exchange.step(reply(200, "{}")), Action::Sleep { millis: 1000 }));
    assert_eq!(exchange.attempts, 1);
}

#[test]
fn a_finished_exchange_keeps_its_result() {
    let mut exchange = create_product(77, "key", &shield());
    exchange.step(granted());
    exchange.step(reply(200, r#"{"productId": 1, "name": "Shield"}"#));
    for event in [granted(), Event::Slept, reply(500, ""), reply(429, "")] {
        assert!(matches!(exchange.step(event), Action::Done(_)));
    }
    let mut failed = create_product(77, "key", &shield());
    failed.step(granted());
    failed.step(reply(500, ""));
    for event in [granted(), Event::Slept, reply(200, r#"{"productId": 1, "name": "x"}"#)] {
        assert!(matches!(failed.step(event), Action::Fail(RemoteError::Status { .. })));
    }
}

#[test]
fn asking_for_the_pending_action_twice_gives_the_same() {
    let mut exchange = create_product(77, "key", &shield());
    exchange.step(granted());
    let first = exchange.request();
    let second = exchange.request();
    assert_eq!(first.method, second.method);
    assert_eq!(first.url, second.url);
    assert!(matches!(exchange.pending(), Action::Send(_)));
    assert!(matches!(exchange.pending(), Action::Send(_)));
}
