use starknetid_resolver::config::{Config, Contracts, EvmRecordVerifier, Variables};
use starknetid_resolver::felt::Felt;
use starknetid_resolver::handler::{HandlerError, HandlerStep, HandlerType};
use starknetid_resolver::http::{HttpReply, HttpRequest, TransportError};

fn config() -> Config {
    Config {
        contracts: Contracts {
            starknetid: Felt::from_u64(0x1001),
            argent_multicall: Felt::from_u64(0x2002),
        },
        variables: Variables {
            discord_api_url: "https://discord.example/api".to_string(),
            discord_token: "SECRET-REDACTED".to_string(),
            github_api_url: "https://github.example".to_string(),
            twitter_api_url: "https://twitter.example".to_string(),
            twitter_api_key: "rapid-key".to_string(),
        },
    }
}

fn record(handler: HandlerType) -> EvmRecordVerifier {
    EvmRecordVerifier { verifier_contracts: vec![], field: "field".to_string(), handler }
}

fn request(handler: HandlerType, id: u64) -> HttpRequest {
    match record(handler).execute_handler(&config(), Felt::from_u64(id)) {
        HandlerStep::Lookup(request) => request,
        HandlerStep::Name(name) => panic!("no lookup, but the name {name}"),
    }
}

fn pairs(params: &[starknetid_resolver::http::Param]) -> Vec<(String, String)> {
    params.iter().map(|p| (p.name.clone(), p.value.clone())).collect()
}

fn reply(status: u16, body: &str) -> HttpReply {
    HttpReply { status, body: body.to_string() }
}

const TWITTER_BODY: &str =
    r#"{"data":{"user_result":{"result":{"legacy":{"screen_name":"carol","name":"Carol"}}}}}"#;

#[test]
fn the_static_handler_names_the_id_in_decimal() {
    for (id, text) in [(1u64, "1"), (777, "777"), (u64::MAX, "18446744073709551615")] {
        match record(HandlerType::Static).execute_handler(&config(), Felt::from_u64(id)) {
            HandlerStep::Name(name) => assert_eq!(name, text),
            HandlerStep::Lookup(_) => panic!("the static handler asked for a lookup"),
        }
    }
}

#[test]
fn the_static_handler_names_a_large_id() {
    let mut bytes = [0u8; 32];
    bytes[0] = 0x08;
    bytes[7] = 0x11;
    let largest = Felt::from_bytes_be(bytes).unwrap();
    match record(HandlerType::Static).execute_handler(&config(), largest) {
        HandlerStep::Name(name) => assert_eq!(
            name,
            "3618502788666131213697322783095070105623107215331596699973092056135872020480"
        ),
        HandlerStep::Lookup(_) => panic!("the static handler asked for a lookup"),
    }
}

#[test]
fn the_discord_request() {
    let request = request(HandlerType::GetDiscordName, 777);
    assert_eq!(request.url, "https://discord.example/api/users/777");
    assert_eq!(
        pairs(&request.headers),
        vec![
            ("Content-Type".to_string(), "application/json".to_string()),
            ("Authorization".to_string(), "Bot SECRET-REDACTED".to_string()),
        ]
    );
    assert!(request.query.is_empty());
}

#[test]
fn the_github_request() {
    let request = request(HandlerType::GetGithubName, 583231);
    assert_eq!(request.url, "https://github.example/user/583231");
    assert_eq!(pairs(&request.headers), vec![("User-Agent".to_string(), "request".to_string())]);
    assert!(request.query.is_empty());
}

#[test]
fn the_twitter_request() {
    let request = request(HandlerType::GetTwitterName, 44196397);
    assert_eq!(request.url, "https://twitter.example/get-user-by-id");
    assert_eq!(
        pairs(&request.headers),
        vec![
            ("X-RapidAPI-Key".to_string(), "rapid-key".to_string()),
            ("X-RapidAPI-Host".to_string(), "twttrapi.p.rapidapi.com".to_string()),
        ]
    );
    assert_eq!(pairs(&request.query), vec![("user_id".to_string(), "44196397".to_string())]);
}

#[test]
fn a_good_reply_gives_the_name() {
    assert_eq!(
        HandlerType::GetDiscordName.name_from_reply(&reply(200, r#"{"username":"alice"}"#)),
        Ok("alice".to_string())
    );
    assert_eq!(
        HandlerType::GetGithubName.name_from_reply(&reply(200, r#"{"login":"bob","id":5}"#)),
        Ok("bob".to_string())
    );
    assert_eq!(
        HandlerType::GetTwitterName.name_from_reply(&reply(200, TWITTER_BODY)),
        Ok("carol".to_string())
    );
}

#[test]
fn each_handler_reads_its_own_field() {
    let body = r#"{"username":"u","login":"l","data":{"user_result":{"result":{"legacy":{"screen_name":"s"}}}}}"#;
    assert_eq!(HandlerType::GetDiscordName.name_from_reply(&reply(200, body)), Ok("u".to_string()));
    assert_eq!(HandlerType::GetGithubName.name_from_reply(&reply(200, body)), Ok("l".to_string()));
    assert_eq!(HandlerType::GetTwitterName.name_from_reply(&reply(200, body)), Ok("s".to_string()));
}

#[test]
fn a_status_of_failure_gives_no_name() {
    let body = r#"{"username":"alice","login":"bob"}"#;
    for status in [500u16, 404, 401, 301, 199, 300] {
        assert_eq!(
            HandlerType::GetDiscordName.name_from_reply(&reply(status, body)),
            Err(HandlerError::Status(status))
        );
        assert_eq!(
            HandlerType::GetGithubName.name_from_reply(&reply(status, body)),
            Err(HandlerError::Status(status))
        );
        assert_eq!(
            HandlerType::GetTwitterName.name_from_reply(&reply(status, TWITTER_BODY)),
            Err(HandlerError::Status(status))
        );
    }
}

#[test]
fn github_and_twitter_insist_on_200() {
    assert_eq!(
        HandlerType::GetGithubName.name_from_reply(&reply(201, r#"{"login":"bob"}"#)),
        Err(HandlerError::Status(201))
    );
    assert_eq!(
        HandlerType::GetTwitterName.name_from_reply(&reply(204, TWITTER_BODY)),
        Err(HandlerError::Status(204))
    );
}

#[test]
fn discord_takes_any_status_of_success() {
    for status in [200u16, 201, 299] {
        assert_eq!(
            HandlerType::GetDiscordName.name_from_reply(&reply(status, r#"{"username":"alice"}"#)),
            Ok("alice".to_string())
        );
    }
}

#[test]
fn a_body_that_is_no_json_gives_no_name() {
    for body in ["", "not json", r#"{"username":"alice""#, r#"{"login":}"#, "{} trailing"] {
        for handler in
            [HandlerType::GetDiscordName, HandlerType::GetGithubName, HandlerType::GetTwitterName]
        {
            assert_eq!(
                handler.name_from_reply(&reply(200, body)),
                Err(HandlerError::MalformedBody)
            );
        }
    }
}

#[test]
fn a_document_without_the_field_gives_no_name() {
    let bodies = [
        "{}",
        "[]",
        "null",
        r#"{"username":7,"login":null}"#,
        r#"{"data":{"user_result":{"result":{"legacy":{}}}}}"#,
        r#"{"data":{"user_result":{"result":{"legacy":{"screen_name":3}}}}}"#,
        r#"{"data":{"user_result":null}}"#,
        r#"{"message":"Not Found"}"#,
    ];
    for body in bodies {
        for handler in
            [HandlerType::GetDiscordName, HandlerType::GetGithubName, HandlerType::GetTwitterName]
        {
            assert_eq!(
                handler.name_from_reply(&reply(200, body)),
                Err(HandlerError::MissingField)
            );
        }
    }
}

#[test]
fn the_status_is_looked_at_before_the_body() {
    assert_eq!(
        HandlerType::GetGithubName.name_from_reply(&reply(500, "not json")),
        Err(HandlerError::Status(500))
    );
}

#[test]
fn a_request_that_was_not_answered_gives_no_name() {
    for handler in
        [HandlerType::GetDiscordName, HandlerType::GetGithubName, HandlerType::GetTwitterName]
    {
        assert_eq!(handler.name_from_outcome(&Err(TransportError)), Err(HandlerError::Transport));
    }
}

#[test]
fn an_outcome_with_a_reply_is_read_as_the_reply() {
    assert_eq!(
        HandlerType::GetDiscordName.name_from_outcome(&Ok(reply(200, r#"{"username":"alice"}"#))),
        Ok("alice".to_string())
    );
    assert_eq!(
        HandlerType::GetDiscordName.name_from_outcome(&Ok(reply(500, r#"{"username":"alice"}"#))),
        Err(HandlerError::Status(500))
    );
}

#[test]
fn the_static_handler_reads_no_reply() {
    assert_eq!(
        HandlerType::Static.name_from_reply(&reply(200, r#"{"username":"alice"}"#)),
        Err(HandlerError::NoLookup)
    );
    assert_eq!(HandlerType::Static.name_from_outcome(&Err(TransportError)), Err(HandlerError::NoLookup));
    let document: serde_json::Value = serde_json::from_str(r#""plain""#).unwrap();
    assert_eq!(HandlerType::Static.name_in_document(&document), Err(HandlerError::NoLookup));
}

#[test]
fn the_name_in_a_parsed_document() {
    let document: serde_json::Value = serde_json::from_str(TWITTER_BODY).unwrap();
    assert_eq!(HandlerType::GetTwitterName.name_in_document(&document), Ok("carol".to_string()));
    assert_eq!(
        HandlerType::GetGithubName.name_in_document(&document),
        Err(HandlerError::MissingField)
    );
}

#[test]
fn accepted_statuses() {
    assert!(HandlerType::GetDiscordName.accepts_status(200));
    assert!(HandlerType::GetDiscordName.accepts_status(204));
    assert!(!HandlerType::GetDiscordName.accepts_status(500));
    assert!(HandlerType::GetGithubName.accepts_status(200));
    assert!(!HandlerType::GetGithubName.accepts_status(204));
    assert!(HandlerType::GetTwitterName.accepts_status(200));
    assert!(!HandlerType::GetTwitterName.accepts_status(404));
    assert!(!HandlerType::Static.accepts_status(200));
}
