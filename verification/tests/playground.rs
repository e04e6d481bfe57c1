use playground_api::error::{Error, FlagKind};
use playground_api::flags::{Channel, CommandFlags, CrateType, Edition, Mode};
use playground_api::gist::{gist_id_from_reply, GistReply};
use playground_api::request::{ClippyRequest, MacroExpansionRequest, MiriRequest, PlayResult, PlaygroundRequest};
use playground_api::url::url_from_gist;

#[test]
fn channel_parse_accepts_canonical_tokens() {
    assert_eq!(Channel::from_str("stable"), Ok(Channel::Stable));
    assert_eq!(Channel::from_str("beta"), Ok(Channel::Beta));
    assert_eq!(Channel::from_str("nightly"), Ok(Channel::Nightly));
    assert_eq!(Channel::from_str("stable").unwrap().wire_token(), "stable");
    assert_eq!(Channel::from_str("beta").unwrap().wire_token(), "beta");
    assert_eq!(Channel::from_str("nightly").unwrap().wire_token(), "nightly");
}

#[test]
fn edition_parse_accepts_canonical_tokens() {
    assert_eq!(Edition::from_str("2015"), Ok(Edition::E2015));
    assert_eq!(Edition::from_str("2018"), Ok(Edition::E2018));
    assert_eq!(Edition::from_str("2021"), Ok(Edition::E2021));
    assert_eq!(Edition::from_str("2021").unwrap().wire_token(), "2021");
}

#[test]
fn mode_parse_accepts_canonical_tokens() {
    assert_eq!(Mode::from_str("debug"), Ok(Mode::Debug));
    assert_eq!(Mode::from_str("release"), Ok(Mode::Release));
    assert_eq!(Mode::from_str("release").unwrap().wire_token(), "release");
}

#[test]
fn channel_parse_rejects_deviations_verbatim() {
    for bad in ["Stable", "nightly ", "", "stable\n", "STABLE"] {
        let err = Channel::from_str(bad).unwrap_err();
        assert_eq!(
            err,
            Error::InvalidFlagValue { kind: FlagKind::Channel, input: bad.to_string() }
        );
        assert_eq!(err.message(), format!("invalid release channel `{}`", bad));
    }
}

#[test]
fn edition_parse_rejects_deviations_verbatim() {
    for bad in ["2014", "2018 ", "", "21"] {
        let err = Edition::from_str(bad).unwrap_err();
        assert_eq!(
            err,
            Error::InvalidFlagValue { kind: FlagKind::Edition, input: bad.to_string() }
        );
        assert_eq!(err.message(), format!("invalid edition `{}`", bad));
    }
}

#[test]
fn mode_parse_rejects_deviations_verbatim() {
    for bad in ["Debug", "fast", "", " release"] {
        let err = Mode::from_str(bad).unwrap_err();
        assert_eq!(err, Error::InvalidFlagValue { kind: FlagKind::Mode, input: bad.to_string() });
        assert_eq!(err.message(), format!("invalid compilation mode `{}`", bad));
    }
}

#[test]
fn enum_tokens_round_trip() {
    for c in [Channel::Stable, Channel::Beta, Channel::Nightly] {
        assert_eq!(Channel::from_str(c.wire_token()), Ok(c));
    }
    for e in [Edition::E2015, Edition::E2018, Edition::E2021] {
        assert_eq!(Edition::from_str(e.wire_token()), Ok(e));
    }
    for m in [Mode::Debug, Mode::Release] {
        assert_eq!(Mode::from_str(m.wire_token()), Ok(m));
    }
    for t in [CrateType::Binary, CrateType::Library] {
        let recovered = match t.wire_token() {
            "bin" => CrateType::Binary,
            "lib" => CrateType::Library,
            other => panic!("unexpected crate type token {other}"),
        };
        assert_eq!(recovered, t);
    }
}

#[test]
fn url_from_gist_builds_the_exact_viewer_url() {
    let flags = CommandFlags {
        channel: Channel::Nightly,
        mode: Mode::Release,
        edition: Edition::E2021,
        warn: false,
    };
    assert_eq!(
        url_from_gist(&flags, "abc123"),
        "https://play.rust-lang.org/?version=nightly&mode=release&edition=2021&gist=abc123"
    );

    let flags = CommandFlags {
        channel: Channel::Stable,
        mode: Mode::Debug,
        edition: Edition::E2015,
        warn: true,
    };
    assert_eq!(
        url_from_gist(&flags, ""),
        "https://play.rust-lang.org/?version=stable&mode=debug&edition=2015&gist="
    );
}

#[test]
fn gist_reply_with_id_yields_the_identifier() {
    let reply = GistReply::Object(vec![("id".to_string(), "xyz789".to_string())]);
    assert_eq!(gist_id_from_reply(reply), Ok("xyz789".to_string()));
}

#[test]
fn gist_reply_first_id_wins() {
    let reply = GistReply::Object(vec![
        ("url".to_string(), "https://example.invalid".to_string()),
        ("id".to_string(), "first".to_string()),
        ("id".to_string(), "second".to_string()),
    ]);
    assert_eq!(gist_id_from_reply(reply), Ok("first".to_string()));
}

#[test]
fn gist_reply_without_id_is_missing_field() {
    let reply = GistReply::Object(vec![]);
    let err = gist_id_from_reply(reply).unwrap_err();
    assert_eq!(err, Error::MissingField);
    assert_eq!(err.message(), "no gist found");

    let reply = GistReply::Object(vec![("ID".to_string(), "x".to_string())]);
    assert_eq!(gist_id_from_reply(reply), Err(Error::MissingField));
}

#[test]
fn gist_reply_transport_failure_propagates_unchanged() {
    let reply = GistReply::Transport("connection refused".to_string());
    let err = gist_id_from_reply(reply).unwrap_err();
    assert_eq!(err, Error::TransportError { detail: "connection refused".to_string() });
    assert_eq!(err.message(), "connection refused");
}

#[test]
fn gist_reply_undecodable_body_is_malformed_response() {
    let reply = GistReply::Undecodable("expected an object".to_string());
    let err = gist_id_from_reply(reply).unwrap_err();
    assert_eq!(err, Error::MalformedResponse { detail: "expected an object".to_string() });
    assert_eq!(err.message(), "expected an object");
}

#[test]
fn playground_request_serializes_crate_type_under_its_wire_name() {
    let req = PlaygroundRequest {
        channel: Channel::Stable,
        edition: Edition::E2018,
        code: "fn f() {}".to_string(),
        crate_type: CrateType::Library,
        mode: Mode::Debug,
        tests: false,
    };
    let json = req.to_json();
    assert_eq!(
        json,
        "{\"channel\":\"stable\",\"edition\":\"2018\",\"code\":\"fn f() {}\",\
         \"crateType\":\"lib\",\"mode\":\"debug\",\"tests\":false}"
    );
    assert!(json.contains("\"crateType\":\"lib\""));
    assert!(!json.contains("crate_type"));
}

#[test]
fn playground_request_serializes_every_flag_token() {
    let req = PlaygroundRequest {
        channel: Channel::Nightly,
        edition: Edition::E2021,
        code: String::new(),
        crate_type: CrateType::Binary,
        mode: Mode::Release,
        tests: true,
    };
    assert_eq!(
        req.to_json(),
        "{\"channel\":\"nightly\",\"edition\":\"2021\",\"code\":\"\",\
         \"crateType\":\"bin\",\"mode\":\"release\",\"tests\":true}"
    );
}

#[test]
fn code_is_escaped_as_a_json_string() {
    let req = MiriRequest {
        edition: Edition::E2018,
        code: "fn main() { println!(\"Hi\"); }".to_string(),
    };
    assert_eq!(
        req.to_json(),
        "{\"edition\":\"2018\",\"code\":\"fn main() { println!(\\\"Hi\\\"); }\"}"
    );

    let req = MiriRequest {
        edition: Edition::E2015,
        code: "a\\b\n\tc\r\u{8}\u{c}\u{1}\u{1f}d".to_string(),
    };
    assert_eq!(
        req.to_json(),
        "{\"edition\":\"2015\",\"code\":\"a\\\\b\\n\\tc\\r\\b\\f\\u0001\\u001fd\"}"
    );
}

#[test]
fn macro_expansion_request_shares_the_miri_shape() {
    let req = MacroExpansionRequest {
        edition: Edition::E2021,
        code: "m!{}".to_string(),
    };
    assert_eq!(req.to_json(), "{\"edition\":\"2021\",\"code\":\"m!{}\"}");
}

#[test]
fn clippy_request_serializes_in_field_order() {
    let req = ClippyRequest {
        edition: Edition::E2015,
        crate_type: CrateType::Binary,
        code: "loop {}".to_string(),
    };
    assert_eq!(
        req.to_json(),
        "{\"edition\":\"2015\",\"crateType\":\"bin\",\"code\":\"loop {}\"}"
    );
}

#[test]
fn play_result_carries_the_response_fields() {
    let res = PlayResult {
        success: true,
        stdout: "out".to_string(),
        stderr: String::new(),
    };
    assert!(res.success);
    assert_eq!(res.stdout, "out");
    assert_eq!(res.stderr, "");
}
