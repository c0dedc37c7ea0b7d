use jwt_signer::claims::Claims;
use jwt_signer::protocol::{handle_line, line_action_of, step, Action, ConnectionState, ReadEvent};
use jwt_signer::signer::{HS256Signer, RS256Signer, Signer, SigningAlgorithm};
use std::time::{SystemTime, UNIX_EPOCH};

const PUBLIC_PEM: &str = "-----BEGIN PUBLIC KEY-----\nMIIBIjANBgkqhkiG9w0BAQEFAAOCAQ8AMIIBCgKCAQEAwrM7gItlv6MHZbuammky\nn4A+iNpG57Sgok8DEGJw8mTG4EqiKe3IzrKzlN+f1iOzpNlitw7NSVRS4V8eNYk7\na3Qu2AMYLnEsL9uicf/nLtkx/YcGNwWFgVn0c7rtY7nH35026AG8hX8a1+SeKKRY\ngOyCxlyy6zVU+yF5LqQeOZ5yC8cmIw77/bXPsQ3nAltC8MDg7RMI0P6c+VxmIBhy\nEQvLFm+ikN61Wt3CjdiicQbz796PFc5f1Pvy84SmPxYSHYSDxs5o/4gNOd8fO7G3\nsVeU3w+LBvdlzJV9ua8D/3Mf4F0XfgetHrOdFz3KtBeVCeHZINFe21gKerc1xAEy\nDQIDAQAB\n-----END PUBLIC KEY-----\n";

fn reply(signer: &HS256Signer, line: &str) -> Option<String> {
    handle_line(signer, line)
}

fn token_of(line: &str) -> String {
    assert!(line.starts_with("TOKEN "), "unexpected reply {line:?}");
    assert!(line.ends_with('\n'));
    line["TOKEN ".len()..line.len() - 1].to_string()
}

#[test]
fn sign_then_validate_over_the_wire() {
    let s = HS256Signer::new("wire-secret");
    let signed = reply(&s, "{\"cmd\":\"sign\",\"claims\":{\"sub\":\"alice\",\"exp\":9999999999}}").unwrap();
    let token = token_of(&signed);
    let request = format!("{{\"cmd\":\"validate\",\"token\":\"{}\"}}", token);
    assert_eq!(reply(&s, &request).unwrap(), "VALID {\"sub\":\"alice\",\"exp\":9999999999}\n");
}

#[test]
fn validate_of_a_non_token_is_an_error_and_reading_goes_on() {
    let s = HS256Signer::new("wire-secret");
    let (state, out) = step(&s, ConnectionState::Reading, ReadEvent::Line("{\"cmd\":\"validate\",\"token\":\"not-a-jwt\"}\n".to_string()));
    assert!(state == ConnectionState::Reading);
    assert!(out.unwrap().starts_with("ERROR "));
    let (state, out) = step(&s, state, ReadEvent::Line("{\"cmd\":\"sign\",\"claims\":{\"sub\":\"x\",\"exp\":9999999999}}\n".to_string()));
    assert!(state == ConnectionState::Reading);
    assert!(out.unwrap().starts_with("TOKEN "));
}

#[test]
fn malformed_json_is_reported_and_the_next_line_is_served() {
    let s = HS256Signer::new("k");
    let (state, out) = step(&s, ConnectionState::Reading, ReadEvent::Line("{\"cmd\": \"sign\"\n".to_string()));
    assert!(state == ConnectionState::Reading);
    assert_eq!(out.unwrap(), "ERROR Invalid JSON\n");
    let (state, out) = step(&s, state, ReadEvent::Line("{\"cmd\":\"nope\"}\n".to_string()));
    assert!(state == ConnectionState::Reading);
    assert_eq!(out.unwrap(), "ERROR Unknown command\n");
}

#[test]
fn unknown_or_missing_command() {
    let s = HS256Signer::new("k");
    assert_eq!(reply(&s, "{\"cmd\":\"delete\"}").unwrap(), "ERROR Unknown command\n");
    assert_eq!(reply(&s, "{\"token\":\"abc\"}").unwrap(), "ERROR Unknown command\n");
    assert_eq!(reply(&s, "{\"cmd\":7}").unwrap(), "ERROR Unknown command\n");
    assert_eq!(reply(&s, "[1,2]").unwrap(), "ERROR Unknown command\n");
    assert_eq!(reply(&s, "{\"cmd\":\"SIGN\"}").unwrap(), "ERROR Unknown command\n");
}

#[test]
fn blank_lines_get_no_reply() {
    let s = HS256Signer::new("k");
    assert!(reply(&s, "\n").is_none());
    assert!(reply(&s, "   \t \r\n").is_none());
    assert!(reply(&s, "").is_none());
    let (state, out) = step(&s, ConnectionState::Reading, ReadEvent::Line("  \n".to_string()));
    assert!(state == ConnectionState::Reading);
    assert!(out.is_none());
}

#[test]
fn claims_that_do_not_decode() {
    let s = HS256Signer::new("k");
    assert_eq!(reply(&s, "{\"cmd\":\"sign\"}").unwrap(), "ERROR Invalid claims\n");
    assert_eq!(reply(&s, "{\"cmd\":\"sign\",\"claims\":{\"sub\":\"a\"}}").unwrap(), "ERROR Invalid claims\n");
    assert_eq!(reply(&s, "{\"cmd\":\"sign\",\"claims\":{\"sub\":\"a\",\"exp\":-3}}").unwrap(), "ERROR Invalid claims\n");
    assert_eq!(reply(&s, "{\"cmd\":\"sign\",\"claims\":\"alice\"}").unwrap(), "ERROR Invalid claims\n");
}

#[test]
fn validate_without_a_token_fails_as_an_empty_token() {
    let s = HS256Signer::new("k");
    let out = reply(&s, "{\"cmd\":\"validate\"}").unwrap();
    assert!(out.starts_with("ERROR "));
    assert!(out.ends_with('\n'));
    assert!(matches!(line_action_of("{\"cmd\":\"validate\"}"), Action::Validate(t) if t.is_empty()));
    assert!(matches!(line_action_of(" {\"cmd\":\"validate\",\"token\":\"abc\"} "), Action::Validate(t) if t == "abc"));
}

#[test]
fn line_actions() {
    assert!(matches!(line_action_of("  "), Action::Skip));
    assert!(matches!(line_action_of("{"), Action::Reply(t) if t == "ERROR Invalid JSON\n"));
    match line_action_of("{\"claims\":{\"exp\":5,\"sub\":\"z\",\"role\":\"admin\"},\"cmd\":\"sign\"}") {
        Action::Sign(c) => {
            assert_eq!(c.sub, "z");
            assert_eq!(c.exp, 5);
        }
        _ => panic!("expected a sign action"),
    }
}

#[test]
fn end_of_stream_and_failed_reads_close_the_connection() {
    let s = HS256Signer::new("k");
    let (state, out) = step(&s, ConnectionState::Reading, ReadEvent::EndOfStream);
    assert!(state == ConnectionState::Closed && out.is_none());
    let (state, out) = step(&s, ConnectionState::Reading, ReadEvent::Failed);
    assert!(state == ConnectionState::Closed && out.is_none());
    let (state, out) = step(&s, ConnectionState::Closed, ReadEvent::Line("{\"cmd\":\"x\"}\n".to_string()));
    assert!(state == ConnectionState::Closed && out.is_none());
}

#[test]
fn interleaved_connections_get_their_own_replies() {
    let s = HS256Signer::new("shared");
    let mut tokens = Vec::new();
    for name in ["ann", "ben", "cat"] {
        let line = format!("{{\"cmd\":\"sign\",\"claims\":{{\"sub\":\"{}\",\"exp\":9999999999}}}}", name);
        tokens.push(token_of(&reply(&s, &line).unwrap()));
    }
    for (name, token) in ["ann", "ben", "cat"].iter().zip(tokens.iter()).rev() {
        let line = format!("{{\"cmd\":\"validate\",\"token\":\"{}\"}}", token);
        let expected = format!("VALID {{\"sub\":\"{}\",\"exp\":9999999999}}\n", name);
        assert_eq!(reply(&s, &line).unwrap(), expected);
    }
}

#[test]
fn symmetric_round_trip() {
    let s = HS256Signer::new("round-trip");
    let c = Claims { sub: "erin \"quoted\" ü".to_string(), exp: 4102444800 };
    let token = s.sign(&c).unwrap();
    let back = s.validate(&token).unwrap();
    assert_eq!(back.sub, c.sub);
    assert_eq!(back.exp, c.exp);
}

#[test]
fn asymmetric_keys_that_do_not_parse() {
    let e = RS256Signer::new("not a key", PUBLIC_PEM).err().unwrap();
    assert!(!e.message().is_empty());
    assert!(RS256Signer::new("", "").is_err());
}

#[test]
fn tampered_signature_is_rejected() {
    let s = HS256Signer::new("tamper");
    let token = s.sign(&Claims { sub: "gus".to_string(), exp: 4102444800 }).unwrap();
    let sig_start = token.rfind('.').unwrap() + 1;
    for i in sig_start..token.len() {
        let mut bytes = token.clone().into_bytes();
        bytes[i] = if bytes[i] == b'A' { b'B' } else { b'A' };
        let altered = String::from_utf8(bytes).unwrap();
        assert!(s.validate(&altered).is_err(), "accepted a change at byte {i}");
    }
}

#[test]
fn token_of_another_key_or_algorithm_is_rejected() {
    let a = HS256Signer::new("one");
    let b = HS256Signer::new("two");
    let c = Claims { sub: "hal".to_string(), exp: 4102444800 };
    assert!(b.validate(&a.sign(&c).unwrap()).is_err());
    // A token whose header names RS256, signed here with the shared secret.
    let rs256_header = "eyJ0eXAiOiJKV1QiLCJhbGciOiJSUzI1NiJ9";
    let token = a.sign(&c).unwrap();
    let rest = &token[token.find('.').unwrap()..];
    assert!(a.validate(&format!("{}{}", rs256_header, rest)).is_err());
}

#[test]
fn expired_claims_fail_validation() {
    let s = HS256Signer::new("expiry");
    let token = s.sign(&Claims { sub: "ivy".to_string(), exp: 1000 }).unwrap();
    let e = s.validate(&token).err().unwrap();
    assert!(!e.message().is_empty());
    let line = format!("{{\"cmd\":\"validate\",\"token\":\"{}\"}}", token);
    assert!(reply(&s, &line).unwrap().starts_with("ERROR "));
}

#[test]
fn claims_expired_seconds_ago_fail_validation() {
    let s = HS256Signer::new("no-leeway");
    let now = SystemTime::now().duration_since(UNIX_EPOCH).unwrap().as_secs();
    let token = s.sign(&Claims { sub: "jo".to_string(), exp: now - 5 }).unwrap();
    assert!(s.validate(&token).is_err());
    let token = s.sign(&Claims { sub: "jo".to_string(), exp: now + 3600 }).unwrap();
    assert_eq!(s.validate(&token).unwrap().sub, "jo");
}

#[test]
fn signing_depends_on_secret_and_claims_alone() {
    let a = HS256Signer::new("same");
    let b = HS256Signer::new("same");
    let c = HS256Signer::new("other");
    let claims = Claims { sub: "kim".to_string(), exp: 4102444800 };
    let t = a.sign(&claims).unwrap();
    assert_eq!(t, b.sign(&claims).unwrap());
    assert_ne!(t, c.sign(&claims).unwrap());
    assert_ne!(t, a.sign(&Claims { sub: "kim".to_string(), exp: 4102444801 }).unwrap());
    assert_eq!(t.matches('.').count(), 2);
}

#[test]
fn signer_keeps_its_key_material() {
    let s = HS256Signer::new("abc");
    assert!(s.keys.algorithm == SigningAlgorithm::HS256);
    assert_eq!(s.keys.signing_key, b"abc".to_vec());
}

#[test]
fn tokens_without_two_dots_are_refused() {
    let s = HS256Signer::new("dots");
    assert!(s.validate("").is_err());
    assert!(s.validate("abc").is_err());
    assert!(s.validate("abc.def").is_err());
}
