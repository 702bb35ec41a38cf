use users_api::error::Error;
use users_api::middleware::{
    bearer_token, has_bearer_marker, header_is_text, AuthStep, JwtAuth, UserClaims,
};

#[test]
fn token_follows_the_bearer_word() {
    assert_eq!(bearer_token(b"Bearer abc.def.ghi"), b"abc.def.ghi".to_vec());
}

#[test]
fn token_is_trimmed() {
    assert_eq!(bearer_token(b"Bearer   tok \t "), b"tok".to_vec());
    assert_eq!(bearer_token(b"Bearertok"), b"tok".to_vec());
    assert_eq!(bearer_token(b"Bearer "), b"".to_vec());
}

#[test]
fn token_stops_at_a_second_bearer_word() {
    assert_eq!(bearer_token(b"Bearer one Bearer two"), b"one".to_vec());
    assert_eq!(bearer_token(b"xBearer abc"), b"abc".to_vec());
}

#[test]
fn header_text_is_visible_ascii_or_tab() {
    assert!(header_is_text(b"Bearer abc"));
    assert!(header_is_text(b"a\tb"));
    assert!(header_is_text(b""));
    assert!(!header_is_text(b"a\nb"));
    assert!(!header_is_text(&[66, 200]));
    assert!(!header_is_text(&[127]));
}

#[test]
fn bearer_word_detection() {
    assert!(has_bearer_marker(b"Bearer x"));
    assert!(has_bearer_marker(b"xxBearer"));
    assert!(!has_bearer_marker(b"Basic dXNlcjpwdw=="));
    assert!(!has_bearer_marker(b"bearer x"));
    assert!(!has_bearer_marker(b"Beare"));
}

#[test]
fn auth_steps() {
    let auth = JwtAuth::new("KEY".to_string());
    assert_eq!(auth.pub_key(), "KEY");
    let m = auth.new_transform(5u8);
    assert_eq!(*m.service(), 5u8);
    assert_eq!(m.pub_key(), "KEY");
    assert!(matches!(m.auth_step(None), AuthStep::NoHeader));
    assert!(matches!(m.auth_step(Some(&[66, 200])), AuthStep::UnreadableHeader));
    match m.auth_step(Some(b"Bearer t0k")) {
        AuthStep::Decode(t) => assert_eq!(t, b"t0k".to_vec()),
        other => panic!("expected a token, got {other:?}"),
    }
}

#[test]
fn handlers_get_attached_claims_or_unauthorized() {
    let claims = UserClaims { sub: "user@example.com".to_string(), exp: 99, scopes: vec!["read".to_string()] };
    match UserClaims::from_request(Some(claims)) {
        Ok(c) => {
            assert_eq!(c.sub, "user@example.com");
            assert_eq!(c.exp, 99);
            assert_eq!(c.scopes, vec!["read".to_string()]);
        }
        Err(e) => panic!("unexpected {e:?}"),
    }
    assert!(matches!(UserClaims::from_request(None), Err(Error::Unauthorized)));
}

#[test]
fn token_of_a_readable_header_is_readable() {
    let token = bearer_token(b"Bearer \tabc.DEF-_ghi ");
    assert!(header_is_text(&token));
    assert_eq!(token, b"abc.DEF-_ghi".to_vec());
}
