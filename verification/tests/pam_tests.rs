use strikeface::pam::{Converse, PamCode, PamError, PasswordConv};
use strikeface::scrambler::Scrambler;

#[test]
fn abort_is_an_abort_error() {
    let e = PamError::from_rc("pam_start", PamCode::ABORT);
    assert!(matches!(&e, PamError::AbortError(m) if m == "pam_start: ABORT"));
    assert_eq!(e.to_string(), "abort error: pam_start: ABORT");
}

#[test]
fn refusals_are_auth_errors() {
    for (code, name) in [
        (PamCode::AUTH_ERR, "AUTH_ERR"),
        (PamCode::MAXTRIES, "MAXTRIES"),
        (PamCode::CRED_EXPIRED, "CRED_EXPIRED"),
        (PamCode::ACCT_EXPIRED, "ACCT_EXPIRED"),
        (PamCode::CRED_INSUFFICIENT, "CRED_INSUFFICIENT"),
        (PamCode::USER_UNKNOWN, "USER_UNKNOWN"),
        (PamCode::PERM_DENIED, "PERM_DENIED"),
    ] {
        let e = PamError::from_rc("authenticate", code);
        let expected = format!("authenticate: {name}");
        assert!(matches!(&e, PamError::AuthError(m) if *m == expected));
        assert_eq!(e.to_string(), expected);
    }
}

#[test]
fn new_token_required() {
    let e = PamError::from_rc("acct_mgmt", PamCode::NEW_AUTHTOK_REQD);
    assert!(matches!(&e, PamError::NewAuthTokenRequired(m) if m == "acct_mgmt: NEW_AUTHTOK_REQD"));
    assert_eq!(e.to_string(), "new auth token required: acct_mgmt: NEW_AUTHTOK_REQD");
}

#[test]
fn other_codes_are_plain_errors() {
    for (code, name) in [
        (PamCode::SUCCESS, "SUCCESS"),
        (PamCode::SYSTEM_ERR, "SYSTEM_ERR"),
        (PamCode::CONV_ERR, "CONV_ERR"),
        (PamCode::AUTHTOK_EXPIRED, "AUTHTOK_EXPIRED"),
        (PamCode::INCOMPLETE, "INCOMPLETE"),
    ] {
        let e = PamError::from_rc("end", code);
        assert!(matches!(&e, PamError::Error(m) if *m == format!("end: {name}")));
        assert_eq!(e.to_string(), format!("end: {name}"));
    }
}

#[test]
fn password_conversation_answers_only_hidden_prompts() {
    let mut conv = PasswordConv::new("s3cret");
    assert_eq!(conv.prompt_blind("Password: "), Ok("s3cret".to_string()));
    assert_eq!(conv.prompt_echo("Login: "), Err(()));
    assert_eq!(conv.info("hello"), Ok(()));
    assert_eq!(conv.error("oops"), Ok(()));
    conv.wipe();
    assert_eq!(conv.password, "");
}

#[test]
fn scramble_empties_buffers() {
    let mut s = "secret".to_string();
    s.scramble();
    assert_eq!(s, "");
    let mut v: Vec<u8> = vec![1, 2, 3];
    v.scramble();
    assert!(v.is_empty());
}
