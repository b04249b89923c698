use doken::callback::{
    accept, extract, find_value, validate, AntiForgeryToken, CapturedCallback, Rejection,
    ResponseMode,
};

fn pairs(items: &[(&str, &str)]) -> Vec<(String, String)> {
    items.iter().map(|(n, v)| (n.to_string(), v.to_string())).collect()
}

fn token(secret: &str) -> AntiForgeryToken {
    AntiForgeryToken::new(secret.to_string())
}

#[test]
fn first_pair_of_a_name_wins() {
    let all = pairs(&[("a", "1"), ("b", "2"), ("a", "3")]);
    assert_eq!(find_value(&all, "a"), Some(&"1".to_string()));
    assert_eq!(find_value(&all, "b"), Some(&"2".to_string()));
    assert_eq!(find_value(&all, "c"), None);
    assert_eq!(find_value(&Vec::new(), "a"), None);
}

#[test]
fn names_are_compared_exactly() {
    let all = pairs(&[("State", "1"), ("state ", "2")]);
    assert_eq!(find_value(&all, "state"), None);
}

#[test]
fn anti_forgery_token_matches_only_itself() {
    let expected = token("S3cr3t");
    assert!(expected.matches(&"S3cr3t".to_string()));
    assert!(!expected.matches(&"s3cr3t".to_string()));
    assert!(!expected.matches(&"S3cr3".to_string()));
    assert!(!expected.matches(&"S3cr3t ".to_string()));
    assert!(!expected.matches(&String::new()));
    assert_eq!(expected.secret(), "S3cr3t");
}

#[test]
fn query_mode_extracts_code_and_state() {
    let got = extract(ResponseMode::Query, &pairs(&[("code", "abc"), ("state", "S"), ("x", "y")]));
    assert_eq!(got, Ok(CapturedCallback::Code { code: "abc".to_string(), state: "S".to_string() }));
}

#[test]
fn query_mode_without_code_or_state_is_malformed() {
    assert_eq!(
        extract(ResponseMode::Query, &pairs(&[("state", "S")])),
        Err(Rejection::MalformedCallback)
    );
    assert_eq!(
        extract(ResponseMode::Query, &pairs(&[("code", "abc")])),
        Err(Rejection::MalformedCallback)
    );
    assert_eq!(extract(ResponseMode::Query, &Vec::new()), Err(Rejection::MalformedCallback));
}

#[test]
fn form_post_mode_extracts_the_token_fields() {
    let got = extract(
        ResponseMode::FormPost,
        &pairs(&[("access_token", "abc"), ("expires_in", "3600"), ("state", "S")]),
    );
    assert_eq!(
        got,
        Ok(CapturedCallback::Token {
            access_token: "abc".to_string(),
            expires_in: 3600,
            state: "S".to_string()
        })
    );
}

#[test]
fn form_post_mode_needs_every_field() {
    let missing_expiry = pairs(&[("access_token", "abc"), ("state", "S")]);
    let missing_token = pairs(&[("expires_in", "3600"), ("state", "S")]);
    let missing_state = pairs(&[("access_token", "abc"), ("expires_in", "3600")]);
    for incomplete in [missing_expiry, missing_token, missing_state] {
        assert_eq!(extract(ResponseMode::FormPost, &incomplete), Err(Rejection::MalformedCallback));
    }
}

#[test]
fn form_post_mode_needs_a_numeric_lifetime() {
    for lifetime in ["", "soon", "-1", "1.5", "18446744073709551616"] {
        let all = pairs(&[("access_token", "abc"), ("expires_in", lifetime), ("state", "S")]);
        assert_eq!(extract(ResponseMode::FormPost, &all), Err(Rejection::MalformedCallback));
    }
}

#[test]
fn a_code_in_a_form_post_flow_is_malformed() {
    let all = pairs(&[("code", "abc"), ("state", "S")]);
    assert_eq!(extract(ResponseMode::FormPost, &all), Err(Rejection::MalformedCallback));
}

#[test]
fn validation_keeps_a_callback_with_the_right_state() {
    let callback = CapturedCallback::Code { code: "abc".to_string(), state: "S".to_string() };
    assert_eq!(validate(callback.clone(), &token("S")), Ok(callback));
}

#[test]
fn validation_rejects_a_callback_with_another_state() {
    let code = CapturedCallback::Code { code: "abc".to_string(), state: "wrong".to_string() };
    assert_eq!(validate(code, &token("S")), Err(Rejection::CsrfMismatch));
    let posted = CapturedCallback::Token {
        access_token: "abc".to_string(),
        expires_in: 1,
        state: "s".to_string(),
    };
    assert_eq!(validate(posted, &token("S")), Err(Rejection::CsrfMismatch));
}

#[test]
fn accept_reports_malformed_before_mismatch() {
    let expected = token("S");
    assert_eq!(
        accept(ResponseMode::Query, &pairs(&[("state", "wrong")]), &expected),
        Err(Rejection::MalformedCallback)
    );
    assert_eq!(
        accept(ResponseMode::Query, &pairs(&[("state", "wrong"), ("code", "c")]), &expected),
        Err(Rejection::CsrfMismatch)
    );
    assert_eq!(
        accept(ResponseMode::Query, &pairs(&[("state", "S"), ("code", "c")]), &expected),
        Ok(CapturedCallback::Code { code: "c".to_string(), state: "S".to_string() })
    );
}

#[test]
fn the_first_state_is_the_one_that_counts() {
    let expected = token("S");
    let all = pairs(&[("state", "wrong"), ("state", "S"), ("code", "c")]);
    assert_eq!(accept(ResponseMode::Query, &all, &expected), Err(Rejection::CsrfMismatch));
}

#[test]
fn find_value_takes_the_earliest_pair_of_the_name() {
    let all = pairs(&[("x", "0"), ("state", "first"), ("state", "second"), ("code", "c")]);
    assert_eq!(find_value(&all, "state"), Some(&all[1].1));
    assert_eq!(find_value(&all, "code"), Some(&all[3].1));
    assert_eq!(find_value(&all, "missing"), None);
}
