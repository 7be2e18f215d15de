use pam_pushover::config::{find_option, resolve, split_argument};
use pam_pushover::Credentials;

fn args(items: &[&str]) -> Vec<String> {
    items.iter().map(|s| s.to_string()).collect()
}

#[test]
fn argument_splits_at_its_separator() {
    assert_eq!(split_argument("token=A"), ("token", "A"));
}

#[test]
fn argument_splits_at_the_first_separator_only() {
    assert_eq!(split_argument("a=b=c"), ("a", "b=c"));
    assert_eq!(split_argument("a==c"), ("a", "=c"));
}

#[test]
fn argument_without_separator_has_an_empty_value() {
    assert_eq!(split_argument("debug"), ("debug", ""));
}

#[test]
fn argument_with_nothing_after_the_separator_has_an_empty_value() {
    assert_eq!(split_argument("token="), ("token", ""));
}

#[test]
fn argument_with_nothing_before_the_separator_has_an_empty_key() {
    assert_eq!(split_argument("=x"), ("", "x"));
    assert_eq!(split_argument("="), ("", ""));
}

#[test]
fn empty_argument_splits_into_nothing() {
    assert_eq!(split_argument(""), ("", ""));
}

#[test]
fn argument_outside_ascii_splits_by_characters() {
    assert_eq!(split_argument("clé=välue"), ("clé", "välue"));
    assert_eq!(split_argument("日本=語"), ("日本", "語"));
}

#[test]
fn option_is_found_by_its_key() {
    let a = args(&["token=A", "user_token=B"]);
    assert_eq!(find_option(&a, "token"), Some("A".to_string()));
    assert_eq!(find_option(&a, "user_token"), Some("B".to_string()));
}

#[test]
fn option_that_is_not_given_is_not_found() {
    let a = args(&["token=A", "user_token=B"]);
    assert_eq!(find_option(&a, "user"), None);
    assert_eq!(find_option(&a, "tokens"), None);
    assert_eq!(find_option(&a, ""), None);
    assert_eq!(find_option(&args(&[]), "token"), None);
}

#[test]
fn last_occurrence_of_an_option_counts() {
    let a = args(&["token=first", "user_token=B", "token=second"]);
    assert_eq!(find_option(&a, "token"), Some("second".to_string()));
    let b = args(&["token=first", "token"]);
    assert_eq!(find_option(&b, "token"), Some(String::new()));
}

#[test]
fn option_without_separator_is_given_with_an_empty_value() {
    let a = args(&["token", "user_token=B"]);
    assert_eq!(find_option(&a, "token"), Some(String::new()));
}

#[test]
fn key_is_matched_whole() {
    let a = args(&["token_extra=A", "my_token=B", "Token=C"]);
    assert_eq!(find_option(&a, "token"), None);
}

#[test]
fn both_credentials_are_resolved() {
    let a = args(&["token=A", "user_token=B"]);
    assert_eq!(
        resolve(&a),
        Some(Credentials { token: "A".to_string(), user_token: "B".to_string() })
    );
}

#[test]
fn credentials_are_resolved_in_any_order_among_other_arguments() {
    let a = args(&["debug", "user_token=u=1", "timeout=3", "token=app"]);
    assert_eq!(
        resolve(&a),
        Some(Credentials { token: "app".to_string(), user_token: "u=1".to_string() })
    );
}

#[test]
fn missing_token_resolves_to_nothing() {
    assert_eq!(resolve(&args(&["user_token=B"])), None);
}

#[test]
fn missing_user_token_resolves_to_nothing() {
    assert_eq!(resolve(&args(&["token=A"])), None);
}

#[test]
fn no_arguments_resolve_to_nothing() {
    assert_eq!(resolve(&args(&[])), None);
}
