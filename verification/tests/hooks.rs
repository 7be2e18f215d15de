use pam_pushover::{Action, Event, PamPushover, Stage, Verdict};

fn args(items: &[&str]) -> Vec<String> {
    items.iter().map(|s| s.to_string()).collect()
}

#[test]
fn account_management_always_succeeds() {
    assert_eq!(PamPushover::acct_mgmt(&args(&[]), 0), Verdict::Success);
    assert_eq!(PamPushover::acct_mgmt(&args(&["token=A"]), 0x8000), Verdict::Success);
    assert_eq!(PamPushover::acct_mgmt(&args(&["nonsense", "="]), u32::MAX), Verdict::Success);
}

#[test]
fn credential_establishment_always_succeeds() {
    assert_eq!(PamPushover::sm_setcred(&args(&[]), 0), Verdict::Success);
    assert_eq!(PamPushover::sm_setcred(&args(&["user_token=B"]), 0x0002), Verdict::Success);
    assert_eq!(PamPushover::sm_setcred(&args(&["nonsense", "="]), u32::MAX), Verdict::Success);
}

#[test]
fn authentication_without_credentials_is_denied_at_once() {
    let (attempt, action) = PamPushover::sm_authenticate(&args(&["token=A"]), 0);
    assert_eq!(action, Action::Conclude(Verdict::AuthError));
    assert_eq!(attempt.stage, Stage::Finished(Verdict::AuthError));
    let (attempt, action) = PamPushover::sm_authenticate(&args(&[]), 0);
    assert_eq!(action, Action::Conclude(Verdict::AuthError));
    assert_eq!(attempt.stage, Stage::Finished(Verdict::AuthError));
}

#[test]
fn authentication_starts_with_a_numeral_for_a_secret() {
    let (attempt, action) = PamPushover::sm_authenticate(&args(&["token=A", "user_token=B"]), 0);
    assert_eq!(action, Action::ResolveUser);
    let number = attempt.secret.parse::<u64>().expect("the secret is a number");
    assert_eq!(attempt.secret, number.to_string());
}

#[test]
fn authentication_labels_the_notification_with_this_host() {
    let expected = gethostname::gethostname().to_string_lossy().into_owned();
    let (attempt, _) = PamPushover::sm_authenticate(&args(&["token=A", "user_token=B"]), 0);
    let secret = attempt.secret.clone();
    let (attempt, _) = attempt.step(Event::UserResolved("alice".to_string()));
    let (attempt, action) = attempt.step(Event::ChannelAcquired);
    match action {
        Action::Deliver { credentials, notification } => {
            assert_eq!(credentials.token, "A");
            assert_eq!(credentials.user_token, "B");
            assert_eq!(notification.title, format!("auth: {}", expected));
            assert_eq!(
                notification.body,
                format!("User alice is attempting to login. OTP: {}", secret)
            );
        }
        other => panic!("not a delivery: {:?}", other),
    }
    let (attempt, action) = attempt.step(Event::Delivered);
    assert_eq!(action, Action::Prompt("Insert OTP: ".to_string()));
    let (_, action) = attempt.step(Event::Responded(Some(secret)));
    assert_eq!(action, Action::Conclude(Verdict::Success));
}

#[test]
fn each_authentication_has_a_secret_of_its_own() {
    let given = args(&["token=A", "user_token=B"]);
    let (first, _) = PamPushover::sm_authenticate(&given, 0);
    let (second, _) = PamPushover::sm_authenticate(&given, 0);
    let (third, _) = PamPushover::sm_authenticate(&given, 0);
    assert_ne!(first.secret, second.secret);
    assert_ne!(first.secret, third.secret);
    assert_ne!(second.secret, third.secret);
}
