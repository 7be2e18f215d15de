use pam_pushover::{Challenge, Notification};

fn challenge(host_label: &str, issued_to: &str, secret: &str) -> Challenge {
    Challenge {
        secret: secret.to_string(),
        issued_to: issued_to.to_string(),
        host_label: host_label.to_string(),
    }
}

#[test]
fn notification_names_host_user_and_secret() {
    let n = Notification::compose(&challenge("srv1", "alice", "12345"));
    assert_eq!(n.title, "auth: srv1");
    assert_eq!(n.body, "User alice is attempting to login. OTP: 12345");
}

#[test]
fn notification_takes_its_parts_as_they_are() {
    let n = Notification::compose(&challenge("", "", ""));
    assert_eq!(n.title, "auth: ");
    assert_eq!(n.body, "User  is attempting to login. OTP: ");
    let m = Notification::compose(&challenge("büro.example", "Zoë K", "0"));
    assert_eq!(m.title, "auth: büro.example");
    assert_eq!(m.body, "User Zoë K is attempting to login. OTP: 0");
}

#[test]
fn notification_keeps_host_user_and_secret_apart() {
    let n = Notification::compose(&challenge("alice", "12345", "srv1"));
    assert_eq!(n.title, "auth: alice");
    assert_eq!(n.body, "User 12345 is attempting to login. OTP: srv1");
}
