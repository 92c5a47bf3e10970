use sshd_watch::extract::{extract, NoMatch};

fn found(message: &str) -> (String, String) {
    let ap = extract(message).expect("a match");
    (ap.address, ap.port)
}

#[test]
fn extracts_address_and_port_from_failed_password() {
    let (a, p) = found("Failed password for invalid user from 10.0.0.5 port 4444 ssh2");
    assert_eq!(a, "10.0.0.5");
    assert_eq!(p, "4444");
}

#[test]
fn no_address_is_no_match() {
    assert_eq!(
        extract("pam_unix(sshd:auth): check pass; user unknown"),
        Err(NoMatch)
    );
}

#[test]
fn empty_message_is_no_match() {
    assert_eq!(extract(""), Err(NoMatch));
}

#[test]
fn leftmost_match_wins() {
    let (a, p) = found("from 1.2.3.4 port 22 then 5.6.7.8 port 33");
    assert_eq!(a, "1.2.3.4");
    assert_eq!(p, "22");
}

#[test]
fn groups_are_not_bounded_to_255() {
    let (a, p) = found("999.999.999.999 port 1");
    assert_eq!(a, "999.999.999.999");
    assert_eq!(p, "1");
}

#[test]
fn long_leading_group_matches_from_inside() {
    let (a, p) = found("1234.5.6.7 port 22");
    assert_eq!(a, "234.5.6.7");
    assert_eq!(p, "22");
}

#[test]
fn group_of_four_digits_elsewhere_fails() {
    assert_eq!(extract("1.2345.6.7 port 22"), Err(NoMatch));
    assert_eq!(extract("1.2.3.4567 port 22"), Err(NoMatch));
}

#[test]
fn any_whitespace_around_port_word() {
    let (a, p) = found("x 192.168.1.20\t port  \u{a0}65535 y");
    assert_eq!(a, "192.168.1.20");
    assert_eq!(p, "65535");
}

#[test]
fn whitespace_is_required_around_port_word() {
    assert_eq!(extract("10.0.0.5port 22"), Err(NoMatch));
    assert_eq!(extract("10.0.0.5 port22"), Err(NoMatch));
    assert_eq!(extract("10.0.0.5 port "), Err(NoMatch));
    assert_eq!(extract("10.0.0.5 Port 22"), Err(NoMatch));
}

#[test]
fn port_takes_all_its_digits() {
    let (_, p) = found("10.0.0.5 port 123456789x");
    assert_eq!(p, "123456789");
}

#[test]
fn non_ascii_text_before_the_match() {
    let (a, p) = found("é ü 8.8.4.4 port 80");
    assert_eq!(a, "8.8.4.4");
    assert_eq!(p, "80");
}
