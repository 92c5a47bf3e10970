use sshd_watch::forward::{forward_result, next_action, Action, ForwardError, ForwarderConfig, HttpOutcome};
use sshd_watch::journal::process_line;
use sshd_watch::pipeline::{process_lines, PipelineTally};
use sshd_watch::record::ParseError;

const GOOD: &str = r#"{"MESSAGE":"Failed password for root from 10.0.0.5 port 4444 ssh2","_HOSTNAME":"h","_PID":"1","_SOURCE_REALTIME_TIMESTAMP":"1700000123456789"}"#;

#[test]
fn no_endpoint_only_observes() {
    let config = ForwarderConfig { endpoint: None };
    let event = process_line(GOOD).expect("an event");
    assert_eq!(next_action(&config, Ok(event.clone())), Action::Observe(event));
}

#[test]
fn endpoint_delivers_to_its_url() {
    let config = ForwarderConfig { endpoint: Some("http://collector:8080/logs".to_string()) };
    let event = process_line(GOOD).expect("an event");
    assert_eq!(
        next_action(&config, Ok(event.clone())),
        Action::Deliver { url: "http://collector:8080/logs".to_string(), event }
    );
}

#[test]
fn failures_are_skipped() {
    let config = ForwarderConfig { endpoint: Some("http://c".to_string()) };
    assert_eq!(
        next_action(&config, Err(ParseError::NoAddressPortMatch)),
        Action::Skip(ParseError::NoAddressPortMatch)
    );
}

#[test]
fn delivery_results() {
    assert_eq!(forward_result(HttpOutcome::Status(200)), Ok(()));
    assert_eq!(forward_result(HttpOutcome::Status(299)), Ok(()));
    assert_eq!(forward_result(HttpOutcome::Status(199)), Err(ForwardError::Rejected(199)));
    assert_eq!(forward_result(HttpOutcome::Status(300)), Err(ForwardError::Rejected(300)));
    assert_eq!(forward_result(HttpOutcome::Status(503)), Err(ForwardError::Rejected(503)));
    assert_eq!(forward_result(HttpOutcome::Transport), Err(ForwardError::Network));
}

#[test]
fn one_malformed_line_does_not_stop_the_rest() {
    let lines = vec![
        GOOD.to_string(),
        GOOD.to_string(),
        "{\"MESSAGE\": oops".to_string(),
        GOOD.to_string(),
        GOOD.to_string(),
    ];
    let out = process_lines(&lines);
    assert_eq!(out.len(), 5);
    assert_eq!(out.iter().filter(|r| r.is_ok()).count(), 4);
    assert_eq!(out[2], Err(ParseError::MalformedLine));

    let config = ForwarderConfig { endpoint: None };
    let mut tally = PipelineTally::new();
    for r in out {
        match next_action(&config, r) {
            Action::Skip(_) => tally.note_skipped(),
            Action::Observe(_) => tally.note_observed(),
            Action::Deliver { .. } => tally.note_delivery(&Ok(())),
        }
    }
    assert_eq!(tally.lines, 5);
    assert_eq!(tally.observed, 4);
    assert_eq!(tally.skipped, 1);
    assert_eq!(tally.delivered, 0);
}

#[test]
fn each_line_gets_the_outcome_it_gets_alone() {
    let lines = vec![
        GOOD.to_string(),
        r#"{"MESSAGE":"pam_unix(sshd:auth): check pass; user unknown"}"#.to_string(),
        GOOD.replace("10.0.0.5", "192.168.7.9"),
        "not json {".to_string(),
        String::new(),
        GOOD.replace("\"_PID\":\"1\"", "\"_PID\":77"),
        GOOD.to_string(),
    ];
    let out = process_lines(&lines);
    assert_eq!(out.len(), lines.len());
    for (line, outcome) in lines.iter().zip(out.iter()) {
        assert_eq!(outcome, &process_line(line));
    }
    assert_eq!(out.iter().filter(|r| r.is_ok()).count(), 4);
    assert_eq!(out[1], Err(ParseError::NoAddressPortMatch));
    assert_eq!(out[3], Err(ParseError::MalformedLine));
    assert_eq!(out[4], Err(ParseError::MalformedLine));
    assert_eq!(out[2].as_ref().map(|e| e.address.clone()), Ok("192.168.7.9".to_string()));
    assert_eq!(out[5].as_ref().map(|e| e.process_id.clone()), Ok("77".to_string()));
}

#[test]
fn tally_counts_deliveries() {
    let mut tally = PipelineTally::new();
    tally.note_delivery(&Ok(()));
    tally.note_delivery(&Err(ForwardError::Network));
    tally.note_skipped();
    assert_eq!(tally.lines, 3);
    assert_eq!(tally.delivered, 1);
    assert_eq!(tally.failed_deliveries, 1);
    assert_eq!(tally.skipped, 1);
    assert_eq!(tally.observed, 0);
}
