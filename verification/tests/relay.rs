use deltachat_core::relay::{
    login_param_from_host, next_relay_attempt, relay_candidate_cutoff, relay_candidate_due, relay_run_decision,
    relay_target_reached, RelayAttempt, RelayRun,
};
use deltachat_core::login_param::EnteredCertificateChecks;

#[test]
fn relay_runs_at_most_hourly() {
    assert_eq!(relay_run_decision(10_000, 9_000, true, false), RelayRun::Skip);
    assert_eq!(
        relay_run_decision(10_000, 6_000, true, false),
        RelayRun::Run { clock_ran_backwards: false }
    );
    assert_eq!(
        relay_run_decision(10_000, 20_000, true, false),
        RelayRun::Run { clock_ran_backwards: true }
    );
    assert_eq!(relay_run_decision(10_000, 6_000, false, false), RelayRun::Skip);
    assert_eq!(relay_run_decision(10_000, 6_000, true, true), RelayRun::Skip);
    assert_eq!(
        relay_run_decision(i64::MIN, i64::MIN, true, false),
        RelayRun::Run { clock_ran_backwards: false }
    );
}

#[test]
fn relay_candidates() {
    assert_eq!(relay_candidate_cutoff(1_000_000), 1_000_000 - 604_800);
    assert_eq!(relay_candidate_cutoff(i64::MIN + 5), i64::MIN);
    assert!(relay_candidate_due(0, 1_000_000));
    assert!(!relay_candidate_due(900_000, 1_000_000));
    assert!(relay_candidate_due(2_000_000, 1_000_000));
    assert!(relay_target_reached(3));
    assert!(!relay_target_reached(2));
    assert_eq!(next_relay_attempt(3, &vec!["a.org".to_string()]), RelayAttempt::Finished);
    assert_eq!(next_relay_attempt(1, &vec![]), RelayAttempt::NoCandidates);
    let hosts = vec!["a.org".to_string(), "b.org".to_string()];
    match next_relay_attempt(1, &hosts) {
        RelayAttempt::Try(h) => assert!(hosts.contains(&h)),
        other => panic!("unexpected {other:?}"),
    }
}

#[test]
fn relay_login_params() {
    let p = login_param_from_host("Relay.Example.ORG");
    let (user, host) = p.addr.split_once('@').unwrap();
    assert_eq!(host, "relay.example.org");
    assert_eq!(user.len(), 9);
    assert!(user.chars().all(|c| c.is_ascii_alphanumeric()));
    assert_eq!(p.imap.password.len(), 22);
    assert!(p.imap.password.chars().all(|c| c.is_ascii_alphanumeric()));
    assert_eq!(p.certificate_checks, EnteredCertificateChecks::Strict);
    assert!(p.imap.server.is_empty() && p.smtp.password.is_empty());
}
