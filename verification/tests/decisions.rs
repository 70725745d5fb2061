use cgeos2::address::{preferred_address, terminal_host_port, AddressError};
use cgeos2::auth::{challenge_source, code_source, AuthError, ChallengeSource, CodeSource};
use cgeos2::output::wants_envelope;
use cgeos2::polling::{
    poll_window_seconds, provisioning_step, publication_step, readiness_step, PollError, PollStep,
    ReadinessError, ReadinessStep, TerminalStatus,
};

#[test]
fn poll_window_is_clamped_to_one_hour() {
    assert_eq!(poll_window_seconds(0), 1);
    assert_eq!(poll_window_seconds(1), 1);
    assert_eq!(poll_window_seconds(120), 120);
    assert_eq!(poll_window_seconds(3600), 3600);
    assert_eq!(poll_window_seconds(3601), 3600);
    assert_eq!(poll_window_seconds(u64::MAX), 3600);
}

#[test]
fn provisioning_step_follows_the_task_state() {
    assert!(matches!(provisioning_step(Some("active"), None, None, false, 1), PollStep::Finished));
    assert!(matches!(provisioning_step(Some("pending"), None, None, true, 1), PollStep::Wait));
    match provisioning_step(Some("pending"), None, None, false, 9) {
        PollStep::Stop(e) => {
            assert!(matches!(e, PollError::ProvisioningTimedOut { operation: 9 }));
            assert_eq!(
                e.message(),
                "provisioning status timed out; operation_id=00000000-0000-0000-0000-000000000009"
            );
        }
        _ => panic!("expected a timeout"),
    }
    match provisioning_step(Some("failed"), Some("dns"), Some("CONFLICT"), true, 1) {
        PollStep::Stop(e) => assert_eq!(e.message(), "provisioning failed at dns: CONFLICT"),
        _ => panic!("expected a failure"),
    }
    match provisioning_step(Some("failed"), None, None, true, 1) {
        PollStep::Stop(e) => assert_eq!(e.message(), "provisioning failed at unknown: UNAVAILABLE"),
        _ => panic!("expected a failure"),
    }
    for state in [None, Some("ACTIVE"), Some(""), Some("done")] {
        match provisioning_step(state, None, None, true, 1) {
            PollStep::Stop(e) => {
                assert!(matches!(e, PollError::InvalidProvisioningResponse));
                assert_eq!(e.message(), "invalid provisioning response");
            }
            _ => panic!("expected an invalid response"),
        }
    }
}

#[test]
fn publication_step_follows_the_status() {
    assert!(matches!(publication_step(Some("COMMITTED"), false, 1), PollStep::Finished));
    for status in ["DELIVERING", "ACTIVATING", "PENDING_ACK"] {
        assert!(matches!(publication_step(Some(status), true, 1), PollStep::Wait));
        match publication_step(Some(status), false, 2) {
            PollStep::Stop(e) => assert_eq!(
                e.message(),
                "publication timed out; operation_id=00000000-0000-0000-0000-000000000002"
            ),
            _ => panic!("expected a timeout"),
        }
    }
    match publication_step(Some("FAILED"), true, 1) {
        PollStep::Stop(e) => {
            assert!(matches!(e, PollError::PublicationFailed));
            assert_eq!(e.message(), "publication failed");
        }
        _ => panic!("expected a failure"),
    }
    match publication_step(Some("committed"), true, 1) {
        PollStep::Stop(e) => assert_eq!(e.message(), "invalid publication response"),
        _ => panic!("expected an invalid response"),
    }
    assert!(matches!(
        publication_step(None, true, 1),
        PollStep::Stop(PollError::InvalidPublicationResponse)
    ));
}

#[test]
fn readiness_step_follows_the_connection_status() {
    assert_eq!(readiness_step(TerminalStatus::Ready, false), ReadinessStep::Ready);
    assert_eq!(readiness_step(TerminalStatus::Connecting, true), ReadinessStep::Wait);
    assert_eq!(readiness_step(TerminalStatus::Offline, true), ReadinessStep::Wait);
    assert_eq!(
        readiness_step(TerminalStatus::Offline, false),
        ReadinessStep::Stop(ReadinessError::ConnectionTimedOut)
    );
    assert_eq!(
        readiness_step(TerminalStatus::CredentialsCleared, true),
        ReadinessStep::Stop(ReadinessError::CredentialsRejected)
    );
    assert_eq!(
        readiness_step(TerminalStatus::UpdateRequired, true),
        ReadinessStep::Stop(ReadinessError::UpdateRequired)
    );
    assert_eq!(
        readiness_step(TerminalStatus::StorageFailure, true),
        ReadinessStep::Stop(ReadinessError::StorageFailed)
    );
    assert_eq!(
        ReadinessError::CredentialsRejected.message(),
        "terminal credentials were rejected"
    );
    assert_eq!(ReadinessError::UpdateRequired.message(), "terminal requires a client update");
    assert_eq!(ReadinessError::StorageFailed.message(), "terminal session storage failed");
    assert_eq!(ReadinessError::ConnectionTimedOut.message(), "terminal connection timed out");
}

#[test]
fn known_challenge_is_reused_before_requesting_one() {
    match challenge_source(Some(1), Some("+15555550100".to_owned())) {
        Ok(ChallengeSource::Known(text)) => {
            assert_eq!(text, "00000000-0000-0000-0000-000000000001")
        }
        _ => panic!("expected the known challenge"),
    }
    match challenge_source(None, Some("+15555550100".to_owned())) {
        Ok(ChallengeSource::RequestFor(phone)) => assert_eq!(phone, "+15555550100"),
        _ => panic!("expected a challenge request"),
    }
    assert!(matches!(challenge_source(None, None), Err(AuthError::PhoneRequired)));
    assert_eq!(AuthError::PhoneRequired.message(), "phone is required without challenge");
}

#[test]
fn code_comes_from_stdin_or_the_command_line() {
    assert!(matches!(code_source(None, true), Ok(CodeSource::Stdin)));
    match code_source(Some("123456".to_owned()), false) {
        Ok(CodeSource::Given(code)) => assert_eq!(code, "123456"),
        _ => panic!("expected the given code"),
    }
    assert!(matches!(code_source(None, false), Err(AuthError::CodeRequired)));
    assert_eq!(AuthError::CodeRequired.message(), "code is required");
}

#[test]
fn envelope_is_used_for_json_or_non_terminal_output() {
    assert!(wants_envelope(true, true));
    assert!(wants_envelope(true, false));
    assert!(wants_envelope(false, false));
    assert!(!wants_envelope(false, true));
}

#[test]
fn terminal_host_and_port_come_from_the_base_url() {
    assert_eq!(
        terminal_host_port("https://api.example.test").unwrap(),
        ("api.example.test".to_owned(), 443)
    );
    assert_eq!(
        terminal_host_port("http://localhost:8080/path").unwrap(),
        ("localhost".to_owned(), 8080)
    );
    assert_eq!(terminal_host_port("not a url"), Err(AddressError::InvalidBaseUrl));
    assert_eq!(terminal_host_port("unix:/run/api.sock"), Err(AddressError::MissingHost));
    assert_eq!(terminal_host_port("foo://example.test"), Err(AddressError::MissingPort));
    assert_eq!(AddressError::InvalidBaseUrl.message(), "base URL is invalid");
    assert_eq!(AddressError::MissingHost.message(), "base URL has no host");
    assert_eq!(AddressError::MissingPort.message(), "base URL has no port");
    assert_eq!(AddressError::NoAddress.message(), "API host resolved to no addresses");
}

#[test]
fn first_ipv4_address_is_preferred() {
    assert_eq!(preferred_address(&vec![false, true, true]), Ok(1));
    assert_eq!(preferred_address(&vec![true, false]), Ok(0));
    assert_eq!(preferred_address(&vec![false, false]), Ok(0));
    assert_eq!(preferred_address(&vec![]), Err(AddressError::NoAddress));
}
