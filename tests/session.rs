use duino_fleet::fleet::WorkerIdentity;
use duino_fleet::job::JobError;
use duino_fleet::session::{
    answer, job_request, start, step, Action, Event, SessionConfig, SessionError, SessionState,
};

const DIGEST_HEX: &str = "deadbeef00112233445566778899aabbccddeeff";

fn config() -> SessionConfig {
    SessionConfig {
        username: "alice".to_string(),
        mining_key: "k3y".to_string(),
        identity: WorkerIdentity {
            label: b"arduino2".to_vec(),
            device_tag: b"DUCOIDff".to_vec(),
            target_rate: 30_000,
        },
    }
}

fn written(a: Action) -> Vec<u8> {
    match a {
        Action::Write(line) => line,
        other => panic!("expected a write, got {:?}", other),
    }
}

#[test]
fn request_and_answer_lines() {
    assert_eq!(job_request("alice", "k3y"), b"JOB,alice,AVR,k3y\n".to_vec());
    assert_eq!(
        answer(57, 29_876, b"arduino2", b"DUCOIDff"),
        b"57,298.76,Official AVR Miner 4.0,arduino2,DUCOIDff\n".to_vec()
    );
    assert_eq!(
        answer(0, 5, b"w", b"d"),
        b"0,0.05,Official AVR Miner 4.0,w,d\n".to_vec()
    );
}

#[test]
fn one_full_cycle() {
    let c = config();
    let (s, a) = start();
    assert_eq!(s, SessionState::Connecting);
    assert!(matches!(a, Action::Connect));

    let (s, a) = step(&c, s, Event::Connected);
    assert_eq!(s, SessionState::AwaitingGreeting);
    assert!(matches!(a, Action::ReadLine));

    let (s, a) = step(&c, s, Event::LineRead(b"3.0\n".to_vec()));
    assert_eq!(s, SessionState::RequestingJob);
    assert_eq!(written(a), b"JOB,alice,AVR,k3y\n".to_vec());

    let (s, a) = step(&c, s, Event::Written);
    assert_eq!(s, SessionState::AwaitingJob);
    assert!(matches!(a, Action::ReadLine));

    let line = format!("seedX,{},5\n", DIGEST_HEX).into_bytes();
    let (s, a) = step(&c, s, Event::LineRead(line));
    assert_eq!(s, SessionState::Computing { space: 501 });
    match a {
        Action::Search(job) => {
            assert_eq!(job.seed_hash, "seedX");
            assert_eq!(job.difficulty, 5);
            assert_eq!(job.expected_digest[0], 0xde);
        }
        other => panic!("expected a search, got {:?}", other),
    }

    let (s, a) = step(&c, s, Event::Searched { found: Some(300), elapsed_ns: 250_000_000 });
    assert_eq!(s, SessionState::Throttling { nonce: 300, work: 300 });
    assert!(matches!(a, Action::Sleep(750_000_000)));

    let (s, a) = step(&c, s, Event::Slept { total_ns: 1_000_000_000 });
    assert_eq!(s, SessionState::SubmittingAnswer);
    assert_eq!(
        written(a),
        b"300,300.00,Official AVR Miner 4.0,arduino2,DUCOIDff\n".to_vec()
    );

    let (s, a) = step(&c, s, Event::Written);
    assert_eq!(s, SessionState::AwaitingAck);
    assert!(matches!(a, Action::ReadLine));

    let (s, a) = step(&c, s, Event::LineRead(b"GOOD\n".to_vec()));
    assert_eq!(s, SessionState::RequestingJob);
    assert_eq!(written(a), b"JOB,alice,AVR,k3y\n".to_vec());
}

#[test]
fn missed_search_reports_nonce_zero_for_the_whole_space() {
    let c = config();
    let (s, a) = step(
        &c,
        SessionState::Computing { space: 501 },
        Event::Searched { found: None, elapsed_ns: 0 },
    );
    assert_eq!(s, SessionState::Throttling { nonce: 0, work: 501 });
    assert!(matches!(a, Action::Sleep(1_670_000_000)));
}

#[test]
fn slow_search_does_not_sleep() {
    let c = config();
    let (_, a) = step(
        &c,
        SessionState::Computing { space: 501 },
        Event::Searched { found: Some(3), elapsed_ns: 5_000_000_000 },
    );
    assert!(matches!(a, Action::Sleep(0)));
}

#[test]
fn malformed_job_ends_only_that_session() {
    let c = config();
    let (bad, a) = step(&c, SessionState::AwaitingJob, Event::LineRead(b"onlytwo,fields\n".to_vec()));
    assert_eq!(bad, SessionState::Failed(SessionError::Job(JobError::FieldCount)));
    assert!(matches!(a, Action::Stop));

    let line = format!("seedX,{},5\n", DIGEST_HEX).into_bytes();
    let (good, a) = step(&c, SessionState::AwaitingJob, Event::LineRead(line));
    assert_eq!(good, SessionState::Computing { space: 501 });
    assert!(matches!(a, Action::Search(_)));
}

#[test]
fn transport_failure_is_fatal() {
    let c = config();
    let (s, a) = step(&c, SessionState::AwaitingAck, Event::TransportFailed);
    assert_eq!(s, SessionState::Failed(SessionError::Transport));
    assert!(matches!(a, Action::Stop));
}

#[test]
fn unexpected_event_is_fatal() {
    let c = config();
    let (s, a) = step(&c, SessionState::Connecting, Event::Written);
    assert_eq!(s, SessionState::Failed(SessionError::OutOfOrder));
    assert!(matches!(a, Action::Stop));
}

#[test]
fn failed_session_stays_failed() {
    let c = config();
    let failed = SessionState::Failed(SessionError::Transport);
    let (s, a) = step(&c, failed, Event::Connected);
    assert_eq!(s, failed);
    assert!(matches!(a, Action::Stop));
}
