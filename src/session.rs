//! One worker's session with the server, as a state machine: the caller
//! connects, reads and writes lines, runs searches, sleeps and times them,
//! and hands each outcome back as an event; the session answers with the
//! next action.

use vstd::prelude::*;
use vstd::utf8::encode_utf8;
use crate::fleet::WorkerIdentity;
use crate::job::{parse_job, parse_job_spec, Job, JobError};
use crate::text::{append_bytes, decimal, digit_symbol, push_decimal};
use crate::throttle::{
    rate_of, reported_rate, search_space, sleep_duration, sleep_ns, space_of, work_of, work_units,
};

verus! {

/// The start of a job request, before the account name.
pub const REQUEST_HEAD: &'static str = "JOB,";

/// Between the account name and the mining key: the kind of client.
pub const CLIENT_KIND: &'static str = ",AVR,";

/// The client's name, sent with every answer.
pub const CLIENT_TAG: &'static str = "Official AVR Miner 4.0";

/// What a session needs to know: the account and the worker it plays.
pub struct SessionConfig {
    pub username: String,
    pub mining_key: String,
    pub identity: WorkerIdentity,
}

/// Why a session ended.
#[derive(Clone, Copy, Debug, PartialEq, Eq, Structural)]
pub enum SessionError {
    /// Connecting, reading or writing failed.
    Transport,
    /// The server's job line was malformed.
    Job(JobError),
    /// An event came that the session was not waiting for.
    OutOfOrder,
}

/// Where a session stands. `Computing` and `Throttling` are the two halves of
/// one computing step: the search, then the sleep that pads it.
#[derive(Clone, Copy, Debug, PartialEq, Eq, Structural)]
pub enum SessionState {
    Connecting,
    AwaitingGreeting,
    RequestingJob,
    AwaitingJob,
    /// Searching; `space` is the number of nonces in the job's search space.
    Computing { space: u64 },
    /// Sleeping; `nonce` will be submitted, for `work` hashes.
    Throttling { nonce: u64, work: u64 },
    SubmittingAnswer,
    AwaitingAck,
    /// Terminal.
    Failed(SessionError),
}

/// What happened since the last action.
#[derive(Debug)]
pub enum Event {
    /// The connection is open.
    Connected,
    /// One line came in, with its newline if it had one.
    LineRead(Vec<u8>),
    /// The line to write was written.
    Written,
    /// The search finished, after `elapsed_ns`, with its result.
    Searched { found: Option<u64>, elapsed_ns: u64 },
    /// The sleep finished; search and sleep took `total_ns` together.
    Slept { total_ns: u64 },
    /// Connecting, reading or writing failed.
    TransportFailed,
}

/// What the caller is to do next.
#[derive(Debug)]
pub enum Action {
    Connect,
    ReadLine,
    Write(Vec<u8>),
    /// Search for the job's nonce, timing the search.
    Search(Job),
    /// Sleep for this many nanoseconds.
    Sleep(u64),
    /// The session is over.
    Stop,
}

/// An action, with its bytes and job as sequences.
pub enum ActionView {
    Connect,
    ReadLine,
    Write(Seq<u8>),
    Search((Seq<u8>, Seq<u8>, u64)),
    Sleep(u64),
    Stop,
}

impl View for Job {
    type V = (Seq<u8>, Seq<u8>, u64);

    open spec fn view(&self) -> (Seq<u8>, Seq<u8>, u64) {
        (encode_utf8(self.seed_hash@), self.expected_digest@, self.difficulty)
    }
}

impl View for Action {
    type V = ActionView;

    open spec fn view(&self) -> ActionView {
        match self {
            Action::Connect => ActionView::Connect,
            Action::ReadLine => ActionView::ReadLine,
            Action::Write(line) => ActionView::Write(line@),
            Action::Search(job) => ActionView::Search(job@),
            Action::Sleep(ns) => ActionView::Sleep(*ns),
            Action::Stop => ActionView::Stop,
        }
    }
}

/// The job request: `JOB,<username>,AVR,<mining key>` and a newline.
pub open spec fn request_line(username: Seq<char>, mining_key: Seq<char>) -> Seq<u8> {
    encode_utf8(REQUEST_HEAD@) + encode_utf8(username) + encode_utf8(CLIENT_KIND@)
        + encode_utf8(mining_key) + seq![10u8]
}

/// A rate in hundredths as text with two decimals: `12345` is `123.45`.
pub open spec fn rate_text(rate: nat) -> Seq<u8> {
    decimal(rate / 100) + seq![46u8, digit_symbol(rate % 100 / 10), digit_symbol(rate % 10)]
}

/// The answer: `<nonce>,<rate>,<client tag>,<label>,<device tag>` and a
/// newline.
pub open spec fn answer_line(nonce: nat, rate: nat, label: Seq<u8>, device_tag: Seq<u8>) -> Seq<u8> {
    decimal(nonce) + seq![44u8] + rate_text(rate) + seq![44u8] + encode_utf8(CLIENT_TAG@)
        + seq![44u8] + label + seq![44u8] + device_tag + seq![10u8]
}

/// The session's transitions: from a state and an event, the next state and
/// the action that the caller is to carry out.
pub open spec fn transition(c: SessionConfig, s: SessionState, e: Event) -> (SessionState, ActionView) {
    match (s, e) {
        (SessionState::Failed(err), _) => (SessionState::Failed(err), ActionView::Stop),
        (_, Event::TransportFailed) => (SessionState::Failed(SessionError::Transport), ActionView::Stop),
        (SessionState::Connecting, Event::Connected) => (SessionState::AwaitingGreeting, ActionView::ReadLine),
        (SessionState::AwaitingGreeting, Event::LineRead(_)) =>
            (SessionState::RequestingJob, ActionView::Write(request_line(c.username@, c.mining_key@))),
        (SessionState::RequestingJob, Event::Written) => (SessionState::AwaitingJob, ActionView::ReadLine),
        (SessionState::AwaitingJob, Event::LineRead(line)) => match parse_job_spec(line@) {
            Ok(job) => (
                SessionState::Computing { space: space_of(job.2 as nat) as u64 },
                ActionView::Search(job),
            ),
            Err(err) => (SessionState::Failed(SessionError::Job(err)), ActionView::Stop),
        },
        (SessionState::Computing { space }, Event::Searched { found, elapsed_ns }) => {
            let work = work_of(found, space);
            let nonce: u64 = match found {
                Some(k) => k,
                None => 0,
            };
            (
                SessionState::Throttling { nonce, work },
                ActionView::Sleep(sleep_ns(work as nat, elapsed_ns as nat, c.identity.target_rate as nat) as u64),
            )
        },
        (SessionState::Throttling { nonce, work }, Event::Slept { total_ns }) => (
            SessionState::SubmittingAnswer,
            ActionView::Write(
                answer_line(
                    nonce as nat,
                    rate_of(work as nat, total_ns as nat),
                    c.identity.label@,
                    c.identity.device_tag@,
                ),
            ),
        ),
        (SessionState::SubmittingAnswer, Event::Written) => (SessionState::AwaitingAck, ActionView::ReadLine),
        (SessionState::AwaitingAck, Event::LineRead(_)) =>
            (SessionState::RequestingJob, ActionView::Write(request_line(c.username@, c.mining_key@))),
        _ => (SessionState::Failed(SessionError::OutOfOrder), ActionView::Stop),
    }
}

/// The job request line for an account.
pub fn job_request(username: &str, mining_key: &str) -> (r: Vec<u8>)
    ensures
        r@ == request_line(username@, mining_key@),
{
    let mut out: Vec<u8> = Vec::new();
    append_bytes(&mut out, REQUEST_HEAD.as_bytes());
    append_bytes(&mut out, username.as_bytes());
    append_bytes(&mut out, CLIENT_KIND.as_bytes());
    append_bytes(&mut out, mining_key.as_bytes());
    out.push(10);
    assert(out@ =~= request_line(username@, mining_key@));
    out
}

/// Appends a rate in hundredths as text with two decimals.
pub fn push_rate(out: &mut Vec<u8>, rate: u64)
    ensures
        final(out)@ == old(out)@ + rate_text(rate as nat),
{
    push_decimal(out, rate / 100);
    out.push(46);
    out.push((rate % 100 / 10) as u8 + 48);
    out.push((rate % 10) as u8 + 48);
    assert(final(out)@ =~= old(out)@ + rate_text(rate as nat));
}

/// The answer line for a nonce and a reported rate.
pub fn answer(nonce: u64, rate: u64, label: &[u8], device_tag: &[u8]) -> (r: Vec<u8>)
    ensures
        r@ == answer_line(nonce as nat, rate as nat, label@, device_tag@),
{
    let mut out: Vec<u8> = Vec::new();
    push_decimal(&mut out, nonce);
    out.push(44);
    push_rate(&mut out, rate);
    out.push(44);
    append_bytes(&mut out, CLIENT_TAG.as_bytes());
    out.push(44);
    append_bytes(&mut out, label);
    out.push(44);
    append_bytes(&mut out, device_tag);
    out.push(10);
    assert(out@ =~= answer_line(nonce as nat, rate as nat, label@, device_tag@));
    out
}

/// How a session begins: waiting to connect, and asking for the connection.
pub fn start() -> (r: (SessionState, Action))
    ensures
        r.0 == SessionState::Connecting,
        r.1@ == ActionView::Connect,
{
    (SessionState::Connecting, Action::Connect)
}

/// Takes the session one step: the next state and the next action for the
/// event that answered the last action.
pub fn step(config: &SessionConfig, state: SessionState, event: Event) -> (r: (SessionState, Action))
    requires
        config.identity.target_rate > 0,
    ensures
        r.0 == transition(*config, state, event).0,
        r.1@ == transition(*config, state, event).1,
{
    match (state, event) {
        (SessionState::Failed(err), _) => (SessionState::Failed(err), Action::Stop),
        (_, Event::TransportFailed) => (SessionState::Failed(SessionError::Transport), Action::Stop),
        (SessionState::Connecting, Event::Connected) => (SessionState::AwaitingGreeting, Action::ReadLine),
        (SessionState::AwaitingGreeting, Event::LineRead(_)) => (
            SessionState::RequestingJob,
            Action::Write(job_request(config.username.as_str(), config.mining_key.as_str())),
        ),
        (SessionState::RequestingJob, Event::Written) => (SessionState::AwaitingJob, Action::ReadLine),
        (SessionState::AwaitingJob, Event::LineRead(line)) => match parse_job(line.as_slice()) {
            Ok(job) => {
                let space = search_space(job.difficulty);
                (SessionState::Computing { space }, Action::Search(job))
            },
            Err(err) => (SessionState::Failed(SessionError::Job(err)), Action::Stop),
        },
        (SessionState::Computing { space }, Event::Searched { found, elapsed_ns }) => {
            let work = work_units(found, space);
            let nonce: u64 = match found {
                Some(k) => k,
                None => 0,
            };
            let ns = sleep_duration(work, elapsed_ns, config.identity.target_rate);
            (SessionState::Throttling { nonce, work }, Action::Sleep(ns))
        },
        (SessionState::Throttling { nonce, work }, Event::Slept { total_ns }) => {
            let rate = reported_rate(work, total_ns);
            let line = answer(
                nonce,
                rate,
                config.identity.label.as_slice(),
                config.identity.device_tag.as_slice(),
            );
            (SessionState::SubmittingAnswer, Action::Write(line))
        },
        (SessionState::SubmittingAnswer, Event::Written) => (SessionState::AwaitingAck, Action::ReadLine),
        (SessionState::AwaitingAck, Event::LineRead(_)) => (
            SessionState::RequestingJob,
            Action::Write(job_request(config.username.as_str(), config.mining_key.as_str())),
        ),
        _ => (SessionState::Failed(SessionError::OutOfOrder), Action::Stop),
    }
}

/// A failed session stays failed, and asks for nothing but to stop, whatever
/// comes next.
pub proof fn lemma_failed_is_terminal(c: SessionConfig, err: SessionError, e: Event)
    ensures
        transition(c, SessionState::Failed(err), e) == (SessionState::Failed(err), ActionView::Stop),
{
}

} // verus!
