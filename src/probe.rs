//! The probe of one endpoint as a state machine. The caller performs each
//! requested remote call and reports its outcome as an event; the machine
//! records outcomes and decides the next call, short-circuiting on failure.
use vstd::prelude::*;
use crate::outcome::{BenchmarkResult, ResultView, Stamp, StampView};

verus! {

/// The error recorded when neither method yields a recent block hash.
pub open spec fn hash_failure_text() -> Seq<char> {
    "Failed to get blockhash: All available methods failed"@
}

pub open spec fn submit_failure_text(msg: Seq<char>) -> Seq<char> {
    "Transaction failed: "@ + msg
}

pub open spec fn slot_failure_text(msg: Seq<char>) -> Seq<char> {
    "Failed to get transaction block height: "@ + msg
}

/// The remote call the probe needs next.
#[derive(PartialEq, Eq, Structural, Clone, Copy, Debug)]
pub enum Action {
    /// Query the current block height.
    QueryHeight,
    /// Fetch a recent block hash by the primary method.
    FetchLatestHash,
    /// Fetch a recent block hash by the fallback method.
    FetchHashWithCommitment,
    /// Sign, submit and confirm the self-transfer.
    Submit,
    /// Query the slot after confirmation.
    QuerySlot,
    /// No call is left: the record is to be completed.
    Finish,
}

/// The outcome of the remote call last requested.
pub enum Event {
    Height(u64),
    HeightFailed(String),
    LatestHash(bool),
    HashWithCommitment(bool),
    Submitted(String),
    SubmitFailed(String),
    Slot(u64),
    SlotFailed(String),
}

pub struct Probe {
    pub result: BenchmarkResult,
    pub extended: bool,
    pub pending: Action,
}

pub struct ProbeView {
    pub result: ResultView,
    pub extended: bool,
    pub pending: Action,
}

impl View for Probe {
    type V = ProbeView;

    open spec fn view(&self) -> ProbeView {
        ProbeView { result: self.result@, extended: self.extended, pending: self.pending }
    }
}

/// A probe that has only just started: nothing recorded, the height query due.
pub open spec fn started(endpoint: Seq<char>, start: StampView, extended: bool) -> ProbeView {
    ProbeView {
        result: ResultView {
            endpoint,
            start,
            end: None,
            block_height: None,
            error: None,
            transaction_signature: None,
            transaction_block_height: None,
        },
        extended,
        pending: Action::QueryHeight,
    }
}

/// One transition: what the outcome `e` of the pending call records, and
/// which call comes next. An event that answers no pending call changes
/// nothing.
pub open spec fn step(p: ProbeView, e: Event) -> ProbeView {
    let r = p.result;
    match (p.pending, e) {
        (Action::QueryHeight, Event::Height(h)) => ProbeView {
            result: ResultView { block_height: Some(h), ..r },
            pending: if p.extended { Action::FetchLatestHash } else { Action::Finish },
            ..p
        },
        (Action::QueryHeight, Event::HeightFailed(m)) => ProbeView {
            result: ResultView { error: Some(m@), ..r },
            pending: Action::Finish,
            ..p
        },
        (Action::FetchLatestHash, Event::LatestHash(ok)) => ProbeView {
            pending: if ok { Action::Submit } else { Action::FetchHashWithCommitment },
            ..p
        },
        (Action::FetchHashWithCommitment, Event::HashWithCommitment(ok)) => if ok {
            ProbeView { pending: Action::Submit, ..p }
        } else {
            ProbeView {
                result: ResultView { error: Some(hash_failure_text()), ..r },
                pending: Action::Finish,
                ..p
            }
        },
        (Action::Submit, Event::Submitted(sig)) => ProbeView {
            result: ResultView { transaction_signature: Some(sig@), ..r },
            pending: Action::QuerySlot,
            ..p
        },
        (Action::Submit, Event::SubmitFailed(m)) => ProbeView {
            result: ResultView { error: Some(submit_failure_text(m@)), ..r },
            pending: Action::Finish,
            ..p
        },
        (Action::QuerySlot, Event::Slot(h)) => ProbeView {
            result: ResultView { transaction_block_height: Some(h), ..r },
            pending: Action::Finish,
            ..p
        },
        (Action::QuerySlot, Event::SlotFailed(m)) => ProbeView {
            result: ResultView { error: Some(slot_failure_text(m@)), ..r },
            pending: Action::Finish,
            ..p
        },
        _ => p,
    }
}

/// The record a finished probe hands over, completed at `now`.
pub open spec fn finished(p: ProbeView, now: StampView) -> ResultView {
    ResultView { end: Some(now), ..p.result }
}

impl Probe {
    /// Not yet completed: the record's end is set only when the probe is
    /// finished.
    pub open spec fn wf(&self) -> bool {
        self.result.end is None
    }

    /// Starts probing `endpoint` at `start`; `extended` adds the transaction
    /// probe after the height query.
    pub fn new(endpoint: String, start: Stamp, extended: bool) -> (r: Probe)
        ensures
            r.wf(),
            r@ == started(endpoint@, start@, extended),
    {
        Probe { result: BenchmarkResult::new(endpoint, start), extended, pending: Action::QueryHeight }
    }

    /// The remote call to perform next.
    pub fn next_action(&self) -> (r: Action)
        ensures
            r == self@.pending,
    {
        self.pending
    }

    /// Records the outcome of the pending call and returns the next call.
    pub fn on_event(&mut self, e: Event) -> (r: Action)
        requires
            old(self).wf(),
        ensures
            final(self).wf(),
            final(self)@ == step(old(self)@, e),
            r == final(self)@.pending,
    {
        match (self.pending, e) {
            (Action::QueryHeight, Event::Height(h)) => {
                self.result.set_block_height(h);
                self.pending = if self.extended { Action::FetchLatestHash } else { Action::Finish };
            },
            (Action::QueryHeight, Event::HeightFailed(m)) => {
                self.result.set_error(m);
                self.pending = Action::Finish;
            },
            (Action::FetchLatestHash, Event::LatestHash(ok)) => {
                self.pending = if ok { Action::Submit } else { Action::FetchHashWithCommitment };
            },
            (Action::FetchHashWithCommitment, Event::HashWithCommitment(ok)) => {
                if ok {
                    self.pending = Action::Submit;
                } else {
                    self.result.set_error(
                        String::from_str("Failed to get blockhash: All available methods failed"),
                    );
                    self.pending = Action::Finish;
                }
            },
            (Action::Submit, Event::Submitted(sig)) => {
                self.result.set_transaction_signature(sig);
                self.pending = Action::QuerySlot;
            },
            (Action::Submit, Event::SubmitFailed(m)) => {
                let mut s = String::from_str("Transaction failed: ");
                s.append(m.as_str());
                self.result.set_error(s);
                self.pending = Action::Finish;
            },
            (Action::QuerySlot, Event::Slot(h)) => {
                self.result.set_transaction_block_height(h);
                self.pending = Action::Finish;
            },
            (Action::QuerySlot, Event::SlotFailed(m)) => {
                let mut s = String::from_str("Failed to get transaction block height: ");
                s.append(m.as_str());
                self.result.set_error(s);
                self.pending = Action::Finish;
            },
            _ => {},
        }
        self.pending
    }

    /// Hands over the record once no call is left, completed at `now`. The
    /// probe is consumed, so the record is completed exactly once.
    pub fn finish(self, now: Stamp) -> (r: BenchmarkResult)
        requires
            self.wf(),
            self.pending == Action::Finish,
            now.mono_nanos >= self.result.start.mono_nanos,
        ensures
            r@.wf(),
            r@ == finished(self@, now@),
    {
        let mut result = self.result;
        result.complete(now);
        result
    }
}

/// A failed height query ends the probe: the record carries the error, no
/// height, and an end once handed over.
pub proof fn law_height_failure_finalizes(
    endpoint: Seq<char>,
    start: StampView,
    extended: bool,
    msg: String,
    now: StampView,
)
    ensures
        ({
            let p = step(started(endpoint, start, extended), Event::HeightFailed(msg));
            let r = finished(p, now);
            &&& p.pending == Action::Finish
            &&& r.error == Some(msg@)
            &&& r.block_height is None
            &&& r.end == Some(now)
        }),
{
}

/// Without the transaction probe, a successful height query ends the probe
/// with the height recorded and no error.
pub proof fn law_height_success_basic(endpoint: Seq<char>, start: StampView, h: u64, now: StampView)
    ensures
        ({
            let p = step(started(endpoint, start, false), Event::Height(h));
            let r = finished(p, now);
            &&& p.pending == Action::Finish
            &&& r.block_height == Some(h)
            &&& r.error is None
            &&& r.end == Some(now)
        }),
{
}

/// When both block-hash methods fail, the probe ends with the hash failure
/// recorded, and no submission is ever requested.
pub proof fn law_hash_failure_skips_submission(endpoint: Seq<char>, start: StampView, h: u64)
    ensures
        ({
            let p0 = started(endpoint, start, true);
            let p1 = step(p0, Event::Height(h));
            let p2 = step(p1, Event::LatestHash(false));
            let p3 = step(p2, Event::HashWithCommitment(false));
            &&& p1.pending == Action::FetchLatestHash
            &&& p2.pending == Action::FetchHashWithCommitment
            &&& p3.pending == Action::Finish
            &&& p3.result.error == Some(hash_failure_text())
            &&& p3.result.transaction_signature is None
        }),
{
}

/// A confirmed submission whose slot query then fails keeps the signature
/// and also carries the error.
pub proof fn law_partial_success_kept(p: ProbeView, sig: String, msg: String)
    requires
        p.pending == Action::Submit,
    ensures
        ({
            let p1 = step(p, Event::Submitted(sig));
            let p2 = step(p1, Event::SlotFailed(msg));
            &&& p1.pending == Action::QuerySlot
            &&& p2.pending == Action::Finish
            &&& p2.result.transaction_signature == Some(sig@)
            &&& p2.result.error == Some(slot_failure_text(msg@))
        }),
{
}

} // verus!
