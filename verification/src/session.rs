//! The transaction session runner: a state machine that consumes one
//! session's signals in delivery order, folds them into accumulators, and
//! decides when the session has succeeded or failed.
//!
//! A session moves `Created -> Requested -> Streaming` as the caller issues
//! the remote request and establishes the signal subscription, and reaches
//! `Succeeded` or `Failed` on a terminal signal. While streaming, decoded
//! records are appended in arrival order (duplicates kept), only the most
//! recent progress sample is retained, and every progress event asks the
//! caller to report its aggregate percentage. An error signal or a malformed
//! fixed-shape signal fails the session at once: no later signal is read.

use vstd::prelude::*;
use crate::error::{ErrorView, TransactionError};
use crate::packagekit::{DetailsView, InfoView, InstalledPackageInfo, ProgressSample, SampleView,
    TransactionDetails};
use crate::payload::{Payload, PayloadView};
use crate::signal::{decode, spec_decode, DomainEvent, EventView};

verus! {

/// The phases of one transaction session.
#[derive(Debug, Clone, Copy, PartialEq, Eq, Structural)]
pub enum SessionState {
    Created,
    Requested,
    Streaming,
    Succeeded,
    Failed,
}

/// One raw signal as the caller hands it to the runner: the member name, the
/// untyped payload, and the transaction's live percentage property at the
/// moment the signal arrived (when it could be read).
#[derive(Debug)]
pub struct SignalEvent {
    pub member: String,
    pub payload: Payload,
    pub live_percentage: Option<u32>,
}

/// The mathematical value of a [`SignalEvent`].
#[verifier::ext_equal]
pub struct SignalEventView {
    pub member: Seq<char>,
    pub payload: PayloadView,
    pub live_percentage: Option<u32>,
}

impl View for SignalEvent {
    type V = SignalEventView;

    open spec fn view(&self) -> SignalEventView {
        SignalEventView {
            member: self.member@,
            payload: self.payload@,
            live_percentage: self.live_percentage,
        }
    }
}

/// What the runner asks of the caller after one signal: report an aggregate
/// percentage to the progress callback, and whether the session is over.
#[derive(Debug, Clone, Copy)]
pub struct SignalStep {
    pub report: Option<u32>,
    pub done: bool,
}

/// The runner of one transaction session. Owns every accumulator of the
/// session; discarded once the outcome is taken.
#[derive(Debug)]
pub struct SessionRunner {
    pub state: SessionState,
    pub details: Vec<TransactionDetails>,
    pub infos: Vec<InstalledPackageInfo>,
    pub last_progress: Option<ProgressSample>,
    pub error: Option<TransactionError>,
}

/// The mathematical value of a [`SessionRunner`].
#[verifier::ext_equal]
pub struct RunnerView {
    pub state: SessionState,
    pub details: Seq<DetailsView>,
    pub infos: Seq<InfoView>,
    pub last_progress: Option<SampleView>,
    pub error: Option<ErrorView>,
}

impl View for SessionRunner {
    type V = RunnerView;

    open spec fn view(&self) -> RunnerView {
        RunnerView {
            state: self.state,
            details: self.details@.map_values(|d: TransactionDetails| d@),
            infos: self.infos@.map_values(|i: InstalledPackageInfo| i@),
            last_progress: match self.last_progress {
                Some(s) => Some(s@),
                None => None,
            },
            error: match &self.error {
                Some(e) => Some(e@),
                None => None,
            },
        }
    }
}

/// A fresh runner: `Created`, with empty accumulators.
pub open spec fn spec_init() -> RunnerView {
    RunnerView {
        state: SessionState::Created,
        details: Seq::empty(),
        infos: Seq::empty(),
        last_progress: None,
        error: None,
    }
}

/// A runner whose request is issued and subscription established: the state
/// in which signals are consumed.
pub open spec fn spec_streaming_init() -> RunnerView {
    RunnerView { state: SessionState::Streaming, ..spec_init() }
}

/// How one decoded event (or decode failure) folds into the runner, and the
/// aggregate percentage to report, if any.
pub open spec fn spec_apply_event(rv: RunnerView, ev: Result<EventView, ErrorView>) -> (
    RunnerView,
    Option<u32>,
) {
    match ev {
        Err(e) => (RunnerView { state: SessionState::Failed, error: Some(e), ..rv }, None),
        Ok(EventView::Details(None)) => (rv, None),
        Ok(EventView::Details(Some(d))) => (RunnerView { details: rv.details.push(d), ..rv }, None),
        Ok(EventView::Package(i)) => (RunnerView { infos: rv.infos.push(i), ..rv }, None),
        Ok(EventView::ItemProgress(s)) => (
            RunnerView { last_progress: Some(s), ..rv },
            Some(s.overall_percentage),
        ),
        Ok(EventView::ErrorCode(code, message)) => (
            RunnerView {
                state: SessionState::Failed,
                error: Some(ErrorView::Protocol { code, message }),
                ..rv
            },
            None,
        ),
        Ok(EventView::Finished) => (RunnerView { state: SessionState::Succeeded, ..rv }, None),
        Ok(EventView::Unknown(_)) => (rv, None),
    }
}

/// How one raw signal folds into the runner. A runner no longer streaming
/// ignores every further signal.
pub open spec fn spec_on_signal(rv: RunnerView, ev: SignalEventView) -> (RunnerView, Option<
    u32,
>) {
    if rv.state == SessionState::Streaming {
        spec_apply_event(rv, spec_decode(ev.member, ev.payload, ev.live_percentage))
    } else {
        (rv, None)
    }
}

/// The fold of a whole signal sequence: the final runner, and the reported
/// aggregate percentages in order.
pub open spec fn spec_run(rv: RunnerView, events: Seq<SignalEventView>) -> (RunnerView, Seq<
    u32,
>)
    decreases events.len(),
{
    if events.len() == 0 {
        (rv, Seq::empty())
    } else {
        let first = spec_on_signal(rv, events[0]);
        let rest = spec_run(first.0, events.skip(1));
        (
            rest.0,
            match first.1 {
                Some(p) => seq![p] + rest.1,
                None => rest.1,
            },
        )
    }
}

/// The outcome a finished runner surfaces: the detail records on success,
/// the recorded error on failure, and the synthetic connection-closed error
/// when the stream ended with no terminal signal.
pub open spec fn spec_outcome(rv: RunnerView) -> Result<Seq<DetailsView>, ErrorView> {
    if rv.state == SessionState::Succeeded {
        Ok(rv.details)
    } else if rv.state == SessionState::Failed {
        match rv.error {
            Some(e) => Err(e),
            None => Err(ErrorView::ConnectionClosed),
        }
    } else {
        Err(ErrorView::ConnectionClosed)
    }
}

/// A runner that is no longer streaming consumes nothing further: the fold
/// leaves it unchanged and reports nothing.
pub proof fn lemma_run_terminal(rv: RunnerView, events: Seq<SignalEventView>)
    requires
        rv.state != SessionState::Streaming,
    ensures
        spec_run(rv, events) == (rv, Seq::<u32>::empty()),
    decreases events.len(),
{
    if events.len() > 0 {
        lemma_run_terminal(rv, events.skip(1));
    }
}

/// Folding a concatenation folds the two halves in turn, concatenating
/// their reports.
pub proof fn lemma_run_append(rv: RunnerView, a: Seq<SignalEventView>, b: Seq<SignalEventView>)
    ensures
        spec_run(rv, a + b).0 == spec_run(spec_run(rv, a).0, b).0,
        spec_run(rv, a + b).1 == spec_run(rv, a).1 + spec_run(spec_run(rv, a).0, b).1,
    decreases a.len(),
{
    if a.len() == 0 {
        assert(a + b =~= b);
        assert(spec_run(rv, a).1 + spec_run(spec_run(rv, a).0, b).1 =~= spec_run(rv, b).1);
    } else {
        let first = spec_on_signal(rv, a[0]);
        assert((a + b)[0] == a[0]);
        assert((a + b).skip(1) =~= a.skip(1) + b);
        lemma_run_append(first.0, a.skip(1), b);
        match first.1 {
            Some(p) => {
                assert(seq![p] + (spec_run(first.0, a.skip(1)).1 + spec_run(
                    spec_run(first.0, a.skip(1)).0,
                    b,
                ).1) =~= (seq![p] + spec_run(first.0, a.skip(1)).1) + spec_run(
                    spec_run(first.0, a.skip(1)).0,
                    b,
                ).1);
            },
            None => {},
        }
    }
}

/// Folding one more signal applies one step to the fold so far.
pub proof fn lemma_run_snoc(rv: RunnerView, a: Seq<SignalEventView>, ev: SignalEventView)
    ensures
        ({
            let sofar = spec_run(rv, a);
            let step = spec_on_signal(sofar.0, ev);
            spec_run(rv, a.push(ev)) == (
                step.0,
                match step.1 {
                    Some(p) => sofar.1.push(p),
                    None => sofar.1,
                },
            )
        }),
{
    let sofar = spec_run(rv, a);
    let step = spec_on_signal(sofar.0, ev);
    assert(a.push(ev) =~= a + seq![ev]);
    lemma_run_append(rv, a, seq![ev]);
    assert(seq![ev][0] == ev);
    assert(seq![ev].skip(1).len() == 0);
    assert(spec_run(step.0, seq![ev].skip(1)) == (step.0, Seq::<u32>::empty()));
    match step.1 {
        Some(p) => {
            assert(seq![p] + Seq::<u32>::empty() =~= seq![p]);
            assert(sofar.1 + seq![p] =~= sofar.1.push(p));
        },
        None => {
            assert(sofar.1 + Seq::<u32>::empty() =~= sofar.1);
        },
    }
}

impl SessionRunner {
    /// A fresh session, not yet requested.
    pub fn new() -> (r: Self)
        ensures
            r@ == spec_init(),
    {
        let r = SessionRunner {
            state: SessionState::Created,
            details: Vec::new(),
            infos: Vec::new(),
            last_progress: None,
            error: None,
        };
        proof {
            assert(r@ =~= spec_init());
        }
        r
    }

    /// Records that the operation-specific remote call was issued.
    pub fn mark_requested(&mut self)
        requires
            old(self)@.state == SessionState::Created,
        ensures
            final(self)@ == (RunnerView { state: SessionState::Requested, ..old(self)@ }),
    {
        self.state = SessionState::Requested;
    }

    /// Records that the signal subscription is established: signals may now
    /// be consumed.
    pub fn mark_streaming(&mut self)
        requires
            old(self)@.state == SessionState::Requested,
        ensures
            final(self)@ == (RunnerView { state: SessionState::Streaming, ..old(self)@ }),
    {
        self.state = SessionState::Streaming;
    }

    /// Consumes one signal: decodes it, folds the event into the
    /// accumulators, and says what the caller must do next. When `done` is
    /// returned the session is terminal and no further signal may be read.
    pub fn on_signal(&mut self, ev: &SignalEvent) -> (step: SignalStep)
        requires
            old(self)@.state == SessionState::Streaming,
        ensures
            ({
                let r = spec_on_signal(old(self)@, ev@);
                final(self)@ == r.0 && step.report == r.1 && step.done == (r.0.state
                    != SessionState::Streaming)
            }),
    {
        let ghost pre = self@;
        match decode(ev.member.as_str(), &ev.payload, ev.live_percentage) {
            Ok(DomainEvent::Details(None)) => SignalStep { report: None, done: false },
            Ok(DomainEvent::Details(Some(d))) => {
                let ghost dv = d@;
                self.details.push(d);
                proof {
                    assert(self@.details =~= pre.details.push(dv));
                    assert(self@ =~= (RunnerView { details: pre.details.push(dv), ..pre }));
                }
                SignalStep { report: None, done: false }
            },
            Ok(DomainEvent::Package(info)) => {
                let ghost iv = info@;
                self.infos.push(info);
                proof {
                    assert(self@.infos =~= pre.infos.push(iv));
                    assert(self@ =~= (RunnerView { infos: pre.infos.push(iv), ..pre }));
                }
                SignalStep { report: None, done: false }
            },
            Ok(DomainEvent::ItemProgress(sample)) => {
                let overall = sample.overall_percentage;
                self.last_progress = Some(sample);
                SignalStep { report: Some(overall), done: false }
            },
            Ok(DomainEvent::ErrorCode(code, message)) => {
                self.state = SessionState::Failed;
                self.error = Some(TransactionError::Protocol { code, message });
                SignalStep { report: None, done: true }
            },
            Ok(DomainEvent::Finished) => {
                self.state = SessionState::Succeeded;
                SignalStep { report: None, done: true }
            },
            Ok(DomainEvent::Unknown(_)) => SignalStep { report: None, done: false },
            Err(e) => {
                self.state = SessionState::Failed;
                self.error = Some(e);
                SignalStep { report: None, done: true }
            },
        }
    }

    /// Surfaces the session's outcome: the accumulated detail records when
    /// the session succeeded (legitimately empty when no record could be
    /// extracted), else the error that ended it — with the synthetic
    /// connection-closed error when the stream ended with no terminal
    /// signal.
    pub fn into_result(self) -> (r: Result<Vec<TransactionDetails>, TransactionError>)
        ensures
            ({
                let o = spec_outcome(self@);
                match r {
                    Ok(ds) => o == Ok::<Seq<DetailsView>, ErrorView>(
                        ds@.map_values(|d: TransactionDetails| d@),
                    ),
                    Err(e) => o == Err::<Seq<DetailsView>, ErrorView>(e@),
                }
            }),
    {
        match self.state {
            SessionState::Succeeded => Ok(self.details),
            SessionState::Failed => match self.error {
                Some(e) => Err(e),
                None => Err(TransactionError::ConnectionClosed),
            },
            _ => Err(TransactionError::ConnectionClosed),
        }
    }
}

/// Runs one whole session over an already-delivered signal sequence: folds
/// every signal until the first terminal one, and returns the outcome
/// together with every aggregate percentage that was reported, in order.
pub fn transaction_handle(events: &Vec<SignalEvent>) -> (r: (
    Result<Vec<TransactionDetails>, TransactionError>,
    Vec<u32>,
))
    ensures
        ({
            let run = spec_run(
                spec_streaming_init(),
                events@.map_values(|e: SignalEvent| e@),
            );
            r.1@ == run.1 && match r.0 {
                Ok(ds) => spec_outcome(run.0) == Ok::<Seq<DetailsView>, ErrorView>(
                    ds@.map_values(|d: TransactionDetails| d@),
                ),
                Err(e) => spec_outcome(run.0) == Err::<Seq<DetailsView>, ErrorView>(e@),
            }
        }),
{
    let ghost evs = events@.map_values(|e: SignalEvent| e@);
    let mut runner = SessionRunner::new();
    runner.mark_requested();
    runner.mark_streaming();
    proof {
        assert(runner@ =~= spec_streaming_init());
        assert(evs.take(0) =~= Seq::<SignalEventView>::empty());
    }
    let mut reports: Vec<u32> = Vec::new();
    let mut i: usize = 0;
    let mut done = false;
    while !done && i < events.len()
        invariant
            i <= evs.len(),
            evs == events@.map_values(|e: SignalEvent| e@),
            !done ==> runner@.state == SessionState::Streaming,
            !done ==> spec_run(spec_streaming_init(), evs.take(i as int)) == (runner@, reports@),
            done ==> spec_run(spec_streaming_init(), evs) == (runner@, reports@),
        decreases evs.len() - i,
    {
        let step = runner.on_signal(&events[i]);
        match step.report {
            Some(p) => reports.push(p),
            None => {},
        }
        proof {
            lemma_run_snoc(spec_streaming_init(), evs.take(i as int), evs[i as int]);
            assert(evs.take(i as int).push(evs[i as int]) =~= evs.take(i + 1));
        }
        i += 1;
        if step.done {
            done = true;
            proof {
                lemma_run_terminal(runner@, evs.skip(i as int));
                lemma_run_append(spec_streaming_init(), evs.take(i as int), evs.skip(i as int));
                assert(evs.take(i as int) + evs.skip(i as int) =~= evs);
                assert(reports@ + Seq::<u32>::empty() =~= reports@);
            }
        }
    }
    proof {
        if !done {
            assert(evs.take(i as int) =~= evs);
        }
    }
    (runner.into_result(), reports)
}

/// The install path's success flag: whether the session ended without an
/// error.
pub fn install_success(r: &Result<Vec<TransactionDetails>, TransactionError>) -> (b: bool)
    ensures
        b == r is Ok,
{
    r.is_ok()
}

proof fn lemma_member_names_distinct()
    ensures
        "ErrorCode"@ != "Details"@,
        "ErrorCode"@ != "Package"@,
        "ErrorCode"@ != "ItemProgress"@,
        "Finished"@ != "Details"@,
        "Finished"@ != "Package"@,
        "Finished"@ != "ItemProgress"@,
        "Finished"@ != "ErrorCode"@,
        "ItemProgress"@ != "Details"@,
        "ItemProgress"@ != "Package"@,
{
    reveal_strlit("Details");
    reveal_strlit("Package");
    reveal_strlit("ItemProgress");
    reveal_strlit("ErrorCode");
    reveal_strlit("Finished");
    assert("Details"@.len() == 7);
    assert("Package"@.len() == 7);
    assert("ItemProgress"@.len() == 12);
    assert("ErrorCode"@.len() == 9);
    assert("Finished"@.len() == 8);
}

/// An error signal received mid-stream fails the session at once with that
/// signal's code and message: consumption halts, and whatever signals were
/// still queued after it leave the outcome unchanged.
pub proof fn lemma_error_code_halts(
    prefix: Seq<SignalEventView>,
    code: u32,
    message: Seq<char>,
    live: Option<u32>,
    suffix: Seq<SignalEventView>,
)
    requires
        spec_run(spec_streaming_init(), prefix).0.state == SessionState::Streaming,
    ensures
        ({
            let ev = SignalEventView {
                member: "ErrorCode"@,
                payload: PayloadView::Tuple(
                    seq![crate::payload::AtomView::U32(code), crate::payload::AtomView::Str(
                        message,
                    )],
                ),
                live_percentage: live,
            };
            let full = spec_run(spec_streaming_init(), prefix + seq![ev] + suffix);
            full == spec_run(spec_streaming_init(), prefix.push(ev)) && full.0.state
                == SessionState::Failed && spec_outcome(full.0) == Err::<
                Seq<DetailsView>,
                ErrorView,
            >(ErrorView::Protocol { code, message })
        }),
{
    let init = spec_streaming_init();
    let items = seq![crate::payload::AtomView::U32(code), crate::payload::AtomView::Str(
        message,
    )];
    let ev = SignalEventView {
        member: "ErrorCode"@,
        payload: PayloadView::Tuple(items),
        live_percentage: live,
    };
    lemma_member_names_distinct();
    assert(items.len() == 2);
    assert(items[0] == crate::payload::AtomView::U32(code));
    assert(items[1] == crate::payload::AtomView::Str(message));
    assert(spec_decode(ev.member, ev.payload, ev.live_percentage) == Ok::<EventView, ErrorView>(
        EventView::ErrorCode(code, message),
    ));
    lemma_run_snoc(init, prefix, ev);
    let upto = spec_run(init, prefix.push(ev));
    assert(upto.0.state == SessionState::Failed);
    assert(prefix.push(ev) =~= prefix + seq![ev]);
    lemma_run_append(init, prefix + seq![ev], suffix);
    lemma_run_terminal(upto.0, suffix);
    assert(prefix + seq![ev] + suffix =~= (prefix + seq![ev]) + suffix);
    let full = spec_run(init, prefix + seq![ev] + suffix);
    assert(full.0 == upto.0);
    assert(full.1 =~= upto.1);
}

/// A normal-completion signal ends a session that extracted no record in
/// success with an empty result list: empty-but-succeeded, not an error.
pub proof fn lemma_finished_empty_succeeds(
    prefix: Seq<SignalEventView>,
    payload: PayloadView,
    live: Option<u32>,
)
    requires
        spec_run(spec_streaming_init(), prefix).0.state == SessionState::Streaming,
        spec_run(spec_streaming_init(), prefix).0.details.len() == 0,
    ensures
        ({
            let ev = SignalEventView { member: "Finished"@, payload, live_percentage: live };
            let run = spec_run(spec_streaming_init(), prefix.push(ev));
            run.0.state == SessionState::Succeeded && spec_outcome(run.0) == Ok::<
                Seq<DetailsView>,
                ErrorView,
            >(Seq::empty())
        }),
{
    let init = spec_streaming_init();
    let ev = SignalEventView { member: "Finished"@, payload, live_percentage: live };
    lemma_member_names_distinct();
    assert(spec_decode(ev.member, ev.payload, ev.live_percentage) == Ok::<EventView, ErrorView>(
        EventView::Finished,
    ));
    lemma_run_snoc(init, prefix, ev);
    let run = spec_run(init, prefix.push(ev));
    assert(run.0.details == spec_run(init, prefix).0.details);
    assert(run.0.details =~= Seq::<DetailsView>::empty());
}

/// Two consecutive progress signals each report their own live-queried
/// aggregate percentage, and the session retains the second sample whole:
/// the reported aggregate becomes the second value, never a blend of the
/// two.
pub proof fn lemma_progress_reports_latest(
    rv: RunnerView,
    id1: Seq<char>,
    status1: u32,
    pct1: u32,
    live1: u32,
    id2: Seq<char>,
    status2: u32,
    pct2: u32,
    live2: u32,
)
    requires
        rv.state == SessionState::Streaming,
    ensures
        ({
            let ev1 = SignalEventView {
                member: "ItemProgress"@,
                payload: PayloadView::Tuple(
                    seq![crate::payload::AtomView::Str(id1), crate::payload::AtomView::U32(
                        status1,
                    ), crate::payload::AtomView::U32(pct1)],
                ),
                live_percentage: Some(live1),
            };
            let ev2 = SignalEventView {
                member: "ItemProgress"@,
                payload: PayloadView::Tuple(
                    seq![crate::payload::AtomView::Str(id2), crate::payload::AtomView::U32(
                        status2,
                    ), crate::payload::AtomView::U32(pct2)],
                ),
                live_percentage: Some(live2),
            };
            let first = spec_on_signal(rv, ev1);
            let second = spec_on_signal(first.0, ev2);
            first.1 == Some(live1) && second.1 == Some(live2) && second.0.state
                == SessionState::Streaming && second.0.last_progress == Some(
                SampleView {
                    package_id: id2,
                    status_code: status2,
                    item_percentage: pct2,
                    overall_percentage: live2,
                },
            )
        }),
{
    let items1 = seq![crate::payload::AtomView::Str(id1), crate::payload::AtomView::U32(
        status1,
    ), crate::payload::AtomView::U32(pct1)];
    let items2 = seq![crate::payload::AtomView::Str(id2), crate::payload::AtomView::U32(
        status2,
    ), crate::payload::AtomView::U32(pct2)];
    lemma_member_names_distinct();
    assert(items1.len() == 3);
    assert(items1[0] == crate::payload::AtomView::Str(id1));
    assert(items1[1] == crate::payload::AtomView::U32(status1));
    assert(items1[2] == crate::payload::AtomView::U32(pct1));
    assert(items2.len() == 3);
    assert(items2[0] == crate::payload::AtomView::Str(id2));
    assert(items2[1] == crate::payload::AtomView::U32(status2));
    assert(items2[2] == crate::payload::AtomView::U32(pct2));
}

} // verus!
