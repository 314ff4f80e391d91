//! The raw print-job protocol as a state machine.
//!
//! One job is a fixed sequence of steps against the spooler: open a handle,
//! begin a document, begin a page, write the payload, end the page, end the
//! document, close the handle. The machine encodes which step comes next in
//! every situation, and in particular the cleanup rules:
//!
//! - if the open step fails, nothing was acquired and the run is over;
//! - if beginning the document fails, the handle is still closed;
//! - if beginning the page fails, the document is still ended and the handle
//!   still closed;
//! - once the write step runs, its outcome — success or failure — settles the
//!   verdict, and the page end, document end and close steps all still run;
//! - the outcomes of the end-page, end-document and close steps are ignored:
//!   the verdict is already settled when they run.
//!
//! A driver performs the action of the current phase, feeds the reported
//! outcome back through [`advance`], and repeats until no action is left.

use vstd::prelude::*;

verus! {

/// Classified failure of one raw print job.
#[derive(Clone, Copy, Debug, PartialEq, Eq, Structural)]
pub enum PrintError {
    /// The destination could not be opened: unknown name, no access, or a
    /// name that cannot denote a printer at all.
    DestinationUnavailable,
    /// The spooler refused to create a job on the open handle.
    JobStartFailed,
    /// The spooler refused to start the page within the job.
    PageStartFailed,
    /// The transfer of the payload failed or was rejected.
    WriteFailed,
}

/// The individual steps of the protocol, in the order a fully successful run
/// performs them.
#[derive(Clone, Copy, Debug, PartialEq, Eq, Structural)]
pub enum Action {
    /// Acquire a handle to the named destination.
    Open,
    /// Register a new raw-format document on the handle.
    BeginDoc,
    /// Mark the start of the single page.
    BeginPage,
    /// Transmit the whole payload as one transfer.
    WritePayload,
    /// Mark the end of the page; best effort, the outcome is ignored.
    EndPage,
    /// Mark the end of the document; best effort, the outcome is ignored.
    EndDoc,
    /// Release the handle; best effort, the outcome is ignored.
    Close,
}

/// What the spooler reports back for one performed action.
#[derive(Clone, Copy, Debug, PartialEq, Eq, Structural)]
pub enum StepOutcome {
    /// The step succeeded. `count` is the reported byte count for
    /// [`Action::WritePayload`]; for every other step it carries no
    /// information and the machine ignores it.
    Succeeded { count: u32 },
    /// The step failed.
    Failed,
}

/// What a finished run has settled on: a transferred byte count, or a
/// classified failure.
#[derive(Clone, Copy, Debug, PartialEq, Eq, Structural)]
pub enum Verdict {
    /// The write step succeeded and reported `count` transferred bytes.
    Accepted { count: u32 },
    /// The job failed; `error` says at which step.
    Rejected { error: PrintError },
}

/// The control state of one raw print job.
#[derive(Clone, Copy, Debug, PartialEq, Eq, Structural)]
pub enum Phase {
    /// Nothing has happened yet; the next action acquires the handle.
    Ready,
    /// The handle is open; the next action registers the document.
    Opened,
    /// The document is registered; the next action starts the page.
    DocActive,
    /// The page is started; the next action writes the payload.
    PageActive,
    /// The verdict is settled; the page must still be ended.
    EndPageRequired { verdict: Verdict },
    /// The verdict is settled; the document must still be ended.
    EndDocRequired { verdict: Verdict },
    /// The verdict is settled; the handle must still be released.
    CloseRequired { verdict: Verdict },
    /// The run is over: the handle is released, or was never acquired.
    Done { verdict: Verdict },
}

/// The phase every run starts in.
pub open spec fn initial_phase() -> Phase {
    Phase::Ready
}

/// The action a driver must perform in phase `p`, or `None` when the run is
/// over.
pub open spec fn phase_action(p: Phase) -> Option<Action> {
    match p {
        Phase::Ready => Some(Action::Open),
        Phase::Opened => Some(Action::BeginDoc),
        Phase::DocActive => Some(Action::BeginPage),
        Phase::PageActive => Some(Action::WritePayload),
        Phase::EndPageRequired { .. } => Some(Action::EndPage),
        Phase::EndDocRequired { .. } => Some(Action::EndDoc),
        Phase::CloseRequired { .. } => Some(Action::Close),
        Phase::Done { .. } => None,
    }
}

/// The phase that follows `p` once its action has been performed with
/// outcome `o`.
pub open spec fn phase_step(p: Phase, o: StepOutcome) -> Phase {
    match p {
        Phase::Ready => match o {
            StepOutcome::Succeeded { .. } => Phase::Opened,
            StepOutcome::Failed => Phase::Done {
                verdict: Verdict::Rejected { error: PrintError::DestinationUnavailable },
            },
        },
        Phase::Opened => match o {
            StepOutcome::Succeeded { .. } => Phase::DocActive,
            StepOutcome::Failed => Phase::CloseRequired {
                verdict: Verdict::Rejected { error: PrintError::JobStartFailed },
            },
        },
        Phase::DocActive => match o {
            StepOutcome::Succeeded { .. } => Phase::PageActive,
            StepOutcome::Failed => Phase::EndDocRequired {
                verdict: Verdict::Rejected { error: PrintError::PageStartFailed },
            },
        },
        Phase::PageActive => match o {
            StepOutcome::Succeeded { count } => Phase::EndPageRequired {
                verdict: Verdict::Accepted { count },
            },
            StepOutcome::Failed => Phase::EndPageRequired {
                verdict: Verdict::Rejected { error: PrintError::WriteFailed },
            },
        },
        Phase::EndPageRequired { verdict } => Phase::EndDocRequired { verdict },
        Phase::EndDocRequired { verdict } => Phase::CloseRequired { verdict },
        Phase::CloseRequired { verdict } => Phase::Done { verdict },
        Phase::Done { verdict } => Phase::Done { verdict },
    }
}

/// The action to perform next, executable form of [`phase_action`].
pub fn action_of(p: &Phase) -> (a: Option<Action>)
    ensures
        a == phase_action(*p),
{
    match p {
        Phase::Ready => Some(Action::Open),
        Phase::Opened => Some(Action::BeginDoc),
        Phase::DocActive => Some(Action::BeginPage),
        Phase::PageActive => Some(Action::WritePayload),
        Phase::EndPageRequired { .. } => Some(Action::EndPage),
        Phase::EndDocRequired { .. } => Some(Action::EndDoc),
        Phase::CloseRequired { .. } => Some(Action::Close),
        Phase::Done { .. } => None,
    }
}

/// Take one transition, executable form of [`phase_step`].
pub fn advance(p: Phase, o: StepOutcome) -> (next: Phase)
    ensures
        next == phase_step(p, o),
{
    match p {
        Phase::Ready => match o {
            StepOutcome::Succeeded { .. } => Phase::Opened,
            StepOutcome::Failed => Phase::Done {
                verdict: Verdict::Rejected { error: PrintError::DestinationUnavailable },
            },
        },
        Phase::Opened => match o {
            StepOutcome::Succeeded { .. } => Phase::DocActive,
            StepOutcome::Failed => Phase::CloseRequired {
                verdict: Verdict::Rejected { error: PrintError::JobStartFailed },
            },
        },
        Phase::DocActive => match o {
            StepOutcome::Succeeded { .. } => Phase::PageActive,
            StepOutcome::Failed => Phase::EndDocRequired {
                verdict: Verdict::Rejected { error: PrintError::PageStartFailed },
            },
        },
        Phase::PageActive => match o {
            StepOutcome::Succeeded { count } => Phase::EndPageRequired {
                verdict: Verdict::Accepted { count },
            },
            StepOutcome::Failed => Phase::EndPageRequired {
                verdict: Verdict::Rejected { error: PrintError::WriteFailed },
            },
        },
        Phase::EndPageRequired { verdict } => Phase::EndDocRequired { verdict },
        Phase::EndDocRequired { verdict } => Phase::CloseRequired { verdict },
        Phase::CloseRequired { verdict } => Phase::Done { verdict },
        Phase::Done { verdict } => Phase::Done { verdict },
    }
}

/// The caller-facing result a settled verdict stands for. The reported count
/// is a `u32` from the transfer primitive; it widens to `usize` without loss.
pub open spec fn verdict_as_result(v: Verdict) -> Result<usize, PrintError> {
    match v {
        Verdict::Accepted { count } => Ok(count as usize),
        Verdict::Rejected { error } => Err(error),
    }
}

/// Turn a settled verdict into the caller-facing result, executable form of
/// [`verdict_as_result`].
pub fn verdict_result(v: &Verdict) -> (r: Result<usize, PrintError>)
    ensures
        r == verdict_as_result(*v),
{
    match v {
        Verdict::Accepted { count } => Ok(*count as usize),
        Verdict::Rejected { error } => Err(*error),
    }
}

/// The phase a run ends in: starting at `p`, perform the pending action,
/// feed it the next outcome of `outs`, and repeat until no action is left or
/// the outcomes run out.
pub open spec fn run_phase(p: Phase, outs: Seq<StepOutcome>) -> Phase
    decreases outs.len(),
{
    if outs.len() == 0 || phase_action(p) is None {
        p
    } else {
        run_phase(phase_step(p, outs[0]), outs.skip(1))
    }
}

/// The actions such a run performs, in order.
pub open spec fn run_actions(p: Phase, outs: Seq<StepOutcome>) -> Seq<Action>
    decreases outs.len(),
{
    match phase_action(p) {
        None => Seq::empty(),
        Some(a) => if outs.len() == 0 {
            Seq::empty()
        } else {
            seq![a] + run_actions(phase_step(p, outs[0]), outs.skip(1))
        },
    }
}

/// How often action `a` occurs in `s`.
pub open spec fn count_action(s: Seq<Action>, a: Action) -> nat
    decreases s.len(),
{
    if s.len() == 0 {
        0
    } else {
        count_action(s.drop_last(), a) + (if s.last() == a {
            1nat
        } else {
            0nat
        })
    }
}

/// If opening the destination fails, the run is over at once: no document,
/// page or write step is attempted, and — since nothing was acquired — the
/// handle is never closed.
pub proof fn lemma_open_failure_run(outs: Seq<StepOutcome>)
    requires
        outs.len() >= 1,
        outs[0] is Failed,
    ensures
        run_actions(initial_phase(), outs) =~= seq![Action::Open],
        run_phase(initial_phase(), outs) == (Phase::Done {
            verdict: Verdict::Rejected { error: PrintError::DestinationUnavailable },
        }),
{
    reveal_with_fuel(run_phase, 3);
    reveal_with_fuel(run_actions, 3);
}

/// If the spooler refuses to create the document, neither the page step nor
/// the write step is ever attempted — yet the handle is still closed before
/// the run ends with `JobStartFailed`.
pub proof fn lemma_doc_refusal_run(outs: Seq<StepOutcome>)
    requires
        outs.len() >= 3,
        outs[0] is Succeeded,
        outs[1] is Failed,
    ensures
        run_actions(initial_phase(), outs) =~= seq![Action::Open, Action::BeginDoc, Action::Close],
        run_phase(initial_phase(), outs) == (Phase::Done {
            verdict: Verdict::Rejected { error: PrintError::JobStartFailed },
        }),
{
    reveal_with_fuel(run_phase, 5);
    reveal_with_fuel(run_actions, 5);
    assert(outs.skip(1)[0] == outs[1]);
    assert(outs.skip(1).skip(1).len() >= 1);
}

/// If the spooler refuses to start the page, the document is still ended and
/// the handle still closed before the run ends with `PageStartFailed`; the
/// write step is never attempted.
pub proof fn lemma_page_refusal_run(outs: Seq<StepOutcome>)
    requires
        outs.len() >= 5,
        outs[0] is Succeeded,
        outs[1] is Succeeded,
        outs[2] is Failed,
    ensures
        run_actions(initial_phase(), outs) =~= seq![
            Action::Open,
            Action::BeginDoc,
            Action::BeginPage,
            Action::EndDoc,
            Action::Close,
        ],
        run_phase(initial_phase(), outs) == (Phase::Done {
            verdict: Verdict::Rejected { error: PrintError::PageStartFailed },
        }),
{
    reveal_with_fuel(run_phase, 7);
    reveal_with_fuel(run_actions, 7);
    assert(outs.skip(1)[0] == outs[1]);
    assert(outs.skip(1).skip(1)[0] == outs[2]);
    assert(outs.skip(1).skip(1).skip(1).len() >= 2);
}

/// Once the write step runs, the page end, document end and close steps all
/// still run, whether the transfer succeeded or failed; the verdict is the
/// transfer's reported count on success and `WriteFailed` on failure.
pub proof fn lemma_write_step_run(outs: Seq<StepOutcome>)
    requires
        outs.len() >= 7,
        outs[0] is Succeeded,
        outs[1] is Succeeded,
        outs[2] is Succeeded,
    ensures
        run_actions(initial_phase(), outs) =~= seq![
            Action::Open,
            Action::BeginDoc,
            Action::BeginPage,
            Action::WritePayload,
            Action::EndPage,
            Action::EndDoc,
            Action::Close,
        ],
        outs[3] matches StepOutcome::Succeeded { count } ==> run_phase(initial_phase(), outs)
            == (Phase::Done { verdict: Verdict::Accepted { count } }),
        outs[3] is Failed ==> run_phase(initial_phase(), outs) == (Phase::Done {
            verdict: Verdict::Rejected { error: PrintError::WriteFailed },
        }),
{
    reveal_with_fuel(run_phase, 9);
    reveal_with_fuel(run_actions, 9);
    assert(outs.skip(1)[0] == outs[1]);
    assert(outs.skip(1).skip(1)[0] == outs[2]);
    assert(outs.skip(1).skip(1).skip(1)[0] == outs[3]);
    assert(outs.skip(1).skip(1).skip(1).skip(1)[0] == outs[4]);
    assert(outs.skip(1).skip(1).skip(1).skip(1).skip(1)[0] == outs[5]);
    assert(outs.skip(1).skip(1).skip(1).skip(1).skip(1).skip(1)[0] == outs[6]);
}

/// Every run finishes: fed one outcome per possible step, the machine
/// reaches its settled phase within the seven steps of a complete job,
/// whatever the outcomes were.
pub proof fn lemma_run_completes(outs: Seq<StepOutcome>)
    requires
        outs.len() >= 7,
    ensures
        run_phase(initial_phase(), outs) is Done,
{
    if outs[0] is Failed {
        lemma_open_failure_run(outs);
    } else if outs[1] is Failed {
        lemma_doc_refusal_run(outs);
    } else if outs[2] is Failed {
        lemma_page_refusal_run(outs);
    } else {
        lemma_write_step_run(outs);
    }
}

/// The cleanup guarantee of the whole protocol: over every possible sequence
/// of step outcomes, a run performs the open step exactly once, and performs
/// the close step exactly once if the open step succeeded and never if it
/// failed — the handle is released exactly once whenever it was acquired.
pub proof fn lemma_handle_released_exactly_once(outs: Seq<StepOutcome>)
    requires
        outs.len() >= 7,
    ensures
        count_action(run_actions(initial_phase(), outs), Action::Open) == 1,
        count_action(run_actions(initial_phase(), outs), Action::Close) == (if outs[0] is Succeeded {
            1nat
        } else {
            0nat
        }),
{
    reveal_with_fuel(count_action, 9);
    let t = run_actions(initial_phase(), outs);
    if outs[0] is Failed {
        lemma_open_failure_run(outs);
        assert(t == seq![Action::Open]);
    } else if outs[1] is Failed {
        lemma_doc_refusal_run(outs);
        assert(t == seq![Action::Open, Action::BeginDoc, Action::Close]);
    } else if outs[2] is Failed {
        lemma_page_refusal_run(outs);
        assert(t == seq![
            Action::Open,
            Action::BeginDoc,
            Action::BeginPage,
            Action::EndDoc,
            Action::Close,
        ]);
    } else {
        lemma_write_step_run(outs);
        assert(t == seq![
            Action::Open,
            Action::BeginDoc,
            Action::BeginPage,
            Action::WritePayload,
            Action::EndPage,
            Action::EndDoc,
            Action::Close,
        ]);
    }
}

} // verus!
