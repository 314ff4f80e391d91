use raw_printer::protocol::{action_of, advance, verdict_result, Action, Phase, PrintError, StepOutcome, Verdict};

fn drive(mut outcomes: Vec<StepOutcome>) -> (Vec<Action>, Phase) {
    let mut phase = Phase::Ready;
    let mut performed: Vec<Action> = Vec::new();
    outcomes.reverse();
    while let Some(action) = action_of(&phase) {
        performed.push(action);
        let outcome = outcomes.pop().expect("run consumed more outcomes than supplied");
        phase = advance(phase, outcome);
    }
    (performed, phase)
}

fn ok() -> StepOutcome {
    StepOutcome::Succeeded { count: 0 }
}

#[test]
fn machine_runs_all_steps_in_order_on_success() {
    let (actions, end) = drive(vec![
        ok(),
        ok(),
        ok(),
        StepOutcome::Succeeded { count: 14 },
        ok(),
        ok(),
        ok(),
    ]);
    assert_eq!(
        actions,
        vec![
            Action::Open,
            Action::BeginDoc,
            Action::BeginPage,
            Action::WritePayload,
            Action::EndPage,
            Action::EndDoc,
            Action::Close,
        ]
    );
    assert_eq!(end, Phase::Done { verdict: Verdict::Accepted { count: 14 } });
}

#[test]
fn machine_stops_at_once_when_open_fails() {
    let (actions, end) = drive(vec![StepOutcome::Failed]);
    assert_eq!(actions, vec![Action::Open]);
    assert_eq!(
        end,
        Phase::Done { verdict: Verdict::Rejected { error: PrintError::DestinationUnavailable } }
    );
}

#[test]
fn machine_closes_after_doc_refusal_without_page_or_write() {
    let (actions, end) = drive(vec![ok(), StepOutcome::Failed, ok()]);
    assert_eq!(actions, vec![Action::Open, Action::BeginDoc, Action::Close]);
    assert!(!actions.contains(&Action::BeginPage));
    assert!(!actions.contains(&Action::WritePayload));
    assert_eq!(end, Phase::Done { verdict: Verdict::Rejected { error: PrintError::JobStartFailed } });
}

#[test]
fn machine_ends_doc_and_closes_after_page_refusal() {
    let (actions, end) = drive(vec![ok(), ok(), StepOutcome::Failed, ok(), ok()]);
    assert_eq!(
        actions,
        vec![Action::Open, Action::BeginDoc, Action::BeginPage, Action::EndDoc, Action::Close]
    );
    assert_eq!(end, Phase::Done { verdict: Verdict::Rejected { error: PrintError::PageStartFailed } });
}

#[test]
fn machine_finishes_cleanup_after_write_failure() {
    let (actions, end) = drive(vec![ok(), ok(), ok(), StepOutcome::Failed, ok(), ok(), ok()]);
    assert_eq!(
        actions,
        vec![
            Action::Open,
            Action::BeginDoc,
            Action::BeginPage,
            Action::WritePayload,
            Action::EndPage,
            Action::EndDoc,
            Action::Close,
        ]
    );
    assert_eq!(end, Phase::Done { verdict: Verdict::Rejected { error: PrintError::WriteFailed } });
}

#[test]
fn cleanup_step_outcomes_do_not_change_the_verdict() {
    let (_, accepted_end) = drive(vec![
        ok(),
        ok(),
        ok(),
        StepOutcome::Succeeded { count: 7 },
        StepOutcome::Failed,
        StepOutcome::Failed,
        StepOutcome::Failed,
    ]);
    assert_eq!(accepted_end, Phase::Done { verdict: Verdict::Accepted { count: 7 } });
}

#[test]
fn verdicts_convert_to_caller_results() {
    assert_eq!(verdict_result(&Verdict::Accepted { count: 14 }), Ok(14));
    assert_eq!(
        verdict_result(&Verdict::Rejected { error: PrintError::WriteFailed }),
        Err(PrintError::WriteFailed)
    );
}
