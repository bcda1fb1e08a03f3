use voxlink::injector::{
    ClipboardAction, ClipboardSnapshot, InjectError, Injection, StepOutcome, PASTE_DELAY_MS,
};

#[test]
fn test_clipboard_snapshot_empty() {
    let snapshot = ClipboardSnapshot::empty();
    assert!(snapshot.text.is_none());
    assert!(snapshot.image.is_none());
}

#[test]
fn snapshot_empty_has_no_rich_text() {
    assert!(ClipboardSnapshot::empty().rich_text.is_none());
}

#[test]
fn test_inject_empty_text() {
    let (_, action) = Injection::start("");
    assert_eq!(action, ClipboardAction::Finish(Ok(())));
}

fn run(text: &str, outcomes: Vec<StepOutcome>) -> Vec<ClipboardAction> {
    let (mut inj, first) = Injection::start(text);
    let mut actions = vec![first];
    for o in outcomes {
        let (next, action) = inj.advance(o);
        inj = next;
        actions.push(action);
    }
    actions
}

#[test]
fn full_injection_restores_the_clipboard() {
    let actions = run(
        "你好",
        vec![
            StepOutcome::Text("old".to_string()),
            StepOutcome::Image(vec![1, 2, 3]),
            StepOutcome::Done,
            StepOutcome::Done,
            StepOutcome::Done,
            StepOutcome::Done,
            StepOutcome::Done,
            StepOutcome::Done,
        ],
    );
    assert_eq!(
        actions,
        vec![
            ClipboardAction::ReadText,
            ClipboardAction::ReadImage,
            ClipboardAction::WriteText("你好".to_string()),
            ClipboardAction::Paste,
            ClipboardAction::Wait(PASTE_DELAY_MS),
            ClipboardAction::Clear,
            ClipboardAction::WriteText("old".to_string()),
            ClipboardAction::WriteImage(vec![1, 2, 3]),
            ClipboardAction::Finish(Ok(())),
        ]
    );
}

#[test]
fn failed_backup_reads_are_left_out() {
    let actions = run(
        "hi",
        vec![
            StepOutcome::Failed,
            StepOutcome::Failed,
            StepOutcome::Done,
            StepOutcome::Done,
            StepOutcome::Done,
            StepOutcome::Done,
        ],
    );
    assert_eq!(actions[5], ClipboardAction::Clear);
    assert_eq!(actions[6], ClipboardAction::Finish(Ok(())));
}

#[test]
fn failed_write_is_an_error_without_restore() {
    let actions = run(
        "hi",
        vec![StepOutcome::Text("old".to_string()), StepOutcome::Failed, StepOutcome::Failed],
    );
    assert_eq!(actions.last(), Some(&ClipboardAction::Finish(Err(InjectError::WriteFailed))));
    assert_eq!(actions.len(), 4);
}

#[test]
fn failed_paste_is_an_error() {
    let actions = run(
        "hi",
        vec![StepOutcome::Failed, StepOutcome::Failed, StepOutcome::Done, StepOutcome::Failed],
    );
    assert_eq!(actions.last(), Some(&ClipboardAction::Finish(Err(InjectError::PasteFailed))));
}

#[test]
fn failed_restore_still_succeeds() {
    let actions = run(
        "hi",
        vec![
            StepOutcome::Text("old".to_string()),
            StepOutcome::Image(vec![9]),
            StepOutcome::Done,
            StepOutcome::Done,
            StepOutcome::Done,
            StepOutcome::Done,
            StepOutcome::Failed,
        ],
    );
    assert_eq!(actions[6], ClipboardAction::WriteText("old".to_string()));
    assert_eq!(actions[7], ClipboardAction::Finish(Ok(())));
}
