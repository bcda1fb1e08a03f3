//! Injecting recognised text at the caret through the clipboard.
//!
//! The protocol: back up the clipboard (text, then image), put the text on
//! the clipboard, simulate the paste shortcut, wait for the host application
//! to take the paste, then clear the clipboard and put the backup back.
//! Failing to write the text or to paste ends the injection with an error;
//! a failed backup read only leaves that part out of the backup, and a failed
//! restore step stops the restore but does not make the injection fail.
//!
//! The clipboard and keyboard work is done by the caller: [`Injection::start`]
//! and [`Injection::advance`] decide, from the outcome of each step, the next
//! [`ClipboardAction`].

use vstd::prelude::*;

verus! {

/// Milliseconds to wait after the paste before the clipboard is restored.
pub const PASTE_DELAY_MS: u64 = 100;

/// A backup of the clipboard's contents.
#[derive(Debug, Clone)]
pub struct ClipboardSnapshot {
    /// Plain text.
    pub text: Option<String>,
    /// Rich text (RTF/HTML) as bytes.
    pub rich_text: Option<Vec<u8>>,
    /// Image data as PNG bytes.
    pub image: Option<Vec<u8>>,
}

impl ClipboardSnapshot {
    /// Whether nothing is backed up.
    pub open spec fn is_empty(&self) -> bool {
        &&& self.text is None
        &&& self.rich_text is None
        &&& self.image is None
    }

    /// A snapshot that holds nothing.
    pub fn empty() -> (snapshot: Self)
        ensures
            snapshot.is_empty(),
    {
        ClipboardSnapshot { text: None, rich_text: None, image: None }
    }
}

/// Why an injection failed.
#[derive(Debug, Clone, Copy, PartialEq, Eq)]
pub enum InjectError {
    /// The text could not be written to the clipboard.
    WriteFailed,
    /// The paste shortcut could not be simulated.
    PasteFailed,
}

/// What the caller is to do next.
#[derive(Debug, PartialEq, Eq)]
pub enum ClipboardAction {
    /// Read the clipboard's text.
    ReadText,
    /// Read the clipboard's image.
    ReadImage,
    /// Write this text to the clipboard.
    WriteText(String),
    /// Simulate the paste shortcut.
    Paste,
    /// Wait this many milliseconds.
    Wait(u64),
    /// Clear the clipboard.
    Clear,
    /// Write this image to the clipboard.
    WriteImage(Vec<u8>),
    /// The injection is over, with this result.
    Finish(Result<(), InjectError>),
}

/// How the last action went. A read that succeeded reports what it read;
/// any other action that succeeded reports `Done`. Anything else is a failure.
#[derive(Debug, Clone, PartialEq, Eq)]
pub enum StepOutcome {
    /// The action succeeded.
    Done,
    /// The action failed.
    Failed,
    /// The clipboard's text was read.
    Text(String),
    /// The clipboard's image was read.
    Image(Vec<u8>),
}

/// Where an injection stands: the action it last asked for.
#[derive(Debug, PartialEq, Eq)]
pub enum InjectPhase {
    BackupText,
    BackupImage,
    WriteText,
    Paste,
    Settle,
    Clear,
    RestoreText,
    RestoreImage,
    Finished(Result<(), InjectError>),
}

/// An injection in progress.
#[derive(Debug)]
pub struct Injection {
    /// The text being injected.
    pub text: String,
    /// What has been backed up and not yet put back.
    pub snapshot: ClipboardSnapshot,
    /// The step in progress.
    pub phase: InjectPhase,
}

/// The next restore step after the clipboard was cleared or a restore write
/// succeeded: put back the text, then the image, then finish successfully.
pub open spec fn restore_next(text: String, snapshot: ClipboardSnapshot) -> (Injection, ClipboardAction) {
    match snapshot.text {
        Some(t) => (
            Injection {
                text,
                snapshot: ClipboardSnapshot { text: None, ..snapshot },
                phase: InjectPhase::RestoreText,
            },
            ClipboardAction::WriteText(t),
        ),
        None => match snapshot.image {
            Some(i) => (
                Injection {
                    text,
                    snapshot: ClipboardSnapshot { image: None, ..snapshot },
                    phase: InjectPhase::RestoreImage,
                },
                ClipboardAction::WriteImage(i),
            ),
            None => (
                Injection { text, snapshot, phase: InjectPhase::Finished(Ok(())) },
                ClipboardAction::Finish(Ok(())),
            ),
        },
    }
}

/// The injection ended with `result`.
pub open spec fn finished(s: Injection, result: Result<(), InjectError>) -> (Injection, ClipboardAction) {
    (Injection { phase: InjectPhase::Finished(result), ..s }, ClipboardAction::Finish(result))
}

/// One step of the protocol: from the state `s` and the outcome `o` of the
/// action it asked for, the next state and action.
pub open spec fn inject_step(s: Injection, o: StepOutcome) -> (Injection, ClipboardAction) {
    match s.phase {
        InjectPhase::BackupText => (
            Injection {
                snapshot: ClipboardSnapshot {
                    text: match o {
                        StepOutcome::Text(t) => Some(t),
                        _ => None,
                    },
                    ..s.snapshot
                },
                phase: InjectPhase::BackupImage,
                ..s
            },
            ClipboardAction::ReadImage,
        ),
        InjectPhase::BackupImage => (
            Injection {
                snapshot: ClipboardSnapshot {
                    image: match o {
                        StepOutcome::Image(i) => Some(i),
                        _ => None,
                    },
                    ..s.snapshot
                },
                phase: InjectPhase::WriteText,
                ..s
            },
            ClipboardAction::WriteText(s.text),
        ),
        InjectPhase::WriteText => if o is Done {
            (Injection { phase: InjectPhase::Paste, ..s }, ClipboardAction::Paste)
        } else {
            finished(s, Err(InjectError::WriteFailed))
        },
        InjectPhase::Paste => if o is Done {
            (Injection { phase: InjectPhase::Settle, ..s }, ClipboardAction::Wait(PASTE_DELAY_MS))
        } else {
            finished(s, Err(InjectError::PasteFailed))
        },
        InjectPhase::Settle => (Injection { phase: InjectPhase::Clear, ..s }, ClipboardAction::Clear),
        InjectPhase::Clear => if o is Done {
            restore_next(s.text, s.snapshot)
        } else {
            finished(s, Ok(()))
        },
        InjectPhase::RestoreText => if o is Done {
            restore_next(s.text, s.snapshot)
        } else {
            finished(s, Ok(()))
        },
        InjectPhase::RestoreImage => finished(s, Ok(())),
        InjectPhase::Finished(r) => (s, ClipboardAction::Finish(r)),
    }
}

/// The actions asked for when the outcomes `outcomes` come back in turn,
/// starting from `s`.
pub open spec fn inject_run(s: Injection, outcomes: Seq<StepOutcome>) -> Seq<ClipboardAction>
    decreases outcomes.len(),
{
    if outcomes.len() == 0 {
        Seq::empty()
    } else {
        let (next, action) = inject_step(s, outcomes[0]);
        seq![action] + inject_run(next, outcomes.drop_first())
    }
}

/// Whether the paste went through: the injection is waiting, restoring, or
/// has finished successfully.
pub open spec fn past_paste(phase: InjectPhase) -> bool {
    match phase {
        InjectPhase::Settle | InjectPhase::Clear | InjectPhase::RestoreText | InjectPhase::RestoreImage => true,
        InjectPhase::Finished(r) => r is Ok,
        _ => false,
    }
}

/// No step changes the text being injected, and the text written to the
/// clipboard for the paste is exactly that text.
pub proof fn lemma_injects_given_text(s: Injection, o: StepOutcome)
    ensures
        inject_step(s, o).0.text == s.text,
        s.phase == InjectPhase::BackupImage ==> inject_step(s, o).1 == ClipboardAction::WriteText(s.text),
{
}

/// An injection fails only when writing the text or pasting it fails.
pub proof fn lemma_failures_come_from_write_or_paste(s: Injection, o: StepOutcome)
    ensures
        inject_step(s, o).1 matches ClipboardAction::Finish(Err(e)) ==> (
            (s.phase == InjectPhase::WriteText && e == InjectError::WriteFailed && o != StepOutcome::Done)
            || (s.phase == InjectPhase::Paste && e == InjectError::PasteFailed && o != StepOutcome::Done)
            || s.phase == InjectPhase::Finished(Err(e))),
{
}

/// Once the paste went through the injection succeeds, whatever the restore
/// steps report.
pub proof fn lemma_success_after_paste(s: Injection, o: StepOutcome)
    requires
        past_paste(s.phase),
    ensures
        past_paste(inject_step(s, o).0.phase),
        !(inject_step(s, o).1 matches ClipboardAction::Finish(Err(_))),
{
}

/// When every step succeeds, the injection backs up the clipboard's text and
/// image, writes and pastes the given text, waits, clears the clipboard, and
/// puts the backed-up text and image back, in this order, then succeeds.
pub proof fn lemma_full_injection(text: String, saved_text: String, saved_image: Vec<u8>)
    ensures
        inject_run(
            Injection { text, snapshot: ClipboardSnapshot { text: None, rich_text: None, image: None }, phase: InjectPhase::BackupText },
            seq![
                StepOutcome::Text(saved_text),
                StepOutcome::Image(saved_image),
                StepOutcome::Done,
                StepOutcome::Done,
                StepOutcome::Done,
                StepOutcome::Done,
                StepOutcome::Done,
                StepOutcome::Done,
            ],
        ) == seq![
            ClipboardAction::ReadImage,
            ClipboardAction::WriteText(text),
            ClipboardAction::Paste,
            ClipboardAction::Wait(PASTE_DELAY_MS),
            ClipboardAction::Clear,
            ClipboardAction::WriteText(saved_text),
            ClipboardAction::WriteImage(saved_image),
            ClipboardAction::Finish(Ok(())),
        ],
{
    reveal_with_fuel(inject_run, 9);
}

/// When writing the text fails the injection ends with that error and the
/// clipboard is neither pasted nor restored.
pub proof fn lemma_failed_write_stops(text: String, saved_text: String, saved_image: Vec<u8>)
    ensures
        inject_run(
            Injection { text, snapshot: ClipboardSnapshot { text: None, rich_text: None, image: None }, phase: InjectPhase::BackupText },
            seq![StepOutcome::Text(saved_text), StepOutcome::Image(saved_image), StepOutcome::Failed],
        ) == seq![
            ClipboardAction::ReadImage,
            ClipboardAction::WriteText(text),
            ClipboardAction::Finish(Err(InjectError::WriteFailed)),
        ],
{
    reveal_with_fuel(inject_run, 4);
}

/// The actions that put a backup back: its text (if any), then its image
/// (if any), then a successful finish.
pub open spec fn restore_actions(snapshot: ClipboardSnapshot) -> Seq<ClipboardAction> {
    (match snapshot.text {
        Some(t) => seq![ClipboardAction::WriteText(t)],
        None => Seq::empty(),
    }) + (match snapshot.image {
        Some(i) => seq![ClipboardAction::WriteImage(i)],
        None => Seq::empty(),
    }) + seq![ClipboardAction::Finish(Ok(()))]
}

/// Whatever was backed up, once the clipboard has been cleared and each
/// restore write succeeds, the injection writes back exactly the backed-up
/// text (if any) and then the backed-up image (if any), and then finishes
/// successfully.
pub proof fn lemma_restore_puts_back_backup(text: String, snapshot: ClipboardSnapshot)
    ensures
        inject_run(
            Injection { text, snapshot, phase: InjectPhase::Clear },
            Seq::new(restore_actions(snapshot).len(), |i: int| StepOutcome::Done),
        ) == restore_actions(snapshot),
{
    reveal_with_fuel(inject_run, 4);
    let n = restore_actions(snapshot).len();
    let dones = Seq::new(n, |i: int| StepOutcome::Done);
    assert(dones.len() >= 1);
    assert(dones[0] == StepOutcome::Done);
    let rest1 = dones.drop_first();
    if rest1.len() > 0 {
        assert(rest1[0] == StepOutcome::Done);
        let rest2 = rest1.drop_first();
        if rest2.len() > 0 {
            assert(rest2[0] == StepOutcome::Done);
            assert(rest2.drop_first().len() == 0);
        }
    }
    match snapshot.text {
        Some(t) => match snapshot.image {
            Some(i) => {
                assert(restore_actions(snapshot) =~= seq![
                    ClipboardAction::WriteText(t),
                    ClipboardAction::WriteImage(i),
                    ClipboardAction::Finish(Ok(())),
                ]);
            },
            None => {
                assert(restore_actions(snapshot) =~= seq![
                    ClipboardAction::WriteText(t),
                    ClipboardAction::Finish(Ok(())),
                ]);
            },
        },
        None => match snapshot.image {
            Some(i) => {
                assert(restore_actions(snapshot) =~= seq![
                    ClipboardAction::WriteImage(i),
                    ClipboardAction::Finish(Ok(())),
                ]);
            },
            None => {
                assert(restore_actions(snapshot) =~= seq![ClipboardAction::Finish(Ok(()))]);
            },
        },
    }
}

impl Injection {
    /// Starts injecting `text`. Empty text is not injected: the injection
    /// finishes at once, successfully, without touching the clipboard.
    /// Otherwise the first action is to read the clipboard's text.
    pub fn start(text: &str) -> (r: (Injection, ClipboardAction))
        ensures
            r.0.text@ == text@,
            r.0.snapshot.is_empty(),
            text@.len() == 0 ==> r.0.phase == InjectPhase::Finished(Ok(()))
                && r.1 == ClipboardAction::Finish(Ok(())),
            text@.len() > 0 ==> r.0.phase == InjectPhase::BackupText && r.1 == ClipboardAction::ReadText,
    {
        let snapshot = ClipboardSnapshot::empty();
        if text.is_empty() {
            (
                Injection { text: text.to_owned(), snapshot, phase: InjectPhase::Finished(Ok(())) },
                ClipboardAction::Finish(Ok(())),
            )
        } else {
            (
                Injection { text: text.to_owned(), snapshot, phase: InjectPhase::BackupText },
                ClipboardAction::ReadText,
            )
        }
    }

    /// Takes the outcome of the last action and returns the next state and action.
    pub fn advance(self, outcome: StepOutcome) -> (r: (Injection, ClipboardAction))
        ensures
            r == inject_step(self, outcome),
    {
        let Injection { text, snapshot, phase } = self;
        match phase {
            InjectPhase::BackupText => {
                let read = match outcome {
                    StepOutcome::Text(t) => Some(t),
                    _ => None,
                };
                let snapshot = ClipboardSnapshot {
                    text: read,
                    rich_text: snapshot.rich_text,
                    image: snapshot.image,
                };
                (
                    Injection { text, snapshot, phase: InjectPhase::BackupImage },
                    ClipboardAction::ReadImage,
                )
            },
            InjectPhase::BackupImage => {
                let read = match outcome {
                    StepOutcome::Image(i) => Some(i),
                    _ => None,
                };
                let snapshot = ClipboardSnapshot {
                    text: snapshot.text,
                    rich_text: snapshot.rich_text,
                    image: read,
                };
                let written = text.clone();
                (
                    Injection { text, snapshot, phase: InjectPhase::WriteText },
                    ClipboardAction::WriteText(written),
                )
            },
            InjectPhase::WriteText => {
                if let StepOutcome::Done = outcome {
                    (Injection { text, snapshot, phase: InjectPhase::Paste }, ClipboardAction::Paste)
                } else {
                    Self::finish(text, snapshot, Err(InjectError::WriteFailed))
                }
            },
            InjectPhase::Paste => {
                if let StepOutcome::Done = outcome {
                    (
                        Injection { text, snapshot, phase: InjectPhase::Settle },
                        ClipboardAction::Wait(PASTE_DELAY_MS),
                    )
                } else {
                    Self::finish(text, snapshot, Err(InjectError::PasteFailed))
                }
            },
            InjectPhase::Settle => {
                (Injection { text, snapshot, phase: InjectPhase::Clear }, ClipboardAction::Clear)
            },
            InjectPhase::Clear | InjectPhase::RestoreText => {
                if let StepOutcome::Done = outcome {
                    Self::restore(text, snapshot)
                } else {
                    Self::finish(text, snapshot, Ok(()))
                }
            },
            InjectPhase::RestoreImage => Self::finish(text, snapshot, Ok(())),
            InjectPhase::Finished(result) => {
                (
                    Injection { text, snapshot, phase: InjectPhase::Finished(result) },
                    ClipboardAction::Finish(result),
                )
            },
        }
    }

    fn finish(text: String, snapshot: ClipboardSnapshot, result: Result<(), InjectError>) -> (r: (
        Injection,
        ClipboardAction,
    ))
        ensures
            r == finished(Injection { text, snapshot, phase: InjectPhase::Finished(result) }, result),
    {
        (Injection { text, snapshot, phase: InjectPhase::Finished(result) }, ClipboardAction::Finish(result))
    }

    fn restore(text: String, snapshot: ClipboardSnapshot) -> (r: (Injection, ClipboardAction))
        ensures
            r == restore_next(text, snapshot),
    {
        let ClipboardSnapshot { text: saved_text, rich_text, image } = snapshot;
        match saved_text {
            Some(t) => (
                Injection {
                    text,
                    snapshot: ClipboardSnapshot { text: None, rich_text, image },
                    phase: InjectPhase::RestoreText,
                },
                ClipboardAction::WriteText(t),
            ),
            None => match image {
                Some(i) => (
                    Injection {
                        text,
                        snapshot: ClipboardSnapshot { text: None, rich_text, image: None },
                        phase: InjectPhase::RestoreImage,
                    },
                    ClipboardAction::WriteImage(i),
                ),
                None => (
                    Injection {
                        text,
                        snapshot: ClipboardSnapshot { text: None, rich_text, image: None },
                        phase: InjectPhase::Finished(Ok(())),
                    },
                    ClipboardAction::Finish(Ok(())),
                ),
            },
        }
    }
}

} // verus!
