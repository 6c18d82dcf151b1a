//! The course of one interactive run: a directory is asked for until one
//! holds fonts, then the renaming is confirmed or declined.

use crate::text::chars_of;
use vstd::prelude::*;

verus! {

/// Where a run stands.
#[derive(Clone, Copy, Debug, PartialEq, Eq, Structural)]
pub enum Stage {
    /// No directory with fonts is known yet.
    AwaitingDirectory,
    /// A directory with fonts is known; the user has not yet agreed to the renaming.
    Validated,
    /// Nothing is left to do.
    Finished,
}

/// What came in from outside.
#[derive(Clone, Copy, Debug, PartialEq, Eq, Structural)]
pub enum Event {
    /// A directory was looked at.
    DirectoryScanned { contains_fonts: bool, is_working_directory: bool },
    /// The user answered the question whether to rename.
    Answered { affirmative: bool },
}

/// What is to be done next.
#[derive(Clone, Copy, Debug, PartialEq, Eq, Structural)]
pub enum Action {
    /// Say that the working directory holds no fonts, and ask for another directory.
    ReportWorkingDirectoryAndAsk,
    /// Say that the selected directory holds no fonts, and ask for another directory.
    ReportSelectedDirectoryAndAsk,
    /// Say that fonts were found, and ask whether to rename them.
    AskForConfirmation,
    /// Rename the fonts, then print the declarations.
    RenameAndGenerate,
    /// Leave without renaming.
    Exit,
    /// The event does not belong to the stage: do nothing.
    Nothing,
}

/// Whether an answer agrees: it does where it begins with `y` or `Y`.
pub open spec fn agrees(answer: Seq<char>) -> bool {
    answer.len() > 0 && (answer[0] == 'y' || answer[0] == 'Y')
}

/// The stage and the action that follow an event.
pub open spec fn step_of(stage: Stage, event: Event) -> (Stage, Action) {
    match (stage, event) {
        (
            Stage::AwaitingDirectory,
            Event::DirectoryScanned { contains_fonts, is_working_directory },
        ) => {
            if contains_fonts {
                (Stage::Validated, Action::AskForConfirmation)
            } else if is_working_directory {
                (Stage::AwaitingDirectory, Action::ReportWorkingDirectoryAndAsk)
            } else {
                (Stage::AwaitingDirectory, Action::ReportSelectedDirectoryAndAsk)
            }
        },
        (Stage::Validated, Event::Answered { affirmative }) => {
            if affirmative {
                (Stage::Finished, Action::RenameAndGenerate)
            } else {
                (Stage::Finished, Action::Exit)
            }
        },
        _ => (stage, Action::Nothing),
    }
}

/// Whether an answer agrees to the renaming.
pub fn is_affirmative(answer: &str) -> (r: bool)
    ensures
        r == agrees(answer@),
{
    let chars = chars_of(answer);
    chars.len() > 0 && (chars[0] == 'y' || chars[0] == 'Y')
}

/// The stage and the action that follow an event.
pub fn step(stage: Stage, event: Event) -> (r: (Stage, Action))
    ensures
        r == step_of(stage, event),
{
    match stage {
        Stage::AwaitingDirectory => match event {
            Event::DirectoryScanned { contains_fonts, is_working_directory } => {
                if contains_fonts {
                    (Stage::Validated, Action::AskForConfirmation)
                } else if is_working_directory {
                    (Stage::AwaitingDirectory, Action::ReportWorkingDirectoryAndAsk)
                } else {
                    (Stage::AwaitingDirectory, Action::ReportSelectedDirectoryAndAsk)
                }
            },
            Event::Answered { .. } => (stage, Action::Nothing),
        },
        Stage::Validated => match event {
            Event::Answered { affirmative } => {
                if affirmative {
                    (Stage::Finished, Action::RenameAndGenerate)
                } else {
                    (Stage::Finished, Action::Exit)
                }
            },
            Event::DirectoryScanned { .. } => (stage, Action::Nothing),
        },
        Stage::Finished => (stage, Action::Nothing),
    }
}

/// Fonts are renamed only after the user has agreed, and only in a directory
/// that was found to hold fonts: the one action that renames is taken from
/// the validated stage on an affirmative answer, and that stage is reached
/// only by a scan that found fonts.
pub proof fn lemma_rename_needs_consent(stage: Stage, event: Event)
    ensures
        step_of(stage, event).1 == Action::RenameAndGenerate <==> stage == Stage::Validated
            && event == (Event::Answered { affirmative: true }),
        step_of(stage, event).0 == Stage::Validated && stage != Stage::Validated ==> (event
            matches Event::DirectoryScanned { contains_fonts, .. } && contains_fonts),
{
}

} // verus!
