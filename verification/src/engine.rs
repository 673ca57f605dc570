//! The gaming engine: where it is looked for, and the steps of setting it
//! up.

use crate::runner::first_present;
use crate::text::{join_path, path_join, texts};
use vstd::prelude::*;

verus! {

/// Directory of the engine, below the directory of all engines.
pub open spec fn engine_folder(engines_dir: Seq<char>) -> Seq<char> {
    path_join(engines_dir, "pancho-pro-v1"@)
}

/// The places where the engine's executable is looked for, in order.
pub open spec fn engine_candidates(engines_dir: Seq<char>) -> Seq<Seq<char>> {
    let folder = engine_folder(engines_dir);
    seq![
        path_join(folder, "bin/wine64"@),
        path_join(folder, "bin/wine"@),
        path_join(folder, "wine-crossover-23.7.1-1-osx64/bin/wine64"@),
        path_join(folder, "wine-crossover-23.7.1-osx64/bin/wine64"@),
        path_join(folder, "Contents/Resources/wine/bin/wine64"@),
    ]
}

/// The places where the engine's executable is looked for, in order.
pub fn pro_engine_candidates(engines_dir: &str) -> (candidates: Vec<String>)
    ensures
        texts(candidates@) == engine_candidates(engines_dir@),
{
    let folder = join_path(engines_dir, "pancho-pro-v1");
    let mut candidates: Vec<String> = Vec::new();
    candidates.push(join_path(folder.as_str(), "bin/wine64"));
    candidates.push(join_path(folder.as_str(), "bin/wine"));
    candidates.push(join_path(folder.as_str(), "wine-crossover-23.7.1-1-osx64/bin/wine64"));
    candidates.push(join_path(folder.as_str(), "wine-crossover-23.7.1-osx64/bin/wine64"));
    candidates.push(join_path(folder.as_str(), "Contents/Resources/wine/bin/wine64"));
    assert(texts(candidates@) =~= engine_candidates(engines_dir@));
    candidates
}

/// The engine's executable: the first candidate that is present.
/// `present[i]` says whether candidate `i` is.
pub fn get_pro_engine_path(engines_dir: &str, present: &Vec<bool>) -> (path: Option<String>)
    ensures
        crate::text::opt_text(path) == first_present(engine_candidates(engines_dir@), present@, 0),
{
    let candidates = pro_engine_candidates(engines_dir);
    let ghost wanted = engine_candidates(engines_dir@);
    let mut i: usize = 0;
    while i < candidates.len()
        invariant
            i <= candidates.len(),
            wanted == engine_candidates(engines_dir@),
            texts(candidates@) == wanted,
            first_present(wanted, present@, 0) == first_present(wanted, present@, i as nat),
        decreases candidates.len() - i,
    {
        if i < present.len() && present[i] {
            assert(wanted[i as int] == candidates@[i as int]@);
            return Some(candidates[i].clone());
        }
        i += 1;
    }
    None
}

/// How far the setup of the engine has come.
#[derive(Clone, Copy, Debug, PartialEq, Eq, Structural)]
pub enum SetupState {
    Idle,
    Downloading,
    Extracting,
    Done,
    Failed,
}

/// How a command of the setup ended.
#[derive(Clone, Copy, Debug, PartialEq, Eq, Structural)]
pub enum CommandOutcome {
    /// It ran and succeeded.
    Succeeded,
    /// It ran and failed.
    Failed,
    /// It could not be started.
    NotStarted,
}

/// What happens to the setup.
#[derive(Clone, Copy, Debug, PartialEq, Eq, Structural)]
pub enum SetupEvent {
    Start,
    Finished(CommandOutcome),
}

/// What the caller does next.
#[derive(Clone, Copy, Debug, PartialEq, Eq, Structural)]
pub enum SetupCommand {
    /// Nothing.
    Nothing,
    /// Clear the engine's directory and download the archive.
    Download,
    /// Unpack the archive into the engine's directory.
    Extract,
    /// Remove the archive.
    CleanUp,
}

/// One step of the setup: the state after the event, the command to run, and
/// the status to report.
#[derive(Clone, Copy, Debug)]
pub struct SetupStep {
    pub state: SetupState,
    pub command: SetupCommand,
    pub status: Option<&'static str>,
}

/// Where the archive of the engine is downloaded from.
pub open spec fn engine_url_text() -> Seq<char> {
    "https://github.com/Gcenx/winecx/releases/download/crossover-wine-23.7.1-1/wine-crossover-23.7.1-1-osx64.tar.xz"@
}

/// Where the archive of the engine is downloaded from.
pub fn engine_url() -> (url: &'static str)
    ensures
        url@ == engine_url_text(),
{
    "https://github.com/Gcenx/winecx/releases/download/crossover-wine-23.7.1-1/wine-crossover-23.7.1-1-osx64.tar.xz"
}

/// The state after an event.
pub open spec fn setup_state(state: SetupState, event: SetupEvent) -> SetupState {
    match (state, event) {
        (SetupState::Idle, SetupEvent::Start) => SetupState::Downloading,
        (SetupState::Downloading, SetupEvent::Finished(CommandOutcome::Succeeded)) => SetupState::Extracting,
        (SetupState::Downloading, SetupEvent::Finished(_)) => SetupState::Failed,
        (SetupState::Extracting, SetupEvent::Finished(CommandOutcome::Succeeded)) => SetupState::Done,
        (SetupState::Extracting, SetupEvent::Finished(_)) => SetupState::Failed,
        _ => state,
    }
}

/// The command to run after an event.
pub open spec fn setup_command(state: SetupState, event: SetupEvent) -> SetupCommand {
    match (state, event) {
        (SetupState::Idle, SetupEvent::Start) => SetupCommand::Download,
        (SetupState::Downloading, SetupEvent::Finished(CommandOutcome::Succeeded)) => SetupCommand::Extract,
        (SetupState::Extracting, SetupEvent::Finished(CommandOutcome::Succeeded)) => SetupCommand::CleanUp,
        _ => SetupCommand::Nothing,
    }
}

/// The status to report after an event, if any.
pub open spec fn setup_status(state: SetupState, event: SetupEvent) -> Option<Seq<char>> {
    match (state, event) {
        (SetupState::Idle, SetupEvent::Start) => Some("Initiating download (Pro Engine)..."@),
        (SetupState::Downloading, SetupEvent::Finished(CommandOutcome::Succeeded)) => Some(
            "Extracting binaries..."@,
        ),
        (SetupState::Downloading, SetupEvent::Finished(CommandOutcome::Failed)) => Some(
            "Error: Download failed."@,
        ),
        (SetupState::Downloading, SetupEvent::Finished(CommandOutcome::NotStarted)) => Some(
            "Error: Network unreachable."@,
        ),
        (SetupState::Extracting, SetupEvent::Finished(CommandOutcome::Succeeded)) => Some(
            "Success: Engine Deployment complete."@,
        ),
        (SetupState::Extracting, SetupEvent::Finished(CommandOutcome::Failed)) => Some(
            "Error: Extraction failed."@,
        ),
        (SetupState::Extracting, SetupEvent::Finished(CommandOutcome::NotStarted)) => Some(
            "Error: Tar failure."@,
        ),
        _ => None,
    }
}

/// A status that may be absent, by its characters.
pub open spec fn status_text(status: Option<&'static str>) -> Option<Seq<char>> {
    match status {
        Some(s) => Some(s@),
        None => None,
    }
}

/// One step of setting the engine up: download, then unpack, then clean up.
/// A command that fails ends the setup.
pub fn setup_gaming_engine(state: SetupState, event: SetupEvent) -> (step: SetupStep)
    ensures
        step.state == setup_state(state, event),
        step.command == setup_command(state, event),
        status_text(step.status) == setup_status(state, event),
{
    match (state, event) {
        (SetupState::Idle, SetupEvent::Start) => SetupStep {
            state: SetupState::Downloading,
            command: SetupCommand::Download,
            status: Some("Initiating download (Pro Engine)..."),
        },
        (SetupState::Downloading, SetupEvent::Finished(outcome)) => match outcome {
            CommandOutcome::Succeeded => SetupStep {
                state: SetupState::Extracting,
                command: SetupCommand::Extract,
                status: Some("Extracting binaries..."),
            },
            CommandOutcome::Failed => SetupStep {
                state: SetupState::Failed,
                command: SetupCommand::Nothing,
                status: Some("Error: Download failed."),
            },
            CommandOutcome::NotStarted => SetupStep {
                state: SetupState::Failed,
                command: SetupCommand::Nothing,
                status: Some("Error: Network unreachable."),
            },
        },
        (SetupState::Extracting, SetupEvent::Finished(outcome)) => match outcome {
            CommandOutcome::Succeeded => SetupStep {
                state: SetupState::Done,
                command: SetupCommand::CleanUp,
                status: Some("Success: Engine Deployment complete."),
            },
            CommandOutcome::Failed => SetupStep {
                state: SetupState::Failed,
                command: SetupCommand::Nothing,
                status: Some("Error: Extraction failed."),
            },
            CommandOutcome::NotStarted => SetupStep {
                state: SetupState::Failed,
                command: SetupCommand::Nothing,
                status: Some("Error: Tar failure."),
            },
        },
        _ => SetupStep { state, command: SetupCommand::Nothing, status: None },
    }
}

} // verus!
