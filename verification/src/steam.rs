//! Steam: whether a bottle holds it, and the command that starts it.

use crate::text::{join_path, opt_text, path_join, push_pair, push_text, same, text_pairs, texts};
use vstd::prelude::*;

verus! {

/// How Steam is started.
#[derive(Clone, Copy, Debug, PartialEq, Eq, Structural)]
pub enum SteamLaunchMode {
    Normal,
    BigPicture,
    Silent,
    Console,
}

/// Whether a bottle holds Steam, and where.
#[derive(Clone, Debug)]
pub struct SteamStatus {
    pub is_installed: bool,
    pub path: Option<String>,
}

/// Installs and starts Steam.
pub struct SteamLauncher;

/// The command that starts Steam: the environment and the arguments.
#[derive(Clone, Debug)]
pub struct SteamCommand {
    pub env: Vec<(String, String)>,
    pub args: Vec<String>,
}

/// Where the installer of Steam is downloaded from.
pub open spec fn installer_url_text() -> Seq<char> {
    "https://cdn.cloudflare.steamstatic.com/client/installer/SteamSetup.exe"@
}

/// Where the installer of Steam is downloaded from.
pub fn installer_url() -> (url: &'static str)
    ensures
        url@ == installer_url_text(),
{
    "https://cdn.cloudflare.steamstatic.com/client/installer/SteamSetup.exe"
}

/// Where Steam lies in a bottle.
pub open spec fn steam_executable(bottle_path: Seq<char>) -> Seq<char> {
    path_join(bottle_path, "drive_c/Program Files (x86)/Steam/steam.exe"@)
}

/// The path under which Steam is reported, if it is installed.
pub open spec fn installed_path(bottle_path: Seq<char>, exists: bool) -> Option<Seq<char>> {
    if exists {
        Some(steam_executable(bottle_path))
    } else {
        None
    }
}

/// The environment of Steam in a bottle: the prefix and esync, and for a
/// `pro` bottle the Metal overlay and swap chain recreation.
pub open spec fn steam_env(bottle_path: Seq<char>, environment_type: Seq<char>) -> Seq<
    (Seq<char>, Seq<char>),
> {
    if environment_type == "pro"@ {
        seq![
            ("WINEPREFIX"@, bottle_path),
            ("WINEESYNC"@, "1"@),
            ("MTL_HUD_ENABLED"@, "1"@),
            ("WINE_D3D11_ALLOW_SWAPCHAIN_RECREATION"@, "1"@),
        ]
    } else {
        seq![("WINEPREFIX"@, bottle_path), ("WINEESYNC"@, "1"@)]
    }
}

/// The arguments of Steam: its path in the guest, the flag that keeps its
/// browser off, and the flag of the mode, if it has one.
pub open spec fn steam_args(mode: SteamLaunchMode) -> Seq<Seq<char>> {
    let common = seq!["C:\\Program Files (x86)\\Steam\\steam.exe"@, "-no-browser"@];
    match mode {
        SteamLaunchMode::BigPicture => common.push("-tenfoot"@),
        SteamLaunchMode::Silent => common.push("-silent"@),
        SteamLaunchMode::Console => common.push("-console"@),
        SteamLaunchMode::Normal => common,
    }
}

impl SteamLauncher {
    /// Whether a bottle holds Steam, given whether its executable exists.
    pub fn check_status(bottle_path: &str, exists: bool) -> (status: SteamStatus)
        ensures
            status.is_installed == exists,
            opt_text(status.path) == installed_path(bottle_path@, exists),
    {
        SteamStatus {
            is_installed: exists,
            path: if exists {
                Some(join_path(bottle_path, "drive_c/Program Files (x86)/Steam/steam.exe"))
            } else {
                None
            },
        }
    }

    /// Where Steam lies in a bottle.
    pub fn executable_path(bottle_path: &str) -> (path: String)
        ensures
            path@ == steam_executable(bottle_path@),
    {
        join_path(bottle_path, "drive_c/Program Files (x86)/Steam/steam.exe")
    }

    /// The command that starts Steam in a bottle.
    pub fn launch_steam(bottle_path: &str, mode: SteamLaunchMode, environment_type: &str) -> (command:
        SteamCommand)
        ensures
            text_pairs(command.env@) == steam_env(bottle_path@, environment_type@),
            texts(command.args@) == steam_args(mode),
    {
        let mut env: Vec<(String, String)> = Vec::new();
        push_pair(&mut env, "WINEPREFIX", bottle_path);
        push_pair(&mut env, "WINEESYNC", "1");
        if same(environment_type, "pro") {
            push_pair(&mut env, "MTL_HUD_ENABLED", "1");
            push_pair(&mut env, "WINE_D3D11_ALLOW_SWAPCHAIN_RECREATION", "1");
        }
        assert(text_pairs(env@) =~= steam_env(bottle_path@, environment_type@));
        let mut args: Vec<String> = Vec::new();
        push_text(&mut args, "C:\\Program Files (x86)\\Steam\\steam.exe");
        push_text(&mut args, "-no-browser");
        match mode {
            SteamLaunchMode::BigPicture => {
                push_text(&mut args, "-tenfoot");
            },
            SteamLaunchMode::Silent => {
                push_text(&mut args, "-silent");
            },
            SteamLaunchMode::Console => {
                push_text(&mut args, "-console");
            },
            SteamLaunchMode::Normal => {},
        }
        assert(texts(args@) =~= steam_args(mode));
        SteamCommand { env, args }
    }
}

/// How far the installation of Steam has come.
#[derive(Clone, Copy, Debug, PartialEq, Eq, Structural)]
pub enum InstallState {
    Idle,
    Downloading,
    Installing,
    Registering,
    Done,
    Failed,
}

/// What happens to the installation.
#[derive(Clone, Copy, Debug, PartialEq, Eq, Structural)]
pub enum InstallEvent {
    Start,
    /// The command in hand ended, with or without success.
    Finished(bool),
}

/// What the caller does next.
#[derive(Clone, Copy, Debug, PartialEq, Eq, Structural)]
pub enum InstallCommand {
    /// Nothing.
    Nothing,
    /// Download the installer into the bottle.
    Download,
    /// Run the installer in the bottle, silently.
    RunInstaller,
    /// Write the registry values that tell Steam where it is installed.
    WriteRegistry,
    /// Remove the installer.
    RemoveInstaller,
}

/// The state after an event: download, run, register, in that order; a
/// command that fails ends the installation.
pub open spec fn install_state(state: InstallState, event: InstallEvent) -> InstallState {
    match (state, event) {
        (InstallState::Idle, InstallEvent::Start) => InstallState::Downloading,
        (InstallState::Downloading, InstallEvent::Finished(true)) => InstallState::Installing,
        (InstallState::Installing, InstallEvent::Finished(true)) => InstallState::Registering,
        (InstallState::Registering, InstallEvent::Finished(true)) => InstallState::Done,
        (InstallState::Downloading, InstallEvent::Finished(false)) => InstallState::Failed,
        (InstallState::Installing, InstallEvent::Finished(false)) => InstallState::Failed,
        (InstallState::Registering, InstallEvent::Finished(false)) => InstallState::Failed,
        _ => state,
    }
}

/// The command to run after an event.
pub open spec fn install_command(state: InstallState, event: InstallEvent) -> InstallCommand {
    match (state, event) {
        (InstallState::Idle, InstallEvent::Start) => InstallCommand::Download,
        (InstallState::Downloading, InstallEvent::Finished(true)) => InstallCommand::RunInstaller,
        (InstallState::Installing, InstallEvent::Finished(true)) => InstallCommand::WriteRegistry,
        (InstallState::Registering, InstallEvent::Finished(true)) => InstallCommand::RemoveInstaller,
        _ => InstallCommand::Nothing,
    }
}

impl SteamLauncher {
    /// One step of installing Steam into a bottle.
    pub fn install_steam(state: InstallState, event: InstallEvent) -> (step: (
        InstallState,
        InstallCommand,
    ))
        ensures
            step.0 == install_state(state, event),
            step.1 == install_command(state, event),
    {
        match (state, event) {
            (InstallState::Idle, InstallEvent::Start) => (
                InstallState::Downloading,
                InstallCommand::Download,
            ),
            (InstallState::Downloading, InstallEvent::Finished(ok)) => if ok {
                (InstallState::Installing, InstallCommand::RunInstaller)
            } else {
                (InstallState::Failed, InstallCommand::Nothing)
            },
            (InstallState::Installing, InstallEvent::Finished(ok)) => if ok {
                (InstallState::Registering, InstallCommand::WriteRegistry)
            } else {
                (InstallState::Failed, InstallCommand::Nothing)
            },
            (InstallState::Registering, InstallEvent::Finished(ok)) => if ok {
                (InstallState::Done, InstallCommand::RemoveInstaller)
            } else {
                (InstallState::Failed, InstallCommand::Nothing)
            },
            _ => (state, InstallCommand::Nothing),
        }
    }

    /// Where the installer of Steam is put in a bottle.
    pub fn installer_path(bottle_path: &str) -> (path: String)
        ensures
            path@ == path_join(bottle_path@, "SteamSetup.exe"@),
    {
        join_path(bottle_path, "SteamSetup.exe")
    }
}

} // verus!
