//! Application scan: which of the files found in a bottle are applications
//! to show.

use crate::text::{
    contains, has_substring, lowercase, lowercase_of, opt_text, same,
};
use vstd::prelude::*;

verus! {

/// An application found in a bottle.
#[derive(Clone, Debug)]
pub struct DetectedApp {
    pub name: String,
    pub exe_path: String,
    pub is_priority: bool,
    pub pinned: bool,
}

/// Mathematical model of a `DetectedApp`.
pub struct AppModel {
    pub name: Seq<char>,
    pub exe_path: Seq<char>,
    pub is_priority: bool,
    pub pinned: bool,
}

impl View for DetectedApp {
    type V = AppModel;

    open spec fn view(&self) -> AppModel {
        AppModel {
            name: self.name@,
            exe_path: self.exe_path@,
            is_priority: self.is_priority,
            pinned: self.pinned,
        }
    }
}

/// A file found below the system drive of a bottle: its path, and the file
/// name, stem and extension that the path ends in.
#[derive(Clone, Debug)]
pub struct FoundFile {
    pub path: String,
    pub file_name: String,
    pub stem: String,
    pub extension: Option<String>,
}

/// Mathematical model of a `FoundFile`.
pub struct FileModel {
    pub path: Seq<char>,
    pub file_name: Seq<char>,
    pub stem: Seq<char>,
    pub extension: Option<Seq<char>>,
}

impl View for FoundFile {
    type V = FileModel;

    open spec fn view(&self) -> FileModel {
        FileModel {
            path: self.path@,
            file_name: self.file_name@,
            stem: self.stem@,
            extension: opt_text(self.extension),
        }
    }
}

/// Whether a directory is scanned: the system's own directories are not.
pub open spec fn scanned_dir(name: Seq<char>) -> bool {
    lowercase_of(name) != "windows"@ && lowercase_of(name) != "users"@
}

/// Whether a file name, in lower case, is that of an uninstaller or helper.
pub open spec fn ignored_name(lowered: Seq<char>) -> bool {
    has_substring(lowered, "unins"@) || has_substring(lowered, "helper"@) || has_substring(
        lowered,
        "crashpad"@,
    )
}

/// Whether a file name, in lower case, is that of a game launcher.
pub open spec fn priority_name(lowered: Seq<char>) -> bool {
    lowered == "steam.exe"@ || lowered == "epicgameslauncher.exe"@ || lowered
        == "galaxyclient.exe"@
}

/// The application that a file is shown as, if it is shown: an executable
/// that is no uninstaller or helper.
pub open spec fn app_of(file: FileModel) -> Option<AppModel> {
    match file.extension {
        None => None,
        Some(extension) => if lowercase_of(extension) != "exe"@ || ignored_name(
            lowercase_of(file.file_name),
        ) {
            None
        } else {
            Some(
                AppModel {
                    name: file.stem,
                    exe_path: file.path,
                    is_priority: priority_name(lowercase_of(file.file_name)),
                    pinned: false,
                },
            )
        },
    }
}

/// The applications among the first `n` files, in the order of the files.
pub open spec fn apps_of(files: Seq<FileModel>, n: nat) -> Seq<AppModel>
    decreases n,
{
    if n == 0 {
        Seq::empty()
    } else {
        let before = apps_of(files, (n - 1) as nat);
        match app_of(files[n - 1]) {
            Some(app) => before.push(app),
            None => before,
        }
    }
}

/// Whether a directory is scanned.
pub fn should_scan_dir(name: &str) -> (r: bool)
    ensures
        r == scanned_dir(name@),
{
    let lowered = lowercase(name);
    !same(lowered.as_str(), "windows") && !same(lowered.as_str(), "users")
}

/// The application that a file is shown as, if it is shown.
pub fn classify_file(file: &FoundFile) -> (app: Option<DetectedApp>)
    ensures
        match app {
            Some(a) => app_of(file@) == Some(a@),
            None => app_of(file@).is_none(),
        },
{
    match &file.extension {
        None => None,
        Some(extension) => {
            let ext = lowercase(extension.as_str());
            if !same(ext.as_str(), "exe") {
                return None;
            }
            let lowered = lowercase(file.file_name.as_str());
            if contains(lowered.as_str(), "unins") || contains(lowered.as_str(), "helper")
                || contains(lowered.as_str(), "crashpad") {
                return None;
            }
            let is_priority = same(lowered.as_str(), "steam.exe") || same(
                lowered.as_str(),
                "epicgameslauncher.exe",
            ) || same(lowered.as_str(), "galaxyclient.exe");
            Some(
                DetectedApp {
                    name: file.stem.clone(),
                    exe_path: file.path.clone(),
                    is_priority,
                    pinned: false,
                },
            )
        },
    }
}

/// The applications among the files found below the system drive of a
/// bottle, in the order in which the files were found.
pub fn scan_bottle_for_apps(files: &Vec<FoundFile>) -> (apps: Vec<DetectedApp>)
    ensures
        apps@.map_values(|a: DetectedApp| a@) == apps_of(
            files@.map_values(|f: FoundFile| f@),
            files@.len(),
        ),
{
    let ghost model = files@.map_values(|f: FoundFile| f@);
    let mut apps: Vec<DetectedApp> = Vec::new();
    let mut i: usize = 0;
    assert(apps@.map_values(|a: DetectedApp| a@) =~= apps_of(model, 0));
    while i < files.len()
        invariant
            i <= files.len(),
            model == files@.map_values(|f: FoundFile| f@),
            apps@.map_values(|a: DetectedApp| a@) == apps_of(model, i as nat),
        decreases files.len() - i,
    {
        assert(model[i as int] == files@[i as int]@);
        let ghost before = apps@.map_values(|a: DetectedApp| a@);
        match classify_file(&files[i]) {
            Some(app) => {
                apps.push(app);
                assert(apps@.map_values(|a: DetectedApp| a@) =~= before.push(apps@.last()@));
            },
            None => {},
        }
        i += 1;
    }
    apps
}

} // verus!
