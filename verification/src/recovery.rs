//! Automatic recovery: what is done about an error found in the log.

use crate::log_parser::{WineError, WineErrorModel};
use crate::text::{has_substring, contains, join, lowercase, lowercase_of, same, texts};
use vstd::prelude::*;
use vstd::string::StringExecFns;

verus! {

/// How an attempt to fix an error ended.
#[derive(Clone, Debug)]
pub enum FixResult {
    Fixed { action_taken: String },
    ManualRequired { instructions: Vec<String> },
    Unfixable { reason: String },
}

/// Mathematical model of a `FixResult`.
pub enum FixResultModel {
    Fixed { action_taken: Seq<char> },
    ManualRequired { instructions: Seq<Seq<char>> },
    Unfixable { reason: Seq<char> },
}

impl View for FixResult {
    type V = FixResultModel;

    open spec fn view(&self) -> FixResultModel {
        match self {
            FixResult::Fixed { action_taken } => FixResultModel::Fixed {
                action_taken: action_taken@,
            },
            FixResult::ManualRequired { instructions } => FixResultModel::ManualRequired {
                instructions: texts(instructions@),
            },
            FixResult::Unfixable { reason } => FixResultModel::Unfixable { reason: reason@ },
        }
    }
}

/// One attempt to fix an error.
#[derive(Clone, Debug)]
pub struct FixAttempt {
    pub timestamp: u64,
    pub error: WineError,
    pub result: FixResult,
}

/// What an attempt to fix an error begins with.
#[derive(Clone, Debug)]
pub enum FixPlan {
    /// End the bottle's processes and clear the browser cache of Steam; the
    /// error then counts as fixed.
    ResetSteam,
    /// Install a package; the result depends on whether that succeeds.
    InstallPackage { package: String },
    /// Nothing to do; the result is known.
    Settled { result: FixResult },
}

/// Mathematical model of a `FixPlan`.
pub enum FixPlanModel {
    ResetSteam,
    InstallPackage { package: Seq<char> },
    Settled { result: FixResultModel },
}

impl View for FixPlan {
    type V = FixPlanModel;

    open spec fn view(&self) -> FixPlanModel {
        match self {
            FixPlan::ResetSteam => FixPlanModel::ResetSteam,
            FixPlan::InstallPackage { package } => FixPlanModel::InstallPackage {
                package: package@,
            },
            FixPlan::Settled { result } => FixPlanModel::Settled { result: result@ },
        }
    }
}

/// Attempts to fix errors found in the log.
pub struct AutoRecovery;

/// The package that provides a library, if one is known to.
pub open spec fn package_of(dll_name: Seq<char>) -> Option<Seq<char>> {
    let lowered = lowercase_of(dll_name);
    if lowered == "d3dcompiler_47.dll"@ {
        Some("d3dcompiler_47"@)
    } else if lowered == "vcruntime140.dll"@ {
        Some("vcrun2015"@)
    } else if lowered == "mfc140.dll"@ {
        Some("vcrun2015"@)
    } else if lowered == "x3daudio1_7.dll"@ {
        Some("directx9"@)
    } else {
        None
    }
}

/// Where the browser cache of Steam lies in a bottle, relative to it.
pub open spec fn steam_cache_text() -> Seq<char> {
    "drive_c/users/crossover/Local Settings/Application Data/Steam/htmlcache"@
}

/// Where the browser cache of Steam lies in a bottle, relative to it.
pub fn steam_cache_path() -> (path: &'static str)
    ensures
        path@ == steam_cache_text(),
{
    "drive_c/users/crossover/Local Settings/Application Data/Steam/htmlcache"
}

/// What an attempt to fix an error begins with.
pub open spec fn plan_of(error: WineErrorModel) -> FixPlanModel {
    match error {
        WineErrorModel::SteamHelperCrash { .. } => FixPlanModel::ResetSteam,
        WineErrorModel::MissingDLL { dll_name } => match package_of(dll_name) {
            Some(package) => FixPlanModel::InstallPackage { package },
            None => FixPlanModel::Settled {
                result: FixResultModel::ManualRequired {
                    instructions: seq![
                        "Please install '"@ + dll_name + "' manually via Winetricks."@,
                    ],
                },
            },
        },
        WineErrorModel::AccessViolation { address } => if has_substring(address, "0xc0000005"@) {
            FixPlanModel::Settled {
                result: FixResultModel::ManualRequired {
                    instructions: seq![
                        "This is a generic memory access violation."@,
                        "1. Try changing the Windows Version to Windows 10 in winecfg."@,
                        "2. Disable overlay software (Discord, Origin)."@,
                    ],
                },
            }
        } else {
            FixPlanModel::Settled {
                result: FixResultModel::Unfixable { reason: "Unknown access violation pattern."@ },
            }
        },
        _ => FixPlanModel::Settled {
            result: FixResultModel::Unfixable {
                reason: "No automated fix available for this error."@,
            },
        },
    }
}

/// How resetting Steam ends.
pub open spec fn steam_reset_result() -> FixResultModel {
    FixResultModel::Fixed {
        action_taken: "Terminated stuck Steam processes and cleared HTML cache. Please restart Steam."@,
    }
}

/// How installing a package ends.
pub open spec fn install_result(package: Seq<char>, succeeded: bool) -> FixResultModel {
    if succeeded {
        FixResultModel::Fixed {
            action_taken: "Automatically installed '"@ + package + "' via Winetricks."@,
        }
    } else {
        FixResultModel::ManualRequired {
            instructions: seq![
                "Failed to auto-install '"@ + package + "'."@,
                "Check your internet connection and try manually."@,
            ],
        }
    }
}

impl AutoRecovery {
    /// The package that provides a library, if one is known to.
    pub fn package_for(dll_name: &str) -> (package: Option<&'static str>)
        ensures
            match package {
                Some(p) => package_of(dll_name@) == Some(p@),
                None => package_of(dll_name@).is_none(),
            },
    {
        let lowered = lowercase(dll_name);
        if same(lowered.as_str(), "d3dcompiler_47.dll") {
            Some("d3dcompiler_47")
        } else if same(lowered.as_str(), "vcruntime140.dll") {
            Some("vcrun2015")
        } else if same(lowered.as_str(), "mfc140.dll") {
            Some("vcrun2015")
        } else if same(lowered.as_str(), "x3daudio1_7.dll") {
            Some("directx9")
        } else {
            None
        }
    }

    /// What an attempt to fix an error begins with.
    pub fn attempt_fix(error: &WineError) -> (plan: FixPlan)
        ensures
            plan@ == plan_of(error@),
    {
        match error {
            WineError::SteamHelperCrash { .. } => FixPlan::ResetSteam,
            WineError::MissingDLL { dll_name } => match Self::package_for(dll_name.as_str()) {
                Some(package) => FixPlan::InstallPackage { package: package.to_owned() },
                None => {
                    let mut line = join("Please install '", dll_name.as_str());
                    line.append("' manually via Winetricks.");
                    let mut instructions: Vec<String> = Vec::new();
                    instructions.push(line);
                    assert(texts(instructions@) =~= seq![
                        "Please install '"@ + dll_name@ + "' manually via Winetricks."@,
                    ]);
                    FixPlan::Settled { result: FixResult::ManualRequired { instructions } }
                },
            },
            WineError::AccessViolation { address } => {
                if contains(address.as_str(), "0xc0000005") {
                    let mut instructions: Vec<String> = Vec::new();
                    instructions.push("This is a generic memory access violation.".to_owned());
                    instructions.push(
                        "1. Try changing the Windows Version to Windows 10 in winecfg.".to_owned(),
                    );
                    instructions.push("2. Disable overlay software (Discord, Origin).".to_owned());
                    assert(texts(instructions@) =~= seq![
                        "This is a generic memory access violation."@,
                        "1. Try changing the Windows Version to Windows 10 in winecfg."@,
                        "2. Disable overlay software (Discord, Origin)."@,
                    ]);
                    FixPlan::Settled { result: FixResult::ManualRequired { instructions } }
                } else {
                    FixPlan::Settled {
                        result: FixResult::Unfixable {
                            reason: "Unknown access violation pattern.".to_owned(),
                        },
                    }
                }
            },
            _ => FixPlan::Settled {
                result: FixResult::Unfixable {
                    reason: "No automated fix available for this error.".to_owned(),
                },
            },
        }
    }

    /// How resetting Steam ends: the error counts as fixed.
    pub fn conclude_reset() -> (result: FixResult)
        ensures
            result@ == steam_reset_result(),
    {
        FixResult::Fixed {
            action_taken: "Terminated stuck Steam processes and cleared HTML cache. Please restart Steam.".to_owned(),
        }
    }

    /// How installing a package ends, given whether it succeeded.
    pub fn conclude_install(package: &str, succeeded: bool) -> (result: FixResult)
        ensures
            result@ == install_result(package@, succeeded),
    {
        if succeeded {
            let mut line = join("Automatically installed '", package);
            line.append("' via Winetricks.");
            FixResult::Fixed { action_taken: line }
        } else {
            let mut line = join("Failed to auto-install '", package);
            line.append("'.");
            let mut instructions: Vec<String> = Vec::new();
            instructions.push(line);
            instructions.push("Check your internet connection and try manually.".to_owned());
            assert(texts(instructions@) =~= seq![
                "Failed to auto-install '"@ + package@ + "'."@,
                "Check your internet connection and try manually."@,
            ]);
            FixResult::ManualRequired { instructions }
        }
    }
}

} // verus!
