//! Launching through a compatibility runtime: which runtime is used, and
//! the command that a launch consists of.

use crate::text::{
    contains, has_substring, lowercase, lowercase_of, push_pair, push_text, same, text_pairs, texts,
};
use vstd::prelude::*;

verus! {

/// How a launch ended.
#[derive(Clone, Debug)]
pub struct RunResult {
    pub success: bool,
    pub message: String,
}

/// The places where a runtime is looked for, in order of preference.
pub open spec fn runner_candidates_spec() -> Seq<Seq<char>> {
    seq![
        "/opt/homebrew/bin/wine"@,
        "/usr/local/bin/wine"@,
        "/Applications/Whisky.app/Contents/Resources/wine/bin/wine"@,
        "/opt/homebrew/bin/gameportingtoolkit"@,
    ]
}

/// The first candidate, from position `from` on, that is present. A candidate
/// of which nothing is said counts as absent.
pub open spec fn first_present(candidates: Seq<Seq<char>>, present: Seq<bool>, from: nat) -> Option<
    Seq<char>,
>
    decreases candidates.len() - from,
{
    if from >= candidates.len() {
        None
    } else if from < present.len() && present[from as int] {
        Some(candidates[from as int])
    } else {
        first_present(candidates, present, from + 1)
    }
}

/// The places where a runtime is looked for, in order of preference.
pub fn runner_candidates() -> (candidates: Vec<&'static str>)
    ensures
        candidates@.map_values(|c: &'static str| c@) == runner_candidates_spec(),
{
    let mut candidates: Vec<&'static str> = Vec::new();
    candidates.push("/opt/homebrew/bin/wine");
    candidates.push("/usr/local/bin/wine");
    candidates.push("/Applications/Whisky.app/Contents/Resources/wine/bin/wine");
    candidates.push("/opt/homebrew/bin/gameportingtoolkit");
    assert(candidates@.map_values(|c: &'static str| c@) =~= runner_candidates_spec());
    candidates
}

/// The runtime to use: the first candidate that is present on the host.
/// `present[i]` says whether candidate `i` is.
pub fn find_runner(present: &Vec<bool>) -> (runner: Option<String>)
    ensures
        crate::text::opt_text(runner) == first_present(runner_candidates_spec(), present@, 0),
{
    let candidates = runner_candidates();
    let ghost wanted = runner_candidates_spec();
    let mut i: usize = 0;
    while i < candidates.len()
        invariant
            i <= candidates.len(),
            wanted == runner_candidates_spec(),
            candidates@.map_values(|c: &'static str| c@) == wanted,
            first_present(wanted, present@, 0) == first_present(wanted, present@, i as nat),
        decreases candidates.len() - i,
    {
        if i < present.len() && present[i] {
            assert(wanted[i as int] == candidates@[i as int]@);
            return Some(candidates[i].to_owned());
        }
        i += 1;
    }
    None
}

/// The command of one launch, and what is to be done to the prefix before.
#[derive(Clone, Debug)]
pub struct RunPlan {
    pub runner: String,
    pub working_dir: String,
    pub env: Vec<(String, String)>,
    pub args: Vec<String>,
    pub apply_modern_patches: bool,
    pub apply_metal_patches: bool,
    pub apply_steam_patches: bool,
    pub mark_patched: bool,
}

/// Mathematical model of a `RunPlan`.
pub struct RunPlanModel {
    pub runner: Seq<char>,
    pub working_dir: Seq<char>,
    pub env: Seq<(Seq<char>, Seq<char>)>,
    pub args: Seq<Seq<char>>,
    pub apply_modern_patches: bool,
    pub apply_metal_patches: bool,
    pub apply_steam_patches: bool,
    pub mark_patched: bool,
}

impl View for RunPlan {
    type V = RunPlanModel;

    open spec fn view(&self) -> RunPlanModel {
        RunPlanModel {
            runner: self.runner@,
            working_dir: self.working_dir@,
            env: text_pairs(self.env@),
            args: texts(self.args@),
            apply_modern_patches: self.apply_modern_patches,
            apply_metal_patches: self.apply_metal_patches,
            apply_steam_patches: self.apply_steam_patches,
            mark_patched: self.mark_patched,
        }
    }
}

/// The environment of a launch into the given prefix.
pub open spec fn launch_env(prefix: Seq<char>) -> Seq<(Seq<char>, Seq<char>)> {
    seq![
        ("WINEPREFIX"@, prefix),
        (
            "WINEDLLOVERRIDES"@,
            "d3d11,d3d12,dxgi=n;d3d9=b;dwrite=d;mscoree,mshtml=;winemenubuilder.exe=d;gameoverlayrenderer,gameoverlayrenderer64=d"@,
        ),
        ("WINE_SKIP_GECKO_INSTALLATION"@, "1"@),
        ("WINE_SKIP_MONO_INSTALLATION"@, "1"@),
        ("WINEESYNC"@, "1"@),
        ("WINEMSYNC"@, "1"@),
        ("WINEDEBUG"@, "fixme-all,err-all"@),
        ("WINE_ASLR"@, "0"@),
        ("WINE_FORCE_LARGE_ADDRESS_AWARE"@, "1"@),
        ("WINE_LARGE_ADDRESS_AWARE"@, "1"@),
        ("MTL_HUD_ENABLED"@, "1"@),
        ("MVK_CONFIG_RESILIENT_REPORTING"@, "1"@),
        ("STEAM_FORCE_DESKTOPUI_OVERRIDE"@, "1"@),
        ("WINE_DISABLE_GPU_FOR_STEAM"@, "1"@),
        ("PANCHO_MACH_PORT"@, "1"@),
    ]
}

/// The arguments of a launch: the executable, and for Steam the flags that
/// keep its embedded browser off the GPU.
pub open spec fn launch_args(exe_path: Seq<char>) -> Seq<Seq<char>> {
    if has_substring(lowercase_of(exe_path), "steam"@) {
        seq![
            exe_path,
            "-no-cef-sandbox"@,
            "-cef-disable-gpu"@,
            "-cef-disable-d3d11"@,
            "-all-non-sandbox"@,
        ]
    } else {
        seq![exe_path]
    }
}

/// The runtime of a launch: the bottle's own engine where it has one, else
/// the one found on the host.
pub open spec fn chosen_runner(custom_engine: Option<Seq<char>>, found: Option<Seq<char>>) -> Option<
    Seq<char>,
> {
    match custom_engine {
        Some(engine) => Some(engine),
        None => found,
    }
}

/// The plan of a launch, or the reason why there is none: no runtime, or an
/// executable path without a directory. A `pro` bottle is patched for modern
/// games and for Metal once, which the plan asks to record, and for Steam at
/// every launch of Steam.
pub open spec fn run_plan_of(
    exe_path: Seq<char>,
    prefix: Seq<char>,
    working_dir: Option<Seq<char>>,
    custom_engine: Option<Seq<char>>,
    found: Option<Seq<char>>,
    env_type: Seq<char>,
    already_patched: bool,
) -> Result<RunPlanModel, Seq<char>> {
    match chosen_runner(custom_engine, found) {
        None => Err(
            "Pancho-Core Engine not found. Please create a Pro bottle to trigger setup."@,
        ),
        Some(runner) => match working_dir {
            None => Err("Invalid executable path"@),
            Some(dir) => {
                let pro = env_type == "pro"@;
                Ok(
                    RunPlanModel {
                        runner,
                        working_dir: dir,
                        env: launch_env(prefix),
                        args: launch_args(exe_path),
                        apply_modern_patches: pro && !already_patched,
                        apply_metal_patches: pro && !already_patched,
                        apply_steam_patches: pro && has_substring(
                            lowercase_of(exe_path),
                            "steam.exe"@,
                        ),
                        mark_patched: pro && !already_patched,
                    },
                )
            },
        },
    }
}

/// A result that holds a plan or a message, by its model.
pub open spec fn plan_result(r: Result<RunPlan, String>) -> Result<RunPlanModel, Seq<char>> {
    match r {
        Ok(plan) => Ok(plan@),
        Err(e) => Err(e@),
    }
}

/// Plans the launch of an executable in a prefix. `working_dir` is the
/// directory of the executable, if its path has one; `found_runner` is what
/// `find_runner` gave; `already_patched` says whether the prefix was patched
/// before.
pub fn run_executable(
    exe_path: &str,
    prefix_path: &str,
    working_dir: Option<&str>,
    custom_engine: Option<String>,
    found_runner: Option<String>,
    env_type: &str,
    already_patched: bool,
) -> (r: Result<RunPlan, String>)
    ensures
        plan_result(r) == run_plan_of(
            exe_path@,
            prefix_path@,
            match working_dir {
                Some(dir) => Some(dir@),
                None => None,
            },
            crate::text::opt_text(custom_engine),
            crate::text::opt_text(found_runner),
            env_type@,
            already_patched,
        ),
{
    let runner = match custom_engine {
        Some(engine) => engine,
        None => match found_runner {
            Some(found) => found,
            None => {
                return Err(
                    "Pancho-Core Engine not found. Please create a Pro bottle to trigger setup.".to_owned(),
                );
            },
        },
    };
    let dir = match working_dir {
        Some(dir) => dir,
        None => {
            return Err("Invalid executable path".to_owned());
        },
    };
    let pro = same(env_type, "pro");
    let lowered = lowercase(exe_path);
    let steam_exe = contains(lowered.as_str(), "steam.exe");
    let is_steam = contains(lowered.as_str(), "steam");
    let mut env: Vec<(String, String)> = Vec::new();
    push_pair(&mut env, "WINEPREFIX", prefix_path);
    push_pair(
        &mut env,
        "WINEDLLOVERRIDES",
        "d3d11,d3d12,dxgi=n;d3d9=b;dwrite=d;mscoree,mshtml=;winemenubuilder.exe=d;gameoverlayrenderer,gameoverlayrenderer64=d",
    );
    push_pair(&mut env, "WINE_SKIP_GECKO_INSTALLATION", "1");
    push_pair(&mut env, "WINE_SKIP_MONO_INSTALLATION", "1");
    push_pair(&mut env, "WINEESYNC", "1");
    push_pair(&mut env, "WINEMSYNC", "1");
    push_pair(&mut env, "WINEDEBUG", "fixme-all,err-all");
    push_pair(&mut env, "WINE_ASLR", "0");
    push_pair(&mut env, "WINE_FORCE_LARGE_ADDRESS_AWARE", "1");
    push_pair(&mut env, "WINE_LARGE_ADDRESS_AWARE", "1");
    push_pair(&mut env, "MTL_HUD_ENABLED", "1");
    push_pair(&mut env, "MVK_CONFIG_RESILIENT_REPORTING", "1");
    push_pair(&mut env, "STEAM_FORCE_DESKTOPUI_OVERRIDE", "1");
    push_pair(&mut env, "WINE_DISABLE_GPU_FOR_STEAM", "1");
    push_pair(&mut env, "PANCHO_MACH_PORT", "1");
    assert(text_pairs(env@) =~= launch_env(prefix_path@));
    let mut args: Vec<String> = Vec::new();
    push_text(&mut args, exe_path);
    if is_steam {
        push_text(&mut args, "-no-cef-sandbox");
        push_text(&mut args, "-cef-disable-gpu");
        push_text(&mut args, "-cef-disable-d3d11");
        push_text(&mut args, "-all-non-sandbox");
    }
    assert(texts(args@) =~= launch_args(exe_path@));
    Ok(
        RunPlan {
            runner,
            working_dir: dir.to_owned(),
            env,
            args,
            apply_modern_patches: pro && !already_patched,
            apply_metal_patches: pro && !already_patched,
            apply_steam_patches: pro && steam_exe,
            mark_patched: pro && !already_patched,
        },
    )
}

} // verus!
