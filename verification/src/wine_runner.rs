//! Compatibility runtimes found on the host, and what is told from their
//! path and version string.

use crate::text::{contains, has_substring, lowercase, lowercase_of, opt_text, same};
use vstd::prelude::*;

verus! {

/// The kind of a compatibility runtime.
#[derive(Clone, Copy, Debug, PartialEq, Eq, Structural)]
pub enum WineRunnerType {
    Standard,
    GPTK,
    WhiskyGPTK,
}

/// One compatibility runtime found on the host.
#[derive(Clone, Debug)]
pub struct WineRunner {
    pub runner_type: WineRunnerType,
    pub path: String,
    pub version: String,
    pub supports_d3dmetal: bool,
    pub supports_esync: bool,
}

/// Mathematical model of a `WineRunner`.
pub struct RunnerModel {
    pub runner_type: WineRunnerType,
    pub path: Seq<char>,
    pub version: Seq<char>,
    pub supports_d3dmetal: bool,
    pub supports_esync: bool,
}

impl View for WineRunner {
    type V = RunnerModel;

    open spec fn view(&self) -> RunnerModel {
        RunnerModel {
            runner_type: self.runner_type,
            path: self.path@,
            version: self.version@,
            supports_d3dmetal: self.supports_d3dmetal,
            supports_esync: self.supports_esync,
        }
    }
}

/// The kind that a runtime's path tells: one below a Whisky directory is a
/// Whisky build, one below the game porting toolkit is the toolkit, any other
/// is a standard build.
pub open spec fn runner_type_of(path: Seq<char>) -> WineRunnerType {
    if has_substring(path, "Whisky"@) {
        WineRunnerType::WhiskyGPTK
    } else if has_substring(path, "game-porting-toolkit"@) {
        WineRunnerType::GPTK
    } else {
        WineRunnerType::Standard
    }
}

/// Whether a version string tells of esync support: it names esync, in any
/// case, or a staging build.
pub open spec fn esync_supported(version: Seq<char>) -> bool {
    has_substring(lowercase_of(version), "esync"@) || has_substring(version, "staging"@)
}

/// The runtime record for a path, the version string that the runtime
/// printed, and whether the D3DMetal libraries lie beside it.
pub open spec fn runner_of(path: Seq<char>, version: Seq<char>, d3dmetal: bool) -> RunnerModel {
    RunnerModel {
        runner_type: runner_type_of(path),
        path,
        version,
        supports_d3dmetal: d3dmetal,
        supports_esync: esync_supported(version),
    }
}

/// The kind that a runtime's path tells.
pub fn runner_type(path: &str) -> (kind: WineRunnerType)
    ensures
        kind == runner_type_of(path@),
{
    if contains(path, "Whisky") {
        WineRunnerType::WhiskyGPTK
    } else if contains(path, "game-porting-toolkit") {
        WineRunnerType::GPTK
    } else {
        WineRunnerType::Standard
    }
}

/// Whether a version string tells of esync support.
pub fn check_esync(version: &str) -> (supported: bool)
    ensures
        supported == esync_supported(version@),
{
    let lowered = lowercase(version);
    contains(lowered.as_str(), "esync") || contains(version, "staging")
}

/// Whether the D3DMetal libraries lie beside a runtime: either of the two
/// Direct3D libraries is enough.
pub fn check_d3dmetal(d3d11_present: bool, d3d12_present: bool) -> (supported: bool)
    ensures
        supported == (d3d11_present || d3d12_present),
{
    d3d11_present || d3d12_present
}

/// The runtime record for a path, the version string that the runtime
/// printed, and whether the two Direct3D libraries of D3DMetal lie beside it.
pub fn describe_runner(path: &str, version: &str, d3d11_present: bool, d3d12_present: bool) -> (runner:
    WineRunner)
    ensures
        runner@ == runner_of(path@, version@, d3d11_present || d3d12_present),
{
    WineRunner {
        runner_type: runner_type(path),
        path: path.to_owned(),
        version: version.to_owned(),
        supports_d3dmetal: check_d3dmetal(d3d11_present, d3d12_present),
        supports_esync: check_esync(version),
    }
}

/// What was found at one place where a runtime is looked for: whether there
/// is a file, the version string that it printed when asked, if it did, and
/// which of the two Direct3D libraries of D3DMetal lie beside it.
#[derive(Clone, Debug)]
pub struct RunnerProbe {
    pub path: String,
    pub exists: bool,
    pub version: Option<String>,
    pub d3d11_present: bool,
    pub d3d12_present: bool,
}

/// Mathematical model of a `RunnerProbe`.
pub struct RunnerProbeModel {
    pub path: Seq<char>,
    pub exists: bool,
    pub version: Option<Seq<char>>,
    pub d3d11_present: bool,
    pub d3d12_present: bool,
}

impl View for RunnerProbe {
    type V = RunnerProbeModel;

    open spec fn view(&self) -> RunnerProbeModel {
        RunnerProbeModel {
            path: self.path@,
            exists: self.exists,
            version: opt_text(self.version),
            d3d11_present: self.d3d11_present,
            d3d12_present: self.d3d12_present,
        }
    }
}

/// The places where a runtime is always looked for.
pub open spec fn default_runner_paths() -> Seq<Seq<char>> {
    seq![
        "/usr/local/bin/wine64"@,
        "/opt/homebrew/bin/wine64"@,
        "/usr/local/opt/game-porting-toolkit/bin/wine64"@,
    ]
}

/// The places where a runtime is always looked for.
pub fn default_scan_paths() -> (paths: Vec<&'static str>)
    ensures
        paths@.map_values(|p: &'static str| p@) == default_runner_paths(),
{
    let mut paths: Vec<&'static str> = Vec::new();
    paths.push("/usr/local/bin/wine64");
    paths.push("/opt/homebrew/bin/wine64");
    paths.push("/usr/local/opt/game-porting-toolkit/bin/wine64");
    assert(paths@.map_values(|p: &'static str| p@) =~= default_runner_paths());
    paths
}

/// A runtime at a given path is among the runtimes.
pub open spec fn has_runner(runners: Seq<RunnerModel>, path: Seq<char>) -> bool {
    exists|i: int| 0 <= i < runners.len() && (#[trigger] runners[i]).path == path
}

/// The runtimes among the first `n` places: one for each place that holds a
/// file which printed its version, the first time that its path occurs.
pub open spec fn runners_of(probes: Seq<RunnerProbeModel>, n: nat) -> Seq<RunnerModel>
    decreases n,
{
    if n == 0 {
        Seq::empty()
    } else {
        let before = runners_of(probes, (n - 1) as nat);
        let probe = probes[n - 1];
        match probe.version {
            Some(version) => if probe.exists && !has_runner(before, probe.path) {
                before.push(
                    runner_of(probe.path, version, probe.d3d11_present || probe.d3d12_present),
                )
            } else {
                before
            },
            None => before,
        }
    }
}

/// Whether a runtime at a given path is among the runtimes.
pub fn runner_known(runners: &Vec<WineRunner>, path: &str) -> (r: bool)
    ensures
        r == has_runner(runners@.map_values(|x: WineRunner| x@), path@),
{
    let ghost model = runners@.map_values(|x: WineRunner| x@);
    let mut i: usize = 0;
    while i < runners.len()
        invariant
            i <= runners.len(),
            model == runners@.map_values(|x: WineRunner| x@),
            forall|k: int| 0 <= k < i ==> (#[trigger] model[k]).path != path@,
        decreases runners.len() - i,
    {
        assert(model[i as int] == runners@[i as int]@);
        if same(runners[i].path.as_str(), path) {
            return true;
        }
        i += 1;
    }
    false
}

/// The runtimes found on the host, given what was found at each place that
/// was looked at, in the order of the places.
pub fn get_wine_runners(probes: &Vec<RunnerProbe>) -> (runners: Vec<WineRunner>)
    ensures
        runners@.map_values(|x: WineRunner| x@) == runners_of(
            probes@.map_values(|p: RunnerProbe| p@),
            probes@.len(),
        ),
{
    let ghost model = probes@.map_values(|p: RunnerProbe| p@);
    let mut runners: Vec<WineRunner> = Vec::new();
    let mut i: usize = 0;
    assert(runners@.map_values(|x: WineRunner| x@) =~= runners_of(model, 0));
    while i < probes.len()
        invariant
            i <= probes.len(),
            model == probes@.map_values(|p: RunnerProbe| p@),
            runners@.map_values(|x: WineRunner| x@) == runners_of(model, i as nat),
        decreases probes.len() - i,
    {
        let probe = &probes[i];
        assert(model[i as int] == probe@);
        if probe.exists && !runner_known(&runners, probe.path.as_str()) {
            match &probe.version {
                Some(version) => {
                    let ghost before = runners@.map_values(|x: WineRunner| x@);
                    runners.push(
                        describe_runner(
                            probe.path.as_str(),
                            version.as_str(),
                            probe.d3d11_present,
                            probe.d3d12_present,
                        ),
                    );
                    assert(runners@.map_values(|x: WineRunner| x@) =~= before.push(
                        runners@.last()@,
                    ));
                },
                None => {},
            }
        }
        i += 1;
    }
    runners
}

/// No runtime is listed twice: the paths of the runtimes found are distinct.
pub proof fn lemma_runners_distinct(probes: Seq<RunnerProbeModel>, n: nat)
    requires
        n <= probes.len(),
    ensures
        forall|i: int, j: int|
            0 <= i < j < runners_of(probes, n).len() ==> (#[trigger] runners_of(probes, n)[i]).path
                != (#[trigger] runners_of(probes, n)[j]).path,
    decreases n,
{
    if n > 0 {
        lemma_runners_distinct(probes, (n - 1) as nat);
        let before = runners_of(probes, (n - 1) as nat);
        let after = runners_of(probes, n);
        assert forall|i: int, j: int| 0 <= i < j < after.len() implies (#[trigger] after[i]).path != (
        #[trigger] after[j]).path by {
            if j < before.len() {
                assert(after[i] == before[i] && after[j] == before[j]);
            } else {
                assert(after[i] == before[i]);
            }
        }
    }
}

} // verus!
