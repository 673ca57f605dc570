//! Bottles: the record of a bottle, and what creating and editing one does
//! to it.

use crate::scanner::{AppModel, DetectedApp};
use crate::text::{
    contains, decimal_digits, has_substring, lowercase, lowercase_of, opt_text, push_decimal, same,
    underscore_spaces, underscored,
};
use rand::Rng;
use vstd::prelude::*;
use vstd::string::StringExecFns;

verus! {

/// One bottle, as it is kept in its configuration file.
#[derive(Clone, Debug)]
pub struct Bottle {
    pub id: String,
    pub name: String,
    pub path: String,
    pub created_at: u64,
    pub pinned_apps: Vec<DetectedApp>,
    pub cover: String,
    pub engine_path: Option<String>,
}

/// Mathematical model of a `Bottle`.
pub struct BottleModel {
    pub id: Seq<char>,
    pub name: Seq<char>,
    pub path: Seq<char>,
    pub created_at: u64,
    pub pinned_apps: Seq<AppModel>,
    pub cover: Seq<char>,
    pub engine_path: Option<Seq<char>>,
}

impl View for Bottle {
    type V = BottleModel;

    open spec fn view(&self) -> BottleModel {
        BottleModel {
            id: self.id@,
            name: self.name@,
            path: self.path@,
            created_at: self.created_at,
            pinned_apps: self.pinned_apps@.map_values(|a: DetectedApp| a@),
            cover: self.cover@,
            engine_path: opt_text(self.engine_path),
        }
    }
}

/// Number of the first cover.
pub const FIRST_COVER: u32 = 1;

/// Number of the last cover.
pub const LAST_COVER: u32 = 4;

/// A number between two bounds, both included, drawn by rand's
/// `Rng::random_range` on the thread's generator (`rand::rng`). Of the result
/// the contract claims only that it lies between the bounds; the range must
/// not be empty, on which rand panics.
#[verifier::external_body]
fn random_between(low: u32, high: u32) -> (n: u32)
    requires
        low <= high,
    ensures
        low <= n <= high,
{
    rand::rng().random_range(low..=high)
}

/// The identifier of a bottle of a given name: the name in lower case, with
/// an underscore for every space.
pub open spec fn id_of(name: Seq<char>) -> Seq<char> {
    underscored(lowercase_of(name))
}

/// The cover of a given number.
pub open spec fn cover_of(number: u32) -> Seq<char> {
    "/covers/cover0"@ + decimal_digits(number as nat) + ".png"@
}

/// The cover that a bottle without one is shown with.
pub open spec fn default_cover() -> Seq<char> {
    "/covers/cover01.png"@
}

/// A new bottle.
pub open spec fn bottle_of(
    name: Seq<char>,
    path: Seq<char>,
    created_at: u64,
    cover_number: u32,
) -> BottleModel {
    BottleModel {
        id: id_of(name),
        name,
        path,
        created_at,
        pinned_apps: Seq::empty(),
        cover: cover_of(cover_number),
        engine_path: None,
    }
}

/// An application with a given path of its executable is among the
/// applications.
pub open spec fn has_app(apps: Seq<AppModel>, exe_path: Seq<char>) -> bool {
    exists|i: int| 0 <= i < apps.len() && (#[trigger] apps[i]).exe_path == exe_path
}

/// The pinned applications after one more was pinned: it is added at the end
/// unless one with the same executable is pinned already.
pub open spec fn pinned_with(apps: Seq<AppModel>, app: AppModel) -> Seq<AppModel> {
    if has_app(apps, app.exe_path) {
        apps
    } else {
        apps.push(app)
    }
}

/// Those of the first `n` applications whose executable is not `exe_path`.
pub open spec fn pinned_without(apps: Seq<AppModel>, exe_path: Seq<char>, n: nat) -> Seq<AppModel>
    decreases n,
{
    if n == 0 {
        Seq::empty()
    } else {
        let before = pinned_without(apps, exe_path, (n - 1) as nat);
        if apps[n - 1].exe_path == exe_path {
            before
        } else {
            before.push(apps[n - 1])
        }
    }
}

/// Whether the shortcut of an installer is removed once the installer has
/// ended: only for an installer of Steam, and only if the bottle then holds
/// an executable of Steam that is no installer.
pub open spec fn installer_done(installer_path: Seq<char>, apps: Seq<AppModel>) -> bool {
    has_substring(lowercase_of(installer_path), "steam"@) && exists|i: int|
        0 <= i < apps.len() && has_substring(
            lowercase_of((#[trigger] apps[i]).exe_path),
            "steam.exe"@,
        ) && !has_substring(lowercase_of(apps[i].exe_path), "setup"@)
}

/// The identifier of a bottle of a given name.
pub fn bottle_id(name: &str) -> (id: String)
    ensures
        id@ == id_of(name@),
{
    let lowered = lowercase(name);
    underscore_spaces(lowered.as_str())
}

/// The cover of a given number.
pub fn cover_path(number: u32) -> (cover: String)
    ensures
        cover@ == cover_of(number),
{
    let mut cover = "/covers/cover0".to_owned();
    push_decimal(&mut cover, number as u64);
    cover.append(".png");
    cover
}

/// A new bottle of a given name at a given path, with the cover of a given
/// number.
pub fn build_bottle(name: &str, path: &str, created_at: u64, cover_number: u32) -> (bottle: Bottle)
    ensures
        bottle@ == bottle_of(name@, path@, created_at, cover_number),
{
    let pinned_apps: Vec<DetectedApp> = Vec::new();
    assert(pinned_apps@.map_values(|a: DetectedApp| a@) =~= Seq::<AppModel>::empty());
    Bottle {
        id: bottle_id(name),
        name: name.to_owned(),
        path: path.to_owned(),
        created_at,
        pinned_apps,
        cover: cover_path(cover_number),
        engine_path: None,
    }
}

/// Creates the record of a bottle of a given name at a given path, with a
/// cover drawn at random. Fails if something exists at the path already.
pub fn create_bottle(name: &str, path: &str, exists: bool, created_at: u64) -> (r: Result<
    Bottle,
    String,
>)
    ensures
        match r {
            Err(e) => exists && e@ == "A bottle with this name already exists."@,
            Ok(bottle) => !exists && exists|number: u32|
                FIRST_COVER <= number <= LAST_COVER && bottle@ == #[trigger] bottle_of(
                    name@,
                    path@,
                    created_at,
                    number,
                ),
        },
{
    if exists {
        return Err("A bottle with this name already exists.".to_owned());
    }
    let number = random_between(FIRST_COVER, LAST_COVER);
    Ok(build_bottle(name, path, created_at, number))
}

impl Bottle {
    /// Gives a bottle without cover the default one.
    pub fn ensure_cover(&mut self)
        ensures
            final(self)@ == (BottleModel {
                cover: if old(self)@.cover.len() == 0 {
                    default_cover()
                } else {
                    old(self)@.cover
                },
                ..old(self)@
            }),
    {
        if self.cover.as_str().unicode_len() == 0 {
            self.cover = "/covers/cover01.png".to_owned();
        }
    }

    /// Whether an application with a given executable is pinned.
    pub fn is_pinned(&self, exe_path: &str) -> (r: bool)
        ensures
            r == has_app(self@.pinned_apps, exe_path@),
    {
        let mut i: usize = 0;
        while i < self.pinned_apps.len()
            invariant
                i <= self.pinned_apps.len(),
                forall|k: int| 0 <= k < i ==> (#[trigger] self@.pinned_apps[k]).exe_path != exe_path@,
            decreases self.pinned_apps.len() - i,
        {
            assert(self@.pinned_apps[i as int] == self.pinned_apps@[i as int]@);
            if same(self.pinned_apps[i].exe_path.as_str(), exe_path) {
                return true;
            }
            i += 1;
        }
        false
    }

    /// Pins an application, unless one with the same executable is pinned
    /// already.
    pub fn add_pinned_app(&mut self, app: DetectedApp)
        ensures
            final(self)@ == (BottleModel {
                pinned_apps: pinned_with(old(self)@.pinned_apps, app@),
                ..old(self)@
            }),
    {
        if !self.is_pinned(app.exe_path.as_str()) {
            self.pinned_apps.push(app);
            assert(self@.pinned_apps =~= old(self)@.pinned_apps.push(app@));
        }
    }

    /// Unpins every application with a given executable.
    pub fn remove_pinned_app(&mut self, exe_path: &str)
        ensures
            final(self)@ == (BottleModel {
                pinned_apps: pinned_without(
                    old(self)@.pinned_apps,
                    exe_path@,
                    old(self)@.pinned_apps.len(),
                ),
                ..old(self)@
            }),
    {
        let mut kept: Vec<DetectedApp> = Vec::new();
        let mut i: usize = 0;
        assert(kept@.map_values(|a: DetectedApp| a@) =~= Seq::<AppModel>::empty());
        while i < self.pinned_apps.len()
            invariant
                i <= self.pinned_apps.len(),
                *self == *old(self),
                kept@.map_values(|a: DetectedApp| a@) == pinned_without(
                    self@.pinned_apps,
                    exe_path@,
                    i as nat,
                ),
            decreases self.pinned_apps.len() - i,
        {
            let app = &self.pinned_apps[i];
            assert(self@.pinned_apps[i as int] == app@);
            if !same(app.exe_path.as_str(), exe_path) {
                let ghost before = kept@.map_values(|a: DetectedApp| a@);
                kept.push(
                    DetectedApp {
                        name: app.name.clone(),
                        exe_path: app.exe_path.clone(),
                        is_priority: app.is_priority,
                        pinned: app.pinned,
                    },
                );
                assert(kept@.map_values(|a: DetectedApp| a@) =~= before.push(app@));
            }
            i += 1;
        }
        self.pinned_apps = kept;
    }

    /// Gives the bottle a new name. Its identifier stays.
    pub fn rename(&mut self, new_name: &str)
        ensures
            final(self)@ == (BottleModel { name: new_name@, ..old(self)@ }),
    {
        self.name = new_name.to_owned();
    }

    /// Sets the engine that the bottle runs on.
    pub fn set_engine(&mut self, engine_path: &str)
        ensures
            final(self)@ == (BottleModel { engine_path: Some(engine_path@), ..old(self)@ }),
    {
        self.engine_path = Some(engine_path.to_owned());
    }
}

/// Whether the shortcut of an installer is removed once the installer has
/// ended, given the applications that the bottle then holds.
pub fn installer_finished(installer_path: &str, apps: &Vec<DetectedApp>) -> (done: bool)
    ensures
        done == installer_done(installer_path@, apps@.map_values(|a: DetectedApp| a@)),
{
    let ghost model = apps@.map_values(|a: DetectedApp| a@);
    let lowered = lowercase(installer_path);
    if !contains(lowered.as_str(), "steam") {
        return false;
    }
    let mut i: usize = 0;
    while i < apps.len()
        invariant
            i <= apps.len(),
            model == apps@.map_values(|a: DetectedApp| a@),
            has_substring(lowercase_of(installer_path@), "steam"@),
            forall|k: int|
                0 <= k < i ==> !(has_substring(
                    lowercase_of((#[trigger] model[k]).exe_path),
                    "steam.exe"@,
                ) && !has_substring(lowercase_of(model[k].exe_path), "setup"@)),
        decreases apps.len() - i,
    {
        assert(model[i as int] == apps@[i as int]@);
        let path = lowercase(apps[i].exe_path.as_str());
        if contains(path.as_str(), "steam.exe") && !contains(path.as_str(), "setup") {
            assert(has_substring(lowercase_of(model[i as int].exe_path), "steam.exe"@)
                && !has_substring(lowercase_of(model[i as int].exe_path), "setup"@));
            return true;
        }
        i += 1;
    }
    false
}

/// Pinning is idempotent: pinning an application twice leaves what pinning it
/// once leaves.
pub proof fn lemma_pin_idempotent(apps: Seq<AppModel>, app: AppModel)
    ensures
        pinned_with(pinned_with(apps, app), app) == pinned_with(apps, app),
{
    if !has_app(apps, app.exe_path) {
        let once = apps.push(app);
        assert(once[apps.len() as int].exe_path == app.exe_path);
    }
}

} // verus!
