//! Bottle templates: the environment, registry entries and library
//! overrides that a new bottle of a given purpose starts with.

use crate::text::same;
use crate::wine_runner::WineRunnerType;
use vstd::hash_map::StringHashMap;
use vstd::prelude::*;

verus! {

/// The type of a registry value.
#[derive(Clone, Copy, Debug, PartialEq, Eq, Structural)]
pub enum RegistryValueType {
    String,
    DWord,
    Binary,
}

/// One value to be written into the registry of a bottle.
#[derive(Clone, Debug)]
pub struct RegistryEntry {
    pub key: String,
    pub value_name: String,
    pub value_type: RegistryValueType,
    pub value_data: String,
}

/// Mathematical model of a `RegistryEntry`.
pub struct EntryText {
    pub key: Seq<char>,
    pub value_name: Seq<char>,
    pub value_type: RegistryValueType,
    pub value_data: Seq<char>,
}

impl View for RegistryEntry {
    type V = EntryText;

    open spec fn view(&self) -> EntryText {
        EntryText {
            key: self.key@,
            value_name: self.value_name@,
            value_type: self.value_type,
            value_data: self.value_data@,
        }
    }
}

/// What a bottle of one purpose starts with.
pub struct BottleTemplate {
    pub id: String,
    pub name: String,
    pub description: String,
    pub env_vars: StringHashMap<String>,
    pub registry_entries: Vec<RegistryEntry>,
    pub dll_overrides: StringHashMap<String>,
    pub winetricks_packages: Vec<String>,
    pub recommended_runner: Option<WineRunnerType>,
}

/// Mathematical model of a `BottleTemplate`.
pub struct TemplateModel {
    pub id: Seq<char>,
    pub name: Seq<char>,
    pub description: Seq<char>,
    pub env_vars: Map<Seq<char>, Seq<char>>,
    pub registry_entries: Seq<EntryText>,
    pub dll_overrides: Map<Seq<char>, Seq<char>>,
    pub winetricks_packages: Seq<Seq<char>>,
    pub recommended_runner: Option<WineRunnerType>,
}

/// A map of strings, as a map from text to text.
pub open spec fn text_map(m: Map<Seq<char>, String>) -> Map<Seq<char>, Seq<char>> {
    m.map_values(|v: String| v@)
}

impl View for BottleTemplate {
    type V = TemplateModel;

    open spec fn view(&self) -> TemplateModel {
        TemplateModel {
            id: self.id@,
            name: self.name@,
            description: self.description@,
            env_vars: text_map(self.env_vars@),
            registry_entries: self.registry_entries@.map_values(|e: RegistryEntry| e@),
            dll_overrides: text_map(self.dll_overrides@),
            winetricks_packages: self.winetricks_packages@.map_values(|p: String| p@),
            recommended_runner: self.recommended_runner,
        }
    }
}

/// Registry key of the Steam client.
pub open spec fn steam_key() -> Seq<char> {
    "HKEY_CURRENT_USER\\Software\\Valve\\Steam"@
}

/// The two registry values that tell Steam where it is installed.
pub open spec fn steam_registry_entries() -> Seq<EntryText> {
    seq![
        EntryText {
            key: steam_key(),
            value_name: "SteamPath"@,
            value_type: RegistryValueType::String,
            value_data: "C:\\Program Files (x86)\\Steam"@,
        },
        EntryText {
            key: steam_key(),
            value_name: "SteamExe"@,
            value_type: RegistryValueType::String,
            value_data: "C:\\Program Files (x86)\\Steam\\steam.exe"@,
        },
    ]
}

/// The template for Steam and modern Direct3D 11 and 12 games.
pub open spec fn steam_gaming_model() -> TemplateModel {
    TemplateModel {
        id: "steam_gaming"@,
        name: "Steam Gaming"@,
        description: "Optimized for Steam and modern DX11/12 games using D3DMetal."@,
        env_vars: Map::<Seq<char>, Seq<char>>::empty().insert("WINEESYNC"@, "1"@).insert(
            "DXVK_HUD"@,
            "fps"@,
        ).insert("MTL_HUD_ENABLED"@, "1"@).insert("WINE_D3D11_ALLOW_SWAPCHAIN_RECREATION"@, "1"@),
        registry_entries: steam_registry_entries(),
        dll_overrides: Map::<Seq<char>, Seq<char>>::empty().insert("d3d11"@, "native"@).insert(
            "d3d12"@,
            "native"@,
        ),
        winetricks_packages: seq!["vcrun2019"@, "dotnet48"@],
        recommended_runner: Some(WineRunnerType::GPTK),
    }
}

/// The template for older games, on Direct3D 9 and 10.
pub open spec fn standard_gaming_model() -> TemplateModel {
    TemplateModel {
        id: "standard_gaming"@,
        name: "Standard Gaming"@,
        description: "General purpose gaming configuration for older titles (DX9/10)."@,
        env_vars: Map::<Seq<char>, Seq<char>>::empty().insert("WINEESYNC"@, "1"@),
        registry_entries: Seq::empty(),
        dll_overrides: Map::empty(),
        winetricks_packages: seq!["d3dx9"@],
        recommended_runner: Some(WineRunnerType::Standard),
    }
}

/// The template for desktop applications.
pub open spec fn application_model() -> TemplateModel {
    TemplateModel {
        id: "application"@,
        name: "Desktop Application"@,
        description: "Minimal environment for non-gaming productivity apps."@,
        env_vars: Map::empty(),
        registry_entries: Seq::empty(),
        dll_overrides: Map::empty(),
        winetricks_packages: seq!["corefonts"@],
        recommended_runner: None,
    }
}

/// Sets one entry of a map of strings.
fn set_text(map: &mut StringHashMap<String>, key: &str, value: &str)
    ensures
        text_map(final(map)@) == text_map(old(map)@).insert(key@, value@),
{
    map.insert(key.to_owned(), value.to_owned());
    assert(text_map(map@) =~= text_map(old(map)@).insert(key@, value@));
}

/// A map of strings that holds nothing.
fn no_text() -> (map: StringHashMap<String>)
    ensures
        text_map(map@) == Map::<Seq<char>, Seq<char>>::empty(),
{
    let map = StringHashMap::new();
    assert(text_map(map@) =~= Map::<Seq<char>, Seq<char>>::empty());
    map
}

/// A registry value of type string.
fn string_value(key: &str, value_name: &str, value_data: &str) -> (entry: RegistryEntry)
    ensures
        entry@ == (EntryText {
            key: key@,
            value_name: value_name@,
            value_type: RegistryValueType::String,
            value_data: value_data@,
        }),
{
    RegistryEntry {
        key: key.to_owned(),
        value_name: value_name.to_owned(),
        value_type: RegistryValueType::String,
        value_data: value_data.to_owned(),
    }
}

impl BottleTemplate {
    /// The two registry values that tell Steam where it is installed.
    pub fn steam_registry() -> (entries: Vec<RegistryEntry>)
        ensures
            entries@.map_values(|e: RegistryEntry| e@) == steam_registry_entries(),
    {
        let mut entries: Vec<RegistryEntry> = Vec::new();
        entries.push(
            string_value(
                "HKEY_CURRENT_USER\\Software\\Valve\\Steam",
                "SteamPath",
                "C:\\Program Files (x86)\\Steam",
            ),
        );
        entries.push(
            string_value(
                "HKEY_CURRENT_USER\\Software\\Valve\\Steam",
                "SteamExe",
                "C:\\Program Files (x86)\\Steam\\steam.exe",
            ),
        );
        assert(entries@.map_values(|e: RegistryEntry| e@) =~= steam_registry_entries());
        entries
    }

    /// The template for Steam and modern Direct3D 11 and 12 games.
    pub fn steam_gaming() -> (template: BottleTemplate)
        ensures
            template@ == steam_gaming_model(),
    {
        let mut env = no_text();
        set_text(&mut env, "WINEESYNC", "1");
        set_text(&mut env, "DXVK_HUD", "fps");
        set_text(&mut env, "MTL_HUD_ENABLED", "1");
        set_text(&mut env, "WINE_D3D11_ALLOW_SWAPCHAIN_RECREATION", "1");
        let mut dlls = no_text();
        set_text(&mut dlls, "d3d11", "native");
        set_text(&mut dlls, "d3d12", "native");
        let mut packages: Vec<String> = Vec::new();
        packages.push("vcrun2019".to_owned());
        packages.push("dotnet48".to_owned());
        assert(packages@.map_values(|p: String| p@) =~= seq!["vcrun2019"@, "dotnet48"@]);
        BottleTemplate {
            id: "steam_gaming".to_owned(),
            name: "Steam Gaming".to_owned(),
            description: "Optimized for Steam and modern DX11/12 games using D3DMetal.".to_owned(),
            env_vars: env,
            registry_entries: Self::steam_registry(),
            dll_overrides: dlls,
            winetricks_packages: packages,
            recommended_runner: Some(WineRunnerType::GPTK),
        }
    }

    /// The template for older games, on Direct3D 9 and 10.
    pub fn standard_gaming() -> (template: BottleTemplate)
        ensures
            template@ == standard_gaming_model(),
    {
        let mut env = no_text();
        set_text(&mut env, "WINEESYNC", "1");
        let mut packages: Vec<String> = Vec::new();
        packages.push("d3dx9".to_owned());
        assert(packages@.map_values(|p: String| p@) =~= seq!["d3dx9"@]);
        let entries: Vec<RegistryEntry> = Vec::new();
        assert(entries@.map_values(|e: RegistryEntry| e@) =~= Seq::<EntryText>::empty());
        BottleTemplate {
            id: "standard_gaming".to_owned(),
            name: "Standard Gaming".to_owned(),
            description: "General purpose gaming configuration for older titles (DX9/10).".to_owned(),
            env_vars: env,
            registry_entries: entries,
            dll_overrides: no_text(),
            winetricks_packages: packages,
            recommended_runner: Some(WineRunnerType::Standard),
        }
    }

    /// The template for desktop applications.
    pub fn application() -> (template: BottleTemplate)
        ensures
            template@ == application_model(),
    {
        let mut packages: Vec<String> = Vec::new();
        packages.push("corefonts".to_owned());
        assert(packages@.map_values(|p: String| p@) =~= seq!["corefonts"@]);
        let entries: Vec<RegistryEntry> = Vec::new();
        assert(entries@.map_values(|e: RegistryEntry| e@) =~= Seq::<EntryText>::empty());
        BottleTemplate {
            id: "application".to_owned(),
            name: "Desktop Application".to_owned(),
            description: "Minimal environment for non-gaming productivity apps.".to_owned(),
            env_vars: no_text(),
            registry_entries: entries,
            dll_overrides: no_text(),
            winetricks_packages: packages,
            recommended_runner: None,
        }
    }

    /// Every template: Steam gaming, standard gaming, application.
    pub fn get_all_templates() -> (templates: Vec<BottleTemplate>)
        ensures
            templates@.map_values(|t: BottleTemplate| t@) == seq![
                steam_gaming_model(),
                standard_gaming_model(),
                application_model(),
            ],
    {
        let mut templates: Vec<BottleTemplate> = Vec::new();
        templates.push(Self::steam_gaming());
        templates.push(Self::standard_gaming());
        templates.push(Self::application());
        assert(templates@.map_values(|t: BottleTemplate| t@) =~= seq![
            steam_gaming_model(),
            standard_gaming_model(),
            application_model(),
        ]);
        templates
    }
}

/// The template of a given identifier, if there is one.
pub fn get_template_by_id(id: &str) -> (template: Option<BottleTemplate>)
    ensures
        match template {
            Some(t) => t@.id == id@ && (t@ == steam_gaming_model() || t@
                == standard_gaming_model() || t@ == application_model()),
            None => id@ != steam_gaming_model().id && id@ != standard_gaming_model().id && id@
                != application_model().id,
        },
{
    let steam = BottleTemplate::steam_gaming();
    if same(steam.id.as_str(), id) {
        return Some(steam);
    }
    let standard = BottleTemplate::standard_gaming();
    if same(standard.id.as_str(), id) {
        return Some(standard);
    }
    let application = BottleTemplate::application();
    if same(application.id.as_str(), id) {
        return Some(application);
    }
    None
}

} // verus!
