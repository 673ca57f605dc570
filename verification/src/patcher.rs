//! Registry patches for game prefixes.

use crate::registry_writer::{
    inject_registry_keys, inject_spec, keys_text, text_result, KeyText, RegistryKey,
};
use vstd::prelude::*;

verus! {

/// The keys that set up Direct3D for modern games.
pub open spec fn modern_game_keys() -> Seq<KeyText> {
    seq![
        ("Software\\Wine\\Direct3D"@, "CSMT"@, "00000001"@),
        ("Software\\Wine\\Direct3D"@, "MaxVersionGL"@, "00040005"@),
        ("Software\\Wine\\Direct3D"@, "VideoMemorySize"@, "8192"@),
        ("Software\\Wine"@, "Version"@, "win10"@),
    ]
}

/// The keys that switch off what Steam's web views cannot use.
pub open spec fn steam_keys() -> Seq<KeyText> {
    seq![
        ("Software\\Valve\\Steam"@, "H264HWAccel"@, "00000000"@),
        ("Software\\Valve\\Steam"@, "DWriteEnable"@, "00000000"@),
        ("Software\\Valve\\Steam"@, "GPUAccelWebViews"@, "00000000"@),
        ("Software\\Valve\\Steam"@, "SmoothScrollWebViews"@, "00000000"@),
    ]
}

/// The keys that make the Direct3D libraries load natively.
pub open spec fn metal_keys() -> Seq<KeyText> {
    seq![
        ("Software\\Wine\\DllOverrides"@, "d3d11"@, "native"@),
        ("Software\\Wine\\DllOverrides"@, "d3d12"@, "native"@),
        ("Software\\Wine\\DllOverrides"@, "dxgi"@, "native"@),
        ("Software\\Wine\\DllOverrides"@, "dwrite"@, "disabled"@),
    ]
}

/// The registry text that sets up Direct3D for modern games, for a prefix
/// that has a registry file.
pub fn apply_modern_game_patches(_engine_path: &str, prefix_initialized: bool) -> (r: Result<
    String,
    String,
>)
    ensures
        text_result(r) == inject_spec(modern_game_keys(), prefix_initialized),
{
    let mut keys: Vec<RegistryKey> = Vec::new();
    keys.push(("Software\\Wine\\Direct3D", "CSMT", "00000001"));
    keys.push(("Software\\Wine\\Direct3D", "MaxVersionGL", "00040005"));
    keys.push(("Software\\Wine\\Direct3D", "VideoMemorySize", "8192"));
    keys.push(("Software\\Wine", "Version", "win10"));
    assert(keys_text(keys@) =~= modern_game_keys());
    inject_registry_keys(&keys, prefix_initialized)
}

/// The registry text that switches off what Steam's web views cannot use,
/// for a prefix that has a registry file.
pub fn apply_steam_specific_patches(_engine_path: &str, prefix_initialized: bool) -> (r: Result<
    String,
    String,
>)
    ensures
        text_result(r) == inject_spec(steam_keys(), prefix_initialized),
{
    let mut keys: Vec<RegistryKey> = Vec::new();
    keys.push(("Software\\Valve\\Steam", "H264HWAccel", "00000000"));
    keys.push(("Software\\Valve\\Steam", "DWriteEnable", "00000000"));
    keys.push(("Software\\Valve\\Steam", "GPUAccelWebViews", "00000000"));
    keys.push(("Software\\Valve\\Steam", "SmoothScrollWebViews", "00000000"));
    assert(keys_text(keys@) =~= steam_keys());
    inject_registry_keys(&keys, prefix_initialized)
}

/// The registry text that makes the Direct3D libraries load natively, for a
/// prefix that has a registry file.
pub fn optimize_for_metal(_engine_path: &str, prefix_initialized: bool) -> (r: Result<
    String,
    String,
>)
    ensures
        text_result(r) == inject_spec(metal_keys(), prefix_initialized),
{
    let mut keys: Vec<RegistryKey> = Vec::new();
    keys.push(("Software\\Wine\\DllOverrides", "d3d11", "native"));
    keys.push(("Software\\Wine\\DllOverrides", "d3d12", "native"));
    keys.push(("Software\\Wine\\DllOverrides", "dxgi", "native"));
    keys.push(("Software\\Wine\\DllOverrides", "dwrite", "disabled"));
    assert(keys_text(keys@) =~= metal_keys());
    inject_registry_keys(&keys, prefix_initialized)
}

} // verus!
