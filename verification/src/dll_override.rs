//! Graphics backends: the library overrides that select one.

use crate::registry::{dll_override_of, RegistryManager};
use crate::template::{EntryText, RegistryEntry};
use vstd::prelude::*;

verus! {

/// The implementation of Direct3D that a bottle uses.
#[derive(Clone, Copy, Debug, PartialEq, Eq, Structural)]
pub enum GraphicsBackend {
    D3DMetal,
    DXVK,
    WineD3D,
}

/// Sets the graphics backend of a bottle.
pub struct DllOverrideManager;

/// The registry entries that select a backend: how the Direct3D 11, the
/// Direct3D 12 and the DXGI library are loaded, in that order.
pub open spec fn backend_entries(backend: GraphicsBackend) -> Seq<EntryText> {
    match backend {
        GraphicsBackend::D3DMetal => seq![
            dll_override_of("d3d11"@, "native"@),
            dll_override_of("d3d12"@, "native"@),
            dll_override_of("dxgi"@, "native"@),
        ],
        GraphicsBackend::DXVK => seq![
            dll_override_of("d3d11"@, "native"@),
            dll_override_of("d3d12"@, "builtin"@),
            dll_override_of("dxgi"@, "native"@),
        ],
        GraphicsBackend::WineD3D => seq![
            dll_override_of("d3d11"@, "builtin"@),
            dll_override_of("d3d12"@, "builtin"@),
            dll_override_of("dxgi"@, "builtin"@),
        ],
    }
}

/// What `set_backend` returns: the entries of the backend, or for D3DMetal
/// in a bottle without its libraries, an error.
pub open spec fn set_backend_spec(backend: GraphicsBackend, d3dmetal_installed: bool) -> Result<
    Seq<EntryText>,
    Seq<char>,
> {
    if backend == GraphicsBackend::D3DMetal && !d3dmetal_installed {
        Err("D3DMetal libraries are missing. Please install them first."@)
    } else {
        Ok(backend_entries(backend))
    }
}

/// A result of entries or a message, by its model.
pub open spec fn entries_result(r: Result<Vec<RegistryEntry>, String>) -> Result<
    Seq<EntryText>,
    Seq<char>,
> {
    match r {
        Ok(entries) => Ok(entries@.map_values(|e: RegistryEntry| e@)),
        Err(e) => Err(e@),
    }
}

impl DllOverrideManager {
    /// The registry entries to write so that a bottle uses a backend.
    /// `d3dmetal_installed` says whether the bottle holds the D3DMetal
    /// libraries.
    pub fn set_backend(backend: GraphicsBackend, d3dmetal_installed: bool) -> (r: Result<
        Vec<RegistryEntry>,
        String,
    >)
        ensures
            entries_result(r) == set_backend_spec(backend, d3dmetal_installed),
    {
        let (d3d11, d3d12, dxgi) = match backend {
            GraphicsBackend::D3DMetal => {
                if !d3dmetal_installed {
                    return Err(
                        "D3DMetal libraries are missing. Please install them first.".to_owned(),
                    );
                }
                ("native", "native", "native")
            },
            GraphicsBackend::DXVK => ("native", "builtin", "native"),
            GraphicsBackend::WineD3D => ("builtin", "builtin", "builtin"),
        };
        let mut entries: Vec<RegistryEntry> = Vec::new();
        entries.push(RegistryManager::dll_override_entry("d3d11", d3d11));
        entries.push(RegistryManager::dll_override_entry("d3d12", d3d12));
        entries.push(RegistryManager::dll_override_entry("dxgi", dxgi));
        assert(entries@.map_values(|e: RegistryEntry| e@) =~= backend_entries(backend));
        Ok(entries)
    }

    /// The backend that a bottle is taken to use: the built-in one.
    pub fn get_current_backend() -> (r: Result<GraphicsBackend, String>)
        ensures
            r matches Ok(backend) && backend == GraphicsBackend::WineD3D,
    {
        Ok(GraphicsBackend::WineD3D)
    }
}

} // verus!
