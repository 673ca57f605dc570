//! D3DMetal libraries: where they are found on the host, and how they are
//! installed into a bottle.

use crate::text::{join_path, opt_text, path_join};
use vstd::prelude::*;

verus! {

/// Where each of the three D3DMetal libraries was found, if it was.
#[derive(Clone, Debug)]
pub struct D3DMetalLibs {
    pub d3d11: Option<String>,
    pub d3d12: Option<String>,
    pub dxgi: Option<String>,
}

/// Mathematical model of a `D3DMetalLibs`.
pub struct LibsModel {
    pub d3d11: Option<Seq<char>>,
    pub d3d12: Option<Seq<char>>,
    pub dxgi: Option<Seq<char>>,
}

impl View for D3DMetalLibs {
    type V = LibsModel;

    open spec fn view(&self) -> LibsModel {
        LibsModel {
            d3d11: opt_text(self.d3d11),
            d3d12: opt_text(self.d3d12),
            dxgi: opt_text(self.dxgi),
        }
    }
}

/// One directory that was looked into, and which of the three libraries it
/// holds.
#[derive(Clone, Debug)]
pub struct DirProbe {
    pub dir: String,
    pub d3d11: bool,
    pub d3d12: bool,
    pub dxgi: bool,
}

/// Mathematical model of a `DirProbe`.
pub struct ProbeModel {
    pub dir: Seq<char>,
    pub d3d11: bool,
    pub d3d12: bool,
    pub dxgi: bool,
}

impl View for DirProbe {
    type V = ProbeModel;

    open spec fn view(&self) -> ProbeModel {
        ProbeModel { dir: self.dir@, d3d11: self.d3d11, d3d12: self.d3d12, dxgi: self.dxgi }
    }
}

/// Finds and installs the D3DMetal libraries.
pub struct D3DMetalManager;

/// The path of a file in a directory, if the file is there.
pub open spec fn file_in(dir: Seq<char>, name: Seq<char>, present: bool) -> Option<Seq<char>> {
    if present {
        Some(path_join(dir, name))
    } else {
        None
    }
}

/// File name of the Direct3D 11 library.
pub open spec fn d3d11_name() -> Seq<char> {
    "d3dmetald3d11.dll"@
}

/// File name of the Direct3D 12 library.
pub open spec fn d3d12_name() -> Seq<char> {
    "d3dmetald3d12.dll"@
}

/// File name of the DXGI library.
pub open spec fn dxgi_name() -> Seq<char> {
    "dxgid3dmetal.dll"@
}

/// The libraries that one directory holds.
pub open spec fn libs_in(probe: ProbeModel) -> LibsModel {
    LibsModel {
        d3d11: file_in(probe.dir, d3d11_name(), probe.d3d11),
        d3d12: file_in(probe.dir, d3d12_name(), probe.d3d12),
        dxgi: file_in(probe.dir, dxgi_name(), probe.dxgi),
    }
}

/// No library found.
pub open spec fn no_libs() -> LibsModel {
    LibsModel { d3d11: None, d3d12: None, dxgi: None }
}

/// The libraries found by looking into the directories from position `from`
/// on, when `found` is what the last directory before held: those of the
/// first directory that holds the Direct3D 11 library, or else those of the
/// last directory.
pub open spec fn detect_from(probes: Seq<ProbeModel>, from: nat, found: LibsModel) -> LibsModel
    decreases probes.len() - from,
{
    if from >= probes.len() {
        found
    } else if probes[from as int].d3d11 {
        libs_in(probes[from as int])
    } else {
        detect_from(probes, from + 1, libs_in(probes[from as int]))
    }
}

/// One file to copy.
pub struct CopyModel {
    pub from: Seq<char>,
    pub to: Seq<char>,
}

/// The system directory of a bottle.
pub open spec fn system32_of(bottle_path: Seq<char>) -> Seq<char> {
    path_join(bottle_path, "drive_c/windows/system32"@)
}

/// How the libraries are installed into a bottle: the three copies to make,
/// or what is missing. The libraries are missed in the order Direct3D 11,
/// Direct3D 12, DXGI, and the system directory of the bottle after them.
pub open spec fn install_plan(libs: LibsModel, bottle_path: Seq<char>, system32_exists: bool) -> Result<
    Seq<(Seq<char>, Seq<char>)>,
    Seq<char>,
> {
    match libs.d3d11 {
        None => Err("d3dmetald3d11.dll not found"@),
        Some(d3d11) => match libs.d3d12 {
            None => Err("d3dmetald3d12.dll not found"@),
            Some(d3d12) => match libs.dxgi {
                None => Err("dxgid3dmetal.dll not found"@),
                Some(dxgi) => if !system32_exists {
                    Err("system32 directory not found in bottle"@)
                } else {
                    Ok(
                        seq![
                            (d3d11, path_join(system32_of(bottle_path), d3d11_name())),
                            (d3d12, path_join(system32_of(bottle_path), d3d12_name())),
                            (dxgi, path_join(system32_of(bottle_path), dxgi_name())),
                        ],
                    )
                },
            },
        },
    }
}

/// A result of copies or a message, by its model.
pub open spec fn copies_result(r: Result<Vec<(String, String)>, String>) -> Result<
    Seq<(Seq<char>, Seq<char>)>,
    Seq<char>,
> {
    match r {
        Ok(copies) => Ok(crate::text::text_pairs(copies@)),
        Err(e) => Err(e@),
    }
}

impl D3DMetalManager {
    /// File name of the Direct3D 11 library.
    pub fn d3d11_library() -> (name: &'static str)
        ensures
            name@ == d3d11_name(),
    {
        "d3dmetald3d11.dll"
    }

    /// File name of the Direct3D 12 library.
    pub fn d3d12_library() -> (name: &'static str)
        ensures
            name@ == d3d12_name(),
    {
        "d3dmetald3d12.dll"
    }

    /// File name of the DXGI library.
    pub fn dxgi_library() -> (name: &'static str)
        ensures
            name@ == dxgi_name(),
    {
        "dxgid3dmetal.dll"
    }

    /// The system directory of a bottle.
    pub fn system32_dir(bottle_path: &str) -> (dir: String)
        ensures
            dir@ == system32_of(bottle_path@),
    {
        join_path(bottle_path, "drive_c/windows/system32")
    }

    /// The path of a file in a directory, if the file is there.
    pub fn check_file(dir: &str, name: &str, present: bool) -> (path: Option<String>)
        ensures
            opt_text(path) == file_in(dir@, name@, present),
    {
        if present {
            Some(join_path(dir, name))
        } else {
            None
        }
    }

    /// The libraries that one directory holds.
    pub fn find_in_dir(probe: &DirProbe) -> (libs: D3DMetalLibs)
        ensures
            libs@ == libs_in(probe@),
    {
        D3DMetalLibs {
            d3d11: Self::check_file(probe.dir.as_str(), Self::d3d11_library(), probe.d3d11),
            d3d12: Self::check_file(probe.dir.as_str(), Self::d3d12_library(), probe.d3d12),
            dxgi: Self::check_file(probe.dir.as_str(), Self::dxgi_library(), probe.dxgi),
        }
    }

    /// The libraries found on the host, given what each directory that was
    /// looked into holds, in the order in which they were looked into.
    pub fn detect(probes: &Vec<DirProbe>) -> (libs: D3DMetalLibs)
        ensures
            libs@ == detect_from(probes@.map_values(|p: DirProbe| p@), 0, no_libs()),
    {
        let ghost model = probes@.map_values(|p: DirProbe| p@);
        let mut libs = D3DMetalLibs { d3d11: None, d3d12: None, dxgi: None };
        let mut i: usize = 0;
        while i < probes.len()
            invariant
                i <= probes.len(),
                model == probes@.map_values(|p: DirProbe| p@),
                detect_from(model, 0, no_libs()) == detect_from(model, i as nat, libs@),
            decreases probes.len() - i,
        {
            assert(model[i as int] == probes@[i as int]@);
            libs = Self::find_in_dir(&probes[i]);
            if libs.d3d11.is_some() {
                return libs;
            }
            i += 1;
        }
        libs
    }

    /// Whether a bottle holds all three libraries.
    pub fn verify(d3d11_present: bool, d3d12_present: bool, dxgi_present: bool) -> (complete: bool)
        ensures
            complete == (d3d11_present && d3d12_present && dxgi_present),
    {
        d3d11_present && d3d12_present && dxgi_present
    }

    /// The copies that install the libraries into a bottle, or what is
    /// missing.
    pub fn install_to_bottle(libs: &D3DMetalLibs, bottle_path: &str, system32_exists: bool) -> (r:
        Result<Vec<(String, String)>, String>)
        ensures
            copies_result(r) == install_plan(libs@, bottle_path@, system32_exists),
    {
        let d3d11 = match &libs.d3d11 {
            Some(path) => path,
            None => {
                return Err("d3dmetald3d11.dll not found".to_owned());
            },
        };
        let d3d12 = match &libs.d3d12 {
            Some(path) => path,
            None => {
                return Err("d3dmetald3d12.dll not found".to_owned());
            },
        };
        let dxgi = match &libs.dxgi {
            Some(path) => path,
            None => {
                return Err("dxgid3dmetal.dll not found".to_owned());
            },
        };
        if !system32_exists {
            return Err("system32 directory not found in bottle".to_owned());
        }
        let dest = Self::system32_dir(bottle_path);
        let mut copies: Vec<(String, String)> = Vec::new();
        copies.push((d3d11.clone(), join_path(dest.as_str(), Self::d3d11_library())));
        copies.push((d3d12.clone(), join_path(dest.as_str(), Self::d3d12_library())));
        copies.push((dxgi.clone(), join_path(dest.as_str(), Self::dxgi_library())));
        assert(crate::text::text_pairs(copies@) =~= seq![
            (d3d11@, path_join(system32_of(bottle_path@), d3d11_name())),
            (d3d12@, path_join(system32_of(bottle_path@), d3d12_name())),
            (dxgi@, path_join(system32_of(bottle_path@), dxgi_name())),
        ]);
        Ok(copies)
    }
}

} // verus!
