//! Bootstrap path of a foreign-binary execution bridge: parse a guest image,
//! lay it out in owned memory regions, link its imports against native shims,
//! build the execution context and translate native faults.
//!
//! The bridge is `image`, `vmm`, `linker`, `shim`, `context`, `signals` and
//! `loader`. The other modules hold the decisions of what surrounds it: the
//! bottles and their templates, registry text, log analysis, process lists,
//! and the launch through an external compatibility runtime. Nothing here
//! touches a file, a process or a mapping: the caller does, and hands in what
//! it found.

pub mod bottle;
pub mod context;
pub mod d3dmetal;
pub mod dll_override;
pub mod engine;
pub mod image;
pub mod linker;
pub mod loader;
pub mod log_parser;
pub mod patcher;
pub mod process;
pub mod recovery;
pub mod registry;
pub mod registry_writer;
pub mod runner;
pub mod scanner;
pub mod shim;
pub mod signals;
pub mod steam;
pub mod template;
pub mod text;
pub mod vmm;
pub mod wine_runner;
