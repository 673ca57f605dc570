use pancho::bottle::{bottle_id, build_bottle, cover_path, create_bottle, installer_finished};
use pancho::d3dmetal::{D3DMetalLibs, D3DMetalManager, DirProbe};
use pancho::dll_override::{DllOverrideManager, GraphicsBackend};
use pancho::engine::{
    engine_url, get_pro_engine_path, pro_engine_candidates, setup_gaming_engine, CommandOutcome,
    SetupCommand, SetupEvent, SetupState,
};
use pancho::log_parser::{LogLevel, LogParser, WineError, LOG_CAPACITY};
use pancho::patcher::{apply_modern_game_patches, apply_steam_specific_patches, optimize_for_metal};
use pancho::process::{ProcessInfo, ProcessManager};
use pancho::recovery::{steam_cache_path, AutoRecovery, FixPlan, FixResult};
use pancho::registry::RegistryManager;
use pancho::registry_writer::inject_registry_keys;
use pancho::runner::{find_runner, run_executable, runner_candidates};
use pancho::scanner::{classify_file, scan_bottle_for_apps, should_scan_dir, DetectedApp, FoundFile};
use pancho::shim::{
    desktop_window, translate_sys_call, write_system_info, NativeRegistry, TickCounter,
    DESKTOP_WINDOW_HANDLE,
};
use pancho::steam::{
    installer_url, InstallCommand, InstallEvent, InstallState, SteamLaunchMode, SteamLauncher,
};
use pancho::template::{get_template_by_id, BottleTemplate, RegistryEntry, RegistryValueType};
use pancho::text::{
    chars_of, contains, find, is_whitespace, join_path, parse_u32, push_decimal, push_hex, same,
    starts_with,
};
use pancho::wine_runner::{
    check_d3dmetal, check_esync, default_scan_paths, get_wine_runners, runner_type, RunnerProbe,
    WineRunnerType,
};

fn entry(key: &str, name: &str, kind: RegistryValueType, data: &str) -> RegistryEntry {
    RegistryEntry {
        key: key.to_string(),
        value_name: name.to_string(),
        value_type: kind,
        value_data: data.to_string(),
    }
}

fn process(pid: u32, parent_pid: u32, command: &str) -> ProcessInfo {
    ProcessInfo {
        pid,
        parent_pid,
        name: command.to_string(),
        command: command.to_string(),
        bottle_path: None,
    }
}

fn file(path: &str, file_name: &str, stem: &str, extension: Option<&str>) -> FoundFile {
    FoundFile {
        path: path.to_string(),
        file_name: file_name.to_string(),
        stem: stem.to_string(),
        extension: extension.map(|e| e.to_string()),
    }
}

#[test]
fn test_critical_path_logic() {
    let runners = get_wine_runners(&vec![]);
    println!("Detected {} runners", runners.len());

    let steam_template = BottleTemplate::steam_gaming();
    assert_eq!(steam_template.id, "steam_gaming");
    assert!(steam_template.env_vars.contains_key("WINEESYNC"));

    let reg_content = RegistryManager::generate_reg_file(&steam_template.registry_entries);
    assert!(reg_content.contains("Windows Registry Editor Version 5.00"));
    assert!(reg_content.contains(r"Software\Valve\Steam"));

    let libs = D3DMetalManager::detect(&vec![]);
    println!("D3DMetal libs detected: {:?}", libs);

    let status = SteamLauncher::check_status("/tmp/bottle", false);
    assert_eq!(status.is_installed, false);
}

#[test]
fn steam_template_holds_its_settings() {
    let t = BottleTemplate::steam_gaming();
    assert_eq!(t.name, "Steam Gaming");
    assert_eq!(t.description, "Optimized for Steam and modern DX11/12 games using D3DMetal.");
    assert_eq!(t.env_vars.len(), 4);
    assert_eq!(t.env_vars.get("WINEESYNC").unwrap(), "1");
    assert_eq!(t.env_vars.get("DXVK_HUD").unwrap(), "fps");
    assert_eq!(t.env_vars.get("MTL_HUD_ENABLED").unwrap(), "1");
    assert_eq!(t.env_vars.get("WINE_D3D11_ALLOW_SWAPCHAIN_RECREATION").unwrap(), "1");
    assert_eq!(t.dll_overrides.len(), 2);
    assert_eq!(t.dll_overrides.get("d3d11").unwrap(), "native");
    assert_eq!(t.dll_overrides.get("d3d12").unwrap(), "native");
    assert_eq!(t.registry_entries.len(), 2);
    assert_eq!(t.registry_entries[0].key, r"HKEY_CURRENT_USER\Software\Valve\Steam");
    assert_eq!(t.registry_entries[0].value_name, "SteamPath");
    assert_eq!(t.registry_entries[0].value_data, r"C:\Program Files (x86)\Steam");
    assert_eq!(t.registry_entries[1].value_name, "SteamExe");
    assert_eq!(t.registry_entries[1].value_data, r"C:\Program Files (x86)\Steam\steam.exe");
    assert_eq!(t.registry_entries[1].value_type, RegistryValueType::String);
    assert_eq!(t.winetricks_packages, vec!["vcrun2019", "dotnet48"]);
    assert_eq!(t.recommended_runner, Some(WineRunnerType::GPTK));
}

#[test]
fn other_templates_hold_their_settings() {
    let t = BottleTemplate::standard_gaming();
    assert_eq!(t.id, "standard_gaming");
    assert_eq!(t.name, "Standard Gaming");
    assert_eq!(t.env_vars.len(), 1);
    assert_eq!(t.env_vars.get("WINEESYNC").unwrap(), "1");
    assert!(t.registry_entries.is_empty());
    assert_eq!(t.dll_overrides.len(), 0);
    assert_eq!(t.winetricks_packages, vec!["d3dx9"]);
    assert_eq!(t.recommended_runner, Some(WineRunnerType::Standard));
    let t = BottleTemplate::application();
    assert_eq!(t.id, "application");
    assert_eq!(t.name, "Desktop Application");
    assert_eq!(t.description, "Minimal environment for non-gaming productivity apps.");
    assert_eq!(t.env_vars.len(), 0);
    assert_eq!(t.winetricks_packages, vec!["corefonts"]);
    assert_eq!(t.recommended_runner, None);
    let all = BottleTemplate::get_all_templates();
    let ids: Vec<&str> = all.iter().map(|t| t.id.as_str()).collect();
    assert_eq!(ids, vec!["steam_gaming", "standard_gaming", "application"]);
    assert_eq!(get_template_by_id("standard_gaming").unwrap().name, "Standard Gaming");
    assert_eq!(get_template_by_id("application").unwrap().id, "application");
    assert!(get_template_by_id("Steam_Gaming").is_none());
}

#[test]
fn registry_file_groups_entries_by_key() {
    let steam = BottleTemplate::steam_gaming();
    assert_eq!(
        RegistryManager::generate_reg_file(&steam.registry_entries),
        "Windows Registry Editor Version 5.00\n\n[HKEY_CURRENT_USER\\Software\\Valve\\Steam]\n\"SteamPath\"=\"C:\\\\Program Files (x86)\\\\Steam\"\n\"SteamExe\"=\"C:\\\\Program Files (x86)\\\\Steam\\\\steam.exe\"\n\n"
    );
    assert_eq!(RegistryManager::generate_reg_file(&[]), "Windows Registry Editor Version 5.00\n\n");
    let entries = vec![
        entry("A", "one", RegistryValueType::DWord, "255"),
        entry("B", "two", RegistryValueType::Binary, "de,ad"),
        entry("A", "three", RegistryValueType::String, "say \"hi\"\\"),
        entry("B", "four", RegistryValueType::DWord, "not a number"),
        entry("A", "five", RegistryValueType::DWord, "4294967295"),
        entry("C", "six", RegistryValueType::DWord, "4294967296"),
    ];
    assert_eq!(
        RegistryManager::generate_reg_file(&entries),
        "Windows Registry Editor Version 5.00\n\n[A]\n\"one\"=dword:000000ff\n\"three\"=\"say \\\"hi\\\"\\\\\"\n\"five\"=dword:ffffffff\n\n[B]\n\"two\"=hex:de,ad\n\"four\"=dword:00000000\n\n[C]\n\"six\"=dword:00000000\n\n"
    );
}

#[test]
fn registry_update_is_written_only_for_entries() {
    assert_eq!(RegistryManager::write_entries(&[], 17), None);
    let e = RegistryManager::dll_override_entry("d3d11", "native");
    assert_eq!(e.key, r"HKEY_CURRENT_USER\Software\Wine\DllOverrides");
    assert_eq!(e.value_name, "d3d11");
    assert_eq!(e.value_data, "native");
    let (name, content) = RegistryManager::write_entries(&[e], 1700000000).unwrap();
    assert_eq!(name, "pancho_update_1700000000.reg");
    assert_eq!(content, "Windows Registry Editor Version 5.00\n\n[HKEY_CURRENT_USER\\Software\\Wine\\DllOverrides]\n\"d3d11\"=\"native\"\n\n");
    assert_eq!(RegistryManager::update_file_name(0), "pancho_update_0.reg");
    assert_eq!(RegistryManager::update_file_name(u64::MAX), "pancho_update_18446744073709551615.reg");
}

#[test]
fn patches_render_their_keys() {
    assert_eq!(
        apply_modern_game_patches("wine", true).unwrap(),
        "\n[Software\\Wine\\Direct3D]\n\"CSMT\" = dword:00000001\n\"MaxVersionGL\"=\" 00040005 \"\n\"VideoMemorySize\"=\" 8192 \"\n\n[Software\\Wine]\n\"Version\"=\" win10 \"\n"
    );
    assert_eq!(
        apply_steam_specific_patches("wine", true).unwrap(),
        "\n[Software\\Valve\\Steam]\n\"H264HWAccel\" = dword:00000000\n\"DWriteEnable\" = dword:00000000\n\"GPUAccelWebViews\" = dword:00000000\n\"SmoothScrollWebViews\" = dword:00000000\n"
    );
    assert_eq!(
        optimize_for_metal("wine", true).unwrap(),
        "\n[Software\\Wine\\DllOverrides]\n\"d3d11\"=\" native \"\n\"d3d12\"=\" native \"\n\"dxgi\"=\" native \"\n\"dwrite\"=\" disabled \"\n"
    );
    assert_eq!(apply_modern_game_patches("wine", false).unwrap_err(), "Prefix not yet initialized");
    assert_eq!(apply_steam_specific_patches("wine", false).unwrap_err(), "Prefix not yet initialized");
    assert_eq!(optimize_for_metal("wine", false).unwrap_err(), "Prefix not yet initialized");
    assert_eq!(inject_registry_keys(&vec![], true).unwrap(), "");
    assert_eq!(inject_registry_keys(&vec![], false).unwrap_err(), "Prefix not yet initialized");
    assert_eq!(
        inject_registry_keys(&vec![("", "a", "1"), ("S", "b", "0000"), ("", "c", "000")], true).unwrap(),
        "\"a\"=\" 1 \"\n\n[S]\n\"b\" = dword:0000\n\n[]\n\"c\"=\" 000 \"\n"
    );
}

#[test]
fn log_lines_are_levelled_and_kept() {
    let mut parser = LogParser::new();
    let e = parser.parse_line("0024:err:module:import_dll Library foo.dll", 5).unwrap();
    assert_eq!(e.level, LogLevel::Error);
    assert_eq!(e.timestamp, 5);
    assert_eq!(e.message, "0024:err:module:import_dll Library foo.dll");
    assert_eq!(e.source, "wine");
    assert_eq!(parser.parse_line("010c:fixme:d3d:wined3d_check", 6).unwrap().level, LogLevel::Warning);
    assert_eq!(parser.parse_line("plain text", 7).unwrap().level, LogLevel::Info);
    assert_eq!(parser.parse_line("a:fixme: and :err: too", 8).unwrap().level, LogLevel::Error);
    assert_eq!(LogParser::level("err: without colon before"), LogLevel::Info);
    let kept = parser.recent();
    assert_eq!(kept.len(), 4);
    assert_eq!(kept[0].timestamp, 5);
    assert_eq!(kept[3].message, "a:fixme: and :err: too");
    for t in 0..LOG_CAPACITY as u64 {
        parser.parse_line("filler", 100 + t);
    }
    let kept = parser.recent();
    assert_eq!(kept.len(), 1000);
    assert_eq!(kept[0].timestamp, 100);
    assert_eq!(kept[999].timestamp, 1099);
    parser.parse_line("one more", 2000);
    let kept = parser.recent();
    assert_eq!(kept.len(), 1000);
    assert_eq!(kept[0].timestamp, 101);
    assert_eq!(kept[999].timestamp, 2000);
}

#[test]
fn log_errors_are_recognised() {
    match LogParser::analyze_error("0024:err:module:import_dll Library foo.dll (which is needed by L\"C:\\\\x.exe\") not found").unwrap() {
        WineError::MissingDLL { dll_name } => assert_eq!(dll_name, "foo.dll"),
        other => panic!("unexpected {:?}", other),
    }
    match LogParser::analyze_error("err:module:import_dll Library fooLibrary bar").unwrap() {
        WineError::MissingDLL { dll_name } => assert_eq!(dll_name, "foo"),
        other => panic!("unexpected {:?}", other),
    }
    match LogParser::analyze_error("Library first.dll then err:module:import_dll Library second.dll").unwrap() {
        WineError::MissingDLL { dll_name } => assert_eq!(dll_name, "first.dll"),
        other => panic!("unexpected {:?}", other),
    }
    match LogParser::analyze_error("err:module:import_dll Library last.dll").unwrap() {
        WineError::MissingDLL { dll_name } => assert_eq!(dll_name, "last.dll"),
        other => panic!("unexpected {:?}", other),
    }
    assert!(LogParser::analyze_error("err:module:import_dll Library").is_none());
    assert!(LogParser::analyze_error("0xc0000005 and err:module:import_dll Library").is_none());
    match LogParser::analyze_error("SteamHelper.exe caused a page fault at 0xc0000005").unwrap() {
        WineError::SteamHelperCrash { reason } => assert_eq!(reason.unwrap(), "CEF Crash"),
        other => panic!("unexpected {:?}", other),
    }
    match LogParser::analyze_error("Unhandled exception 0xc0000005 in thread").unwrap() {
        WineError::AccessViolation { address } => assert_eq!(address, "0xc0000005"),
        other => panic!("unexpected {:?}", other),
    }
    assert!(LogParser::analyze_error("SteamHelper.exe started").is_none());
    assert!(LogParser::analyze_error("0xC0000005").is_none());
    assert!(LogParser::analyze_error("").is_none());
}

#[test]
fn fixes_are_suggested() {
    assert_eq!(
        LogParser::suggest_fix(&WineError::MissingDLL { dll_name: "foo.dll".to_string() }),
        vec!["Install missing library: foo.dll", "Check 'winetricks' for this package"]
    );
    assert_eq!(
        LogParser::suggest_fix(&WineError::SteamHelperCrash { reason: None }),
        vec!["Restart Steam with '-no-browser' flag", "Disable GPU acceleration in Steam settings"]
    );
    assert_eq!(
        LogParser::suggest_fix(&WineError::AccessViolation { address: "x".to_string() }),
        vec!["Check if the application requires 'run as admin'", "Verify file permissions in drive_c"]
    );
    for other in [
        WineError::MemoryError,
        WineError::DirectXError { error_code: "1".to_string() },
        WineError::RegistryError { key: "k".to_string() },
        WineError::Unknown { message: "m".to_string() },
    ] {
        assert_eq!(LogParser::suggest_fix(&other), vec!["Check online WineHQ AppDB for this specific application"]);
    }
}

#[test]
fn recovery_plans_follow_the_error() {
    assert!(matches!(AutoRecovery::attempt_fix(&WineError::SteamHelperCrash { reason: None }), FixPlan::ResetSteam));
    match AutoRecovery::conclude_reset() {
        FixResult::Fixed { action_taken } => assert_eq!(action_taken, "Terminated stuck Steam processes and cleared HTML cache. Please restart Steam."),
        other => panic!("unexpected {:?}", other),
    }
    match AutoRecovery::attempt_fix(&WineError::MissingDLL { dll_name: "VCRUNTIME140.dll".to_string() }) {
        FixPlan::InstallPackage { package } => assert_eq!(package, "vcrun2015"),
        other => panic!("unexpected {:?}", other),
    }
    assert_eq!(AutoRecovery::package_for("d3dcompiler_47.dll"), Some("d3dcompiler_47"));
    assert_eq!(AutoRecovery::package_for("MFC140.DLL"), Some("vcrun2015"));
    assert_eq!(AutoRecovery::package_for("x3daudio1_7.dll"), Some("directx9"));
    assert_eq!(AutoRecovery::package_for("x3daudio1_7"), None);
    match AutoRecovery::attempt_fix(&WineError::MissingDLL { dll_name: "Foo.dll".to_string() }) {
        FixPlan::Settled { result: FixResult::ManualRequired { instructions } } => {
            assert_eq!(instructions, vec!["Please install 'Foo.dll' manually via Winetricks."])
        }
        other => panic!("unexpected {:?}", other),
    }
    match AutoRecovery::attempt_fix(&WineError::AccessViolation { address: "at 0xc0000005".to_string() }) {
        FixPlan::Settled { result: FixResult::ManualRequired { instructions } } => assert_eq!(
            instructions,
            vec![
                "This is a generic memory access violation.",
                "1. Try changing the Windows Version to Windows 10 in winecfg.",
                "2. Disable overlay software (Discord, Origin).",
            ]
        ),
        other => panic!("unexpected {:?}", other),
    }
    match AutoRecovery::attempt_fix(&WineError::AccessViolation { address: "0xdead".to_string() }) {
        FixPlan::Settled { result: FixResult::Unfixable { reason } } => assert_eq!(reason, "Unknown access violation pattern."),
        other => panic!("unexpected {:?}", other),
    }
    match AutoRecovery::attempt_fix(&WineError::MemoryError) {
        FixPlan::Settled { result: FixResult::Unfixable { reason } } => assert_eq!(reason, "No automated fix available for this error."),
        other => panic!("unexpected {:?}", other),
    }
    match AutoRecovery::conclude_install("vcrun2015", true) {
        FixResult::Fixed { action_taken } => assert_eq!(action_taken, "Automatically installed 'vcrun2015' via Winetricks."),
        other => panic!("unexpected {:?}", other),
    }
    match AutoRecovery::conclude_install("vcrun2015", false) {
        FixResult::ManualRequired { instructions } => assert_eq!(
            instructions,
            vec!["Failed to auto-install 'vcrun2015'.", "Check your internet connection and try manually."]
        ),
        other => panic!("unexpected {:?}", other),
    }
}

#[test]
fn registry_file_is_read_by_section() {
    let content = "WINE REGISTRY Version 2\r\n\r\n[Software\\\\Wine\\\\Direct3D] 1700000000\n\"CSMT\"=dword:00000001\n[Software\\\\Wine]\r\n\"Version\"=\"win10\"\r\n\"\"quoted\"\"=a=b\nno equals sign\n@=\"default\"\n[Last]\n\"tail\"=1\r";
    let registry = NativeRegistry::new(content);
    assert_eq!(registry.values.len(), 5);
    assert_eq!(registry.get("\\CSMT").unwrap(), "dword:00000001");
    assert_eq!(registry.get("Software\\\\Wine\\Version").unwrap(), "\"win10\"");
    assert_eq!(registry.get("Software\\\\Wine\\quoted").unwrap(), "a=b");
    assert_eq!(registry.get("Software\\\\Wine\\@").unwrap(), "\"default\"");
    assert_eq!(registry.get("Last\\tail").unwrap(), "1\r");
    assert_eq!(registry.get("Last\\missing"), None);
    assert_eq!(NativeRegistry::new("").values.len(), 0);
    let registry = NativeRegistry::new("[]\n=\n[a]\n\"k\"=1\n\"k\"=2");
    assert_eq!(registry.values.len(), 2);
    assert_eq!(registry.get("\\").unwrap(), "");
    assert_eq!(registry.get("a\\k").unwrap(), "2");
}

#[test]
fn system_calls_and_shims_answer() {
    assert_eq!(translate_sys_call(1), "NtCreateProcess");
    assert_eq!(translate_sys_call(2), "NtTerminateProcess");
    assert_eq!(translate_sys_call(0), "Unknown");
    assert_eq!(translate_sys_call(3), "Unknown");
    assert_eq!(desktop_window(), 0xDEADBEEF);
    assert_eq!(desktop_window(), DESKTOP_WINDOW_HANDLE);
    let mut buffer = vec![0xAAu8; 50];
    assert!(write_system_info(&mut buffer));
    assert_eq!(u16::from_le_bytes([buffer[0], buffer[1]]), 9);
    assert_eq!(u32::from_le_bytes(buffer[4..8].try_into().unwrap()), 4096);
    assert_eq!(u64::from_le_bytes(buffer[8..16].try_into().unwrap()), 0x10000);
    assert_eq!(u64::from_le_bytes(buffer[16..24].try_into().unwrap()), 0x7FFF_FFFE_FFFF);
    assert_eq!(u64::from_le_bytes(buffer[24..32].try_into().unwrap()), 0xFF);
    assert_eq!(u32::from_le_bytes(buffer[32..36].try_into().unwrap()), 8);
    assert_eq!(u32::from_le_bytes(buffer[36..40].try_into().unwrap()), 8664);
    assert_eq!(u32::from_le_bytes(buffer[40..44].try_into().unwrap()), 0x10000);
    assert_eq!(u16::from_le_bytes([buffer[44], buffer[45]]), 6);
    assert_eq!(&buffer[46..], &[0, 0, 0xAA, 0xAA]);
    let mut short = vec![0x55u8; 47];
    assert!(!write_system_info(&mut short));
    assert_eq!(short, vec![0x55u8; 47]);
}

#[test]
fn tick_count_never_decreases() {
    let mut counter = TickCounter::new();
    assert_eq!(counter.tick_count(0), 0);
    assert_eq!(counter.tick_count(15), 15);
    assert_eq!(counter.tick_count(10), 15);
    assert_eq!(counter.tick_count(16), 16);
    assert_eq!(counter.tick_count(u32::MAX as u64 - 1), u32::MAX - 1);
    assert_eq!(counter.tick_count(u64::MAX), u32::MAX);
    assert_eq!(counter.tick_count(3), u32::MAX);
    assert_eq!(counter.last, u32::MAX);
}

#[test]
fn process_list_is_read() {
    let listing = "  PID  PPID COMMAND\n    1     0 /sbin/launchd\n  420     1 /opt/wine/bin/wine64 C:\\\\game.exe   -fullscreen\r\n\n  x y\n 77 abc /usr/bin/tail/ -f\n9999999999 5 wineserver\n12 3 last";
    let procs = ProcessManager::get_all_processes(listing);
    assert_eq!(procs.len(), 5);
    assert_eq!((procs[0].pid, procs[0].parent_pid), (1, 0));
    assert_eq!(procs[0].name, "launchd");
    assert_eq!(procs[0].command, "/sbin/launchd");
    assert_eq!(procs[0].bottle_path, None);
    assert_eq!((procs[1].pid, procs[1].parent_pid), (420, 1));
    assert_eq!(procs[1].name, "wine64");
    assert_eq!(procs[1].command, "/opt/wine/bin/wine64 C:\\\\game.exe -fullscreen");
    assert_eq!((procs[2].pid, procs[2].parent_pid), (77, 0));
    assert_eq!(procs[2].name, "");
    assert_eq!(procs[2].command, "/usr/bin/tail/ -f");
    assert_eq!((procs[3].pid, procs[3].parent_pid), (0, 5));
    assert_eq!(procs[3].name, "wineserver");
    assert_eq!((procs[4].pid, procs[4].parent_pid), (12, 3));
    assert_eq!(procs[4].command, "last");
    assert!(ProcessManager::get_all_processes("").is_empty());
    assert!(ProcessManager::get_all_processes("1 2 three").is_empty());
    assert_eq!(ProcessManager::get_all_processes("header\n1 2 three").len(), 1);
    assert_eq!(ProcessManager::get_all_processes("\n1\u{2003}2\tthree\u{a0}four\n")[0].command, "three four");
}

#[test]
fn bottle_processes_include_descendants() {
    let all = vec![
        process(1, 0, "/sbin/launchd"),
        process(50, 40, "winedevice.exe"),
        process(40, 30, "services.exe"),
        process(30, 1, "wine64 /Bottles/Games/drive_c/game.exe"),
        process(60, 1, "wineserver"),
        process(70, 50, "plugplay.exe"),
        process(30, 2, "wine64 /bottles/games/drive_c/other.exe"),
        process(80, 99, "unrelated"),
    ];
    let found = ProcessManager::get_bottle_processes(&all, "/Bottles/Games");
    let pids: Vec<u32> = found.iter().map(|p| p.pid).collect();
    assert_eq!(pids, vec![30, 30, 40, 50, 70]);
    assert!(found.iter().all(|p| p.bottle_path.as_deref() == Some("/bottles/games")));
    assert_eq!(found[2].command, "services.exe");
    assert!(ProcessManager::get_bottle_processes(&all, "/Bottles/None").is_empty());
    assert!(ProcessManager::get_bottle_processes(&vec![], "/Bottles/Games").is_empty());
    let chain = vec![process(5, 4, "e"), process(4, 3, "d"), process(3, 2, "c"), process(2, 1, "b /x/"), process(1, 0, "a")];
    let pids: Vec<u32> = ProcessManager::get_bottle_processes(&chain, "/X/").iter().map(|p| p.pid).collect();
    assert_eq!(pids, vec![2, 3, 4, 5]);
    let targets = ProcessManager::kill_bottle_processes(&vec![process(0, 0, "k"), process(30, 1, "a"), process(1, 0, "b"), process(2, 1, "c")]);
    assert_eq!(targets, vec![30, 2]);
}

#[test]
fn bottles_are_built_and_edited() {
    assert_eq!(bottle_id("My Steam  Games"), "my_steam__games");
    assert_eq!(cover_path(3), "/covers/cover03.png");
    assert_eq!(cover_path(12), "/covers/cover012.png");
    let mut bottle = build_bottle("My Games", "/data/bottles/my_games", 1700, 4);
    assert_eq!(bottle.id, "my_games");
    assert_eq!(bottle.name, "My Games");
    assert_eq!(bottle.path, "/data/bottles/my_games");
    assert_eq!(bottle.created_at, 1700);
    assert_eq!(bottle.cover, "/covers/cover04.png");
    assert_eq!(bottle.engine_path, None);
    assert!(bottle.pinned_apps.is_empty());
    let app = |path: &str| DetectedApp { name: "n".to_string(), exe_path: path.to_string(), is_priority: false, pinned: true };
    bottle.add_pinned_app(app("a.exe"));
    bottle.add_pinned_app(app("b.exe"));
    bottle.add_pinned_app(app("a.exe"));
    bottle.add_pinned_app(app("c.exe"));
    assert_eq!(bottle.pinned_apps.len(), 3);
    assert!(bottle.is_pinned("b.exe"));
    assert!(!bottle.is_pinned("B.exe"));
    bottle.remove_pinned_app("b.exe");
    let paths: Vec<&str> = bottle.pinned_apps.iter().map(|a| a.exe_path.as_str()).collect();
    assert_eq!(paths, vec!["a.exe", "c.exe"]);
    assert!(bottle.pinned_apps[1].pinned);
    bottle.remove_pinned_app("zzz");
    assert_eq!(bottle.pinned_apps.len(), 2);
    bottle.rename("Renamed");
    assert_eq!(bottle.name, "Renamed");
    assert_eq!(bottle.id, "my_games");
    bottle.set_engine("/engines/wine64");
    assert_eq!(bottle.engine_path.as_deref(), Some("/engines/wine64"));
    bottle.ensure_cover();
    assert_eq!(bottle.cover, "/covers/cover04.png");
    bottle.cover = String::new();
    bottle.ensure_cover();
    assert_eq!(bottle.cover, "/covers/cover01.png");
}

#[test]
fn created_bottle_gets_one_of_the_covers() {
    assert_eq!(create_bottle("Games", "/b/games", true, 1).unwrap_err(), "A bottle with this name already exists.");
    let covers = ["/covers/cover01.png", "/covers/cover02.png", "/covers/cover03.png", "/covers/cover04.png"];
    for _ in 0..64 {
        let bottle = create_bottle("Games", "/b/games", false, 9).unwrap();
        assert!(covers.contains(&bottle.cover.as_str()));
        assert_eq!(bottle.id, "games");
        assert_eq!(bottle.created_at, 9);
    }
}

#[test]
fn installer_shortcut_goes_once_steam_is_there() {
    let app = |path: &str| DetectedApp { name: "n".to_string(), exe_path: path.to_string(), is_priority: false, pinned: false };
    let apps = vec![app("C:/x/SteamSetup.exe"), app("C:/Steam/Steam.exe")];
    assert!(installer_finished("/dl/SteamSetup.exe", &apps));
    assert!(!installer_finished("/dl/OtherSetup.exe", &apps));
    assert!(!installer_finished("/dl/SteamSetup.exe", &vec![app("C:/x/SteamSetup.exe")]));
    assert!(!installer_finished("/dl/SteamSetup.exe", &vec![app("C:/setup/steam.exe")]));
    assert!(!installer_finished("/dl/SteamSetup.exe", &vec![]));
}

#[test]
fn runner_is_the_first_candidate_present() {
    assert_eq!(
        runner_candidates(),
        vec![
            "/opt/homebrew/bin/wine",
            "/usr/local/bin/wine",
            "/Applications/Whisky.app/Contents/Resources/wine/bin/wine",
            "/opt/homebrew/bin/gameportingtoolkit",
        ]
    );
    assert_eq!(find_runner(&vec![false, true, true, true]).unwrap(), "/usr/local/bin/wine");
    assert_eq!(find_runner(&vec![true]).unwrap(), "/opt/homebrew/bin/wine");
    assert_eq!(find_runner(&vec![false, false, false, true, true]).unwrap(), "/opt/homebrew/bin/gameportingtoolkit");
    assert_eq!(find_runner(&vec![false, false, false, false, true]), None);
    assert_eq!(find_runner(&vec![]), None);
}

#[test]
fn launch_is_planned() {
    let plan = run_executable("C:/Games/Steam/Steam.exe", "/b/games", Some("C:/Games/Steam"), None, Some("/usr/local/bin/wine".to_string()), "pro", false).unwrap();
    assert_eq!(plan.runner, "/usr/local/bin/wine");
    assert_eq!(plan.working_dir, "C:/Games/Steam");
    assert_eq!(plan.env.len(), 15);
    assert_eq!(plan.env[0], ("WINEPREFIX".to_string(), "/b/games".to_string()));
    assert_eq!(plan.env[1].0, "WINEDLLOVERRIDES");
    assert_eq!(plan.env[1].1, "d3d11,d3d12,dxgi=n;d3d9=b;dwrite=d;mscoree,mshtml=;winemenubuilder.exe=d;gameoverlayrenderer,gameoverlayrenderer64=d");
    assert_eq!(plan.env[6], ("WINEDEBUG".to_string(), "fixme-all,err-all".to_string()));
    assert_eq!(plan.env[7], ("WINE_ASLR".to_string(), "0".to_string()));
    assert_eq!(plan.env[14], ("PANCHO_MACH_PORT".to_string(), "1".to_string()));
    assert_eq!(plan.args, vec!["C:/Games/Steam/Steam.exe", "-no-cef-sandbox", "-cef-disable-gpu", "-cef-disable-d3d11", "-all-non-sandbox"]);
    assert!(plan.apply_modern_patches && plan.apply_metal_patches && plan.apply_steam_patches && plan.mark_patched);
    let plan = run_executable("C:/steamy/game.exe", "/b", Some("C:/steamy"), Some("/custom/wine".to_string()), None, "pro", true).unwrap();
    assert_eq!(plan.runner, "/custom/wine");
    assert_eq!(plan.args.len(), 5);
    assert!(!plan.apply_modern_patches && !plan.apply_metal_patches && !plan.apply_steam_patches && !plan.mark_patched);
    let plan = run_executable("C:/g/game.exe", "/b", Some("C:/g"), Some("/custom/wine".to_string()), Some("/found".to_string()), "standard", false).unwrap();
    assert_eq!(plan.runner, "/custom/wine");
    assert_eq!(plan.args, vec!["C:/g/game.exe"]);
    assert!(!plan.apply_modern_patches && !plan.mark_patched);
    assert_eq!(
        run_executable("C:/g/game.exe", "/b", None, None, None, "pro", false).unwrap_err(),
        "Pancho-Core Engine not found. Please create a Pro bottle to trigger setup."
    );
    assert_eq!(run_executable("game.exe", "/b", None, None, Some("/w".to_string()), "pro", false).unwrap_err(), "Invalid executable path");
}

#[test]
fn applications_are_picked_from_files() {
    assert!(should_scan_dir("Program Files"));
    assert!(!should_scan_dir("Windows"));
    assert!(!should_scan_dir("USERS"));
    assert!(should_scan_dir("windows2"));
    let files = vec![
        file("/c/Steam/Steam.exe", "Steam.exe", "Steam", Some("exe")),
        file("/c/Game/unins000.exe", "unins000.exe", "unins000", Some("exe")),
        file("/c/Game/Game.EXE", "Game.EXE", "Game", Some("EXE")),
        file("/c/Game/readme.txt", "readme.txt", "readme", Some("txt")),
        file("/c/Game/CrashPadHandler.exe", "CrashPadHandler.exe", "CrashPadHandler", Some("exe")),
        file("/c/Game/launcher", "launcher", "launcher", None),
        file("/c/GOG/GalaxyClient.exe", "GalaxyClient.exe", "GalaxyClient", Some("exe")),
        file("/c/GOG/GalaxyClient Helper.exe", "GalaxyClient Helper.exe", "GalaxyClient Helper", Some("exe")),
        file("/c/Epic/EpicGamesLauncher.exe", "EpicGamesLauncher.exe", "EpicGamesLauncher", Some("exe")),
    ];
    let apps = scan_bottle_for_apps(&files);
    let names: Vec<(&str, bool)> = apps.iter().map(|a| (a.name.as_str(), a.is_priority)).collect();
    assert_eq!(names, vec![("Steam", true), ("Game", false), ("GalaxyClient", true), ("EpicGamesLauncher", true)]);
    assert_eq!(apps[1].exe_path, "/c/Game/Game.EXE");
    assert!(apps.iter().all(|a| !a.pinned));
    assert!(classify_file(&files[1]).is_none());
    assert!(scan_bottle_for_apps(&vec![]).is_empty());
}

#[test]
fn d3dmetal_is_detected_and_installed() {
    let probe = |dir: &str, a: bool, b: bool, c: bool| DirProbe { dir: dir.to_string(), d3d11: a, d3d12: b, dxgi: c };
    let libs = D3DMetalManager::detect(&vec![probe("/gptk/", false, true, true), probe("/whisky/e1", true, false, true), probe("/whisky/e2", true, true, true)]);
    assert_eq!(libs.d3d11.as_deref(), Some("/whisky/e1/d3dmetald3d11.dll"));
    assert_eq!(libs.d3d12, None);
    assert_eq!(libs.dxgi.as_deref(), Some("/whisky/e1/dxgid3dmetal.dll"));
    let libs = D3DMetalManager::detect(&vec![probe("/gptk/", false, true, false), probe("/other", false, false, true)]);
    assert_eq!(libs.d3d11, None);
    assert_eq!(libs.d3d12, None);
    assert_eq!(libs.dxgi.as_deref(), Some("/other/dxgid3dmetal.dll"));
    let libs = D3DMetalManager::detect(&vec![]);
    assert!(libs.d3d11.is_none() && libs.d3d12.is_none() && libs.dxgi.is_none());
    let libs = D3DMetalManager::find_in_dir(&probe("/gptk/", true, true, false));
    assert_eq!(libs.d3d11.as_deref(), Some("/gptk/d3dmetald3d11.dll"));
    assert_eq!(libs.d3d12.as_deref(), Some("/gptk/d3dmetald3d12.dll"));
    assert_eq!(D3DMetalManager::check_file("/d", "x.dll", false), None);
    assert!(D3DMetalManager::verify(true, true, true));
    assert!(!D3DMetalManager::verify(true, true, false));
    assert!(!D3DMetalManager::verify(false, true, true));
    let full = D3DMetalLibs { d3d11: Some("/s/a".to_string()), d3d12: Some("/s/b".to_string()), dxgi: Some("/s/c".to_string()) };
    assert_eq!(
        D3DMetalManager::install_to_bottle(&full, "/b/games", true).unwrap(),
        vec![
            ("/s/a".to_string(), "/b/games/drive_c/windows/system32/d3dmetald3d11.dll".to_string()),
            ("/s/b".to_string(), "/b/games/drive_c/windows/system32/d3dmetald3d12.dll".to_string()),
            ("/s/c".to_string(), "/b/games/drive_c/windows/system32/dxgid3dmetal.dll".to_string()),
        ]
    );
    assert_eq!(D3DMetalManager::install_to_bottle(&full, "/b/games", false).unwrap_err(), "system32 directory not found in bottle");
    let mut part = full.clone();
    part.dxgi = None;
    assert_eq!(D3DMetalManager::install_to_bottle(&part, "/b", false).unwrap_err(), "dxgid3dmetal.dll not found");
    part.d3d12 = None;
    assert_eq!(D3DMetalManager::install_to_bottle(&part, "/b", true).unwrap_err(), "d3dmetald3d12.dll not found");
    part.d3d11 = None;
    assert_eq!(D3DMetalManager::install_to_bottle(&part, "/b", true).unwrap_err(), "d3dmetald3d11.dll not found");
}

#[test]
fn backend_sets_library_overrides() {
    let modes = |backend, installed| -> Vec<(String, String)> {
        DllOverrideManager::set_backend(backend, installed).unwrap().into_iter().map(|e| (e.value_name, e.value_data)).collect()
    };
    let pair = |a: &str, b: &str| (a.to_string(), b.to_string());
    assert_eq!(modes(GraphicsBackend::D3DMetal, true), vec![pair("d3d11", "native"), pair("d3d12", "native"), pair("dxgi", "native")]);
    assert_eq!(modes(GraphicsBackend::DXVK, false), vec![pair("d3d11", "native"), pair("d3d12", "builtin"), pair("dxgi", "native")]);
    assert_eq!(modes(GraphicsBackend::WineD3D, false), vec![pair("d3d11", "builtin"), pair("d3d12", "builtin"), pair("dxgi", "builtin")]);
    assert_eq!(DllOverrideManager::set_backend(GraphicsBackend::D3DMetal, false).unwrap_err(), "D3DMetal libraries are missing. Please install them first.");
    let entries = DllOverrideManager::set_backend(GraphicsBackend::DXVK, true).unwrap();
    assert!(entries.iter().all(|e| e.key == r"HKEY_CURRENT_USER\Software\Wine\DllOverrides" && e.value_type == RegistryValueType::String));
    assert_eq!(DllOverrideManager::get_current_backend(), Ok(GraphicsBackend::WineD3D));
}

#[test]
fn steam_is_found_and_started() {
    let status = SteamLauncher::check_status("/b/games", true);
    assert!(status.is_installed);
    assert_eq!(status.path.as_deref(), Some("/b/games/drive_c/Program Files (x86)/Steam/steam.exe"));
    assert_eq!(SteamLauncher::check_status("/b/games/", false).path, None);
    assert_eq!(SteamLauncher::executable_path("/b/games/"), "/b/games/drive_c/Program Files (x86)/Steam/steam.exe");
    assert_eq!(SteamLauncher::installer_path("/b/games"), "/b/games/SteamSetup.exe");
    let pair = |a: &str, b: &str| (a.to_string(), b.to_string());
    let command = SteamLauncher::launch_steam("/b/games", SteamLaunchMode::BigPicture, "pro");
    assert_eq!(command.env, vec![pair("WINEPREFIX", "/b/games"), pair("WINEESYNC", "1"), pair("MTL_HUD_ENABLED", "1"), pair("WINE_D3D11_ALLOW_SWAPCHAIN_RECREATION", "1")]);
    assert_eq!(command.args, vec!["C:\\Program Files (x86)\\Steam\\steam.exe", "-no-browser", "-tenfoot"]);
    let command = SteamLauncher::launch_steam("/b/games", SteamLaunchMode::Normal, "Pro");
    assert_eq!(command.env, vec![pair("WINEPREFIX", "/b/games"), pair("WINEESYNC", "1")]);
    assert_eq!(command.args, vec!["C:\\Program Files (x86)\\Steam\\steam.exe", "-no-browser"]);
    assert_eq!(SteamLauncher::launch_steam("/b", SteamLaunchMode::Silent, "").args[2], "-silent");
    assert_eq!(SteamLauncher::launch_steam("/b", SteamLaunchMode::Console, "").args[2], "-console");
}

#[test]
fn steam_installs_step_by_step() {
    let step = SteamLauncher::install_steam;
    assert_eq!(step(InstallState::Idle, InstallEvent::Start), (InstallState::Downloading, InstallCommand::Download));
    assert_eq!(step(InstallState::Downloading, InstallEvent::Finished(true)), (InstallState::Installing, InstallCommand::RunInstaller));
    assert_eq!(step(InstallState::Installing, InstallEvent::Finished(true)), (InstallState::Registering, InstallCommand::WriteRegistry));
    assert_eq!(step(InstallState::Registering, InstallEvent::Finished(true)), (InstallState::Done, InstallCommand::RemoveInstaller));
    assert_eq!(step(InstallState::Downloading, InstallEvent::Finished(false)), (InstallState::Failed, InstallCommand::Nothing));
    assert_eq!(step(InstallState::Installing, InstallEvent::Finished(false)), (InstallState::Failed, InstallCommand::Nothing));
    assert_eq!(step(InstallState::Registering, InstallEvent::Finished(false)), (InstallState::Failed, InstallCommand::Nothing));
    assert_eq!(step(InstallState::Idle, InstallEvent::Finished(true)), (InstallState::Idle, InstallCommand::Nothing));
    assert_eq!(step(InstallState::Done, InstallEvent::Start), (InstallState::Done, InstallCommand::Nothing));
    assert_eq!(step(InstallState::Failed, InstallEvent::Finished(true)), (InstallState::Failed, InstallCommand::Nothing));
}

#[test]
fn engine_is_found_and_set_up() {
    assert_eq!(
        pro_engine_candidates("/data/engines"),
        vec![
            "/data/engines/pancho-pro-v1/bin/wine64",
            "/data/engines/pancho-pro-v1/bin/wine",
            "/data/engines/pancho-pro-v1/wine-crossover-23.7.1-1-osx64/bin/wine64",
            "/data/engines/pancho-pro-v1/wine-crossover-23.7.1-osx64/bin/wine64",
            "/data/engines/pancho-pro-v1/Contents/Resources/wine/bin/wine64",
        ]
    );
    assert_eq!(get_pro_engine_path("/e", &vec![false, false, true, false, true]).unwrap(), "/e/pancho-pro-v1/wine-crossover-23.7.1-1-osx64/bin/wine64");
    assert_eq!(get_pro_engine_path("/e", &vec![false; 5]), None);
    let s = setup_gaming_engine(SetupState::Idle, SetupEvent::Start);
    assert_eq!((s.state, s.command, s.status), (SetupState::Downloading, SetupCommand::Download, Some("Initiating download (Pro Engine)...")));
    let s = setup_gaming_engine(SetupState::Downloading, SetupEvent::Finished(CommandOutcome::Succeeded));
    assert_eq!((s.state, s.command, s.status), (SetupState::Extracting, SetupCommand::Extract, Some("Extracting binaries...")));
    let s = setup_gaming_engine(SetupState::Extracting, SetupEvent::Finished(CommandOutcome::Succeeded));
    assert_eq!((s.state, s.command, s.status), (SetupState::Done, SetupCommand::CleanUp, Some("Success: Engine Deployment complete.")));
    let s = setup_gaming_engine(SetupState::Downloading, SetupEvent::Finished(CommandOutcome::Failed));
    assert_eq!((s.state, s.command, s.status), (SetupState::Failed, SetupCommand::Nothing, Some("Error: Download failed.")));
    let s = setup_gaming_engine(SetupState::Downloading, SetupEvent::Finished(CommandOutcome::NotStarted));
    assert_eq!((s.state, s.status), (SetupState::Failed, Some("Error: Network unreachable.")));
    let s = setup_gaming_engine(SetupState::Extracting, SetupEvent::Finished(CommandOutcome::Failed));
    assert_eq!((s.state, s.status), (SetupState::Failed, Some("Error: Extraction failed.")));
    let s = setup_gaming_engine(SetupState::Extracting, SetupEvent::Finished(CommandOutcome::NotStarted));
    assert_eq!((s.state, s.status), (SetupState::Failed, Some("Error: Tar failure.")));
    let s = setup_gaming_engine(SetupState::Done, SetupEvent::Start);
    assert_eq!((s.state, s.command, s.status), (SetupState::Done, SetupCommand::Nothing, None));
    let s = setup_gaming_engine(SetupState::Idle, SetupEvent::Finished(CommandOutcome::Succeeded));
    assert_eq!((s.state, s.command, s.status), (SetupState::Idle, SetupCommand::Nothing, None));
}

#[test]
fn runtimes_are_described_once() {
    assert_eq!(runner_type("/Users/x/Library/Application Support/com.isaacmarovitz.Whisky/Engines/a/bin/wine64"), WineRunnerType::WhiskyGPTK);
    assert_eq!(runner_type("/usr/local/opt/game-porting-toolkit/bin/wine64"), WineRunnerType::GPTK);
    assert_eq!(runner_type("/Whisky/game-porting-toolkit"), WineRunnerType::WhiskyGPTK);
    assert_eq!(runner_type("/usr/local/bin/wine64"), WineRunnerType::Standard);
    assert!(check_esync("wine-8.0 (ESYNC)"));
    assert!(check_esync("wine-9.0-staging"));
    assert!(!check_esync("wine-9.0-STAGING"));
    assert!(!check_esync("wine-9.0"));
    assert!(check_d3dmetal(false, true));
    assert!(!check_d3dmetal(false, false));
    let probe = |path: &str, exists: bool, version: Option<&str>, d3d11: bool| RunnerProbe {
        path: path.to_string(),
        exists,
        version: version.map(|v| v.to_string()),
        d3d11_present: d3d11,
        d3d12_present: false,
    };
    let runners = get_wine_runners(&vec![
        probe("/usr/local/bin/wine64", true, Some("wine-9.0"), false),
        probe("/opt/homebrew/bin/wine64", false, Some("wine-9.0"), false),
        probe("/usr/local/opt/game-porting-toolkit/bin/wine64", true, None, true),
        probe("/usr/local/opt/game-porting-toolkit/bin/wine64", true, Some("wine-7.7 esync"), true),
        probe("/usr/local/bin/wine64", true, Some("wine-10.0"), true),
    ]);
    assert_eq!(runners.len(), 2);
    assert_eq!(runners[0].path, "/usr/local/bin/wine64");
    assert_eq!(runners[0].version, "wine-9.0");
    assert_eq!(runners[0].runner_type, WineRunnerType::Standard);
    assert!(!runners[0].supports_d3dmetal && !runners[0].supports_esync);
    assert_eq!(runners[1].runner_type, WineRunnerType::GPTK);
    assert!(runners[1].supports_d3dmetal && runners[1].supports_esync);
}

#[test]
fn fixed_places_are_named() {
    assert_eq!(
        default_scan_paths(),
        vec!["/usr/local/bin/wine64", "/opt/homebrew/bin/wine64", "/usr/local/opt/game-porting-toolkit/bin/wine64"]
    );
    assert_eq!(
        engine_url(),
        "https://github.com/Gcenx/winecx/releases/download/crossover-wine-23.7.1-1/wine-crossover-23.7.1-1-osx64.tar.xz"
    );
    assert_eq!(installer_url(), "https://cdn.cloudflare.steamstatic.com/client/installer/SteamSetup.exe");
    assert_eq!(steam_cache_path(), "drive_c/users/crossover/Local Settings/Application Data/Steam/htmlcache");
}

#[test]
fn text_helpers_agree_with_std() {
    assert!(contains("hello world", "lo w"));
    assert!(contains("hello", ""));
    assert!(contains("", ""));
    assert!(!contains("", "a"));
    assert!(!contains("hello", "hello!"));
    assert!(!contains("aab", "abb"));
    assert!(contains("aaab", "aab"));
    assert!(contains("héllo wörld", "o wö"));
    assert_eq!(find(&chars_of("abcabc"), &chars_of("bc"), 0), Some(1));
    assert_eq!(find(&chars_of("abcabc"), &chars_of("bc"), 2), Some(4));
    assert_eq!(find(&chars_of("abcabc"), &chars_of("bc"), 5), None);
    assert_eq!(find(&chars_of("abc"), &chars_of(""), 3), Some(3));
    assert_eq!(find(&chars_of("abc"), &chars_of(""), 4), None);
    assert!(starts_with("00001", "0000"));
    assert!(!starts_with("000", "0000"));
    assert!(same("é", "é"));
    assert!(!same("a", "A"));
    assert_eq!(join_path("/a", "b"), "/a/b");
    assert_eq!(join_path("/a/", "b"), "/a/b");
    assert_eq!(join_path("/a", "/b"), "/b");
    assert_eq!(join_path("", "b"), "b");
    assert_eq!(join_path("/a", ""), "/a/");
    for (dir, name) in [("/a", "b/c"), ("/a/", "b"), ("/a", "/b"), ("", "b"), ("/a", ""), ("a//", "b"), ("/", "x")] {
        assert_eq!(join_path(dir, name), std::path::Path::new(dir).join(name).to_str().unwrap());
    }
    let mut out = String::from("x");
    push_hex(&mut out, 0x1a2b, 8);
    assert_eq!(out, "x00001a2b");
    push_hex(&mut out, 0xdeadbeef, 4);
    assert_eq!(out, "x00001a2bbeef");
    push_hex(&mut out, 7, 0);
    assert_eq!(out, "x00001a2bbeef");
    let mut out = String::new();
    push_decimal(&mut out, 0);
    push_decimal(&mut out, 1234567890);
    assert_eq!(out, "01234567890");
}

#[test]
fn decimal_numbers_are_read_as_std_reads_them() {
    assert_eq!(parse_u32("0"), Some(0));
    assert_eq!(parse_u32("+17"), Some(17));
    assert_eq!(parse_u32("00012"), Some(12));
    assert_eq!(parse_u32("4294967295"), Some(u32::MAX));
    assert_eq!(parse_u32("4294967296"), None);
    assert_eq!(parse_u32(""), None);
    assert_eq!(parse_u32("+"), None);
    assert_eq!(parse_u32("-1"), None);
    assert_eq!(parse_u32("12a"), None);
    let samples = [
        "", "+", "-", "0", "+0", "-0", "00", "7", "+7", "++7", "+-7", "7+", "0007", "12a", "a12", " 12", "12 ",
        "1_000", "1,000", "1.0", "4294967295", "+4294967295", "4294967296", "04294967296", "42949672950",
        "99999999999999999999999999", "18446744073709551616", "\u{663}", "\u{ff11}\u{ff12}", "0x10", "1e3", "\n1",
    ];
    for sample in samples {
        assert_eq!(parse_u32(sample), sample.parse::<u32>().ok(), "{:?}", sample);
    }
    for n in (0..=u32::MAX).step_by(65_521) {
        let text = n.to_string();
        assert_eq!(parse_u32(&text), Some(n));
        assert_eq!(parse_u32(&format!("+000{}", text)), Some(n));
        assert_eq!(parse_u32(&format!("{}0", text)), format!("{}0", text).parse::<u32>().ok());
    }
}

#[test]
fn white_space_is_what_std_takes_for_it() {
    assert!(is_whitespace(' '));
    assert!(is_whitespace('\t'));
    assert!(is_whitespace('\u{3000}'));
    assert!(!is_whitespace('a'));
    assert!(!is_whitespace('\u{200B}'));
    for u in 0..=0x10FFFFu32 {
        if let Some(c) = char::from_u32(u) {
            assert_eq!(is_whitespace(c), c.is_whitespace(), "U+{:04X}", u);
        }
    }
}
