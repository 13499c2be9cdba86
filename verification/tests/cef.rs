use glass_core::cef_instance::{
    CefInstance, CefState, InitializeStep, MacLoad, WindowsStartup, CLOSING_PUMPS, IDLE_PUMP_US,
};
use glass_core::cef_runtime::{
    cef_dir_candidate, contains_windows_cef_runtime, ensure_runtime_on_path, framework_library,
    has_required_windows_runtime_layout, has_windows_cef_runtime, ignores_incomplete_env,
    join_path, log_windows_runtime_layout, required_windows_runtime_dirs,
    required_windows_runtime_files, resolve_cef_dir_from_env, resolve_windows_cef_runtime_root,
    RuntimeCandidate, RuntimeLayout, RuntimeProbes,
};
use glass_core::cef_settings::{
    child_process_switches, command_line_switches, initialize_cef, HelperProbe, LogSeverity,
    MacFramework, Platform, SettingsProbes, WindowsRuntime,
};
use glass_core::render_handler::{
    on_accelerated_paint, read_frame, screen_point, PaintDecision, Rect, RenderState,
};

fn complete() -> RuntimeLayout {
    RuntimeLayout {
        files: vec![true; 7],
        dirs: vec![true],
    }
}

fn without(file: usize) -> RuntimeLayout {
    let mut layout = complete();
    layout.files[file] = false;
    layout
}

fn candidate(path: &str, layout: RuntimeLayout) -> RuntimeCandidate {
    RuntimeCandidate {
        canonical: Some(path.to_string()),
        layout,
    }
}

fn probes(exe: RuntimeLayout, staged: RuntimeLayout, env: Option<RuntimeLayout>) -> RuntimeProbes {
    RuntimeProbes {
        exe_dir: Some(candidate("exe", exe)),
        staged: candidate("staged", staged),
        from_env: env.map(|layout| candidate("env", layout)),
    }
}

fn resolve(probes: &RuntimeProbes) -> Option<String> {
    let mut cached = None;
    let found = resolve_windows_cef_runtime_root(&mut cached, probes);
    assert_eq!(cached, found);
    found
}

#[test]
fn requires_every_file_and_directory() {
    assert_eq!(required_windows_runtime_files().len(), 7);
    assert_eq!(required_windows_runtime_files()[0], "libcef.dll");
    assert_eq!(required_windows_runtime_dirs(), vec!["locales"]);
    assert!(has_required_windows_runtime_layout(&complete()));
    for file in 0..7 {
        assert!(!has_required_windows_runtime_layout(&without(file)));
    }
    let mut layout = complete();
    layout.dirs[0] = false;
    assert!(!has_required_windows_runtime_layout(&layout));
    layout.dirs.clear();
    assert!(!has_required_windows_runtime_layout(&layout));
    assert!(contains_windows_cef_runtime(&without(1)));
    assert!(!contains_windows_cef_runtime(&without(0)));
}

#[test]
fn finds_the_nearest_complete_directory() {
    assert_eq!(
        resolve(&probes(complete(), complete(), Some(complete()))).as_deref(),
        Some("exe")
    );
    assert_eq!(
        resolve(&probes(without(2), complete(), Some(complete()))).as_deref(),
        Some("staged")
    );
    assert_eq!(
        resolve(&probes(without(2), without(3), Some(complete()))).as_deref(),
        Some("env")
    );
    let incomplete = probes(without(2), without(3), Some(without(4)));
    assert_eq!(resolve(&incomplete), None);
    assert!(ignores_incomplete_env(&None, &incomplete));
    assert!(!ignores_incomplete_env(
        &None,
        &probes(without(2), without(3), Some(without(0)))
    ));
    assert_eq!(resolve(&probes(without(2), without(3), None)), None);
}

#[test]
fn needs_the_directory_of_the_executable() {
    let mut nowhere = probes(complete(), complete(), Some(complete()));
    nowhere.exe_dir = None;
    assert_eq!(resolve(&nowhere), None);
    let mut unnamed = probes(without(1), complete(), None);
    unnamed.exe_dir.as_mut().unwrap().canonical = None;
    assert_eq!(resolve(&unnamed), None);
    let mut unnamed = probes(without(1), complete(), Some(complete()));
    unnamed.staged.canonical = None;
    assert_eq!(resolve(&unnamed), None);
}

#[test]
fn remembers_the_directory() {
    let mut cached = Some("before".to_string());
    let found =
        resolve_windows_cef_runtime_root(&mut cached, &probes(complete(), complete(), None));
    assert_eq!(found.as_deref(), Some("before"));
    assert_eq!(cached.as_deref(), Some("before"));
}

#[test]
fn can_be_used_with_a_complete_directory_only() {
    let root = Some("root".to_string());
    assert!(has_windows_cef_runtime(&root, &complete()));
    assert!(!has_windows_cef_runtime(&root, &without(6)));
    assert!(!has_windows_cef_runtime(&None, &complete()));
}

#[test]
fn puts_the_directory_in_front_of_the_path() {
    assert_eq!(
        ensure_runtime_on_path(vec!["a", "b"], &vec![false, false], "root"),
        Some(vec!["root", "a", "b"])
    );
    assert_eq!(
        ensure_runtime_on_path(vec!["a", "root"], &vec![false, true], "root"),
        None
    );
    assert_eq!(
        ensure_runtime_on_path(vec![], &vec![], "root"),
        Some(vec!["root"])
    );
}

#[test]
fn puts_the_directory_on_the_path_once() {
    let mut path = vec!["a", "b"];
    for _ in 0..2 {
        let is_root: Vec<bool> = path.iter().map(|entry| *entry == "root").collect();
        if let Some(longer) = ensure_runtime_on_path(path.clone(), &is_root, "root") {
            path = longer;
        }
    }
    assert_eq!(path, vec!["root", "a", "b"]);
}

#[test]
fn lists_what_is_missing() {
    let missing = log_windows_runtime_layout(&without(2), &vec![false]);
    assert_eq!(missing.files, vec!["icudtl.dat"]);
    assert_eq!(missing.dirs, vec!["locales"]);
    let missing = log_windows_runtime_layout(&complete(), &vec![true]);
    assert!(missing.files.is_empty());
    assert!(missing.dirs.is_empty());
}

#[test]
fn finds_the_framework() {
    assert_eq!(join_path("/home", "x"), "/home/x");
    assert_eq!(join_path("/", "x"), "/x");
    assert_eq!(join_path("", "x"), "x");
    let some = |text: &str| Some(text.to_string());
    assert_eq!(
        cef_dir_candidate(&some("/cef"), &some("/home")).as_deref(),
        Some("/cef")
    );
    assert_eq!(
        cef_dir_candidate(&None, &some("/home")).as_deref(),
        Some("/home/.local/share/cef")
    );
    assert_eq!(cef_dir_candidate(&None, &None), None);
    assert_eq!(
        framework_library("/cef"),
        "/cef/Chromium Embedded Framework.framework/Chromium Embedded Framework"
    );
    assert_eq!(
        resolve_cef_dir_from_env(some("/cef"), true).as_deref(),
        Some("/cef")
    );
    assert_eq!(resolve_cef_dir_from_env(some("/cef"), false), None);
}

#[test]
fn starts_with_the_switches_of_the_system() {
    let names = |platform, debug, requested| -> Vec<String> {
        command_line_switches(platform, debug, requested)
            .into_iter()
            .map(|switch| switch.name)
            .collect()
    };
    let release = names(Platform::Other, false, true);
    assert_eq!(release.len(), 12);
    assert_eq!(release[0], "no-startup-window");
    assert!(!release.iter().any(|name| name == "use-mock-keychain"));
    assert!(!release.iter().any(|name| name == "remote-debugging-port"));
    let mac = command_line_switches(Platform::MacOs, true, true);
    assert_eq!(mac.len(), 16);
    assert_eq!(mac[3].name, "use-mock-keychain");
    assert_eq!(mac[7].name, "use-angle");
    assert_eq!(mac[7].value.as_deref(), Some("metal"));
    assert_eq!(mac[15].value.as_deref(), Some("9222"));
    let windows = command_line_switches(Platform::Windows, false, false);
    let last = &windows[windows.len() - 1];
    assert_eq!(last.name, "disable-features");
    assert_eq!(last.value.as_deref(), Some("WebUsbDeviceDetection"));
    let child = child_process_switches();
    assert_eq!(child.len(), 1);
    assert_eq!(child[0].name, "disable-session-crashed-bubble");
    assert_eq!(child[0].value, None);
}

fn settings_probes(platform: Platform) -> SettingsProbes {
    SettingsProbes {
        platform,
        debug_build: false,
        debug_requested: true,
        bundle_helper: HelperProbe {
            exists: false,
            canonical: Some("/bundle".to_string()),
        },
        dev_helper: HelperProbe {
            exists: true,
            canonical: Some("/dev".to_string()),
        },
        exe_path: Some("glass.exe".to_string()),
        windows_runtime: Some(WindowsRuntime {
            display: "C:\\cef".to_string(),
            layout: complete(),
            path: Some("C:\\cef".to_string()),
            locales_path: Some("C:\\cef\\locales".to_string()),
        }),
        from_bundle: false,
        mac_framework: Some(MacFramework {
            framework_exists: true,
            framework_path: Some("/fw".to_string()),
            exe_dir: Some("/exe".to_string()),
        }),
        cache_path: Some("/cache".to_string()),
    }
}

#[test]
fn sets_up_on_macos() {
    let mut probes = settings_probes(Platform::MacOs);
    let settings = initialize_cef(&probes).unwrap();
    assert_eq!(settings.windowless_rendering_enabled, 1);
    assert_eq!(settings.external_message_pump, 1);
    assert_eq!(settings.no_sandbox, 1);
    assert_eq!(settings.log_severity, LogSeverity::Warning);
    assert_eq!(settings.persist_session_cookies, 1);
    assert_eq!(settings.remote_debugging_port, 0);
    assert!(settings.user_agent.contains("Macintosh"));
    assert!(settings.user_agent.ends_with("Chrome/145.0.7632.75 Safari/537.36"));
    assert_eq!(settings.browser_subprocess_path.as_deref(), Some("/dev"));
    assert_eq!(settings.framework_dir_path.as_deref(), Some("/fw"));
    assert_eq!(settings.main_bundle_path.as_deref(), Some("/exe"));
    assert_eq!(settings.resources_dir_path, None);
    assert_eq!(settings.cache_path.as_deref(), Some("/cache"));
    assert_eq!(settings.root_cache_path.as_deref(), Some("/cache"));
    probes.bundle_helper.exists = true;
    probes.from_bundle = true;
    probes.debug_build = true;
    let settings = initialize_cef(&probes).unwrap();
    assert_eq!(settings.browser_subprocess_path.as_deref(), Some("/bundle"));
    assert_eq!(settings.framework_dir_path, None);
    assert_eq!(settings.main_bundle_path, None);
    assert_eq!(settings.remote_debugging_port, 9222);
}

#[test]
fn sets_up_on_windows_with_all_files() {
    let mut probes = settings_probes(Platform::Windows);
    let settings = initialize_cef(&probes).unwrap();
    assert!(settings.user_agent.contains("Windows NT 10.0"));
    assert_eq!(
        settings.browser_subprocess_path.as_deref(),
        Some("glass.exe")
    );
    assert_eq!(settings.resources_dir_path.as_deref(), Some("C:\\cef"));
    assert_eq!(
        settings.locales_dir_path.as_deref(),
        Some("C:\\cef\\locales")
    );
    probes.windows_runtime.as_mut().unwrap().layout = without(3);
    assert_eq!(
        initialize_cef(&probes),
        Err("Windows CEF runtime root is missing required files/directories: C:\\cef".to_string())
    );
    probes.windows_runtime = None;
    assert_eq!(
        initialize_cef(&probes),
        Err("Windows CEF runtime root could not be resolved during initialize_cef().".to_string())
    );
}

#[test]
fn sets_up_elsewhere() {
    let settings = initialize_cef(&settings_probes(Platform::Other)).unwrap();
    assert_eq!(settings.browser_subprocess_path, None);
    assert_eq!(settings.framework_dir_path, None);
    assert_eq!(settings.resources_dir_path, None);
}

#[test]
fn pumps_when_asked_to() {
    let mut state = CefState::new();
    assert!(!CefInstance::should_pump(&state, u64::MAX));
    assert!(!CefInstance::begin_pump(&mut state));
    state.on_context_initialized();
    assert!(CefInstance::is_context_ready(&state));
    assert!(!CefInstance::should_pump(&state, 0));
    state.on_schedule_message_pump_work(1_000, 5);
    assert_eq!(CefInstance::time_until_next_pump_us(&state, 1_000), 5_000);
    state.on_schedule_message_pump_work(1_000, 9);
    assert_eq!(CefInstance::time_until_next_pump_us(&state, 1_000), 5_000);
    state.on_schedule_message_pump_work(2_000, -3);
    assert_eq!(CefInstance::time_until_next_pump_us(&state, 1_000), 1_000);
    assert!(!CefInstance::should_pump(&state, 1_999));
    assert!(CefInstance::should_pump(&state, 2_000));
    assert_eq!(CefInstance::time_until_next_pump_us(&state, 3_000), 0);
    assert!(CefInstance::begin_pump(&mut state));
    assert!(!CefInstance::should_pump(&state, 3_000));
    CefInstance::finish_pump(&mut state, 3_000);
    assert_eq!(IDLE_PUMP_US, 33_000);
    assert_eq!(CefInstance::time_until_next_pump_us(&state, 3_000), 33_000);
    assert!(CefInstance::begin_pump(&mut state));
    state.on_schedule_message_pump_work(4_000, 1);
    CefInstance::finish_pump(&mut state, 4_500);
    assert_eq!(CefInstance::time_until_next_pump_us(&state, 4_500), 500);
}

#[test]
fn starts_and_stops() {
    let mut state = CefState::new();
    assert!(CefInstance::global(&state).is_none());
    assert!(CefInstance::begin_subprocess(&state));
    assert_eq!(
        CefInstance::begin_initialize(&state),
        InitializeStep::Refused {
            message: "CEF subprocess handling was not done. Call CefInstance::handle_subprocess() early in main().".to_string()
        }
    );
    assert_eq!(CefInstance::finish_subprocess(&mut state, 3), Some(3));
    assert!(CefInstance::begin_subprocess(&state));
    assert_eq!(CefInstance::finish_subprocess(&mut state, -1), None);
    assert!(!CefInstance::begin_subprocess(&state));
    assert_eq!(
        CefInstance::begin_initialize(&state),
        InitializeStep::Proceed
    );
    assert_eq!(
        CefInstance::finish_initialize(&mut state, -7),
        Err("Failed to initialize CEF (error code: -7)".to_string())
    );
    assert!(CefInstance::global(&state).is_none());
    assert!(!CefInstance::begin_shutdown(&state));
    assert!(CefInstance::finish_initialize(&mut state, 1).is_ok());
    assert!(CefInstance::global(&state).is_some());
    assert_eq!(
        CefInstance::begin_initialize(&state),
        InitializeStep::Running
    );
    state.on_context_initialized();
    assert!(CefInstance::begin_shutdown(&state));
    assert_eq!(CefInstance::shutdown_closing(&mut state, 0), 0);
    assert_eq!(
        CefInstance::shutdown_closing(&mut state, 2),
        CLOSING_PUMPS
    );
    assert_eq!(CLOSING_PUMPS, 10);
    assert!(!CefInstance::is_context_ready(&state));
    CefInstance::shutdown_stopping(&mut state);
    assert!(CefInstance::global(&state).is_none());
    state.windows_runtime_root = Some("root".to_string());
    CefInstance::shutdown_finished(&mut state);
    assert_eq!(state.windows_runtime_root, None);
    assert_eq!(
        CefInstance::begin_initialize(&state),
        InitializeStep::Refused {
            message: "CEF App not found. handle_subprocess() must be called first.".to_string()
        }
    );
}

#[test]
fn plans_the_load_of_the_browser() {
    let mut state = CefState::new();
    let dir = Some("/cef".to_string());
    let bundle = CefInstance::plan_mac_load(true, &dir);
    assert_eq!(bundle, MacLoad::Bundle);
    assert!(!CefInstance::finish_mac_load(&mut state, &bundle, false));
    assert!(!state.loaded_from_bundle);
    let directory = CefInstance::plan_mac_load(false, &dir);
    assert_eq!(
        directory,
        MacLoad::Directory {
            dir: "/cef".to_string()
        }
    );
    assert!(CefInstance::finish_mac_load(&mut state, &directory, true));
    assert!(!state.loaded_from_bundle);
    assert!(CefInstance::finish_mac_load(&mut state, &bundle, true));
    assert!(state.loaded_from_bundle);
    let missing = CefInstance::plan_mac_load(false, &None);
    assert_eq!(missing, MacLoad::NotFound);
    assert!(!CefInstance::finish_mac_load(&mut state, &missing, true));
    assert_eq!(
        CefInstance::plan_windows_startup(&dir, true),
        WindowsStartup::AddToPath {
            root: "/cef".to_string()
        }
    );
    assert_eq!(
        CefInstance::plan_windows_startup(&dir, false),
        WindowsStartup::ReportMissing {
            root: "/cef".to_string()
        }
    );
    assert_eq!(
        CefInstance::plan_windows_startup(&None, true),
        WindowsStartup::NotFound
    );
    assert_eq!(
        CefInstance::exe_path_error("gone"),
        "Failed to get current executable path: gone"
    );
}

#[test]
fn tells_the_browser_of_its_screen() {
    let mut state = RenderState::default();
    let rect = Rect {
        x: 0,
        y: 0,
        width: 800,
        height: 600,
    };
    assert_eq!(state.view_rect(), rect);
    let info = state.screen_info();
    assert_eq!(info.rect, rect);
    assert_eq!(info.available_rect, rect);
    assert_eq!(info.depth, 32);
    assert_eq!(info.depth_per_component, 8);
    assert_eq!(info.is_monochrome, 0);
    assert_eq!(screen_point(-3, 7), (-3, 7));
    state.width = u32::MAX;
    assert_eq!(state.view_rect().width, -1);
}

#[test]
fn captures_what_is_painted_to_the_view() {
    assert_eq!(
        on_accelerated_paint(false, true, true),
        PaintDecision::Ignore
    );
    assert_eq!(
        on_accelerated_paint(true, false, true),
        PaintDecision::NoInfo
    );
    assert_eq!(
        on_accelerated_paint(true, true, false),
        PaintDecision::NullTexture
    );
    assert_eq!(
        on_accelerated_paint(true, true, true),
        PaintDecision::Capture
    );
}

#[test]
fn reads_rows_without_what_lies_between_them() {
    let mapped: Vec<u8> = (0..28).collect();
    let frame = read_frame(&mapped, 10, 2, 3);
    assert_eq!(frame.width, 2);
    assert_eq!(frame.height, 3);
    let expected: Vec<u8> = vec![
        0, 1, 2, 3, 4, 5, 6, 7, 10, 11, 12, 13, 14, 15, 16, 17, 20, 21, 22, 23, 24, 25, 26, 27,
    ];
    assert_eq!(*frame.data, expected);
    let tight = read_frame(&mapped[..24], 8, 2, 3);
    assert_eq!(*tight.data, (0..24).collect::<Vec<u8>>());
    assert!(read_frame(&[], 8, 2, 0).data.is_empty());
    assert!(read_frame(&[], 0, 0, 5).data.is_empty());
    let mut state = RenderState::default();
    assert!(state.current_frame.is_none());
    state.take_frame(frame.clone());
    assert_eq!(*state.current_frame.unwrap().data, expected);
}
