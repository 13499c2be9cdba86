//! How the embedded browser is found, set up, started, pumped and stopped.

use crate::cef_instance::{closing, fresh_state, initialize_step, mac_load, process_told, pump_due};
use crate::cef_instance::{pump_wait, pumped, pumping, scheduled, start_failure, started, stopped};
use crate::cef_instance::{stopping, windows_startup, CefStateView, InitializeStepView, MacLoadView};
use crate::cef_instance::WindowsStartupView;
use crate::cef_runtime::{below, env_passed_over, framework_dir, has_library, layout_complete};
use crate::cef_runtime::{marked, path_with_root, runtime_dirs, runtime_files, runtime_root, unmarked};
use crate::cef_runtime::{RuntimeLayoutView, RuntimeProbesView};
use crate::cef_settings::{settings_of, setup_error, switches_of};
use crate::cef_settings::{LogSeverity, Platform, SettingsProbesView};
use crate::input::key_before;
use crate::render_handler::{frame_bytes, view_rect_of, RenderStateView};
use crate::text::{integer_text, lemma_text_le_antisymmetric, lemma_text_le_total};
use vstd::prelude::*;

verus! {

/// The files and directories that are needed, by name.
pub proof fn lemma_needed_files()
    ensures
        runtime_files().len() == 7,
        runtime_files()[0] == "libcef.dll"@,
        runtime_files()[1] == "chrome_elf.dll"@,
        runtime_files()[2] == "icudtl.dat"@,
        runtime_files()[3] == "resources.pak"@,
        runtime_files()[4] == "chrome_100_percent.pak"@,
        runtime_files()[5] == "chrome_200_percent.pak"@,
        runtime_files()[6] == "v8_context_snapshot.bin"@,
        runtime_dirs().len() == 1,
        runtime_dirs()[0] == "locales"@,
{
}

/// A directory is complete exactly where each of the files and directories is there; its library is
/// the first of the files.
pub proof fn lemma_complete_layout(layout: RuntimeLayoutView)
    requires
        layout.files.len() == 7,
        layout.dirs.len() == 1,
    ensures
        layout_complete(layout) <==> (forall|i: int| 0 <= i < 7 ==> #[trigger] layout.files[i])
            && layout.dirs[0],
        has_library(layout) <==> layout.files[0],
{
    if layout_complete(layout) {
        assert forall|i: int| 0 <= i < 7 implies #[trigger] layout.files[i] by {
            assert(marked(layout.files, i));
        }
        assert(marked(layout.dirs, 0));
    }
    if (forall|i: int| 0 <= i < 7 ==> #[trigger] layout.files[i]) && layout.dirs[0] {
        assert forall|i: int| 0 <= i < 7 implies #[trigger] marked(layout.files, i) by {
            assert(layout.files[i]);
        }
    }
}

/// What was found before is used again. Else nothing is found without the place of the executable;
/// of its own directory, the one beside it and the one that the environment names, the first that is
/// complete is used.
pub proof fn lemma_where_the_files_are_found(
    root: Seq<char>,
    probes: RuntimeProbesView,
)
    ensures
        runtime_root(Some(root), probes) == Some(root),
        probes.exe_dir is None ==> runtime_root(None, probes) is None,
        probes.exe_dir matches Some(exe) ==> ({
            let own = layout_complete(exe.layout);
            let beside = layout_complete(probes.staged.layout);
            &&& exe.canonical is None ==> runtime_root(None, probes) is None
            &&& exe.canonical is Some && own ==> runtime_root(None, probes) == exe.canonical
            &&& exe.canonical is Some && !own && beside ==> runtime_root(None, probes)
                == probes.staged.canonical
            &&& exe.canonical is Some && !own && !beside ==> (
            probes.from_env matches Some(env) && layout_complete(env.layout)) ==> runtime_root(
                None,
                probes,
            ) == probes.from_env.unwrap().canonical
            &&& exe.canonical is Some && !own && !beside && !(
            probes.from_env matches Some(env) && layout_complete(env.layout)) ==> runtime_root(
                None,
                probes,
            ) is None
        }),
{
}

/// A directory that the environment names is reported as passed over where it holds the library and
/// would have been used, had it been complete.
pub proof fn lemma_incomplete_directory_is_reported(
    cached: Option<Seq<char>>,
    probes: RuntimeProbesView,
)
    ensures
        env_passed_over(cached, probes) ==> runtime_root(cached, probes) is None,
        env_passed_over(cached, probes) ==> (probes.from_env matches Some(env) && has_library(
            env.layout,
        ) && !layout_complete(env.layout)),
        cached is None && runtime_root(cached, probes) is None && (
        probes.exe_dir matches Some(exe) && exe.canonical is Some && !layout_complete(exe.layout))
            && !layout_complete(probes.staged.layout) && (
        probes.from_env matches Some(env) && has_library(env.layout) && !layout_complete(
            env.layout,
        )) ==> env_passed_over(cached, probes),
{
}

/// A name is reported as missing exactly where it is not marked, and the names keep their order.
pub proof fn lemma_missing_names(names: Seq<Seq<char>>, name: Seq<char>, flags: Seq<bool>)
    ensures
        unmarked(Seq::empty(), flags).len() == 0,
        names.len() < flags.len() && flags[names.len() as int] ==> unmarked(names.push(name), flags)
            == unmarked(names, flags),
        !(names.len() < flags.len() && flags[names.len() as int]) ==> unmarked(
            names.push(name),
            flags,
        ) == unmarked(names, flags).push(name),
{
    assert(names.push(name).drop_last() =~= names);
}

/// A directory is put in front of the search path, unless an entry is marked as it.
pub proof fn lemma_search_path<T>(entries: Seq<T>, is_root: Seq<bool>, root: T, i: int)
    ensures
        0 <= i < is_root.len() && is_root[i] ==> path_with_root(entries, is_root, root) is None,
        (forall|j: int| 0 <= j < is_root.len() ==> !#[trigger] is_root[j]) ==> (path_with_root(
            entries,
            is_root,
            root,
        ) matches Some(path) && path.len() == entries.len() + 1 && path[0] == root
            && path.drop_first() == entries),
{
    if 0 <= i < is_root.len() && is_root[i] {
        assert(marked(is_root, i));
    }
    assert((seq![root] + entries).drop_first() =~= entries);
}

/// A path below a directory is the two with one slash between them.
pub proof fn lemma_below(base: Seq<char>, rest: Seq<char>)
    ensures
        below(Seq::empty(), rest) == rest,
        base.len() > 0 && base.last() != '/' ==> below(base, rest) == base + "/"@ + rest,
        below(base.push('/'), rest) == base + "/"@ + rest,
{
    reveal_strlit("/");
    assert("/"@ =~= seq!['/']);
    assert(base.push('/') =~= base + "/"@);
}

/// The environment says where the framework may stand, or else it may in the user's home.
pub proof fn lemma_framework_dir(path: Seq<char>, home: Option<Seq<char>>, user: Seq<char>)
    ensures
        framework_dir(Some(path), home) == Some(path),
        framework_dir(None, Some(user)) == Some(below(user, ".local/share/cef"@)),
        framework_dir(None, None) is None,
{
}

/// The switches stand in order, those of a debug build or of a platform in their places.
pub proof fn lemma_switches(platform: Platform, debug_build: bool, debug_requested: bool)
    ensures
        ({
            let all = switches_of(platform, debug_build, debug_requested);
            let debug: int = if debug_build {
                1
            } else {
                0
            };
            let mac: int = if platform == Platform::MacOs {
                1
            } else {
                0
            };
            let windows: int = if platform == Platform::Windows {
                1
            } else {
                0
            };
            let port: int = if debug_build && debug_requested {
                2
            } else {
                0
            };
            &&& all.len() == 12 + debug + mac + windows + port
            &&& all[0].name == "no-startup-window"@ && all[0].value is None
            &&& all[1].name == "noerrdialogs"@ && all[1].value is None
            &&& all[2].name == "hide-crash-restore-bubble"@ && all[2].value is None
            &&& debug_build ==> all[3].name == "use-mock-keychain"@ && all[3].value is None
            &&& all[3 + debug].name == "disable-gpu-sandbox"@ && all[3 + debug].value is None
            &&& all[4 + debug].name == "autoplay-policy"@ && all[4 + debug].value == Some(
                "no-user-gesture-required"@,
            )
            &&& all[5 + debug].name == "component-updater"@ && all[5 + debug].value == Some(
                "fast-update"@,
            )
            &&& platform == Platform::MacOs ==> all[6 + debug].name == "use-angle"@ && all[6
                + debug].value == Some("metal"@)
            &&& all[6 + debug + mac].name == "ignore-gpu-blocklist"@ && all[6 + debug + mac].value
                is None
            &&& all[7 + debug + mac].name == "enable-gpu-rasterization"@ && all[7 + debug
                + mac].value is None
            &&& all[8 + debug + mac].name == "enable-zero-copy"@ && all[8 + debug + mac].value
                is None
            &&& all[9 + debug + mac].name == "enable-accelerated-video-decode"@ && all[9 + debug
                + mac].value is None
            &&& all[10 + debug + mac].name == "enable-accelerated-mjpeg-decode"@ && all[10 + debug
                + mac].value is None
            &&& all[11 + debug + mac].name == "enable-features"@ && all[11 + debug + mac].value
                == Some("PlatformHEVCDecoderSupport,PlatformEncryptedDolbyVision"@)
            &&& platform == Platform::Windows ==> all[12 + debug].name == "disable-features"@
                && all[12 + debug].value == Some("WebUsbDeviceDetection"@)
            &&& debug_build && debug_requested ==> all[12 + debug + mac + windows].name
                == "enable-logging=stderr"@ && all[12 + debug + mac + windows].value is None
                && all[13 + debug + mac + windows].name == "remote-debugging-port"@ && all[13
                + debug + mac + windows].value == Some("9222"@)
        }),
{
}

/// On every platform the browser is rendered without a window, pumped by the program and kept out of
/// a sandbox, keeps its cookies, and writes no more than warnings; what it keeps stands in one place.
pub proof fn lemma_settings_on_every_platform(probes: SettingsProbesView)
    ensures
        ({
            let settings = settings_of(probes);
            &&& settings.windowless_rendering_enabled == 1
            &&& settings.external_message_pump == 1
            &&& settings.no_sandbox == 1
            &&& settings.persist_session_cookies == 1
            &&& settings.log_severity == LogSeverity::Warning
            &&& settings.cache_path == probes.cache_path
            &&& settings.root_cache_path == probes.cache_path
            &&& probes.debug_build && probes.debug_requested ==> settings.remote_debugging_port
                == 9222
            &&& !probes.debug_build || !probes.debug_requested ==> settings.remote_debugging_port
                == 0
            &&& probes.platform == Platform::Windows ==> settings.user_agent
                == "Mozilla/5.0 (Windows NT 10.0; Win64; x64) AppleWebKit/537.36 (KHTML, like Gecko) Chrome/145.0.7632.75 Safari/537.36"@
            &&& probes.platform != Platform::Windows ==> settings.user_agent
                == "Mozilla/5.0 (Macintosh; Intel Mac OS X 10_15_7) AppleWebKit/537.36 (KHTML, like Gecko) Chrome/145.0.7632.75 Safari/537.36"@
        }),
{
}

/// On Windows the program is its own helper, and the browser's files are taken from where they were
/// found. It cannot be set up without them.
pub proof fn lemma_settings_on_windows(probes: SettingsProbesView)
    requires
        probes.platform == Platform::Windows,
    ensures
        ({
            let settings = settings_of(probes);
            &&& settings.browser_subprocess_path == probes.exe_path
            &&& settings.framework_dir_path is None && settings.main_bundle_path is None
            &&& probes.windows_runtime is None ==> settings.resources_dir_path is None
                && settings.locales_dir_path is None && setup_error(probes) == Some(
                "Windows CEF runtime root could not be resolved during initialize_cef()."@,
            )
            &&& (probes.windows_runtime matches Some(runtime) ==> settings.resources_dir_path
                == runtime.path && settings.locales_dir_path == runtime.locales_path && (
            layout_complete(runtime.layout) ==> setup_error(probes) is None) && (!layout_complete(
                runtime.layout,
            ) ==> setup_error(probes) == Some(
                "Windows CEF runtime root is missing required files/directories: "@
                    + runtime.display,
            )))
        }),
{
}

/// On macOS the helper is the one in the bundle, or else the one beside the executable. Where the
/// framework was not loaded from the bundle, the browser is told where it is.
pub proof fn lemma_settings_on_mac(probes: SettingsProbesView)
    requires
        probes.platform == Platform::MacOs,
    ensures
        ({
            let settings = settings_of(probes);
            &&& setup_error(probes) is None
            &&& settings.resources_dir_path is None && settings.locales_dir_path is None
            &&& probes.bundle_helper.exists ==> settings.browser_subprocess_path
                == probes.bundle_helper.canonical
            &&& !probes.bundle_helper.exists && probes.dev_helper.exists
                ==> settings.browser_subprocess_path == probes.dev_helper.canonical
            &&& !probes.bundle_helper.exists && !probes.dev_helper.exists
                ==> settings.browser_subprocess_path is None
            &&& probes.from_bundle || probes.mac_framework is None ==> settings.framework_dir_path
                is None && settings.main_bundle_path is None
            &&& !probes.from_bundle ==> (probes.mac_framework matches Some(framework)
                ==> settings.main_bundle_path == framework.exe_dir && (framework.framework_exists
                ==> settings.framework_dir_path == framework.framework_path) && (
            !framework.framework_exists ==> settings.framework_dir_path is None))
        }),
{
}

/// On any other platform the browser finds everything by itself.
pub proof fn lemma_settings_elsewhere(probes: SettingsProbesView)
    requires
        probes.platform == Platform::Other,
    ensures
        setup_error(probes) is None,
        settings_of(probes).browser_subprocess_path is None,
        settings_of(probes).resources_dir_path is None,
        settings_of(probes).locales_dir_path is None,
        settings_of(probes).framework_dir_path is None,
        settings_of(probes).main_bundle_path is None,
{
}

/// Only when the messages are pumped next is other than it was.
pub open spec fn only_pump_changes(before: CefStateView, after: CefStateView) -> bool {
    &&& after.subprocess_handled == before.subprocess_handled
    &&& after.initialized == before.initialized
    &&& after.context_ready == before.context_ready
    &&& after.has_instance == before.has_instance
    &&& after.has_app == before.has_app
    &&& after.loaded_from_bundle == before.loaded_from_bundle
    &&& after.windows_runtime_root == before.windows_runtime_root
}

/// Work that is asked for is done after its delay in milliseconds, or earlier where something is due
/// before; a negative delay is none.
pub proof fn lemma_work_is_scheduled(state: CefStateView, now_us: int, delay_ms: int)
    requires
        0 <= now_us,
        now_us + delay_ms * 1000 <= u64::MAX,
        now_us <= u64::MAX,
    ensures
        ({
            let after = scheduled(state, now_us, delay_ms);
            &&& only_pump_changes(state, after)
            &&& delay_ms >= 0 && now_us + delay_ms * 1000 < state.next_pump_at_us
                ==> after.next_pump_at_us == now_us + delay_ms * 1000
            &&& delay_ms >= 0 && now_us + delay_ms * 1000 >= state.next_pump_at_us
                ==> after.next_pump_at_us == state.next_pump_at_us
            &&& delay_ms < 0 && now_us < state.next_pump_at_us ==> after.next_pump_at_us == now_us
            &&& delay_ms < 0 && now_us >= state.next_pump_at_us ==> after.next_pump_at_us
                == state.next_pump_at_us
        }),
{
}

/// The messages are pumped when their time has come, in a browser that is ready. The pump takes back
/// what was asked for, and looks again after thirty-three milliseconds unless something is asked for
/// meanwhile.
pub proof fn lemma_messages_are_pumped(state: CefStateView, now_us: int)
    requires
        0 <= now_us,
        now_us + 33_000 <= u64::MAX,
    ensures
        pump_due(state, now_us) <==> state.context_ready && state.next_pump_at_us <= now_us,
        state.next_pump_at_us >= now_us ==> pump_wait(state, now_us) == state.next_pump_at_us
            - now_us,
        state.next_pump_at_us < now_us ==> pump_wait(state, now_us) == 0,
        only_pump_changes(state, pumping(state)),
        state.context_ready ==> pumping(state).next_pump_at_us == u64::MAX,
        !state.context_ready ==> pumping(state).next_pump_at_us == state.next_pump_at_us,
        only_pump_changes(state, pumped(state, now_us)),
        state.next_pump_at_us == u64::MAX ==> pumped(state, now_us).next_pump_at_us == now_us
            + 33_000,
        state.next_pump_at_us != u64::MAX ==> pumped(state, now_us).next_pump_at_us
            == state.next_pump_at_us,
{
}

/// The program starts with nothing done and nothing to pump.
pub proof fn lemma_program_starts_fresh()
    ensures
        ({
            let state = fresh_state();
            &&& !state.subprocess_handled && !state.initialized && !state.context_ready
            &&& !state.has_instance && !state.has_app && !state.loaded_from_bundle
            &&& state.windows_runtime_root is None
            &&& state.next_pump_at_us == u64::MAX
        }),
{
}

/// The browser is started where the process was told from its helpers and the callbacks are in
/// place; where one is missing, the user is told which. One that runs is not started again.
pub proof fn lemma_when_the_browser_starts(state: CefStateView)
    ensures
        state.initialized && state.has_instance ==> initialize_step(state)
            == InitializeStepView::Running,
        !(state.initialized && state.has_instance) && !state.subprocess_handled ==> initialize_step(
            state,
        ) == (InitializeStepView::Refused {
            message:
                "CEF subprocess handling was not done. Call CefInstance::handle_subprocess() early in main()."@,
        }),
        !(state.initialized && state.has_instance) && state.subprocess_handled && !state.has_app
            ==> initialize_step(state) == (InitializeStepView::Refused {
            message: "CEF App not found. handle_subprocess() must be called first."@,
        }),
        !(state.initialized && state.has_instance) && state.subprocess_handled && state.has_app
            ==> initialize_step(state) == InitializeStepView::Proceed,
{
}

/// Each step changes what it is about and nothing else. A start counts only where the browser
/// reported one, and a process goes on only where it was told that it is no helper.
pub proof fn lemma_steps_change_what_they_are_about(state: CefStateView, code: int)
    ensures
        started(state, 1) == (CefStateView { initialized: true, has_instance: true, ..state }),
        code != 1 ==> started(state, code) == state,
        code < 0 ==> process_told(state, code) == (CefStateView {
            subprocess_handled: true,
            has_app: true,
            ..state
        }),
        code >= 0 ==> process_told(state, code) == state,
        closing(state) == (CefStateView { context_ready: false, ..state }),
        stopping(state) == (CefStateView { initialized: false, has_instance: false, ..state }),
        stopped(state) == (CefStateView { has_app: false, windows_runtime_root: None, ..state }),
        start_failure(code) == "Failed to initialize CEF (error code: "@ + integer_text(code)
            + ")"@,
{
}

/// The framework is loaded from the bundle, or else from the directory that it was found in.
pub proof fn lemma_where_the_framework_is_loaded(cef_dir: Option<Seq<char>>, dir: Seq<char>)
    ensures
        mac_load(true, cef_dir) == MacLoadView::Bundle,
        mac_load(false, Some(dir)) == (MacLoadView::Directory { dir }),
        mac_load(false, None) == MacLoadView::NotFound,
        windows_startup(Some(dir), true) == (WindowsStartupView::AddToPath { root: dir }),
        windows_startup(Some(dir), false) == (WindowsStartupView::ReportMissing { root: dir }),
        windows_startup(None, true) == WindowsStartupView::NotFound,
        windows_startup(None, false) == WindowsStartupView::NotFound,
{
}

/// The view starts at the corner of the screen and is as wide and high as it was last set.
pub proof fn lemma_view_rect(state: RenderStateView)
    requires
        state.width <= i32::MAX,
        state.height <= i32::MAX,
    ensures
        view_rect_of(state).x == 0,
        view_rect_of(state).y == 0,
        view_rect_of(state).width == state.width,
        view_rect_of(state).height == state.height,
{
}

/// A frame without rows, or with empty ones, holds nothing.
pub proof fn lemma_empty_frame(mapped: Seq<u8>, row_pitch: int, row_bytes: int, rows: int)
    ensures
        row_bytes == 0 || rows == 0 ==> frame_bytes(mapped, row_pitch, row_bytes, rows).len() == 0,
{
    assert(row_bytes == 0 || rows == 0 ==> row_bytes * rows == 0) by (nonlinear_arith);
}

/// Of two keys that differ exactly one stands before the other, and none stands before itself.
pub proof fn lemma_keys_are_in_order(a: Seq<char>, b: Seq<char>)
    ensures
        !key_before(a, a),
        a != b ==> (key_before(a, b) <==> !key_before(b, a)),
{
    lemma_text_le_total(a, b);
    if key_before(a, b) && key_before(b, a) {
        lemma_text_le_antisymmetric(a, b);
    }
}

} // verus!
