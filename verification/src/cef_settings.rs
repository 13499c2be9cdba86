//! How the embedded browser is set up.

use crate::cef_runtime::{has_required_windows_runtime_layout, layout_complete, RuntimeLayout};
use crate::cef_runtime::RuntimeLayoutView;
use crate::text::{cat2, opt_clone};
use vstd::prelude::*;
use vstd::string::*;

verus! {

/// The system that the program runs on.
#[derive(Clone, Copy, Debug, PartialEq, Eq, Structural)]
pub enum Platform {
    MacOs,
    Windows,
    Other,
}

/// A switch of the embedded browser's command line.
#[derive(Debug, PartialEq, Eq)]
pub struct CommandLineSwitch {
    pub name: String,
    pub value: Option<String>,
}

/// The value of a [`CommandLineSwitch`].
#[verifier::ext_equal]
pub struct CommandLineSwitchView {
    pub name: Seq<char>,
    pub value: Option<Seq<char>>,
}

impl DeepView for CommandLineSwitch {
    type V = CommandLineSwitchView;

    open spec fn deep_view(&self) -> CommandLineSwitchView {
        CommandLineSwitchView {
            name: self.name@,
            value: self.value.deep_view(),
        }
    }
}

impl Clone for CommandLineSwitch {
    fn clone(&self) -> (r: Self)
        ensures
            r.deep_view() == self.deep_view(),
    {
        CommandLineSwitch {
            name: self.name.clone(),
            value: opt_clone(&self.value),
        }
    }
}

/// A helper program that may be there.
#[derive(Debug, PartialEq, Eq)]
pub struct HelperProbe {
    pub exists: bool,
    /// Its canonical path, where it has one.
    pub canonical: Option<String>,
}

/// The value of a [`HelperProbe`].
#[verifier::ext_equal]
pub struct HelperProbeView {
    pub exists: bool,
    pub canonical: Option<Seq<char>>,
}

impl DeepView for HelperProbe {
    type V = HelperProbeView;

    open spec fn deep_view(&self) -> HelperProbeView {
        HelperProbeView {
            exists: self.exists,
            canonical: self.canonical.deep_view(),
        }
    }
}

impl Clone for HelperProbe {
    fn clone(&self) -> (r: Self)
        ensures
            r.deep_view() == self.deep_view(),
    {
        HelperProbe {
            exists: self.exists,
            canonical: opt_clone(&self.canonical),
        }
    }
}

/// The directory of the embedded browser's files.
#[derive(Debug, PartialEq, Eq)]
pub struct WindowsRuntime {
    /// How it is shown to a user.
    pub display: String,
    pub layout: RuntimeLayout,
    /// Its path, where that is text.
    pub path: Option<String>,
    /// The path of the locales in it, where that is text.
    pub locales_path: Option<String>,
}

/// The value of a [`WindowsRuntime`].
#[verifier::ext_equal]
pub struct WindowsRuntimeView {
    pub display: Seq<char>,
    pub layout: RuntimeLayoutView,
    pub path: Option<Seq<char>>,
    pub locales_path: Option<Seq<char>>,
}

impl DeepView for WindowsRuntime {
    type V = WindowsRuntimeView;

    open spec fn deep_view(&self) -> WindowsRuntimeView {
        WindowsRuntimeView {
            display: self.display@,
            layout: self.layout.deep_view(),
            path: self.path.deep_view(),
            locales_path: self.locales_path.deep_view(),
        }
    }
}

impl Clone for WindowsRuntime {
    fn clone(&self) -> (r: Self)
        ensures
            r.deep_view() == self.deep_view(),
    {
        WindowsRuntime {
            display: self.display.clone(),
            layout: self.layout.clone(),
            path: opt_clone(&self.path),
            locales_path: opt_clone(&self.locales_path),
        }
    }
}

/// The framework of the embedded browser, used from outside a bundle.
#[derive(Debug, PartialEq, Eq)]
pub struct MacFramework {
    pub framework_exists: bool,
    pub framework_path: Option<String>,
    /// The directory of the executable.
    pub exe_dir: Option<String>,
}

/// The value of a [`MacFramework`].
#[verifier::ext_equal]
pub struct MacFrameworkView {
    pub framework_exists: bool,
    pub framework_path: Option<Seq<char>>,
    pub exe_dir: Option<Seq<char>>,
}

impl DeepView for MacFramework {
    type V = MacFrameworkView;

    open spec fn deep_view(&self) -> MacFrameworkView {
        MacFrameworkView {
            framework_exists: self.framework_exists,
            framework_path: self.framework_path.deep_view(),
            exe_dir: self.exe_dir.deep_view(),
        }
    }
}

impl Clone for MacFramework {
    fn clone(&self) -> (r: Self)
        ensures
            r.deep_view() == self.deep_view(),
    {
        MacFramework {
            framework_exists: self.framework_exists,
            framework_path: opt_clone(&self.framework_path),
            exe_dir: opt_clone(&self.exe_dir),
        }
    }
}

/// What was found out about the system.
#[derive(Debug, PartialEq, Eq)]
pub struct SettingsProbes {
    pub platform: Platform,
    pub debug_build: bool,
    pub debug_requested: bool,
    pub bundle_helper: HelperProbe,
    pub dev_helper: HelperProbe,
    pub exe_path: Option<String>,
    pub windows_runtime: Option<WindowsRuntime>,
    /// Whether the framework was loaded from the program's own bundle.
    pub from_bundle: bool,
    pub mac_framework: Option<MacFramework>,
    pub cache_path: Option<String>,
}

/// The value of a [`SettingsProbes`].
#[verifier::ext_equal]
pub struct SettingsProbesView {
    pub platform: Platform,
    pub debug_build: bool,
    pub debug_requested: bool,
    pub bundle_helper: HelperProbeView,
    pub dev_helper: HelperProbeView,
    pub exe_path: Option<Seq<char>>,
    pub windows_runtime: Option<WindowsRuntimeView>,
    pub from_bundle: bool,
    pub mac_framework: Option<MacFrameworkView>,
    pub cache_path: Option<Seq<char>>,
}

impl DeepView for SettingsProbes {
    type V = SettingsProbesView;

    open spec fn deep_view(&self) -> SettingsProbesView {
        SettingsProbesView {
            platform: self.platform,
            debug_build: self.debug_build,
            debug_requested: self.debug_requested,
            bundle_helper: self.bundle_helper.deep_view(),
            dev_helper: self.dev_helper.deep_view(),
            exe_path: self.exe_path.deep_view(),
            windows_runtime: self.windows_runtime.deep_view(),
            from_bundle: self.from_bundle,
            mac_framework: self.mac_framework.deep_view(),
            cache_path: self.cache_path.deep_view(),
        }
    }
}

impl Clone for SettingsProbes {
    fn clone(&self) -> (r: Self)
        ensures
            r.deep_view() == self.deep_view(),
    {
        SettingsProbes {
            platform: self.platform,
            debug_build: self.debug_build,
            debug_requested: self.debug_requested,
            bundle_helper: self.bundle_helper.clone(),
            dev_helper: self.dev_helper.clone(),
            exe_path: opt_clone(&self.exe_path),
            windows_runtime: self.windows_runtime.clone(),
            from_bundle: self.from_bundle,
            mac_framework: self.mac_framework.clone(),
            cache_path: opt_clone(&self.cache_path),
        }
    }
}

/// From which severity on the embedded browser logs.
#[derive(Clone, Copy, Debug, PartialEq, Eq, Structural)]
pub enum LogSeverity {
    Default,
    Verbose,
    Info,
    Warning,
    Error,
    Fatal,
    Disable,
}

/// The settings of the embedded browser.
#[derive(Debug, PartialEq, Eq)]
pub struct CefSettings {
    pub windowless_rendering_enabled: i32,
    pub external_message_pump: i32,
    pub no_sandbox: i32,
    pub log_severity: LogSeverity,
    pub user_agent: String,
    pub browser_subprocess_path: Option<String>,
    pub resources_dir_path: Option<String>,
    pub locales_dir_path: Option<String>,
    pub framework_dir_path: Option<String>,
    pub main_bundle_path: Option<String>,
    pub cache_path: Option<String>,
    pub root_cache_path: Option<String>,
    pub persist_session_cookies: i32,
    pub remote_debugging_port: i32,
}

/// The value of a [`CefSettings`].
#[verifier::ext_equal]
pub struct CefSettingsView {
    pub windowless_rendering_enabled: i32,
    pub external_message_pump: i32,
    pub no_sandbox: i32,
    pub log_severity: LogSeverity,
    pub user_agent: Seq<char>,
    pub browser_subprocess_path: Option<Seq<char>>,
    pub resources_dir_path: Option<Seq<char>>,
    pub locales_dir_path: Option<Seq<char>>,
    pub framework_dir_path: Option<Seq<char>>,
    pub main_bundle_path: Option<Seq<char>>,
    pub cache_path: Option<Seq<char>>,
    pub root_cache_path: Option<Seq<char>>,
    pub persist_session_cookies: i32,
    pub remote_debugging_port: i32,
}

impl DeepView for CefSettings {
    type V = CefSettingsView;

    open spec fn deep_view(&self) -> CefSettingsView {
        CefSettingsView {
            windowless_rendering_enabled: self.windowless_rendering_enabled,
            external_message_pump: self.external_message_pump,
            no_sandbox: self.no_sandbox,
            log_severity: self.log_severity,
            user_agent: self.user_agent@,
            browser_subprocess_path: self.browser_subprocess_path.deep_view(),
            resources_dir_path: self.resources_dir_path.deep_view(),
            locales_dir_path: self.locales_dir_path.deep_view(),
            framework_dir_path: self.framework_dir_path.deep_view(),
            main_bundle_path: self.main_bundle_path.deep_view(),
            cache_path: self.cache_path.deep_view(),
            root_cache_path: self.root_cache_path.deep_view(),
            persist_session_cookies: self.persist_session_cookies,
            remote_debugging_port: self.remote_debugging_port,
        }
    }
}

impl Clone for CefSettings {
    fn clone(&self) -> (r: Self)
        ensures
            r.deep_view() == self.deep_view(),
    {
        CefSettings {
            windowless_rendering_enabled: self.windowless_rendering_enabled,
            external_message_pump: self.external_message_pump,
            no_sandbox: self.no_sandbox,
            log_severity: self.log_severity,
            user_agent: self.user_agent.clone(),
            browser_subprocess_path: opt_clone(&self.browser_subprocess_path),
            resources_dir_path: opt_clone(&self.resources_dir_path),
            locales_dir_path: opt_clone(&self.locales_dir_path),
            framework_dir_path: opt_clone(&self.framework_dir_path),
            main_bundle_path: opt_clone(&self.main_bundle_path),
            cache_path: opt_clone(&self.cache_path),
            root_cache_path: opt_clone(&self.root_cache_path),
            persist_session_cookies: self.persist_session_cookies,
            remote_debugging_port: self.remote_debugging_port,
        }
    }
}

/// A switch without a value.
pub open spec fn plain(name: Seq<char>) -> CommandLineSwitchView {
    CommandLineSwitchView { name, value: None }
}

/// A switch with a value.
pub open spec fn valued(name: Seq<char>, value: Seq<char>) -> CommandLineSwitchView {
    CommandLineSwitchView { name, value: Some(value) }
}

/// `switches` where `wanted`, else none.
pub open spec fn only_if(wanted: bool, switches: Seq<CommandLineSwitchView>) -> Seq<
    CommandLineSwitchView,
> {
    if wanted {
        switches
    } else {
        Seq::empty()
    }
}

/// The switches that the embedded browser is started with.
pub open spec fn switches_of(
    platform: Platform,
    debug_build: bool,
    debug_requested: bool,
) -> Seq<CommandLineSwitchView> {
    seq![plain("no-startup-window"@), plain("noerrdialogs"@), plain("hide-crash-restore-bubble"@)]
        + only_if(debug_build, seq![plain("use-mock-keychain"@)]) + seq![
        plain("disable-gpu-sandbox"@),
        valued("autoplay-policy"@, "no-user-gesture-required"@),
        valued("component-updater"@, "fast-update"@),
    ] + only_if(platform == Platform::MacOs, seq![valued("use-angle"@, "metal"@)]) + seq![
        plain("ignore-gpu-blocklist"@),
        plain("enable-gpu-rasterization"@),
        plain("enable-zero-copy"@),
        plain("enable-accelerated-video-decode"@),
        plain("enable-accelerated-mjpeg-decode"@),
        valued("enable-features"@, "PlatformHEVCDecoderSupport,PlatformEncryptedDolbyVision"@),
    ] + only_if(
        platform == Platform::Windows,
        seq![valued("disable-features"@, "WebUsbDeviceDetection"@)],
    ) + only_if(
        debug_build && debug_requested,
        seq![plain("enable-logging=stderr"@), valued("remote-debugging-port"@, "9222"@)],
    )
}

fn push_switch(switches: &mut Vec<CommandLineSwitch>, name: &str)
    ensures
        final(switches).deep_view() == old(switches).deep_view().push(plain(name@)),
{
    let ghost before = switches.deep_view();
    switches.push(CommandLineSwitch { name: name.to_owned(), value: None });
    assert(switches.deep_view() =~= before.push(plain(name@)));
}

fn push_value(switches: &mut Vec<CommandLineSwitch>, name: &str, value: &str)
    ensures
        final(switches).deep_view() == old(switches).deep_view().push(valued(name@, value@)),
{
    let ghost before = switches.deep_view();
    switches.push(CommandLineSwitch { name: name.to_owned(), value: Some(value.to_owned()) });
    assert(switches.deep_view() =~= before.push(valued(name@, value@)));
}

/// The switches that the embedded browser is started with.
pub fn command_line_switches(platform: Platform, debug_build: bool, debug_requested: bool) -> (r:
    Vec<CommandLineSwitch>)
    ensures
        r.deep_view() == switches_of(platform, debug_build, debug_requested),
{
    let mut r: Vec<CommandLineSwitch> = Vec::new();
    push_switch(&mut r, "no-startup-window");
    push_switch(&mut r, "noerrdialogs");
    push_switch(&mut r, "hide-crash-restore-bubble");
    if debug_build {
        push_switch(&mut r, "use-mock-keychain");
    }
    push_switch(&mut r, "disable-gpu-sandbox");
    push_value(&mut r, "autoplay-policy", "no-user-gesture-required");
    push_value(&mut r, "component-updater", "fast-update");
    if platform == Platform::MacOs {
        push_value(&mut r, "use-angle", "metal");
    }
    push_switch(&mut r, "ignore-gpu-blocklist");
    push_switch(&mut r, "enable-gpu-rasterization");
    push_switch(&mut r, "enable-zero-copy");
    push_switch(&mut r, "enable-accelerated-video-decode");
    push_switch(&mut r, "enable-accelerated-mjpeg-decode");
    push_value(
        &mut r,
        "enable-features",
        "PlatformHEVCDecoderSupport,PlatformEncryptedDolbyVision",
    );
    if platform == Platform::Windows {
        push_value(&mut r, "disable-features", "WebUsbDeviceDetection");
    }
    if debug_build && debug_requested {
        push_switch(&mut r, "enable-logging=stderr");
        push_value(&mut r, "remote-debugging-port", "9222");
    }
    assert(r.deep_view() =~= switches_of(platform, debug_build, debug_requested));
    r
}

/// The switches that a helper of the embedded browser is started with.
pub fn child_process_switches() -> (r: Vec<CommandLineSwitch>)
    ensures
        r.deep_view() == seq![plain("disable-session-crashed-bubble"@)],
{
    let mut r: Vec<CommandLineSwitch> = Vec::new();
    push_switch(&mut r, "disable-session-crashed-bubble");
    assert(r.deep_view() =~= seq![plain("disable-session-crashed-bubble"@)]);
    r
}

/// A switch of the name stands among `switches`.
pub open spec fn has_switch(switches: Seq<CommandLineSwitchView>, name: Seq<char>) -> bool {
    exists|i: int| 0 <= i < switches.len() && (#[trigger] switches[i]).name == name
}

/// A release build keeps the real keychain and opens no port for debugging; a port is opened only
/// where it was asked for.
pub proof fn lemma_release_build_is_locked_down(platform: Platform, debug_requested: bool)
    ensures
        !has_switch(switches_of(platform, false, debug_requested), "use-mock-keychain"@),
        !has_switch(switches_of(platform, false, debug_requested), "remote-debugging-port"@),
        !has_switch(switches_of(platform, true, false), "remote-debugging-port"@),
        has_switch(switches_of(platform, true, true), "remote-debugging-port"@),
        has_switch(switches_of(platform, true, debug_requested), "use-mock-keychain"@),
{
    let wanted = switches_of(platform, true, true);
    let n = wanted.len() - 1;
    assert(wanted[n].name == "remote-debugging-port"@);
    let debug = switches_of(platform, true, debug_requested);
    assert(debug[3].name == "use-mock-keychain"@);
    lemma_common_switch_names(platform, false, debug_requested);
    lemma_common_switch_names(platform, true, false);
}

/// The names of the switches that are not for debugging.
proof fn lemma_common_switch_names(platform: Platform, debug_build: bool, debug_requested: bool)
    requires
        !(debug_build && debug_requested),
    ensures
        forall|i: int|
            0 <= i < switches_of(platform, debug_build, debug_requested).len() ==> (
            #[trigger] switches_of(platform, debug_build, debug_requested)[i]).name
                != "remote-debugging-port"@ && (!debug_build ==> switches_of(
                platform,
                debug_build,
                debug_requested,
            )[i].name != "use-mock-keychain"@),
{
    reveal_strlit("no-startup-window");
    reveal_strlit("noerrdialogs");
    reveal_strlit("hide-crash-restore-bubble");
    reveal_strlit("use-mock-keychain");
    reveal_strlit("disable-gpu-sandbox");
    reveal_strlit("autoplay-policy");
    reveal_strlit("component-updater");
    reveal_strlit("use-angle");
    reveal_strlit("ignore-gpu-blocklist");
    reveal_strlit("enable-gpu-rasterization");
    reveal_strlit("enable-zero-copy");
    reveal_strlit("enable-accelerated-video-decode");
    reveal_strlit("enable-accelerated-mjpeg-decode");
    reveal_strlit("enable-features");
    reveal_strlit("disable-features");
    reveal_strlit("remote-debugging-port");
    assert("remote-debugging-port"@[0] == 'r');
    assert("no-startup-window"@[0] == 'n');
    assert("noerrdialogs"@[0] == 'n');
    assert("hide-crash-restore-bubble"@[0] == 'h');
    assert("use-mock-keychain"@[0] == 'u' && "use-mock-keychain"@.len() == 17);
    assert("disable-gpu-sandbox"@[0] == 'd');
    assert("autoplay-policy"@[0] == 'a');
    assert("component-updater"@[0] == 'c');
    assert("use-angle"@[0] == 'u' && "use-angle"@.len() == 9);
    assert("ignore-gpu-blocklist"@[0] == 'i');
    assert("enable-gpu-rasterization"@[0] == 'e');
    assert("enable-zero-copy"@[0] == 'e');
    assert("enable-accelerated-video-decode"@[0] == 'e');
    assert("enable-accelerated-mjpeg-decode"@[0] == 'e');
    assert("enable-features"@[0] == 'e');
    assert("disable-features"@[0] == 'd');
}

/// The browser that the embedded one says it is.
pub open spec fn user_agent_of(platform: Platform) -> Seq<char> {
    if platform == Platform::Windows {
        "Mozilla/5.0 (Windows NT 10.0; Win64; x64) AppleWebKit/537.36 (KHTML, like Gecko) Chrome/145.0.7632.75 Safari/537.36"@
    } else {
        "Mozilla/5.0 (Macintosh; Intel Mac OS X 10_15_7) AppleWebKit/537.36 (KHTML, like Gecko) Chrome/145.0.7632.75 Safari/537.36"@
    }
}

/// The helper program on macOS: the one in the bundle, or else the one beside the executable.
pub open spec fn helper_of(bundle: HelperProbeView, dev: HelperProbeView) -> Option<Seq<char>> {
    if bundle.exists {
        bundle.canonical
    } else if dev.exists {
        dev.canonical
    } else {
        None
    }
}

/// What keeps the embedded browser from being set up.
pub open spec fn setup_error(probes: SettingsProbesView) -> Option<Seq<char>> {
    if probes.platform == Platform::Windows {
        match probes.windows_runtime {
            None => Some(
                "Windows CEF runtime root could not be resolved during initialize_cef()."@,
            ),
            Some(runtime) => if layout_complete(runtime.layout) {
                None
            } else {
                Some(
                    "Windows CEF runtime root is missing required files/directories: "@
                        + runtime.display,
                )
            },
        }
    } else {
        None
    }
}

/// The settings of the embedded browser.
pub open spec fn settings_of(probes: SettingsProbesView) -> CefSettingsView {
    CefSettingsView {
        windowless_rendering_enabled: 1,
        external_message_pump: 1,
        no_sandbox: 1,
        log_severity: LogSeverity::Warning,
        user_agent: user_agent_of(probes.platform),
        browser_subprocess_path: match probes.platform {
            Platform::MacOs => helper_of(probes.bundle_helper, probes.dev_helper),
            Platform::Windows => probes.exe_path,
            Platform::Other => None,
        },
        resources_dir_path: match (probes.platform, probes.windows_runtime) {
            (Platform::Windows, Some(runtime)) => runtime.path,
            _ => None,
        },
        locales_dir_path: match (probes.platform, probes.windows_runtime) {
            (Platform::Windows, Some(runtime)) => runtime.locales_path,
            _ => None,
        },
        framework_dir_path: match (probes.platform, probes.mac_framework) {
            (Platform::MacOs, Some(framework)) if !probes.from_bundle
                && framework.framework_exists => framework.framework_path,
            _ => None,
        },
        main_bundle_path: match (probes.platform, probes.mac_framework) {
            (Platform::MacOs, Some(framework)) if !probes.from_bundle => framework.exe_dir,
            _ => None,
        },
        cache_path: probes.cache_path,
        root_cache_path: probes.cache_path,
        persist_session_cookies: 1,
        remote_debugging_port: if probes.debug_build && probes.debug_requested {
            9222
        } else {
            0
        },
    }
}

fn helper_path(bundle: &HelperProbe, dev: &HelperProbe) -> (r: Option<String>)
    ensures
        r.deep_view() == helper_of(bundle.deep_view(), dev.deep_view()),
{
    if bundle.exists {
        opt_clone(&bundle.canonical)
    } else if dev.exists {
        opt_clone(&dev.canonical)
    } else {
        None
    }
}

fn user_agent(platform: Platform) -> (r: String)
    ensures
        r@ == user_agent_of(platform),
{
    if platform == Platform::Windows {
        "Mozilla/5.0 (Windows NT 10.0; Win64; x64) AppleWebKit/537.36 (KHTML, like Gecko) Chrome/145.0.7632.75 Safari/537.36".to_owned()
    } else {
        "Mozilla/5.0 (Macintosh; Intel Mac OS X 10_15_7) AppleWebKit/537.36 (KHTML, like Gecko) Chrome/145.0.7632.75 Safari/537.36".to_owned()
    }
}

/// The settings of the embedded browser, or what keeps it from being set up.
pub fn initialize_cef(probes: &SettingsProbes) -> (r: Result<CefSettings, String>)
    ensures
        match r {
            Ok(settings) => setup_error(probes.deep_view()) is None && settings.deep_view()
                == settings_of(probes.deep_view()),
            Err(message) => setup_error(probes.deep_view()) == Some(message@),
        },
{
    let mut settings = CefSettings {
        windowless_rendering_enabled: 1,
        external_message_pump: 1,
        no_sandbox: 1,
        log_severity: LogSeverity::Warning,
        user_agent: user_agent(probes.platform),
        browser_subprocess_path: None,
        resources_dir_path: None,
        locales_dir_path: None,
        framework_dir_path: None,
        main_bundle_path: None,
        cache_path: opt_clone(&probes.cache_path),
        root_cache_path: opt_clone(&probes.cache_path),
        persist_session_cookies: 1,
        remote_debugging_port: 0,
    };
    match probes.platform {
        Platform::MacOs => {
            settings.browser_subprocess_path =
            helper_path(&probes.bundle_helper, &probes.dev_helper);
            if !probes.from_bundle {
                if let Some(framework) = &probes.mac_framework {
                    if framework.framework_exists {
                        settings.framework_dir_path = opt_clone(&framework.framework_path);
                    }
                    settings.main_bundle_path = opt_clone(&framework.exe_dir);
                }
            }
        },
        Platform::Windows => {
            settings.browser_subprocess_path = opt_clone(&probes.exe_path);
            match &probes.windows_runtime {
                Some(runtime) => {
                    if !has_required_windows_runtime_layout(&runtime.layout) {
                        return Err(
                            cat2(
                                "Windows CEF runtime root is missing required files/directories: ",
                                runtime.display.as_str(),
                            ),
                        );
                    }
                    settings.resources_dir_path = opt_clone(&runtime.path);
                    settings.locales_dir_path = opt_clone(&runtime.locales_path);
                },
                None => {
                    return Err(
                        "Windows CEF runtime root could not be resolved during initialize_cef().".to_owned(),
                    );
                },
            }
        },
        Platform::Other => {},
    }
    if probes.debug_build && probes.debug_requested {
        settings.remote_debugging_port = 9222;
    }
    Ok(settings)
}

/// A program that runs from its bundle leaves it to the embedded browser to find the bundle.
pub proof fn lemma_bundle_is_left_to_be_found(probes: SettingsProbesView)
    requires
        probes.from_bundle,
    ensures
        settings_of(probes).framework_dir_path is None,
        settings_of(probes).main_bundle_path is None,
{
}

/// The settings open a port for debugging only in a debug build that was asked for it, and there
/// they do.
pub proof fn lemma_port_is_opened_only_on_request(probes: SettingsProbesView)
    ensures
        settings_of(probes).remote_debugging_port != 0 <==> probes.debug_build
            && probes.debug_requested,
{
}

/// The embedded browser is set up on Windows only with all its files in place.
pub proof fn lemma_windows_setup_needs_all_files(probes: SettingsProbesView)
    requires
        probes.platform == Platform::Windows,
        setup_error(probes) is None,
    ensures
        probes.windows_runtime matches Some(runtime) && layout_complete(runtime.layout)
            && settings_of(probes).resources_dir_path == runtime.path,
{
}

} // verus!
