//! The life of the embedded browser: its start in two steps, the pumping of its messages, and its
//! end.

use crate::text::{cat2, cat3, int_to_string, integer_text, opt_clone};
use vstd::prelude::*;
use vstd::string::*;

verus! {

/// The time in microseconds after which the messages are looked at again though nothing asked for
/// it.
pub const IDLE_PUMP_US: u64 = 33_000;

/// How often the messages are pumped for browsers that are being closed.
pub const CLOSING_PUMPS: u32 = 10;

/// A handle on the embedded browser that runs.
#[derive(Clone, Copy, Debug, PartialEq, Eq, Structural)]
pub struct CefInstance {}

/// How the embedded browser stands.
#[derive(Debug, PartialEq, Eq)]
pub struct CefState {
    /// The process is known not to be a helper of the browser.
    pub subprocess_handled: bool,
    pub initialized: bool,
    /// Browsers can be created.
    pub context_ready: bool,
    pub has_instance: bool,
    /// The callbacks of the browser are in place.
    pub has_app: bool,
    pub loaded_from_bundle: bool,
    pub windows_runtime_root: Option<String>,
    /// When the messages are pumped next; the greatest number stands for never.
    pub next_pump_at_us: u64,
}

/// The value of a [`CefState`].
#[verifier::ext_equal]
pub struct CefStateView {
    pub subprocess_handled: bool,
    pub initialized: bool,
    pub context_ready: bool,
    pub has_instance: bool,
    pub has_app: bool,
    pub loaded_from_bundle: bool,
    pub windows_runtime_root: Option<Seq<char>>,
    pub next_pump_at_us: u64,
}

impl DeepView for CefState {
    type V = CefStateView;

    open spec fn deep_view(&self) -> CefStateView {
        CefStateView {
            subprocess_handled: self.subprocess_handled,
            initialized: self.initialized,
            context_ready: self.context_ready,
            has_instance: self.has_instance,
            has_app: self.has_app,
            loaded_from_bundle: self.loaded_from_bundle,
            windows_runtime_root: self.windows_runtime_root.deep_view(),
            next_pump_at_us: self.next_pump_at_us,
        }
    }
}

impl Clone for CefState {
    fn clone(&self) -> (r: Self)
        ensures
            r.deep_view() == self.deep_view(),
    {
        CefState {
            subprocess_handled: self.subprocess_handled,
            initialized: self.initialized,
            context_ready: self.context_ready,
            has_instance: self.has_instance,
            has_app: self.has_app,
            loaded_from_bundle: self.loaded_from_bundle,
            windows_runtime_root: opt_clone(&self.windows_runtime_root),
            next_pump_at_us: self.next_pump_at_us,
        }
    }
}

/// Where the framework of the embedded browser is loaded from.
#[derive(Debug, PartialEq, Eq)]
pub enum MacLoad {
    Bundle,
    Directory { dir: String },
    NotFound,
}

/// The value of a [`MacLoad`].
#[verifier::ext_equal]
pub enum MacLoadView {
    Bundle,
    Directory { dir: Seq<char> },
    NotFound,
}

impl DeepView for MacLoad {
    type V = MacLoadView;

    open spec fn deep_view(&self) -> MacLoadView {
        match self {
            MacLoad::Bundle => MacLoadView::Bundle,
            MacLoad::Directory { dir } => MacLoadView::Directory {
                dir: dir@,
            },
            MacLoad::NotFound => MacLoadView::NotFound,
        }
    }
}

impl Clone for MacLoad {
    fn clone(&self) -> (r: Self)
        ensures
            r.deep_view() == self.deep_view(),
    {
        match self {
            MacLoad::Bundle => MacLoad::Bundle,
            MacLoad::Directory { dir } => {
                MacLoad::Directory { dir: dir.clone() }
            },
            MacLoad::NotFound => MacLoad::NotFound,
        }
    }
}

/// What is done about the files of the embedded browser.
#[derive(Debug, PartialEq, Eq)]
pub enum WindowsStartup {
    AddToPath { root: String },
    ReportMissing { root: String },
    NotFound,
}

/// The value of a [`WindowsStartup`].
#[verifier::ext_equal]
pub enum WindowsStartupView {
    AddToPath { root: Seq<char> },
    ReportMissing { root: Seq<char> },
    NotFound,
}

impl DeepView for WindowsStartup {
    type V = WindowsStartupView;

    open spec fn deep_view(&self) -> WindowsStartupView {
        match self {
            WindowsStartup::AddToPath { root } => WindowsStartupView::AddToPath {
                root: root@,
            },
            WindowsStartup::ReportMissing { root } => WindowsStartupView::ReportMissing {
                root: root@,
            },
            WindowsStartup::NotFound => WindowsStartupView::NotFound,
        }
    }
}

impl Clone for WindowsStartup {
    fn clone(&self) -> (r: Self)
        ensures
            r.deep_view() == self.deep_view(),
    {
        match self {
            WindowsStartup::AddToPath { root } => {
                WindowsStartup::AddToPath { root: root.clone() }
            },
            WindowsStartup::ReportMissing { root } => {
                WindowsStartup::ReportMissing { root: root.clone() }
            },
            WindowsStartup::NotFound => WindowsStartup::NotFound,
        }
    }
}

/// What comes of starting the embedded browser.
#[derive(Debug, PartialEq, Eq)]
pub enum InitializeStep {
    /// It runs already.
    Running,
    Refused { message: String },
    Proceed,
}

/// The value of an [`InitializeStep`].
#[verifier::ext_equal]
pub enum InitializeStepView {
    Running,
    Refused { message: Seq<char> },
    Proceed,
}

impl DeepView for InitializeStep {
    type V = InitializeStepView;

    open spec fn deep_view(&self) -> InitializeStepView {
        match self {
            InitializeStep::Running => InitializeStepView::Running,
            InitializeStep::Refused { message } => InitializeStepView::Refused {
                message: message@,
            },
            InitializeStep::Proceed => InitializeStepView::Proceed,
        }
    }
}

impl Clone for InitializeStep {
    fn clone(&self) -> (r: Self)
        ensures
            r.deep_view() == self.deep_view(),
    {
        match self {
            InitializeStep::Running => InitializeStep::Running,
            InitializeStep::Refused { message } => {
                InitializeStep::Refused { message: message.clone() }
            },
            InitializeStep::Proceed => InitializeStep::Proceed,
        }
    }
}

/// The state at the start of the program.
pub open spec fn fresh_state() -> CefStateView {
    CefStateView {
        subprocess_handled: false,
        initialized: false,
        context_ready: false,
        has_instance: false,
        has_app: false,
        loaded_from_bundle: false,
        windows_runtime_root: None,
        next_pump_at_us: u64::MAX,
    }
}

/// What is known of the steps that have been taken: a handle is given out only while the browser
/// runs, and the browser runs only in a process that is known to be the browser's own.
pub open spec fn state_wf(state: CefStateView) -> bool {
    &&& state.has_instance ==> state.initialized
    &&& state.initialized ==> state.has_app
    &&& state.has_app ==> state.subprocess_handled
}

/// When the messages are pumped after work was asked for in `delay_ms`: no later than then, and no
/// later than they would have been.
pub open spec fn scheduled(state: CefStateView, now_us: int, delay_ms: int) -> CefStateView {
    let delay = if delay_ms < 0 {
        0
    } else {
        delay_ms
    };
    let target = now_us + delay * 1000;
    CefStateView {
        next_pump_at_us: if target < state.next_pump_at_us {
            target as u64
        } else {
            state.next_pump_at_us
        },
        ..state
    }
}

/// The messages are to be pumped now.
pub open spec fn pump_due(state: CefStateView, now_us: int) -> bool {
    state.context_ready && now_us >= state.next_pump_at_us
}

/// How long it is until the messages are pumped.
pub open spec fn pump_wait(state: CefStateView, now_us: int) -> int {
    if state.next_pump_at_us > now_us {
        state.next_pump_at_us - now_us
    } else {
        0
    }
}

/// The state while the messages are pumped.
pub open spec fn pumping(state: CefStateView) -> CefStateView {
    if state.context_ready {
        CefStateView { next_pump_at_us: u64::MAX, ..state }
    } else {
        state
    }
}

/// The state after the messages were pumped: where nothing was asked for meanwhile, they are looked
/// at again in a while.
pub open spec fn pumped(state: CefStateView, now_us: int) -> CefStateView {
    if state.next_pump_at_us == u64::MAX {
        CefStateView { next_pump_at_us: (now_us + IDLE_PUMP_US) as u64, ..state }
    } else {
        state
    }
}

/// The message for a start that failed.
pub open spec fn start_failure(code: int) -> Seq<char> {
    "Failed to initialize CEF (error code: "@ + integer_text(code) + ")"@
}

/// What comes of starting the embedded browser.
pub open spec fn initialize_step(state: CefStateView) -> InitializeStepView {
    if state.initialized && state.has_instance {
        InitializeStepView::Running
    } else if !state.subprocess_handled {
        InitializeStepView::Refused {
            message:
                "CEF subprocess handling was not done. Call CefInstance::handle_subprocess() early in main()."@,
        }
    } else if !state.has_app {
        InitializeStepView::Refused {
            message: "CEF App not found. handle_subprocess() must be called first."@,
        }
    } else {
        InitializeStepView::Proceed
    }
}

/// The state once the embedded browser was started.
pub open spec fn started(state: CefStateView, code: int) -> CefStateView {
    if code == 1 {
        CefStateView { initialized: true, has_instance: true, ..state }
    } else {
        state
    }
}

/// The state once it is known whether the process is a helper: one that is not goes on.
pub open spec fn process_told(state: CefStateView, code: int) -> CefStateView {
    if code >= 0 {
        state
    } else {
        CefStateView { subprocess_handled: true, has_app: true, ..state }
    }
}

/// Where the framework is loaded from: the bundle, or else a directory that it was found in.
pub open spec fn mac_load(in_bundle: bool, cef_dir: Option<Seq<char>>) -> MacLoadView {
    if in_bundle {
        MacLoadView::Bundle
    } else {
        match cef_dir {
            Some(dir) => MacLoadView::Directory { dir },
            None => MacLoadView::NotFound,
        }
    }
}

/// What is done about the files of the embedded browser before it is started.
pub open spec fn windows_startup(root: Option<Seq<char>>, complete: bool) -> WindowsStartupView {
    match root {
        Some(root) => if complete {
            WindowsStartupView::AddToPath { root }
        } else {
            WindowsStartupView::ReportMissing { root }
        },
        None => WindowsStartupView::NotFound,
    }
}

/// The state while browsers are closed.
pub open spec fn closing(state: CefStateView) -> CefStateView {
    CefStateView { context_ready: false, ..state }
}

/// The state just before the embedded browser is stopped.
pub open spec fn stopping(state: CefStateView) -> CefStateView {
    CefStateView { initialized: false, has_instance: false, ..state }
}

/// The state after the embedded browser was stopped.
pub open spec fn stopped(state: CefStateView) -> CefStateView {
    CefStateView { has_app: false, windows_runtime_root: None, ..state }
}

impl CefState {
    /// The state at the start of the program.
    pub fn new() -> (r: Self)
        ensures
            r.deep_view() == fresh_state(),
            state_wf(r.deep_view()),
    {
        CefState {
            subprocess_handled: false,
            initialized: false,
            context_ready: false,
            has_instance: false,
            has_app: false,
            loaded_from_bundle: false,
            windows_runtime_root: None,
            next_pump_at_us: u64::MAX,
        }
    }

    /// Takes in that browsers can be created.
    pub fn on_context_initialized(&mut self)
        ensures
            final(self).deep_view() == (CefStateView {
                context_ready: true,
                ..old(self).deep_view()
            }),
    {
        self.context_ready = true;
    }

    /// Takes in that messages will be there to be pumped in `delay_ms`.
    pub fn on_schedule_message_pump_work(&mut self, now_us: u64, delay_ms: i64)
        requires
            now_us + (if delay_ms < 0 {
                0
            } else {
                delay_ms as int
            }) * 1000 <= u64::MAX,
        ensures
            final(self).deep_view() == scheduled(
                old(self).deep_view(),
                now_us as int,
                delay_ms as int,
            ),
    {
        let delay: u64 = if delay_ms < 0 {
            0
        } else {
            delay_ms as u64
        };
        let target: u64 = now_us + delay * 1000;
        if target < self.next_pump_at_us {
            self.next_pump_at_us = target;
        }
    }
}

impl CefInstance {
    /// The embedded browser that runs, if one does.
    pub fn global(state: &CefState) -> (r: Option<CefInstance>)
        ensures
            r is Some <==> state.deep_view().has_instance,
    {
        if state.has_instance {
            Some(CefInstance {  })
        } else {
            None
        }
    }

    /// Whether browsers can be created.
    pub fn is_context_ready(state: &CefState) -> (r: bool)
        ensures
            r == state.deep_view().context_ready,
    {
        state.context_ready
    }

    /// Whether the messages are to be pumped now.
    pub fn should_pump(state: &CefState, now_us: u64) -> (r: bool)
        ensures
            r == pump_due(state.deep_view(), now_us as int),
    {
        state.context_ready && now_us >= state.next_pump_at_us
    }

    /// How many microseconds it is until the messages are pumped.
    pub fn time_until_next_pump_us(state: &CefState, now_us: u64) -> (r: u64)
        ensures
            r == pump_wait(state.deep_view(), now_us as int),
    {
        if state.next_pump_at_us > now_us {
            state.next_pump_at_us - now_us
        } else {
            0
        }
    }

    /// Starts to pump the messages. Says whether there is anything to pump.
    pub fn begin_pump(state: &mut CefState) -> (r: bool)
        ensures
            final(state).deep_view() == pumping(old(state).deep_view()),
            r == old(state).deep_view().context_ready,
    {
        if !state.context_ready {
            return false;
        }
        state.next_pump_at_us = u64::MAX;
        true
    }

    /// Takes in that the messages were pumped.
    pub fn finish_pump(state: &mut CefState, now_us: u64)
        requires
            now_us + IDLE_PUMP_US <= u64::MAX,
        ensures
            final(state).deep_view() == pumped(old(state).deep_view(), now_us as int),
    {
        if state.next_pump_at_us == u64::MAX {
            state.next_pump_at_us = now_us + IDLE_PUMP_US;
        }
    }

    /// Whether the process has still to be told from the helpers of the embedded browser.
    pub fn begin_subprocess(state: &CefState) -> (r: bool)
        ensures
            r == !state.deep_view().subprocess_handled,
    {
        !state.subprocess_handled
    }

    /// What is said where the path of the executable cannot be had.
    pub fn exe_path_error(error: &str) -> (r: String)
        ensures
            r@ == "Failed to get current executable path: "@ + error@,
    {
        cat2("Failed to get current executable path: ", error)
    }

    /// Where the framework is loaded from on macOS.
    pub fn plan_mac_load(in_bundle: bool, cef_dir: &Option<String>) -> (r: MacLoad)
        ensures
            r.deep_view() == mac_load(in_bundle, cef_dir.deep_view()),
    {
        if in_bundle {
            MacLoad::Bundle
        } else {
            match cef_dir {
                Some(dir) => MacLoad::Directory { dir: dir.clone() },
                None => MacLoad::NotFound,
            }
        }
    }

    /// Takes in whether the framework was loaded. Says whether to go on.
    pub fn finish_mac_load(state: &mut CefState, plan: &MacLoad, loaded: bool) -> (r: bool)
        ensures
            r == (loaded && plan !is NotFound),
            final(state).deep_view() == (CefStateView {
                loaded_from_bundle: old(state).deep_view().loaded_from_bundle || (loaded
                    && plan is Bundle),
                ..old(state).deep_view()
            }),
    {
        match plan {
            MacLoad::Bundle => {
                if loaded {
                    state.loaded_from_bundle = true;
                }
                loaded
            },
            MacLoad::Directory { .. } => loaded,
            MacLoad::NotFound => false,
        }
    }

    /// What is done on Windows about the files of the embedded browser.
    pub fn plan_windows_startup(root: &Option<String>, complete: bool) -> (r: WindowsStartup)
        ensures
            r.deep_view() == windows_startup(root.deep_view(), complete),
    {
        match root {
            Some(root) => if complete {
                WindowsStartup::AddToPath { root: root.clone() }
            } else {
                WindowsStartup::ReportMissing { root: root.clone() }
            },
            None => WindowsStartup::NotFound,
        }
    }

    /// Takes in whether the process is a helper of the embedded browser. A helper has done its work
    /// and exits with the code that is given back.
    pub fn finish_subprocess(state: &mut CefState, code: i32) -> (r: Option<i32>)
        ensures
            final(state).deep_view() == process_told(old(state).deep_view(), code as int),
            r == (if code >= 0 {
                Some(code)
            } else {
                None
            }),
    {
        if code >= 0 {
            return Some(code);
        }
        state.has_app = true;
        state.subprocess_handled = true;
        None
    }

    /// What comes of starting the embedded browser.
    pub fn begin_initialize(state: &CefState) -> (r: InitializeStep)
        ensures
            r.deep_view() == initialize_step(state.deep_view()),
    {
        if state.initialized && state.has_instance {
            return InitializeStep::Running;
        }
        if !state.subprocess_handled {
            return InitializeStep::Refused {
                message:
                    "CEF subprocess handling was not done. Call CefInstance::handle_subprocess() early in main().".to_owned(),
            };
        }
        if !state.has_app {
            return InitializeStep::Refused {
                message: "CEF App not found. handle_subprocess() must be called first.".to_owned(),
            };
        }
        InitializeStep::Proceed
    }

    /// Takes in how the start of the embedded browser went.
    pub fn finish_initialize(state: &mut CefState, code: i32) -> (r: Result<CefInstance, String>)
        ensures
            final(state).deep_view() == started(old(state).deep_view(), code as int),
            match r {
                Ok(_) => code == 1,
                Err(message) => code != 1 && message@ == start_failure(code as int),
            },
    {
        if code != 1 {
            return Err(
                cat3(
                    "Failed to initialize CEF (error code: ",
                    int_to_string(code).as_str(),
                    ")",
                ),
            );
        }
        state.initialized = true;
        state.has_instance = true;
        Ok(CefInstance {  })
    }

    /// Whether there is anything to shut down.
    pub fn begin_shutdown(state: &CefState) -> (r: bool)
        ensures
            r == state.deep_view().initialized,
    {
        state.initialized
    }

    /// Takes in how many browsers are being closed. Says how often the messages are pumped for
    /// them.
    pub fn shutdown_closing(state: &mut CefState, closed_count: usize) -> (r: u32)
        ensures
            final(state).deep_view() == closing(old(state).deep_view()),
            r == (if closed_count > 0 {
                CLOSING_PUMPS
            } else {
                0
            }),
    {
        state.context_ready = false;
        if closed_count > 0 {
            CLOSING_PUMPS
        } else {
            0
        }
    }

    /// Takes back the handle, just before the embedded browser is stopped.
    pub fn shutdown_stopping(state: &mut CefState)
        ensures
            final(state).deep_view() == stopping(old(state).deep_view()),
    {
        state.initialized = false;
        state.has_instance = false;
    }

    /// Takes in that the embedded browser was stopped.
    pub fn shutdown_finished(state: &mut CefState)
        ensures
            final(state).deep_view() == stopped(old(state).deep_view()),
    {
        state.has_app = false;
        state.windows_runtime_root = None;
    }
}

/// Every step keeps what is known of the steps before it.
pub proof fn lemma_steps_keep_order(state: CefStateView, now_us: int, delay_ms: int, code: int)
    requires
        state_wf(state),
    ensures
        state_wf(scheduled(state, now_us, delay_ms)),
        state_wf(pumping(state)),
        state_wf(pumped(state, now_us)),
        state_wf(process_told(state, code)),
        initialize_step(state) is Proceed ==> state_wf(started(state, code)),
        state_wf(closing(state)),
        state_wf(stopping(state)),
        !state.initialized ==> state_wf(stopped(state)),
{
}

/// Asking for work never puts the next pump off.
pub proof fn lemma_schedule_never_postpones(state: CefStateView, now_us: int, delay_ms: int)
    requires
        0 <= now_us,
        now_us + (if delay_ms < 0 {
            0
        } else {
            delay_ms
        }) * 1000 <= u64::MAX,
    ensures
        scheduled(state, now_us, delay_ms).next_pump_at_us <= state.next_pump_at_us,
        pump_wait(scheduled(state, now_us, delay_ms), now_us) <= (if delay_ms < 0 {
            0
        } else {
            delay_ms
        }) * 1000,
        delay_ms <= 0 && state.context_ready ==> pump_due(
            scheduled(state, now_us, delay_ms),
            now_us,
        ),
{
}

/// Of two requests for work the earlier counts, in whatever order they come.
pub proof fn lemma_schedules_commute(
    state: CefStateView,
    now_us: int,
    delay_a: int,
    later_us: int,
    delay_b: int,
)
    requires
        0 <= now_us <= later_us,
        now_us + (if delay_a < 0 {
            0
        } else {
            delay_a
        }) * 1000 <= u64::MAX,
        later_us + (if delay_b < 0 {
            0
        } else {
            delay_b
        }) * 1000 <= u64::MAX,
    ensures
        scheduled(scheduled(state, now_us, delay_a), later_us, delay_b) == scheduled(
            scheduled(state, later_us, delay_b),
            now_us,
            delay_a,
        ),
{
}

/// The messages are due exactly where browsers can be created and there is no time left to wait.
/// What is due stays due until it is pumped.
pub proof fn lemma_due_when_nothing_to_wait(state: CefStateView, now_us: int, later_us: int)
    requires
        now_us <= later_us,
    ensures
        pump_due(state, now_us) <==> state.context_ready && pump_wait(state, now_us) == 0,
        pump_due(state, now_us) ==> pump_due(state, later_us),
        pump_wait(state, later_us) <= pump_wait(state, now_us),
{
}

/// After a pump the messages are looked at again within the time set for it, or when they were
/// asked for during the pump; they are never forgotten.
pub proof fn lemma_pump_is_never_forgotten(state: CefStateView, now_us: int)
    requires
        0 <= now_us,
        now_us + IDLE_PUMP_US < u64::MAX,
    ensures
        pumped(state, now_us).next_pump_at_us < u64::MAX,
        state.next_pump_at_us == u64::MAX ==> pump_wait(pumped(state, now_us), now_us)
            == IDLE_PUMP_US,
        state.next_pump_at_us < u64::MAX ==> pumped(state, now_us) == state,
{
}

/// The embedded browser is started only in a process that was told from its helpers, and at most
/// once: while it runs, starting it gives the one that runs.
pub proof fn lemma_started_once(state: CefStateView, code: int)
    requires
        state_wf(state),
    ensures
        initialize_step(fresh_state()) is Refused,
        initialize_step(state) is Proceed ==> state.subprocess_handled && !state.has_instance,
        initialize_step(started(state, 1)) is Running,
        code != 1 ==> initialize_step(started(state, code)) == initialize_step(state),
{
}

/// A helper is never taken for the browser's own process.
pub proof fn lemma_helper_exits(state: CefStateView, code: int)
    ensures
        code >= 0 ==> process_told(state, code) == state,
        code < 0 ==> process_told(state, code).subprocess_handled,
        code < 0 && !state.has_instance ==> initialize_step(process_told(state, code)) is Proceed,
{
}

/// After a shutdown no handle is given out, nothing is pumped, and the embedded browser is not
/// started again without its callbacks.
pub proof fn lemma_shutdown_is_final(state: CefStateView, now_us: int)
    requires
        state_wf(state),
    ensures
        ({
            let after = stopped(stopping(closing(state)));
            &&& state_wf(after)
            &&& !after.has_instance
            &&& !pump_due(after, now_us)
            &&& initialize_step(after) is Refused
            &&& after.subprocess_handled == state.subprocess_handled
        }),
{
}

} // verus!
