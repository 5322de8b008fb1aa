//! What the application sets up at startup, and in which order.
//!
//! The host runtime does the work; this module holds the decisions: which
//! plugins are registered, what is logged, under which label the main window
//! is looked up, what follows once it is found, and that startup ends for
//! good where it is not.
use crate::platform::Platform;
use vstd::prelude::*;

verus! {

/// A capability that the host runtime gains from a plugin.
#[derive(Clone, Copy, Debug, PartialEq, Eq, Structural)]
pub enum Plugin {
    /// The logging sink.
    Log,
    /// Structured-query persistence.
    Sql,
    /// Key-value persistence.
    Store,
    /// Native file dialogs.
    Dialog,
    /// Access to the file system.
    Fs,
    /// Window geometry kept across restarts.
    WindowState,
}

/// How grave a log record is, named as the `log` facade names its levels,
/// gravest first.
#[derive(Clone, Copy, Debug, PartialEq, Eq, Structural)]
pub enum Severity {
    Error,
    Warn,
    Info,
    Debug,
    Trace,
}

/// The least severity that the logging sink records, named as the `log`
/// facade names its filters.
#[derive(Clone, Copy, Debug, PartialEq, Eq, Structural)]
pub enum LogLevel {
    Off,
    Error,
    Warn,
    Info,
    Debug,
    Trace,
}

impl Severity {
    /// The place of the severity among the levels: 1 for errors, 5 for
    /// traces.
    pub open spec fn rank(self) -> int {
        match self {
            Severity::Error => 1,
            Severity::Warn => 2,
            Severity::Info => 3,
            Severity::Debug => 4,
            Severity::Trace => 5,
        }
    }
}

impl LogLevel {
    /// The rank of the least severity that passes; 0 where nothing does.
    pub open spec fn rank(self) -> int {
        match self {
            LogLevel::Off => 0,
            LogLevel::Error => 1,
            LogLevel::Warn => 2,
            LogLevel::Info => 3,
            LogLevel::Debug => 4,
            LogLevel::Trace => 5,
        }
    }

    /// Whether a sink set to this level keeps a record of `severity`.
    pub open spec fn records(self, severity: Severity) -> bool {
        severity.rank() <= self.rank()
    }

    /// Tells whether a sink set to this level keeps a record of `severity`.
    pub fn admits(self, severity: Severity) -> (yes: bool)
        ensures
            yes == self.records(severity),
    {
        match self {
            LogLevel::Off => false,
            LogLevel::Error => matches!(severity, Severity::Error),
            LogLevel::Warn => matches!(severity, Severity::Error | Severity::Warn),
            LogLevel::Info => matches!(severity, Severity::Error | Severity::Warn | Severity::Info),
            LogLevel::Debug => !matches!(severity, Severity::Trace),
            LogLevel::Trace => true,
        }
    }
}

/// One thing to do once the main window has been found.
#[derive(Clone, Copy, Debug, PartialEq, Eq, Structural)]
pub enum SetupStep {
    /// Give the main window the translucent Mica backdrop; `dark` chooses the
    /// dark variant, and `None` follows the system. A failure is ignored.
    ApplyMica { dark: Option<bool> },
    /// Build the tray icon with its tooltip and click handler, and keep it
    /// for as long as the application runs.
    BuildTray,
}

/// A condition that startup does not survive.
#[derive(Clone, Copy, Debug, PartialEq, Eq, Structural)]
pub enum Fatal {
    /// The host has no window under the main window's label.
    MainWindowMissing,
    /// The host runtime could not be brought up, or its setup failed.
    RuntimeFailed,
}

/// The plugins in the order of their registration.
pub open spec fn plugin_order() -> Seq<Plugin> {
    seq![Plugin::Log, Plugin::Sql, Plugin::Store, Plugin::Dialog, Plugin::Fs, Plugin::WindowState]
}

/// The steps that follow the lookup of the main window on `platform`.
pub open spec fn setup_steps(platform: Platform) -> Seq<SetupStep> {
    if platform.can_blur() {
        seq![SetupStep::ApplyMica { dark: Some(true) }, SetupStep::BuildTray]
    } else {
        seq![SetupStep::BuildTray]
    }
}

/// The plugins to register, first to last.
pub fn plugins() -> (list: Vec<Plugin>)
    ensures
        list@ == plugin_order(),
{
    let mut list: Vec<Plugin> = Vec::new();
    list.push(Plugin::Log);
    list.push(Plugin::Sql);
    list.push(Plugin::Store);
    list.push(Plugin::Dialog);
    list.push(Plugin::Fs);
    list.push(Plugin::WindowState);
    assert(list@ =~= plugin_order());
    list
}

/// The level of the logging sink: warnings and errors, nothing below, so
/// that nothing a user has written reaches a log.
pub fn log_level() -> (level: LogLevel)
    ensures
        level == LogLevel::Warn,
        forall|severity: Severity| #[trigger]
            level.records(severity) <==> severity is Error || severity is Warn,
{
    LogLevel::Warn
}

/// The label under which the host knows the main window.
pub fn main_window_label() -> (label: &'static str)
    ensures
        label@ == "main"@,
{
    "main"
}

/// The tooltip of the tray icon.
pub fn tray_tooltip() -> (text: &'static str)
    ensures
        text@ == "DeskNote — 点击显示/隐藏"@,
{
    "DeskNote — 点击显示/隐藏"
}

/// Decides how startup goes on after the lookup of the main window.
///
/// Without the window there is nothing to go on with: the result is
/// `Fatal::MainWindowMissing` and no step is handed out. With it, the steps
/// are those of the platform.
pub fn setup(platform: Platform, main_window_found: bool) -> (next: Result<Vec<SetupStep>, Fatal>)
    ensures
        main_window_found ==> next is Ok && next->Ok_0@ == setup_steps(platform),
        !main_window_found ==> next == Err::<Vec<SetupStep>, Fatal>(Fatal::MainWindowMissing),
{
    if !main_window_found {
        return Err(Fatal::MainWindowMissing);
    }
    let mut steps: Vec<SetupStep> = Vec::new();
    if platform.supports_translucency() {
        steps.push(SetupStep::ApplyMica { dark: Some(true) });
    }
    steps.push(SetupStep::BuildTray);
    assert(steps@ =~= setup_steps(platform));
    Ok(steps)
}

/// Decides what becomes of the process once the host runtime has returned:
/// a runtime that ended in an error ends the process with
/// `Fatal::RuntimeFailed`.
pub fn conclude(runtime_ok: bool) -> (end: Result<(), Fatal>)
    ensures
        runtime_ok ==> end == Ok::<(), Fatal>(()),
        !runtime_ok ==> end == Err::<(), Fatal>(Fatal::RuntimeFailed),
{
    if runtime_ok {
        Ok(())
    } else {
        Err(Fatal::RuntimeFailed)
    }
}

impl Fatal {
    /// The words that the process ends with.
    pub open spec fn words(self) -> Seq<char> {
        match self {
            Fatal::MainWindowMissing => "main window not found"@,
            Fatal::RuntimeFailed => "error while running DeskNote"@,
        }
    }

    /// The diagnostic to end the process with.
    pub fn diagnostic(&self) -> (text: &'static str)
        ensures
            text@ == self.words(),
    {
        match self {
            Fatal::MainWindowMissing => "main window not found",
            Fatal::RuntimeFailed => "error while running DeskNote",
        }
    }
}

} // verus!
