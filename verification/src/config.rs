//! The portable configuration: window placement, terminal appearance and
//! the saved tabs, with the defaults that every missing field falls back to,
//! and the rules that turn the outcome of reading the config file into the
//! configuration the terminal starts with.

use std::path::PathBuf;

use vstd::prelude::*;
use vstd::string::*;

verus! {

/// The schema version written by this version of the terminal.
pub const CURRENT_VERSION: u32 = 3;

/// The schema version of a config that does not name one.
pub fn current_version() -> (version: u32)
    ensures
        version == CURRENT_VERSION,
{
    CURRENT_VERSION
}

/// Default window width, in pixels.
pub fn default_window_width() -> (width: u32)
    ensures
        width == 1200,
{
    1200
}

/// Default window height, in pixels.
pub fn default_window_height() -> (height: u32)
    ensures
        height == 800,
{
    800
}

/// Default distance of the window from the left of the screen.
pub fn default_window_left() -> (left: i32)
    ensures
        left == 100,
{
    100
}

/// Default distance of the window from the top of the screen.
pub fn default_window_top() -> (top: i32)
    ensures
        top == 100,
{
    100
}

/// Default font size, in points.
pub fn default_font_size() -> (size: u32)
    ensures
        size == 14,
{
    14
}

/// Default terminal font.
pub fn default_font_family() -> (family: String)
    ensures
        family@ == "Cascadia Code"@,
{
    String::from_str("Cascadia Code")
}

/// Default colour theme.
pub fn default_theme() -> (theme: String)
    ensures
        theme@ == "dark"@,
{
    String::from_str("dark")
}

/// Default number of scrollback lines kept per tab.
pub fn default_scrollback_lines() -> (lines: u32)
    ensures
        lines == 10_000,
{
    10_000
}

/// By default the last active tab is focused again on startup.
pub fn default_restore_last_active_tab() -> (restore: bool)
    ensures
        restore,
{
    true
}

/// By default the saved tabs are reopened on startup.
pub fn default_restore_tabs_on_startup() -> (restore: bool)
    ensures
        restore,
{
    true
}

/// The whole portable configuration.
#[derive(Debug, Clone)]
pub struct Config {
    pub version: u32,
    pub window: WindowConfig,
    pub terminal: TerminalConfig,
    pub tabs: TabsConfig,
}

/// Window placement.
#[derive(Debug, Clone)]
pub struct WindowConfig {
    pub width: u32,
    pub height: u32,
    pub left: i32,
    pub top: i32,
    pub maximized: bool,
}

/// Terminal appearance and the shell to start.
#[derive(Debug, Clone)]
pub struct TerminalConfig {
    pub font_family: String,
    pub font_size: u32,
    pub theme: String,
    pub scrollback_lines: u32,
    pub startup_directory: Option<PathBuf>,
    pub shell: Option<String>,
    pub shell_args: Vec<String>,
}

/// The saved tabs and how to restore them.
#[derive(Debug, Clone)]
pub struct TabsConfig {
    pub tab_directories: Vec<PathBuf>,
    pub tab_titles: Vec<Option<String>>,
    pub active_index: Option<usize>,
    pub restore_last_active_tab: bool,
    pub restore_tabs_on_startup: bool,
}

impl WindowConfig {
    /// A 1200x800 window at (100, 100), not maximized.
    pub open spec fn is_default(&self) -> bool {
        &&& self.width == 1200
        &&& self.height == 800
        &&& self.left == 100
        &&& self.top == 100
        &&& !self.maximized
    }
}

impl TerminalConfig {
    /// Cascadia Code at 14 points, the dark theme, 10 000 lines of
    /// scrollback, and no startup directory, shell or shell arguments.
    pub open spec fn is_default(&self) -> bool {
        &&& self.font_family@ == "Cascadia Code"@
        &&& self.font_size == 14
        &&& self.theme@ == "dark"@
        &&& self.scrollback_lines == 10_000
        &&& self.startup_directory is None
        &&& self.shell is None
        &&& self.shell_args@.len() == 0
    }
}

impl TabsConfig {
    /// No saved tabs, no active index, and both restore policies on.
    pub open spec fn is_default(&self) -> bool {
        &&& self.tab_directories@.len() == 0
        &&& self.tab_titles@.len() == 0
        &&& self.active_index is None
        &&& self.restore_last_active_tab
        &&& self.restore_tabs_on_startup
    }
}

impl Config {
    /// The current schema version with every section at its default.
    pub open spec fn is_default(&self) -> bool {
        &&& self.version == CURRENT_VERSION
        &&& self.window.is_default()
        &&& self.terminal.is_default()
        &&& self.tabs.is_default()
    }
}

impl Default for WindowConfig {
    fn default() -> (window: Self)
        ensures
            window.is_default(),
    {
        WindowConfig {
            width: default_window_width(),
            height: default_window_height(),
            left: default_window_left(),
            top: default_window_top(),
            maximized: false,
        }
    }
}

impl Default for TerminalConfig {
    fn default() -> (terminal: Self)
        ensures
            terminal.is_default(),
    {
        TerminalConfig {
            font_family: default_font_family(),
            font_size: default_font_size(),
            theme: default_theme(),
            scrollback_lines: default_scrollback_lines(),
            startup_directory: None,
            shell: None,
            shell_args: Vec::new(),
        }
    }
}

impl Default for TabsConfig {
    fn default() -> (tabs: Self)
        ensures
            tabs.is_default(),
    {
        TabsConfig {
            tab_directories: Vec::new(),
            tab_titles: Vec::new(),
            active_index: None,
            restore_last_active_tab: default_restore_last_active_tab(),
            restore_tabs_on_startup: default_restore_tabs_on_startup(),
        }
    }
}

impl Default for Config {
    fn default() -> (config: Self)
        ensures
            config.is_default(),
    {
        Config {
            version: CURRENT_VERSION,
            window: WindowConfig::default(),
            terminal: TerminalConfig::default(),
            tabs: TabsConfig::default(),
        }
    }
}

/// What an attempt to read the config file found.
pub enum ConfigFile {
    /// There is no config file.
    Missing,
    /// The file exists but could not be read; the reason.
    Unreadable(String),
    /// The file was read but does not hold a valid config; the reason.
    Invalid(String),
    /// The configuration the file holds.
    Parsed(Config),
}

/// `prefix`, the path, ": " and the reason, as one message.
pub open spec fn failure_text(prefix: Seq<char>, target: Seq<char>, reason: Seq<char>) -> Seq<
    char,
> {
    prefix + target + ": "@ + reason
}

fn failure_message(prefix: &str, target: &str, reason: &str) -> (message: String)
    ensures
        message@ == failure_text(prefix@, target@, reason@),
{
    let mut message = String::from_str(prefix);
    message.append(target);
    message.append(": ");
    message.append(reason);
    message
}

/// The configuration read from the file at `path_display`, or why there is
/// none: a missing file gives the defaults, an unreadable file "failed to
/// read ...", an invalid one "failed to parse ...".
pub fn loaded_config(path_display: &str, file: ConfigFile) -> (result: Result<Config, String>)
    ensures
        match file {
            ConfigFile::Missing => (result matches Ok(config) && config.is_default()),
            ConfigFile::Unreadable(reason) => (result matches Err(message) && message@
                == failure_text("failed to read "@, path_display@, reason@)),
            ConfigFile::Invalid(reason) => (result matches Err(message) && message@
                == failure_text("failed to parse "@, path_display@, reason@)),
            ConfigFile::Parsed(config) => result == Ok::<Config, String>(config),
        },
{
    match file {
        ConfigFile::Missing => Ok(Config::default()),
        ConfigFile::Unreadable(reason) => Err(
            failure_message("failed to read ", path_display, reason.as_str()),
        ),
        ConfigFile::Invalid(reason) => Err(
            failure_message("failed to parse ", path_display, reason.as_str()),
        ),
        ConfigFile::Parsed(config) => Ok(config),
    }
}

/// The configuration the terminal starts with: the one in the file when it
/// holds a valid one, and the defaults when the file is missing, unreadable
/// or corrupt, so that startup is never blocked.
pub fn startup_config(path_display: &str, file: ConfigFile) -> (config: Config)
    ensures
        match file {
            ConfigFile::Parsed(parsed) => config == parsed,
            _ => config.is_default(),
        },
{
    match loaded_config(path_display, file) {
        Ok(config) => config,
        Err(_) => Config::default(),
    }
}

/// Why saving the config failed.
pub enum ConfigSaveFailure {
    /// The directory of the config file could not be created.
    CreateDir { dir: String, reason: String },
    /// The config could not be turned into JSON.
    Serialize { reason: String },
    /// The file could not be written.
    Write { path: String, reason: String },
}

impl ConfigSaveFailure {
    /// The message reported for this failure.
    pub fn message(&self) -> (message: String)
        ensures
            match self {
                ConfigSaveFailure::CreateDir { dir, reason } => message@ == failure_text(
                    "failed to create "@,
                    dir@,
                    reason@,
                ),
                ConfigSaveFailure::Serialize { reason } => message@ == "failed to serialize config: "@
                    + reason@,
                ConfigSaveFailure::Write { path, reason } => message@ == failure_text(
                    "failed to write "@,
                    path@,
                    reason@,
                ),
            },
    {
        match self {
            ConfigSaveFailure::CreateDir { dir, reason } => failure_message(
                "failed to create ",
                dir.as_str(),
                reason.as_str(),
            ),
            ConfigSaveFailure::Serialize { reason } => {
                let mut message = String::from_str("failed to serialize config: ");
                message.append(reason.as_str());
                message
            },
            ConfigSaveFailure::Write { path, reason } => failure_message(
                "failed to write ",
                path.as_str(),
                reason.as_str(),
            ),
        }
    }
}

} // verus!
