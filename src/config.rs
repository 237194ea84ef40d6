//! Settings of the controlled browser and of the actions, and the checks made
//! before connecting to it.

use vstd::prelude::*;
use crate::text::{digits_of, u64_text, join2, text_eq};
use crate::recording::{path_in, join_path};

verus! {

/// Where the browser's control endpoint listens.
#[derive(Debug, Clone)]
pub struct ChromeConfig {
    pub port: u16,
    pub host: String,
}

/// Defaults for the actions.
#[derive(Debug, Clone)]
pub struct DefaultsConfig {
    pub timeout_ms: u64,
    pub screenshot_format: String,
}

/// Settings of design-inspiration capture.
#[derive(Debug, Clone)]
pub struct InspireConfig {
    /// Directory, relative to the project directory, where captures are saved.
    pub save_dir: String,
}

/// All settings.
#[derive(Debug, Clone)]
pub struct Config {
    pub chrome: ChromeConfig,
    pub defaults: DefaultsConfig,
    pub inspire: InspireConfig,
}

/// The port of the control endpoint unless configured otherwise.
pub const DEFAULT_PORT: u16 = 9222;

/// The action timeout unless configured otherwise, in milliseconds.
pub const DEFAULT_TIMEOUT_MS: u64 = 5000;

/// The default port.
pub fn default_port() -> (r: u16)
    ensures
        r == DEFAULT_PORT,
{
    DEFAULT_PORT
}

/// The default host: the loopback address.
pub fn default_host() -> (r: String)
    ensures
        r@ == "127.0.0.1"@,
{
    "127.0.0.1".to_owned()
}

/// The default action timeout.
pub fn default_timeout() -> (r: u64)
    ensures
        r == DEFAULT_TIMEOUT_MS,
{
    DEFAULT_TIMEOUT_MS
}

/// The default screenshot format.
pub fn default_screenshot_format() -> (r: String)
    ensures
        r@ == "png"@,
{
    "png".to_owned()
}

/// The default directory for captures.
pub fn default_save_dir() -> (r: String)
    ensures
        r@ == "inspirations"@,
{
    "inspirations".to_owned()
}

impl Default for ChromeConfig {
    fn default() -> (r: ChromeConfig)
        ensures
            r.port == DEFAULT_PORT,
            r.host@ == "127.0.0.1"@,
    {
        ChromeConfig { port: default_port(), host: default_host() }
    }
}

impl Default for DefaultsConfig {
    fn default() -> (r: DefaultsConfig)
        ensures
            r.timeout_ms == DEFAULT_TIMEOUT_MS,
            r.screenshot_format@ == "png"@,
    {
        DefaultsConfig { timeout_ms: default_timeout(), screenshot_format: default_screenshot_format() }
    }
}

impl Default for InspireConfig {
    fn default() -> (r: InspireConfig)
        ensures
            r.save_dir@ == "inspirations"@,
    {
        InspireConfig { save_dir: default_save_dir() }
    }
}

impl Default for Config {
    fn default() -> (r: Config)
        ensures
            r.chrome.port == DEFAULT_PORT,
            r.chrome.host@ == "127.0.0.1"@,
            r.defaults.timeout_ms == DEFAULT_TIMEOUT_MS,
            r.defaults.screenshot_format@ == "png"@,
            r.inspire.save_dir@ == "inspirations"@,
    {
        Config {
            chrome: ChromeConfig::default(),
            defaults: DefaultsConfig::default(),
            inspire: InspireConfig::default(),
        }
    }
}

/// Host names that reach this machine only.
pub open spec fn is_loopback(host: Seq<char>) -> bool {
    host == "127.0.0.1"@ || host == "localhost"@ || host == "::1"@
}

/// The address of the control endpoint.
pub open spec fn endpoint_url(host: Seq<char>, port: u16) -> Seq<char> {
    "http://"@ + host + ":"@ + digits_of(port as nat)
}

impl Config {
    /// The address of the browser's control endpoint.
    pub fn ws_url(&self) -> (r: String)
        ensures
            r@ == endpoint_url(self.chrome.host@, self.chrome.port),
    {
        let mut s = join2("http://", self.chrome.host.as_str());
        s.append(":");
        s.append(u64_text(self.chrome.port as u64).as_str());
        s
    }

    /// Whether the configured host is a loopback address.
    pub fn is_localhost(&self) -> (r: bool)
        ensures
            r == is_loopback(self.chrome.host@),
    {
        let h = self.chrome.host.as_str();
        text_eq(h, "127.0.0.1") || text_eq(h, "localhost") || text_eq(h, "::1")
    }
}

/// The project directory in use: the one found at or above the working
/// directory, else `.domguard` in the working directory.
pub open spec fn project_dir_of(found: Option<String>, cwd: Seq<char>) -> Seq<char> {
    match found {
        Some(d) => d@,
        None => path_in(cwd, ".domguard"@),
    }
}

fn project_dir(found: &Option<String>, cwd: &str) -> (r: String)
    ensures
        r@ == project_dir_of(*found, cwd@),
{
    match found {
        Some(d) => d.clone(),
        None => join_path(cwd, ".domguard"),
    }
}

impl Config {
    /// The project directory of a working directory: its `.domguard`.
    pub fn domguard_dir(cwd: &str) -> (r: String)
        ensures
            r@ == path_in(cwd@, ".domguard"@),
    {
        join_path(cwd, ".domguard")
    }

    /// The settings file: `config.toml` in the project directory in use
    /// (`found` is the project directory found at or above `cwd`, if any).
    pub fn config_path(found: &Option<String>, cwd: &str) -> (r: String)
        ensures
            r@ == path_in(project_dir_of(*found, cwd@), "config.toml"@),
    {
        join_path(project_dir(found, cwd).as_str(), "config.toml")
    }

    /// Where captures are saved: the configured directory, inside the project
    /// directory in use unless it is absolute.
    pub fn inspirations_dir(&self, found: &Option<String>, cwd: &str) -> (r: String)
        ensures
            r@ == path_in(project_dir_of(*found, cwd@), self.inspire.save_dir@),
    {
        join_path(project_dir(found, cwd).as_str(), self.inspire.save_dir.as_str())
    }

    /// Whether a project directory was found.
    pub fn is_initialized(found: &Option<String>) -> (r: bool)
        ensures
            r == found is Some,
    {
        found.is_some()
    }
}

/// What setting up a project directory did.
#[derive(Debug, Clone)]
pub struct InitResult {
    /// The directory was there already; nothing was written.
    pub already_exists: bool,
    pub domguard_dir: String,
    /// Where the guide was written, when it was.
    pub guide_path: Option<String>,
}

impl InitResult {
    /// The result of setting up `domguard_dir`: when it existed, nothing
    /// was written; otherwise the guide was written to `guide_path`.
    pub fn new(domguard_dir: String, already_exists: bool, guide_path: String) -> (r: InitResult)
        ensures
            r.already_exists == already_exists,
            r.domguard_dir == domguard_dir,
            already_exists ==> r.guide_path is None,
            !already_exists ==> r.guide_path == Some(guide_path),
    {
        InitResult {
            already_exists,
            domguard_dir,
            guide_path: if already_exists {
                None
            } else {
                Some(guide_path)
            },
        }
    }
}

/// Why the browser could not be reached.
#[derive(Debug, Clone, Copy, PartialEq, Eq, Structural)]
pub enum ConnectError {
    /// No live connection to act through.
    Disconnected,
    /// A browser was started but its endpoint never answered.
    LaunchTimeout,
    /// The endpoint is not on this machine and remote use was not allowed.
    SecurityBlocked,
}

/// Refuses a non-loopback endpoint unless remote use was explicitly allowed.
pub fn check_endpoint(config: &Config, allow_remote: bool) -> (r: Result<(), ConnectError>)
    ensures
        r is Err <==> !is_loopback(config.chrome.host@) && !allow_remote,
        r is Err ==> r == Err::<(), ConnectError>(ConnectError::SecurityBlocked),
{
    if !allow_remote && !config.is_localhost() {
        Err(ConnectError::SecurityBlocked)
    } else {
        Ok(())
    }
}

/// The link to the controlled browser.
#[derive(Debug, Clone, Copy, PartialEq, Eq, Structural)]
pub enum ConnectionState {
    Disconnected,
    Connecting,
    Connected,
}

/// Every action needs a live link: anything but `Connected` is refused.
pub fn require_connected(state: ConnectionState) -> (r: Result<(), ConnectError>)
    ensures
        r is Ok <==> state == ConnectionState::Connected,
        r is Err ==> r == Err::<(), ConnectError>(ConnectError::Disconnected),
{
    match state {
        ConnectionState::Connected => Ok(()),
        _ => Err(ConnectError::Disconnected),
    }
}

/// How many times a freshly started browser's endpoint is tried.
pub const MAX_LAUNCH_ATTEMPTS: u32 = 30;

/// The pause before each try, in milliseconds.
pub const LAUNCH_POLL_MS: u64 = 100;

/// What to do after one try to reach a freshly started browser.
#[derive(Debug, Clone, Copy, PartialEq, Eq, Structural)]
pub enum LaunchStep {
    /// The endpoint answered.
    Connected,
    /// Pause, then try again.
    Retry { sleep_ms: u64 },
    /// The tries are used up.
    GiveUp(ConnectError),
}

/// The decision after try number `attempt` (counted from 0).
pub open spec fn launch_step_spec(attempt: u32, attached: bool) -> LaunchStep {
    if attached {
        LaunchStep::Connected
    } else if attempt + 1 >= MAX_LAUNCH_ATTEMPTS {
        LaunchStep::GiveUp(ConnectError::LaunchTimeout)
    } else {
        LaunchStep::Retry { sleep_ms: LAUNCH_POLL_MS }
    }
}

/// Decides after a try to reach a freshly started browser.
pub fn after_launch_attempt(attempt: u32, attached: bool) -> (r: LaunchStep)
    requires
        attempt < MAX_LAUNCH_ATTEMPTS,
    ensures
        r == launch_step_spec(attempt, attached),
{
    if attached {
        LaunchStep::Connected
    } else if attempt + 1 >= MAX_LAUNCH_ATTEMPTS {
        LaunchStep::GiveUp(ConnectError::LaunchTimeout)
    } else {
        LaunchStep::Retry { sleep_ms: LAUNCH_POLL_MS }
    }
}

/// A browser that never answers is given up on after exactly
/// `MAX_LAUNCH_ATTEMPTS` tries; every earlier failed try leads to another.
pub proof fn launch_gives_up_after_all_attempts(attempt: u32)
    requires
        attempt < MAX_LAUNCH_ATTEMPTS,
    ensures
        (launch_step_spec(attempt, false) is GiveUp) <==> attempt == MAX_LAUNCH_ATTEMPTS - 1,
{
}

} // verus!
