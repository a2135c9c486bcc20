use vstd::prelude::*;
use vstd::string::StringExecFns;

use crate::locator::{join_url, joined_url, parse_url, parsed_url};
use crate::platform::{
    default_filename, is_supported_architecture, is_supported_os, launcher_for,
    supported_architecture, supported_os,
};
use crate::settings::{
    explicit_path, explicit_server_path, server_args, string_args, texts, LspSettings,
};

verus! {

/// The language identifier that the server is associated with.
pub const LANGUAGE: &'static str = "elixir";

/// Put before a user-chosen server path to make it a URI.
pub const URN_PREFIX: &'static str = "urn:";

/// Selects editor documents for a server: by language, URI scheme and path
/// pattern, each optional.
#[derive(Clone, Debug)]
pub struct DocumentFilter {
    pub language: Option<String>,
    pub scheme: Option<String>,
    pub pattern: Option<String>,
}

/// What the host is asked to start: the server's location as a URI, its
/// arguments, and the documents it serves.
#[derive(Clone, Debug)]
pub struct LaunchDirective {
    pub locator: String,
    pub args: Vec<String>,
    pub filters: Vec<DocumentFilter>,
}

/// Why no server is started on this host. Not an error.
#[derive(Clone, Copy, Debug, PartialEq, Eq, Structural)]
pub enum SkipReason {
    UnsupportedArchitecture,
    UnsupportedOperatingSystem,
}

/// Why resolution failed.
#[derive(Clone, Copy, Debug, PartialEq, Eq, Structural)]
pub enum ResolveError {
    /// `urn:` followed by the user's `serverPath` is not a valid URI.
    InvalidServerPath,
    /// The host did not say where the plugin is installed.
    InstallRootUnavailable,
    /// The installation root is no valid URI, or the launcher script's path
    /// cannot be resolved against it.
    InvalidInstallRoot,
}

/// The outcome of one resolution.
#[derive(Clone, Debug)]
pub enum Resolution {
    Started(LaunchDirective),
    Skipped(SkipReason),
    Failed(ResolveError),
}

/// What the host reports of itself; `None` where a query failed.
#[derive(Clone, Debug)]
pub struct Environment {
    pub architecture: Option<String>,
    pub operating_system: Option<String>,
    /// The URI of the plugin's installation directory.
    pub install_root: Option<String>,
}

/// A resolution as mathematical values: the server's location and
/// arguments as texts, or why nothing is started.
pub enum Outcome {
    Launch { locator: Seq<char>, args: Seq<Seq<char>> },
    Skip(SkipReason),
    Fail(ResolveError),
}

impl View for Resolution {
    type V = Outcome;

    open spec fn view(&self) -> Outcome {
        match self {
            Resolution::Started(d) => Outcome::Launch { locator: d.locator@, args: texts(d.args@) },
            Resolution::Skipped(why) => Outcome::Skip(*why),
            Resolution::Failed(e) => Outcome::Fail(*e),
        }
    }
}

/// A filter for every document of the server's language, whatever its
/// scheme or path.
pub open spec fn is_language_filter(f: DocumentFilter) -> bool {
    &&& match f.language {
        Some(l) => l@ == LANGUAGE@,
        None => false,
    }
    &&& f.scheme is None
    &&& f.pattern is None
}

/// Exactly one filter, the one for the server's language.
pub open spec fn is_language_selector(fs: Seq<DocumentFilter>) -> bool {
    fs.len() == 1 && is_language_filter(fs[0])
}

pub open spec fn architecture_supported(e: Environment) -> bool {
    match e.architecture {
        Some(a) => supported_architecture(a@),
        None => false,
    }
}

pub open spec fn os_supported(e: Environment) -> bool {
    match e.operating_system {
        Some(os) => supported_os(os@),
        None => false,
    }
}

/// The launch from the plugin's own files: skipped on an unsupported
/// architecture, then on an unsupported operating system; otherwise the
/// platform's launcher script resolved against the installation root,
/// with no arguments.
pub open spec fn default_outcome(e: Environment) -> Outcome {
    if !architecture_supported(e) {
        Outcome::Skip(SkipReason::UnsupportedArchitecture)
    } else if !os_supported(e) {
        Outcome::Skip(SkipReason::UnsupportedOperatingSystem)
    } else {
        match e.install_root {
            None => Outcome::Fail(ResolveError::InstallRootUnavailable),
            Some(root) => match joined_url(root@, launcher_for(e.operating_system->0@)) {
                Some(u) => Outcome::Launch { locator: u, args: seq![] },
                None => Outcome::Fail(ResolveError::InvalidInstallRoot),
            },
        }
    }
}

/// The whole resolution: a non-empty `serverPath` wins, with the string
/// entries of `serverArgs`, whatever the host; else the default launch.
pub open spec fn expected_outcome(s: LspSettings, e: Environment) -> Outcome {
    match explicit_path(s) {
        Some(p) => match parsed_url(URN_PREFIX@ + p) {
            Some(u) => Outcome::Launch { locator: u, args: string_args(s.server_args@) },
            None => Outcome::Fail(ResolveError::InvalidServerPath),
        },
        None => default_outcome(e),
    }
}

fn language_selector() -> (r: Vec<DocumentFilter>)
    ensures
        is_language_selector(r@),
{
    let mut filters: Vec<DocumentFilter> = Vec::new();
    filters.push(
        DocumentFilter { language: Some(String::from_str(LANGUAGE)), scheme: None, pattern: None },
    );
    filters
}

/// Resolves the launch from the plugin's own files (see `default_outcome`).
pub fn default_launch(env: &Environment) -> (r: Resolution)
    ensures
        r@ == default_outcome(*env),
        r matches Resolution::Started(d) ==> is_language_selector(d.filters@),
{
    let arch_ok = match &env.architecture {
        Some(a) => is_supported_architecture(a.as_str()),
        None => false,
    };
    if !arch_ok {
        return Resolution::Skipped(SkipReason::UnsupportedArchitecture);
    }
    let os = match &env.operating_system {
        Some(os) => os,
        None => {
            return Resolution::Skipped(SkipReason::UnsupportedOperatingSystem);
        },
    };
    if !is_supported_os(os.as_str()) {
        return Resolution::Skipped(SkipReason::UnsupportedOperatingSystem);
    }
    let filename = default_filename(os.as_str());
    let root = match &env.install_root {
        Some(root) => root,
        None => {
            return Resolution::Failed(ResolveError::InstallRootUnavailable);
        },
    };
    match join_url(root.as_str(), filename.as_str()) {
        Ok(locator) => {
            let args: Vec<String> = Vec::new();
            assert(texts(args@) =~= seq![]);
            Resolution::Started(LaunchDirective { locator, args, filters: language_selector() })
        },
        Err(_) => Resolution::Failed(ResolveError::InvalidInstallRoot),
    }
}

/// Decides which language server to start, if any, from the plugin's
/// settings and what the host reports of itself.
pub fn initialize(settings: &LspSettings, env: &Environment) -> (r: Resolution)
    ensures
        r@ == expected_outcome(*settings, *env),
        r matches Resolution::Started(d) ==> is_language_selector(d.filters@),
{
    match explicit_server_path(settings) {
        Some(path) => {
            let text = String::from_str(URN_PREFIX).concat(path.as_str());
            match parse_url(text.as_str()) {
                Ok(locator) => Resolution::Started(
                    LaunchDirective {
                        locator,
                        args: server_args(settings),
                        filters: language_selector(),
                    },
                ),
                Err(_) => Resolution::Failed(ResolveError::InvalidServerPath),
            }
        },
        None => default_launch(env),
    }
}

/// A non-empty `serverPath` decides the launch whatever the host reports:
/// the server is `urn:` followed by that path, as a URI, and its arguments
/// are the string entries of `serverArgs` in order.
pub proof fn explicit_path_ignores_host(s: LspSettings, e1: Environment, e2: Environment)
    requires
        explicit_path(s) is Some,
    ensures
        expected_outcome(s, e1) == expected_outcome(s, e2),
        parsed_url(URN_PREFIX@ + explicit_path(s)->0) matches Some(u) ==> expected_outcome(s, e1)
            == (Outcome::Launch { locator: u, args: string_args(s.server_args@) }),
{
}

/// Without a usable `serverPath`, on a supported architecture and
/// operating system, the platform's launcher script is started from the
/// plugin's installation root, with no arguments.
pub proof fn default_launch_on_supported_host(s: LspSettings, e: Environment)
    requires
        explicit_path(s) is None,
        architecture_supported(e),
        os_supported(e),
        e.install_root is Some,
        joined_url(e.install_root->0@, launcher_for(e.operating_system->0@)) is Some,
    ensures
        expected_outcome(s, e) == (Outcome::Launch {
            locator: joined_url(e.install_root->0@, launcher_for(e.operating_system->0@))->0,
            args: seq![],
        }),
{
}

/// Without a usable `serverPath`, an unsupported or unknown architecture
/// starts nothing and is no error, whatever the operating system.
pub proof fn unsupported_architecture_skips(s: LspSettings, e: Environment)
    requires
        explicit_path(s) is None,
        !architecture_supported(e),
    ensures
        expected_outcome(s, e) == Outcome::Skip(SkipReason::UnsupportedArchitecture),
{
}

/// Without a usable `serverPath`, on a supported architecture, an
/// unsupported or unknown operating system starts nothing and is no error.
pub proof fn unsupported_os_skips(s: LspSettings, e: Environment)
    requires
        explicit_path(s) is None,
        architecture_supported(e),
        !os_supported(e),
    ensures
        expected_outcome(s, e) == Outcome::Skip(SkipReason::UnsupportedOperatingSystem),
{
}

} // verus!
