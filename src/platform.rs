use vstd::prelude::*;
use vstd::string::StringExecFns;

verus! {

/// The launcher script for Windows hosts, relative to the plugin's root.
pub const WINDOWS_LAUNCHER: &'static str = "elixir-ls-release/language_server.bat";

/// The launcher script for every other host, relative to the plugin's root.
pub const UNIX_LAUNCHER: &'static str = "elixir-ls-release/language_server.sh";

pub open spec fn supported_architecture(arch: Seq<char>) -> bool {
    arch == "x86_64"@ || arch == "aarch64"@
}

pub open spec fn supported_os(os: Seq<char>) -> bool {
    os == "macos"@ || os == "linux"@ || os == "windows"@
}

/// The launcher script that the plugin ships for a host operating system.
pub open spec fn launcher_for(os: Seq<char>) -> Seq<char> {
    if os == "windows"@ {
        WINDOWS_LAUNCHER@
    } else {
        UNIX_LAUNCHER@
    }
}

fn same_text(a: &str, b: &str) -> (r: bool)
    ensures
        r == (a@ == b@),
{
    String::from_str(a) == String::from_str(b)
}

/// Whether a bundled server exists for this processor architecture.
pub fn is_supported_architecture(arch: &str) -> (r: bool)
    ensures
        r == supported_architecture(arch@),
{
    same_text(arch, "x86_64") || same_text(arch, "aarch64")
}

/// Whether a bundled server exists for this operating system.
pub fn is_supported_os(os: &str) -> (r: bool)
    ensures
        r == supported_os(os@),
{
    same_text(os, "macos") || same_text(os, "linux") || same_text(os, "windows")
}

/// The launcher script's path relative to the plugin's root: the `.bat`
/// script on Windows, the shell script elsewhere.
pub fn default_filename(os: &str) -> (r: String)
    ensures
        r@ == launcher_for(os@),
{
    if same_text(os, "windows") {
        String::from_str(WINDOWS_LAUNCHER)
    } else {
        String::from_str(UNIX_LAUNCHER)
    }
}

} // verus!
