//! The two-way OS branch: everything the commands decide differently on
//! Windows and on Unix-likes, gathered behind one value picked at startup.

use vstd::prelude::*;
use vstd::string::*;

verus! {

/// The operating-system branch the tool runs under.
#[derive(Clone, Copy, Debug, PartialEq, Eq, Structural)]
pub enum Platform {
    Windows,
    Unix,
}

/// The environment variable that names the home directory.
pub open spec fn home_var_name_spec(p: Platform) -> Seq<char> {
    match p {
        Platform::Windows => "USERPROFILE"@,
        Platform::Unix => "HOME"@,
    }
}

/// The URL the install script is downloaded from.
pub open spec fn script_url_spec(p: Platform) -> Seq<char> {
    match p {
        Platform::Windows => "https://dotnet.microsoft.com/download/dotnet/scripts/v1/dotnet-install.ps1"@,
        Platform::Unix => "https://dotnet.microsoft.com/download/dotnet/scripts/v1/dotnet-install.sh"@,
    }
}

/// The local file name the install script is written under.
pub open spec fn script_file_name_spec(p: Platform) -> Seq<char> {
    match p {
        Platform::Windows => "dotnet-install.ps1"@,
        Platform::Unix => "dotnet-install.sh"@,
    }
}

/// The interpreter that runs the install script.
pub open spec fn interpreter_spec(p: Platform) -> Seq<char> {
    match p {
        Platform::Windows => "powershell"@,
        Platform::Unix => "bash"@,
    }
}

/// The environment variable that resolves the home directory: `USERPROFILE`
/// on Windows, `HOME` elsewhere.
pub fn home_var_name(p: Platform) -> (r: &'static str)
    ensures
        r@ == home_var_name_spec(p),
{
    match p {
        Platform::Windows => "USERPROFILE",
        Platform::Unix => "HOME",
    }
}

/// The vendor URL of the platform's install script.
pub fn script_url(p: Platform) -> (r: &'static str)
    ensures
        r@ == script_url_spec(p),
{
    match p {
        Platform::Windows => "https://dotnet.microsoft.com/download/dotnet/scripts/v1/dotnet-install.ps1",
        Platform::Unix => "https://dotnet.microsoft.com/download/dotnet/scripts/v1/dotnet-install.sh",
    }
}

/// The file name the downloaded install script is stored under, in the
/// working directory.
pub fn script_file_name(p: Platform) -> (r: &'static str)
    ensures
        r@ == script_file_name_spec(p),
{
    match p {
        Platform::Windows => "dotnet-install.ps1",
        Platform::Unix => "dotnet-install.sh",
    }
}

/// The interpreter the install script is handed to: PowerShell on Windows,
/// a shell elsewhere.
pub fn interpreter(p: Platform) -> (r: &'static str)
    ensures
        r@ == interpreter_spec(p),
{
    match p {
        Platform::Windows => "powershell",
        Platform::Unix => "bash",
    }
}

} // verus!
