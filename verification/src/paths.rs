//! Where things live: paths inside an isolated environment, the search path
//! handed to a subprocess, and the names of side-channel and report files.
//!
//! Paths are texts. Every function takes the platform as a value, so the rules
//! of both platforms can be computed and checked anywhere.

use vstd::prelude::*;
use vstd::string::*;
use crate::text::{
    decimal, lemma_decimal_is_injective, lemma_middle_is_determined, push_decimal,
};

verus! {

/// The host conventions that decide how paths are written and where an
/// isolated environment keeps its executables.
#[derive(Clone, Copy, Debug, PartialEq, Eq, Structural)]
pub enum Platform {
    Posix,
    Windows,
}

/// The output format of a report file.
#[derive(Clone, Copy, Debug, PartialEq, Eq, Structural)]
pub enum ReportFormat {
    Markdown,
    Html,
}

/// The character that `platform` writes between the components of a path.
pub open spec fn separator(platform: Platform) -> char {
    match platform {
        Platform::Posix => '/',
        Platform::Windows => '\\',
    }
}

/// Whether `c` ends a path component on `platform`. Windows reads both slashes.
pub open spec fn is_separator(c: char, platform: Platform) -> bool {
    match platform {
        Platform::Posix => c == '/',
        Platform::Windows => c == '/' || c == '\\',
    }
}

/// `base` extended by the relative component `part`: a separator is written
/// between them unless `base` is empty or already ends with one.
pub open spec fn joined(base: Seq<char>, part: Seq<char>, platform: Platform) -> Seq<char> {
    if base.len() == 0 || is_separator(base.last(), platform) {
        base + part
    } else {
        base.push(separator(platform)) + part
    }
}

/// The directory, relative to an environment's root, that holds its executables.
pub open spec fn executable_dir_name(platform: Platform) -> Seq<char> {
    match platform {
        Platform::Posix => "bin"@,
        Platform::Windows => "Scripts"@,
    }
}

/// The file name of the executable `name` on `platform`.
pub open spec fn executable_file_name(name: Seq<char>, platform: Platform) -> Seq<char> {
    match platform {
        Platform::Posix => name,
        Platform::Windows => name + ".exe"@,
    }
}

/// The directory of the executables of the environment at `root`.
pub open spec fn executable_dir(root: Seq<char>, platform: Platform) -> Seq<char> {
    joined(root, executable_dir_name(platform), platform)
}

/// The path of the executable `name` of the environment at `root`:
/// `bin/<name>` below the root on POSIX, `Scripts\<name>.exe` on Windows.
pub open spec fn executable_path(root: Seq<char>, name: Seq<char>, platform: Platform) -> Seq<
    char,
> {
    joined(executable_dir(root, platform), executable_file_name(name, platform), platform)
}

/// The search path for a subprocess: `dir` first, then a colon, then what the
/// caller inherited.
pub open spec fn search_path(dir: Seq<char>, inherited: Seq<char>) -> Seq<char> {
    dir.push(':') + inherited
}

/// The file name of the side-channel file of the analyser `tool`, made unique
/// by the number `token`: `<tool>-out-<token>.json`.
pub open spec fn side_channel_name(tool: Seq<char>, token: nat) -> Seq<char> {
    tool + "-out-"@ + decimal(token) + ".json"@
}

/// The directory of the isolated environment of the toolset `name` below the
/// application data root: `<name>-env`.
pub open spec fn environment_dir(data_root: Seq<char>, name: Seq<char>, platform: Platform) -> Seq<
    char,
> {
    joined(data_root, name + "-env"@, platform)
}

/// The directory of the reports of the toolset `name` below a contract's base
/// directory: `<name>-report`.
pub open spec fn report_dir(base: Seq<char>, name: Seq<char>, platform: Platform) -> Seq<char> {
    joined(base, name + "-report"@, platform)
}

/// The extension of a report file.
pub open spec fn report_extension(format: ReportFormat) -> Seq<char> {
    match format {
        ReportFormat::Markdown => "md"@,
        ReportFormat::Html => "html"@,
    }
}

/// The name of a report file: `<contract>_<toolset>_report.<extension>`.
pub open spec fn report_file_name(contract: Seq<char>, toolset: Seq<char>, format: ReportFormat) -> Seq<
    char,
> {
    contract.push('_') + toolset + "_report."@ + report_extension(format)
}

/// Whether `c` ends a path component on `platform`.
pub fn ends_component(c: char, platform: Platform) -> (r: bool)
    ensures
        r == is_separator(c, platform),
{
    match platform {
        Platform::Posix => c == '/',
        Platform::Windows => c == '/' || c == '\\',
    }
}

/// Extends `base` by the relative component `part`.
pub fn join_path(base: &str, part: &str, platform: Platform) -> (r: String)
    ensures
        r@ == joined(base@, part@, platform),
{
    let n = base.unicode_len();
    let mut r = String::from_str(base);
    if n > 0 && !ends_component(base.get_char(n - 1), platform) {
        match platform {
            Platform::Posix => r.push('/'),
            Platform::Windows => r.push('\\'),
        }
    }
    r.append(part);
    r
}

/// The directory of the executables of the environment at `root`.
pub fn resolve_executable_dir(root: &str, platform: Platform) -> (r: String)
    ensures
        r@ == executable_dir(root@, platform),
{
    match platform {
        Platform::Posix => join_path(root, "bin", platform),
        Platform::Windows => join_path(root, "Scripts", platform),
    }
}

/// The path of the executable `name` of the environment at `root`.
pub fn resolve_executable_path(root: &str, name: &str, platform: Platform) -> (r: String)
    ensures
        r@ == executable_path(root@, name@, platform),
{
    let dir = resolve_executable_dir(root, platform);
    let mut file = String::from_str(name);
    match platform {
        Platform::Posix => {},
        Platform::Windows => file.append(".exe"),
    }
    join_path(dir.as_str(), file.as_str(), platform)
}

/// The search path for a subprocess that must find the executables in `dir`
/// before any other.
pub fn prepend_search_path(dir: &str, inherited: &str) -> (r: String)
    ensures
        r@ == search_path(dir@, inherited@),
{
    let mut r = String::from_str(dir);
    r.push(':');
    r.append(inherited);
    r
}

/// The path of the side-channel file of `tool` below `temp_dir`, made unique
/// by `token`.
pub fn side_channel_path(temp_dir: &str, tool: &str, token: u32, platform: Platform) -> (r: String)
    ensures
        r@ == joined(temp_dir@, side_channel_name(tool@, token as nat), platform),
{
    let mut name = String::from_str(tool);
    name.append("-out-");
    push_decimal(&mut name, token);
    name.append(".json");
    join_path(temp_dir, name.as_str(), platform)
}

/// The directory of the isolated environment of the toolset `name`.
pub fn environment_dir_path(data_root: &str, name: &str, platform: Platform) -> (r: String)
    ensures
        r@ == environment_dir(data_root@, name@, platform),
{
    let mut dir = String::from_str(name);
    dir.append("-env");
    join_path(data_root, dir.as_str(), platform)
}

/// The directory of the reports of the toolset `name`.
pub fn report_dir_path(base: &str, name: &str, platform: Platform) -> (r: String)
    ensures
        r@ == report_dir(base@, name@, platform),
{
    let mut dir = String::from_str(name);
    dir.append("-report");
    join_path(base, dir.as_str(), platform)
}

/// The name of the report file of `toolset` for the contract `contract`.
pub fn report_file(contract: &str, toolset: &str, format: ReportFormat) -> (r: String)
    ensures
        r@ == report_file_name(contract@, toolset@, format),
{
    let mut r = String::from_str(contract);
    r.push('_');
    r.append(toolset);
    r.append("_report.");
    match format {
        ReportFormat::Markdown => r.append("md"),
        ReportFormat::Html => r.append("html"),
    }
    r
}

/// Side-channel files do not collide: in one directory, the files of one tool
/// for two different tokens have different paths.
pub proof fn lemma_side_channel_paths_differ(
    temp_dir: Seq<char>,
    tool: Seq<char>,
    platform: Platform,
    a: nat,
    b: nat,
)
    requires
        a != b,
    ensures
        side_channel_name(tool, a) != side_channel_name(tool, b),
        joined(temp_dir, side_channel_name(tool, a), platform) != joined(
            temp_dir,
            side_channel_name(tool, b),
            platform,
        ),
{
    let name_a = side_channel_name(tool, a);
    let name_b = side_channel_name(tool, b);
    if name_a == name_b {
        lemma_middle_is_determined(tool + "-out-"@, decimal(a), decimal(b), ".json"@);
        lemma_decimal_is_injective(a, b);
    }
    let path_a = joined(temp_dir, name_a, platform);
    let path_b = joined(temp_dir, name_b, platform);
    if path_a == path_b {
        let none = Seq::<char>::empty();
        if temp_dir.len() == 0 || is_separator(temp_dir.last(), platform) {
            assert(temp_dir + name_a + none =~= path_a);
            assert(temp_dir + name_b + none =~= path_b);
            lemma_middle_is_determined(temp_dir, name_a, name_b, none);
        } else {
            let base = temp_dir.push(separator(platform));
            assert(base + name_a + none =~= path_a);
            assert(base + name_b + none =~= path_b);
            lemma_middle_is_determined(base, name_a, name_b, none);
        }
    }
}

} // verus!
