//! The update coordinator's decisions: component package naming, the
//! per-component update verdict, local-version reading, the comparison
//! table, confirmation parsing, and the running-process report.

use vstd::prelude::*;
use crate::registry::{get_tarball_url, read_version_field, spec_tarball_url, version_field_of};
use crate::text::{
    parse_u32, spec_dec, spec_eq_ignore_ascii_case, spec_parse_u32, spec_split, spec_starts_with,
    spec_trim_matches, spec_trim_ws, str_eq, str_eq_ignore_ascii_case, str_split,
    str_starts_with, str_trim_matches, str_trim_ws, push_char, u64_to_dec,
};
use crate::version::{compare_versions, spec_newer};

verus! {

broadcast use vstd::string::group_string_axioms;

/// The update verdict for one component.
#[derive(Debug, Clone)]
pub struct UpdateInfo {
    pub name: String,
    pub current_version: String,
    pub latest_version: String,
    pub has_update: bool,
    pub tarball_url: Option<String>,
}

/// The package names of the tracked components on one platform.
#[derive(Debug)]
pub struct ComponentPackages {
    pub cli_package: String,
    pub pmhq_package: String,
    pub llbot_package: String,
}

/// The platform token a package name carries for an operating system.
pub open spec fn spec_os_name(os: Seq<char>) -> Seq<char> {
    if os == "windows"@ {
        "win"@
    } else if os == "linux"@ {
        "linux"@
    } else if os == "macos"@ {
        "darwin"@
    } else {
        os
    }
}

/// The platform token a package name carries for an architecture.
pub open spec fn spec_arch_name(arch: Seq<char>) -> Seq<char> {
    if arch == "x86_64"@ {
        "x64"@
    } else if arch == "aarch64"@ {
        "arm64"@
    } else {
        arch
    }
}

/// Maps the process's platform identifiers to the tokens package names
/// carry.
pub fn get_platform_info(os: &str, arch: &str) -> (r: (String, String))
    ensures
        r.0@ == spec_os_name(os@),
        r.1@ == spec_arch_name(arch@),
{
    let os_name: String = if str_eq(os, "windows") {
        String::from_str("win")
    } else if str_eq(os, "linux") {
        String::from_str("linux")
    } else if str_eq(os, "macos") {
        String::from_str("darwin")
    } else {
        String::from_str(os)
    };
    let arch_name: String = if str_eq(arch, "x86_64") {
        String::from_str("x64")
    } else if str_eq(arch, "aarch64") {
        String::from_str("arm64")
    } else {
        String::from_str(arch)
    };
    (os_name, arch_name)
}

impl ComponentPackages {
    /// The tracked components' package names, from the platform the caller
    /// runs on (its operating system and architecture identifiers).
    pub fn for_current_platform(os: &str, arch: &str) -> (r: Self)
        ensures
            r.cli_package@ == "llbot-cli-"@ + spec_os_name(os@) + "-"@ + spec_arch_name(arch@),
            r.pmhq_package@ == "pmhq-dist-"@ + spec_os_name(os@) + "-"@ + spec_arch_name(arch@),
            r.llbot_package@ == "llonebot-dist"@,
    {
        let (os_name, arch_name) = get_platform_info(os, arch);
        let mut cli = String::from_str("llbot-cli-");
        cli.append(os_name.as_str());
        cli.append("-");
        cli.append(arch_name.as_str());
        let mut pmhq = String::from_str("pmhq-dist-");
        pmhq.append(os_name.as_str());
        pmhq.append("-");
        pmhq.append(arch_name.as_str());
        ComponentPackages {
            cli_package: cli,
            pmhq_package: pmhq,
            llbot_package: String::from_str("llonebot-dist"),
        }
    }
}

/// The update verdict for one component, from the resolution outcome.
/// `resolved_latest` is what the registries answered (`None` when every
/// endpoint failed); `download_registry` is the endpoint picked to host
/// the artifact. There is an update exactly when a version was resolved
/// and is strictly newer; the artifact URL is present exactly then.
pub fn check_update(
    name: &str,
    package_name: &str,
    current_version: &str,
    resolved_latest: Option<&str>,
    download_registry: &str,
) -> (r: UpdateInfo)
    ensures
        r.name@ == name@,
        r.current_version@ == current_version@,
        resolved_latest matches Some(v) ==> {
            &&& r.latest_version@ == v@
            &&& r.has_update == spec_newer(current_version@, v@)
            &&& (spec_newer(current_version@, v@) ==> (r.tarball_url matches Some(u) && u@
                == spec_tarball_url(download_registry@, package_name@, v@)))
            &&& (!spec_newer(current_version@, v@) ==> r.tarball_url is None)
        },
        resolved_latest is None ==> {
            &&& r.latest_version@ == "unknown"@
            &&& !r.has_update
            &&& r.tarball_url is None
        },
{
    match resolved_latest {
        Some(v) => {
            let has_update = compare_versions(current_version, v);
            let tarball_url: Option<String> = if has_update {
                Some(get_tarball_url(download_registry, package_name, v))
            } else {
                None
            };
            UpdateInfo {
                name: String::from_str(name),
                current_version: String::from_str(current_version),
                latest_version: String::from_str(v),
                has_update,
                tarball_url,
            }
        },
        None => UpdateInfo {
            name: String::from_str(name),
            current_version: String::from_str(current_version),
            latest_version: String::from_str("unknown"),
            has_update: false,
            tarball_url: None,
        },
    }
}

/// The components that keep a version file, and where it stands relative
/// to the installation directory.
pub fn version_file_rel_path(component: &str) -> (r: Option<&'static str>)
    ensures
        component@ == "pmhq"@ ==> (r matches Some(p) && p@ == "bin/pmhq/package.json"@),
        component@ == "llbot"@ || component@ == "node"@ ==> (r matches Some(p) && p@
            == "bin/llbot/package.json"@),
        !(component@ == "pmhq"@ || component@ == "llbot"@ || component@ == "node"@) ==> r is None,
{
    proof {
        reveal_strlit("pmhq");
        reveal_strlit("llbot");
        reveal_strlit("node");
        assert("pmhq"@ != "node"@) by {
            assert("pmhq"@[0] == 'p');
            assert("node"@[0] == 'n');
        }
        assert("pmhq"@.len() == 4);
        assert("llbot"@.len() == 5);
    }
    if str_eq(component, "pmhq") {
        Some("bin/pmhq/package.json")
    } else if str_eq(component, "llbot") || str_eq(component, "node") {
        Some("bin/llbot/package.json")
    } else {
        None
    }
}

/// The installed version from the version file's `version` field: the
/// field's text when there is one, else the "not installed" sentinel,
/// which compares as needing an update against any resolved version with
/// a nonzero segment.
pub fn local_version_of(version_field: Option<&str>) -> (r: String)
    ensures
        version_field matches Some(v) ==> r@ == v@,
        version_field is None ==> r@ == "not installed"@,
{
    match version_field {
        Some(v) => String::from_str(v),
        None => String::from_str("not installed"),
    }
}

/// The installed version of a component, read from the text of its version
/// file. An unknown component reports the "unknown" sentinel; a missing
/// file reports the "not installed" sentinel; otherwise the file's named
/// `version` field decides, through `local_version_of`.
pub fn get_local_version(component: &str, package_json: Option<&str>) -> (r: String)
    ensures
        !(component@ == "pmhq"@ || component@ == "llbot"@ || component@ == "node"@) ==> r@
            == "unknown"@,
        (component@ == "pmhq"@ || component@ == "llbot"@ || component@ == "node"@)
            && package_json is None ==> r@ == "not installed"@,
        (component@ == "pmhq"@ || component@ == "llbot"@ || component@ == "node"@) ==> (
        package_json matches Some(content) ==> r@ == (match version_field_of(content@) {
            Some(v) => v,
            None => "not installed"@,
        })),
{
    let known = str_eq(component, "pmhq") || str_eq(component, "llbot") || str_eq(
        component,
        "node",
    );
    if !known {
        return String::from_str("unknown");
    }
    let version_field: Option<String> = match package_json {
        Some(content) => read_version_field(content),
        None => None,
    };
    match version_field {
        Some(v) => local_version_of(Some(v.as_str())),
        None => local_version_of(None),
    }
}

/// `s` padded with spaces at the right up to width `w`.
pub open spec fn spec_pad(s: Seq<char>, w: int) -> Seq<char> {
    s + Seq::new(if s.len() >= w {
        0nat
    } else {
        (w - s.len()) as nat
    }, |i: int| ' ')
}

/// Pads `s` with spaces at the right up to width `w`.
pub fn pad_to(s: &str, w: usize) -> (r: String)
    ensures
        r@ == spec_pad(s@, w as int),
{
    let mut out = String::from_str(s);
    let n = s.unicode_len();
    let mut i: usize = n;
    while i < w
        invariant
            n == s@.len(),
            i >= n,
            n >= w ==> i == n,
            n < w ==> i <= w,
            out@ == s@ + Seq::new((i - n) as nat, |k: int| ' '),
        decreases w - i,
    {
        let ghost prev = out@;
        push_char(&mut out, ' ');
        proof {
            assert(out@ =~= s@ + Seq::new((i + 1 - n) as nat, |k: int| ' '));
        }
        i = i + 1;
    }
    proof {
        assert(out@ =~= spec_pad(s@, w as int));
    }
    out
}

/// One line of the comparison table for a component.
pub open spec fn spec_update_row(info: UpdateInfo) -> Seq<char> {
    spec_pad(info.name@, 12) + "  "@ + spec_pad(info.current_version@, 14) + "  "@ + spec_pad(
        info.latest_version@,
        14,
    ) + "  "@ + (if info.has_update {
        "update available"@
    } else {
        "up to date"@
    })
}

/// Renders one line of the comparison table.
pub fn update_row(info: &UpdateInfo) -> (r: String)
    ensures
        r@ == spec_update_row(*info),
{
    let mut out = pad_to(info.name.as_str(), 12);
    out.append("  ");
    let cur = pad_to(info.current_version.as_str(), 14);
    out.append(cur.as_str());
    out.append("  ");
    let latest = pad_to(info.latest_version.as_str(), 14);
    out.append(latest.as_str());
    out.append("  ");
    if info.has_update {
        out.append("update available");
    } else {
        out.append("up to date");
    }
    out
}

/// A confirmation answer: `y` or `yes`, up to ASCII case and surrounding
/// ASCII whitespace — that rule, not full Unicode folding, is the one this
/// library states and checks.
pub fn is_yes(input: &str) -> (r: bool)
    ensures
        r == (spec_eq_ignore_ascii_case(spec_trim_ws(input@), "y"@) || spec_eq_ignore_ascii_case(
            spec_trim_ws(input@),
            "yes"@,
        )),
{
    let t = str_trim_ws(input);
    str_eq_ignore_ascii_case(t, "y") || str_eq_ignore_ascii_case(t, "yes")
}

/// A component is applied when it has an update and a resolved URL.
pub open spec fn spec_applies(u: UpdateInfo) -> bool {
    u.has_update && u.tarball_url is Some
}

/// The positions of the components to update, in order: those with an
/// update and a resolved artifact URL, all of them, and nothing else.
pub fn updates_to_apply(infos: &Vec<UpdateInfo>) -> (r: Vec<usize>)
    ensures
        forall|k: int| 0 <= k < r@.len() ==> (#[trigger] r@[k]) < infos@.len(),
        forall|k: int| 0 <= k < r@.len() ==> spec_applies(infos@[(#[trigger] r@[k]) as int]),
        forall|k1: int, k2: int| 0 <= k1 < k2 < r@.len() ==> r@[k1] < r@[k2],
        forall|j: int| 0 <= j < infos@.len() && spec_applies(#[trigger] infos@[j]) ==> r@.contains(
            j as usize,
        ),
{
    let mut out: Vec<usize> = Vec::new();
    let mut i: usize = 0;
    while i < infos.len()
        invariant
            i <= infos@.len(),
            forall|k: int| 0 <= k < out@.len() ==> (#[trigger] out@[k]) < i,
            forall|k: int| 0 <= k < out@.len() ==> spec_applies(infos@[(#[trigger] out@[k]) as int]),
            forall|k1: int, k2: int| 0 <= k1 < k2 < out@.len() ==> out@[k1] < out@[k2],
            forall|j: int| 0 <= j < i && spec_applies(#[trigger] infos@[j]) ==> out@.contains(
                j as usize,
            ),
        decreases infos@.len() - i,
    {
        let applies = infos[i].has_update && infos[i].tarball_url.is_some();
        if applies {
            let ghost prev = out@;
            out.push(i);
            proof {
                assert(out@ =~= prev.push(i as usize));
                assert(forall|k: int| 0 <= k < prev.len() ==> out@[k] == prev[k]);
                assert(out@[out@.len() - 1] == i as usize);
                assert(spec_applies(infos@[i as int]));
                assert forall|k1: int, k2: int| 0 <= k1 < k2 < out@.len() implies out@[k1]
                    < out@[k2] by {
                    if k2 == out@.len() - 1 {
                        assert(out@[k1] == prev[k1]);
                        assert(prev[k1] < i);
                    }
                }
                assert forall|j: int|
                    0 <= j < i + 1 && spec_applies(#[trigger] infos@[j]) implies out@.contains(
                    j as usize,
                ) by {
                    if j == i {
                        assert(out@[out@.len() - 1] == j as usize);
                    } else {
                        assert(prev.contains(j as usize));
                        let w = choose|w: int| 0 <= w < prev.len() && prev[w] == j as usize;
                        assert(out@[w] == j as usize);
                    }
                }
            }
        } else {
            proof {
                assert(!spec_applies(infos@[i as int]));
            }
        }
        i = i + 1;
    }
    out
}

/// Where one named component installs, relative to the launcher.
pub fn target_dir_for(name: &str) -> (r: Option<&'static str>)
    ensures
        name@ == "PMHQ"@ ==> (r matches Some(d) && d@ == "bin/pmhq"@),
        name@ == "LLBot"@ ==> (r matches Some(d) && d@ == "bin/llbot"@),
        !(name@ == "PMHQ"@ || name@ == "LLBot"@) ==> r is None,
{
    proof {
        reveal_strlit("PMHQ");
        reveal_strlit("LLBot");
        assert("PMHQ"@.len() == 4);
        assert("LLBot"@.len() == 5);
    }
    if str_eq(name, "PMHQ") {
        Some("bin/pmhq")
    } else if str_eq(name, "LLBot") {
        Some("bin/llbot")
    } else {
        None
    }
}

/// A file of the unpacked update that is the launcher's executable: the
/// exact executable name, or any name beginning with the program's own.
pub open spec fn spec_is_update_exe(name: Seq<char>, exe_name: Seq<char>) -> bool {
    name == exe_name || spec_starts_with(name, "llbot"@)
}

/// Picks the first file of the unpacked update that can be the launcher's
/// new executable.
pub fn pick_update_executable(names: &Vec<String>, exe_name: &str) -> (r: Option<usize>)
    ensures
        r matches Some(i) ==> i < names@.len() && spec_is_update_exe(names@[i as int]@, exe_name@)
            && forall|j: int| 0 <= j < i ==> !spec_is_update_exe(#[trigger] names@[j]@, exe_name@),
        r is None ==> forall|j: int| 0 <= j < names@.len() ==> !spec_is_update_exe(
            #[trigger] names@[j]@,
            exe_name@,
        ),
{
    let mut i: usize = 0;
    while i < names.len()
        invariant
            i <= names@.len(),
            forall|j: int| 0 <= j < i ==> !spec_is_update_exe(#[trigger] names@[j]@, exe_name@),
        decreases names@.len() - i,
    {
        let name = names[i].as_str();
        if str_eq(name, exe_name) || str_starts_with(name, "llbot") {
            return Some(i);
        }
        i = i + 1;
    }
    None
}


/// The text of the self-update helper script: it waits for the process id
/// to vanish from the task list, backs the old binary up, copies the new
/// one in, restores the backup when the copy fails, relaunches, and
/// removes its own scratch directory.
pub open spec fn spec_update_helper_script(
    pid: nat,
    backup: Seq<char>,
    current: Seq<char>,
    new_exe: Seq<char>,
    temp_dir: Seq<char>,
) -> Seq<char> {
    "@echo off\r\nchcp 65001 >nul\r\necho updating LLBot CLI...\r\n\r\n:wait\r\ntimeout /t 1 /nobreak >nul\r\ntasklist /FI \"PID eq "@
        + spec_dec(pid) + "\" 2>NUL | find /I \""@ + spec_dec(pid)
        + "\" >NUL\r\nif not errorlevel 1 goto wait\r\n\r\necho backing the old version up...\r\nif exist \""@
        + backup + "\" del /f /q \""@ + backup + "\"\r\nmove /y \""@ + current + "\" \""@
        + backup + "\"\r\n\r\necho installing the new version...\r\ncopy /y \""@ + new_exe
        + "\" \""@ + current
        + "\"\r\n\r\nif errorlevel 1 (\r\n    echo update failed, restoring...\r\n    move /y \""@
        + backup + "\" \""@ + current
        + "\"\r\n    pause\r\n    exit /b 1\r\n)\r\n\r\necho update complete\r\ntimeout /t 2 /nobreak >nul\r\n\r\nstart \"\" \""@
        + current + "\"\r\nstart /b \"\" cmd /c \"timeout /t 3 /nobreak >nul & rmdir /s /q \""@
        + temp_dir + "\" 2>nul\"\r\nexit\r\n"@
}

/// Builds the self-update helper script for the given process id and
/// paths; the caller only writes it out and starts it.
pub fn update_helper_script(
    pid: u32,
    backup: &str,
    current: &str,
    new_exe: &str,
    temp_dir: &str,
) -> (r: String)
    ensures
        r@ == spec_update_helper_script(pid as nat, backup@, current@, new_exe@, temp_dir@),
{
    let pid_text = u64_to_dec(pid as u64);
    let mut out = String::from_str(
        "@echo off\r\nchcp 65001 >nul\r\necho updating LLBot CLI...\r\n\r\n:wait\r\ntimeout /t 1 /nobreak >nul\r\ntasklist /FI \"PID eq ",
    );
    out.append(pid_text.as_str());
    out.append("\" 2>NUL | find /I \"");
    out.append(pid_text.as_str());
    out.append(
        "\" >NUL\r\nif not errorlevel 1 goto wait\r\n\r\necho backing the old version up...\r\nif exist \"",
    );
    out.append(backup);
    out.append("\" del /f /q \"");
    out.append(backup);
    out.append("\"\r\nmove /y \"");
    out.append(current);
    out.append("\" \"");
    out.append(backup);
    out.append("\"\r\n\r\necho installing the new version...\r\ncopy /y \"");
    out.append(new_exe);
    out.append("\" \"");
    out.append(current);
    out.append(
        "\"\r\n\r\nif errorlevel 1 (\r\n    echo update failed, restoring...\r\n    move /y \"",
    );
    out.append(backup);
    out.append("\" \"");
    out.append(current);
    out.append(
        "\"\r\n    pause\r\n    exit /b 1\r\n)\r\n\r\necho update complete\r\ntimeout /t 2 /nobreak >nul\r\n\r\nstart \"\" \"",
    );
    out.append(current);
    out.append("\"\r\nstart /b \"\" cmd /c \"timeout /t 3 /nobreak >nul & rmdir /s /q \"");
    out.append(temp_dir);
    out.append("\" 2>nul\"\r\nexit\r\n");
    out
}

/// Names the processes an update would overwrite. On platforms without a
/// process table to consult this reports none; the report read from a task
/// list is `running_from_tasklist`.
pub fn check_running_processes() -> (r: Vec<(String, u32)>)
    ensures
        r@.len() == 0,
{
    Vec::new()
}

/// A process name the update cares about.
pub open spec fn spec_is_target_process(name: Seq<char>) -> bool {
    spec_eq_ignore_ascii_case(name, "llbot.exe"@) || spec_eq_ignore_ascii_case(name, "pmhq.exe"@)
        || spec_eq_ignore_ascii_case(name, "QQ.exe"@)
}

/// One line of task-list output, with its single carriage return stripped.
pub open spec fn spec_strip_cr(line: Seq<char>) -> Seq<char> {
    if line.len() > 0 && line.last() == '\r' {
        line.drop_last()
    } else {
        line
    }
}

/// The report row a task-list line yields: its first two comma-separated
/// fields, unquoted, when the name is a tracked process and the identifier
/// is a number.
pub open spec fn spec_row_of_line(line: Seq<char>) -> Seq<(Seq<char>, u32)> {
    let parts = spec_split(line, ',');
    if parts.len() >= 2 {
        let name = spec_trim_matches(parts[0], '"');
        let pid_s = spec_trim_matches(parts[1], '"');
        if spec_is_target_process(name) && spec_parse_u32(pid_s) is Some {
            seq![(name, spec_parse_u32(pid_s).unwrap())]
        } else {
            Seq::empty()
        }
    } else {
        Seq::empty()
    }
}

/// The report rows of a sequence of lines.
pub open spec fn spec_rows_of_lines(lines: Seq<Seq<char>>) -> Seq<(Seq<char>, u32)>
    decreases lines.len(),
{
    if lines.len() == 0 {
        Seq::empty()
    } else {
        spec_row_of_line(spec_strip_cr(lines[0])) + spec_rows_of_lines(lines.drop_first())
    }
}

/// The tracked processes named in task-list output: per line, the first
/// two comma-separated fields are the process name and its identifier,
/// each possibly quoted.
pub open spec fn spec_tasklist_rows(output: Seq<char>) -> Seq<(Seq<char>, u32)> {
    spec_rows_of_lines(spec_split(output, '\n'))
}

proof fn lemma_rows_push(lines: Seq<Seq<char>>, x: Seq<char>)
    ensures
        spec_rows_of_lines(lines.push(x)) == spec_rows_of_lines(lines) + spec_row_of_line(
            spec_strip_cr(x),
        ),
    decreases lines.len(),
{
    if lines.len() == 0 {
        assert(lines.push(x)[0] == x);
        assert(lines.push(x).drop_first() =~= Seq::<Seq<char>>::empty());
        assert(spec_rows_of_lines(lines.push(x)) == spec_row_of_line(spec_strip_cr(x))
            + spec_rows_of_lines(Seq::<Seq<char>>::empty()));
        assert(spec_row_of_line(spec_strip_cr(x)) + Seq::<(Seq<char>, u32)>::empty()
            =~= spec_row_of_line(spec_strip_cr(x)));
        assert(spec_rows_of_lines(lines) + spec_row_of_line(spec_strip_cr(x)) =~= spec_row_of_line(
            spec_strip_cr(x),
        ));
    } else {
        assert(lines.push(x)[0] == lines[0]);
        assert(lines.push(x).drop_first() =~= lines.drop_first().push(x));
        lemma_rows_push(lines.drop_first(), x);
        assert((spec_row_of_line(spec_strip_cr(lines[0])) + (spec_rows_of_lines(lines.drop_first())
            + spec_row_of_line(spec_strip_cr(x)))) =~= ((spec_row_of_line(spec_strip_cr(lines[0]))
            + spec_rows_of_lines(lines.drop_first())) + spec_row_of_line(spec_strip_cr(x))));
    }
}

/// Reads the tracked running processes out of task-list output.
pub fn running_from_tasklist(output: &str) -> (r: Vec<(String, u32)>)
    ensures
        r@.map_values(|p: (String, u32)| (p.0@, p.1)) == spec_tasklist_rows(output@),
{
    let lines = str_split(output, '\n');
    let ghost line_views = lines@.map_values(|t: String| t@);
    let mut out: Vec<(String, u32)> = Vec::new();
    let mut i: usize = 0;
    proof {
        assert(line_views.take(0) =~= Seq::<Seq<char>>::empty());
        assert(out@.map_values(|p: (String, u32)| (p.0@, p.1)) =~= spec_rows_of_lines(
            line_views.take(0),
        ));
    }
    while i < lines.len()
        invariant
            line_views == lines@.map_values(|t: String| t@),
            i <= lines@.len(),
            out@.map_values(|p: (String, u32)| (p.0@, p.1)) == spec_rows_of_lines(
                line_views.take(i as int),
            ),
        decreases lines@.len() - i,
    {
        let raw = lines[i].as_str();
        let n = raw.unicode_len();
        let line: &str = if n > 0 && raw.get_char(n - 1) == '\r' {
            raw.substring_char(0, n - 1)
        } else {
            raw
        };
        proof {
            assert(raw@ == line_views[i as int]);
            assert(raw@.len() > 0 ==> raw@.last() == raw@[n - 1]);
            assert(line@ =~= spec_strip_cr(line_views[i as int]));
            assert(line_views.take(i as int + 1) =~= line_views.take(i as int).push(
                line_views[i as int],
            ));
            lemma_rows_push(line_views.take(i as int), line_views[i as int]);
        }
        let ghost prev = out@.map_values(|p: (String, u32)| (p.0@, p.1));
        let parts = str_split(line, ',');
        if parts.len() >= 2 {
            proof {
                assert(parts@.map_values(|t: String| t@)[0] == spec_split(line@, ',')[0]);
                assert(parts@.map_values(|t: String| t@)[1] == spec_split(line@, ',')[1]);
            }
            let name = str_trim_matches(parts[0].as_str(), '"');
            let pid_s = str_trim_matches(parts[1].as_str(), '"');
            let is_target = str_eq_ignore_ascii_case(name, "llbot.exe")
                || str_eq_ignore_ascii_case(name, "pmhq.exe") || str_eq_ignore_ascii_case(
                name,
                "QQ.exe",
            );
            if is_target {
                match parse_u32(pid_s) {
                    Some(pid) => {
                        out.push((name.to_owned(), pid));
                        proof {
                            assert(out@.map_values(|p: (String, u32)| (p.0@, p.1)) =~= prev.push(
                                (name@, pid),
                            ));
                            assert(prev.push((name@, pid)) =~= prev + seq![(name@, pid)]);
                        }
                    },
                    None => {
                        proof {
                            assert(spec_row_of_line(line@) =~= Seq::<(Seq<char>, u32)>::empty());
                            assert(prev + Seq::<(Seq<char>, u32)>::empty() =~= prev);
                        }
                    },
                }
            } else {
                proof {
                    assert(spec_row_of_line(line@) =~= Seq::<(Seq<char>, u32)>::empty());
                    assert(prev + Seq::<(Seq<char>, u32)>::empty() =~= prev);
                }
            }
        } else {
            proof {
                assert(spec_row_of_line(line@) =~= Seq::<(Seq<char>, u32)>::empty());
                assert(prev + Seq::<(Seq<char>, u32)>::empty() =~= prev);
            }
        }
        i = i + 1;
    }
    proof {
        assert(line_views.take(lines@.len() as int) =~= line_views);
    }
    out
}

} // verus!
