//! The launcher's own decisions before and around the worker: which mode
//! the arguments select, where the worker executable may stand, the
//! precheck that stops the launch when it is missing, and the argument
//! vector the worker is started with.

use vstd::prelude::*;
use crate::text::{
    spec_contains, spec_dec, spec_occurs_at, spec_starts_with, str_eq, str_starts_with, u64_to_dec,
};

verus! {

broadcast use vstd::string::group_string_axioms;

/// What the launcher does for the given arguments, in the order the flags
/// are recognized.
#[derive(Clone, Copy, PartialEq, Eq, Structural, Debug)]
pub enum LaunchMode {
    /// Forward `--help` to the worker and exit with its status.
    Help,
    /// Print the launcher's version, forward to the worker, exit.
    Version,
    /// Run the update flow and exit.
    Update,
    /// Launch and supervise the worker.
    Run,
}

/// Some argument is exactly this flag.
pub open spec fn spec_has_flag(args: Seq<String>, flag: Seq<char>) -> bool {
    exists|i: int| 0 <= i < args.len() && (#[trigger] args[i])@ == flag
}

/// Whether some argument is exactly this flag.
pub fn has_flag(args: &Vec<String>, flag: &str) -> (r: bool)
    ensures
        r == spec_has_flag(args@, flag@),
{
    let mut i: usize = 0;
    while i < args.len()
        invariant
            i <= args@.len(),
            forall|j: int| 0 <= j < i ==> (#[trigger] args@[j])@ != flag@,
        decreases args@.len() - i,
    {
        if str_eq(args[i].as_str(), flag) {
            return true;
        }
        i = i + 1;
    }
    false
}

/// Picks the launcher's mode: help flags win, then version flags, then the
/// update flag; anything else launches the worker.
pub fn launch_mode(args: &Vec<String>) -> (r: LaunchMode)
    ensures
        (r is Help) == (spec_has_flag(args@, "--help"@) || spec_has_flag(args@, "-h"@)),
        (r is Version) == (!(r is Help) && (spec_has_flag(args@, "--version"@) || spec_has_flag(
            args@,
            "-v"@,
        ))),
        (r is Update) == (!(r is Help) && !(r is Version) && spec_has_flag(args@, "--update"@)),
        (r is Run) == (!(r is Help) && !(r is Version) && !spec_has_flag(args@, "--update"@) && !(
        spec_has_flag(args@, "--version"@) || spec_has_flag(args@, "-v"@))),
{
    if has_flag(args, "--help") || has_flag(args, "-h") {
        LaunchMode::Help
    } else if has_flag(args, "--version") || has_flag(args, "-v") {
        LaunchMode::Version
    } else if has_flag(args, "--update") {
        LaunchMode::Update
    } else {
        LaunchMode::Run
    }
}

/// The executable suffix of a platform.
pub open spec fn spec_exe_suffix(windows: bool) -> Seq<char> {
    if windows {
        ".exe"@
    } else {
        Seq::empty()
    }
}

/// The platform's name for an executable.
pub fn get_exe_name(base: &str, windows: bool) -> (r: String)
    ensures
        r@ == base@ + spec_exe_suffix(windows),
{
    let mut out = String::from_str(base);
    if windows {
        out.append(".exe");
    } else {
        proof {
            assert(base@ + Seq::<char>::empty() =~= base@);
        }
    }
    out
}

/// The platform-and-architecture token in a worker executable's name;
/// empty for platforms that get no dedicated build.
pub open spec fn spec_platform_arch(os: Seq<char>, arch: Seq<char>) -> Seq<char> {
    if os == "windows"@ {
        "win-x64"@
    } else if os == "linux"@ {
        if arch == "x86_64"@ {
            "linux-x64"@
        } else if arch == "aarch64"@ {
            "linux-arm64"@
        } else {
            Seq::empty()
        }
    } else if os == "macos"@ {
        if arch == "aarch64"@ {
            "macos-arm64"@
        } else {
            "macos-x64"@
        }
    } else {
        Seq::empty()
    }
}

/// The platform-and-architecture token in a worker executable's name.
pub fn platform_arch_token(os: &str, arch: &str) -> (r: String)
    ensures
        r@ == spec_platform_arch(os@, arch@),
{
    if str_eq(os, "windows") {
        String::from_str("win-x64")
    } else if str_eq(os, "linux") {
        if str_eq(arch, "x86_64") {
            String::from_str("linux-x64")
        } else if str_eq(arch, "aarch64") {
            String::from_str("linux-arm64")
        } else {
            String::new()
        }
    } else if str_eq(os, "macos") {
        if str_eq(arch, "aarch64") {
            String::from_str("macos-arm64")
        } else {
            String::from_str("macos-x64")
        }
    } else {
        String::new()
    }
}

/// The file names under which the worker executable may stand, most
/// specific first: the platform-specific name when the platform has one,
/// then the generic name.
pub fn pmhq_candidates(os: &str, arch: &str) -> (r: Vec<String>)
    ensures
        spec_platform_arch(os@, arch@).len() > 0 ==> r@.len() == 2 && r@[0]@ == "pmhq-"@
            + spec_platform_arch(os@, arch@) + spec_exe_suffix(os@ == "windows"@) && r@[1]@
            == "pmhq"@ + spec_exe_suffix(os@ == "windows"@),
        spec_platform_arch(os@, arch@).len() == 0 ==> r@.len() == 1 && r@[0]@ == "pmhq"@
            + spec_exe_suffix(os@ == "windows"@),
{
    let windows = str_eq(os, "windows");
    let token = platform_arch_token(os, arch);
    let mut out: Vec<String> = Vec::new();
    if !token.as_str().is_empty() {
        let mut specific = String::from_str("pmhq-");
        specific.append(token.as_str());
        let name = get_exe_name(specific.as_str(), windows);
        out.push(name);
    }
    let generic = get_exe_name("pmhq", windows);
    out.push(generic);
    out
}

/// Picks the first candidate that exists: `exists_flags[i]` says whether
/// candidate `i` is present on disk.
pub fn find_pmhq_exe(candidates: &Vec<String>, exists_flags: &Vec<bool>) -> (r: Option<usize>)
    requires
        candidates@.len() == exists_flags@.len(),
    ensures
        r matches Some(i) ==> i < candidates@.len() && exists_flags@[i as int] && forall|j: int|
            0 <= j < i ==> !exists_flags@[j],
        r is None ==> forall|j: int| 0 <= j < exists_flags@.len() ==> !exists_flags@[j],
{
    let mut i: usize = 0;
    while i < exists_flags.len()
        invariant
            candidates@.len() == exists_flags@.len(),
            i <= exists_flags@.len(),
            forall|j: int| 0 <= j < i ==> !exists_flags@[j],
        decreases exists_flags@.len() - i,
    {
        if exists_flags[i] {
            return Some(i);
        }
        i = i + 1;
    }
    None
}

/// The launch's first gate: without a worker executable the launch fails
/// at once, with a message naming where it was expected, before any port
/// is searched — this function does not even see a port.
pub fn worker_precheck(pmhq_exe: Option<String>, search_dir: &str) -> (r: Result<String, String>)
    ensures
        pmhq_exe matches Some(p) ==> (r matches Ok(q) && q@ == p@),
        pmhq_exe is None ==> (r matches Err(m) && spec_contains(m@, search_dir@)),
{
    match pmhq_exe {
        Some(p) => Ok(p),
        None => {
            let mut msg = String::from_str("error: pmhq executable not found under ");
            let ghost prefix = msg@;
            msg.append(search_dir);
            proof {
                assert(spec_occurs_at(msg@, search_dir@, prefix.len() as int)) by {
                    assert(msg@.subrange(
                        prefix.len() as int,
                        prefix.len() as int + search_dir@.len() as int,
                    ) =~= search_dir@);
                }
            }
            Err(msg)
        },
    }
}

/// Whether the QR code is drawn in the terminal: always away from the
/// desktop platform, and there when the arguments or the worker's
/// configuration ask for headless operation.
pub fn should_show_terminal_qrcode(
    is_windows: bool,
    args: &Vec<String>,
    config_headless: Option<bool>,
) -> (r: bool)
    ensures
        r == (!is_windows || spec_has_flag(args@, "--headless"@) || config_headless == Some(true)),
{
    if !is_windows {
        return true;
    }
    if has_flag(args, "--headless") {
        return true;
    }
    match config_headless {
        Some(h) => h,
        None => false,
    }
}

/// The `headless` flag of the worker's configuration text, when the text
/// parses as an object carrying a boolean one. A function of the text
/// alone.
pub uninterp spec fn headless_field_of(s: Seq<char>) -> Option<bool>;

/// Relies on `serde_json::from_str`, `Value::get` and `Value::as_bool`:
/// the deterministic `headless`-flag read of one configuration text.
#[verifier::external_body]
fn read_headless_field(s: &str) -> (r: Option<bool>)
    ensures
        r == headless_field_of(s@),
{
    let doc: Option<serde_json::Value> = serde_json::from_str(s).ok();
    doc.as_ref().and_then(|d| d.get("headless")).and_then(|v| v.as_bool())
}

/// Reads the `headless` flag out of the worker's configuration text.
pub fn headless_from_config(content: &str) -> (r: Option<bool>)
    ensures
        r == headless_field_of(content@),
{
    read_headless_field(content)
}

/// `s` with every repetition of the prefix `p` removed from the front, as
/// `str::trim_start_matches` removes a pattern.
pub open spec fn spec_trim_prefix_rec(s: Seq<char>, p: Seq<char>) -> Seq<char>
    decreases s.len(),
{
    if p.len() > 0 && spec_starts_with(s, p) {
        spec_trim_prefix_rec(s.skip(p.len() as int), p)
    } else {
        s
    }
}

/// Removes every repetition of the prefix `p` from the front of `s`.
pub fn str_trim_prefix_all<'a>(s: &'a str, p: &str) -> (r: &'a str)
    ensures
        r@ == spec_trim_prefix_rec(s@, p@),
{
    let plen = p.unicode_len();
    if plen == 0 {
        return s;
    }
    let mut cur: &str = s;
    while str_starts_with(cur, p)
        invariant
            plen == p@.len(),
            plen > 0,
            spec_trim_prefix_rec(s@, p@) == spec_trim_prefix_rec(cur@, p@),
        decreases cur@.len(),
    {
        let n = cur.unicode_len();
        cur = cur.substring_char(plen, n);
    }
    cur
}

/// The explicit installation path handed in with the path flag: the first
/// argument carrying it, with every repetition of the flag prefix
/// stripped.
pub fn qq_path_arg(args: &Vec<String>) -> (r: Option<String>)
    ensures
        r is None ==> forall|j: int| 0 <= j < args@.len() ==> !spec_starts_with(
            (#[trigger] args@[j])@,
            "--qq-path="@,
        ),
        r matches Some(v) ==> exists|i: int|
            0 <= i < args@.len() && spec_starts_with((#[trigger] args@[i])@, "--qq-path="@) && v@
                == spec_trim_prefix_rec(args@[i]@, "--qq-path="@) && forall|j: int|
                0 <= j < i ==> !spec_starts_with((#[trigger] args@[j])@, "--qq-path="@),
{
    let mut i: usize = 0;
    while i < args.len()
        invariant
            i <= args@.len(),
            forall|j: int| 0 <= j < i ==> !spec_starts_with((#[trigger] args@[j])@, "--qq-path="@),
        decreases args@.len() - i,
    {
        if str_starts_with(args[i].as_str(), "--qq-path=") {
            let v = str_trim_prefix_all(args[i].as_str(), "--qq-path=");
            return Some(v.to_owned());
        }
        i = i + 1;
    }
    None
}

/// The argument vector the worker is started with: the port, the caller's
/// own arguments verbatim, then the sub-command that runs the bot under
/// the worker, ending with the port handed through to the bot.
pub fn worker_args(port: u16, user_args: &Vec<String>, llbot_dir: &str, node_path: &str) -> (r: Vec<
    String,
>)
    ensures
        r@.len() == user_args@.len() + 10,
        r@[0]@ == "--port"@,
        r@[1]@ == spec_dec(port as nat),
        forall|i: int| 0 <= i < user_args@.len() ==> (#[trigger] r@[2 + i])@ == user_args@[i]@,
        r@[user_args@.len() as int + 2]@ == "--sub-cmd-workdir"@,
        r@[user_args@.len() as int + 3]@ == llbot_dir@,
        r@[user_args@.len() as int + 4]@ == "--sub-cmd"@,
        r@[user_args@.len() as int + 5]@ == node_path@,
        r@[user_args@.len() as int + 6]@ == "--enable-source-maps"@,
        r@[user_args@.len() as int + 7]@ == "llbot.js"@,
        r@[user_args@.len() as int + 8]@ == "--"@,
        r@[user_args@.len() as int + 9]@ == "--pmhq-port="@ + spec_dec(port as nat),
{
    let mut out: Vec<String> = Vec::new();
    out.push(String::from_str("--port"));
    out.push(u64_to_dec(port as u64));
    let mut i: usize = 0;
    while i < user_args.len()
        invariant
            i <= user_args@.len(),
            out@.len() == i + 2,
            out@[0]@ == "--port"@,
            out@[1]@ == spec_dec(port as nat),
            forall|j: int| 0 <= j < i ==> (#[trigger] out@[2 + j])@ == user_args@[j]@,
        decreases user_args@.len() - i,
    {
        out.push(user_args[i].clone());
        i = i + 1;
    }
    out.push(String::from_str("--sub-cmd-workdir"));
    out.push(String::from_str(llbot_dir));
    out.push(String::from_str("--sub-cmd"));
    out.push(String::from_str(node_path));
    out.push(String::from_str("--enable-source-maps"));
    out.push(String::from_str("llbot.js"));
    out.push(String::from_str("--"));
    let mut port_arg = String::from_str("--pmhq-port=");
    let p = u64_to_dec(port as u64);
    port_arg.append(p.as_str());
    out.push(port_arg);
    out
}

} // verus!
