//! The programs that Onyx drives (yt-dlp, ffmpeg): where they live and
//! when yt-dlp has to be fetched again.

use vstd::prelude::*;
use crate::paths;
use crate::paths::{data_local_dir, main_separator, path_join};
use crate::text;
use crate::text::{chars_of, concat, str_eq, string_of, trim_chars};

verus! {

/// The folder that holds the programs Onyx fetched, under the local data
/// folder `local` (else the current folder).
pub open spec fn deps_dir_of(local: Option<Seq<char>>) -> Seq<char> {
    paths::joined_path(
        paths::joined_path(
            match local {
                Some(d) => d,
                None => "."@,
            },
            "onyx"@,
        ),
        "deps"@,
    )
}

/// The file name of the program `base`: with ".exe" on Windows.
pub open spec fn exe_name(base: Seq<char>, windows: bool) -> Seq<char> {
    if windows {
        base + ".exe"@
    } else {
        base
    }
}

/// Where the program `base` lives, under the local data folder `local`.
pub open spec fn program_path(local: Option<Seq<char>>, base: Seq<char>, windows: bool) -> Seq<char> {
    paths::joined_path(deps_dir_of(local), exe_name(base, windows))
}

/// The folder of fetched programs under the local data folder `local`.
pub fn deps_dir_in(local: Option<String>) -> (r: String)
    ensures
        r@ == deps_dir_of(text::opt_view(local)),
{
    let base = match local {
        Some(d) => d,
        None => ".".to_owned(),
    };
    let onyx = path_join(base.as_str(), "onyx");
    path_join(onyx.as_str(), "deps")
}

/// Where the program `base` lives, under the local data folder `local`.
pub fn program_path_in(local: Option<String>, base: &str, windows: bool) -> (r: String)
    ensures
        r@ == program_path(text::opt_view(local), base@, windows),
{
    let dir = deps_dir_in(local);
    let name = if windows {
        concat(base, ".exe")
    } else {
        base.to_owned()
    };
    path_join(dir.as_str(), name.as_str())
}

/// `sep`, the platform's path separator, is the backslash of Windows.
pub open spec fn windows_separator(sep: char) -> bool {
    sep == '\\'
}

fn on_windows(sep: char) -> (r: bool)
    ensures
        r == windows_separator(sep),
{
    sep == '\\'
}

/// Where Onyx keeps the yt-dlp that it fetched.
pub fn ytdlp_path() -> (r: String)
    ensures
        exists|local: Option<Seq<char>>, sep: char|
            r@ == #[trigger] program_path(local, "yt-dlp"@, windows_separator(sep)),
{
    let local = data_local_dir();
    let sep = main_separator();
    let r = program_path_in(local, "yt-dlp", on_windows(sep));
    assert(r@ == program_path(text::opt_view(local), "yt-dlp"@, windows_separator(sep)));
    r
}

/// Where Onyx keeps the ffmpeg that it fetched.
pub fn ffmpeg_path() -> (r: String)
    ensures
        exists|local: Option<Seq<char>>, sep: char|
            r@ == #[trigger] program_path(local, "ffmpeg"@, windows_separator(sep)),
{
    let local = data_local_dir();
    let sep = main_separator();
    let r = program_path_in(local, "ffmpeg", on_windows(sep));
    assert(r@ == program_path(text::opt_view(local), "ffmpeg"@, windows_separator(sep)));
    r
}

/// The program to run as yt-dlp: the one found, else "yt-dlp" on the search path.
pub open spec fn executable_of(found: Option<Seq<char>>) -> Seq<char> {
    match found {
        Some(p) => p,
        None => "yt-dlp"@,
    }
}

/// The program to run as yt-dlp, given the one found, if any.
pub fn get_executable(found: Option<String>) -> (r: String)
    ensures
        r@ == executable_of(text::opt_view(found)),
{
    match found {
        Some(p) => p,
        None => "yt-dlp".to_owned(),
    }
}

/// What was found of the programs Onyx needs.
pub struct DependencyStatus {
    pub ytdlp: Option<String>,
    pub ytdlp_version: Option<String>,
    pub ffmpeg: Option<String>,
}

impl DependencyStatus {
    /// yt-dlp was found.
    pub fn is_ready(&self) -> (r: bool)
        ensures
            r == self.ytdlp is Some,
    {
        self.ytdlp.is_some()
    }

    /// The program to run as yt-dlp.
    pub fn ytdlp_binary(&self) -> (r: String)
        ensures
            r@ == executable_of(text::opt_view(self.ytdlp)),
    {
        match &self.ytdlp {
            Some(p) => p.clone(),
            None => "yt-dlp".to_owned(),
        }
    }
}

/// `a` comes before `b` in lexicographic order of characters (which is the
/// order of their UTF-8 bytes, the order of `str`'s `<`).
pub open spec fn text_less(a: Seq<char>, b: Seq<char>) -> bool
    decreases a.len(),
{
    if a.len() == 0 {
        b.len() > 0
    } else if b.len() == 0 {
        false
    } else if a[0] != b[0] {
        a[0] < b[0]
    } else {
        text_less(a.drop_first(), b.drop_first())
    }
}

/// No text is less than itself.
pub proof fn lemma_text_less_irreflexive(a: Seq<char>)
    ensures
        !text_less(a, a),
    decreases a.len(),
{
    if a.len() > 0 {
        lemma_text_less_irreflexive(a.drop_first());
    }
}

/// `text_less` is transitive.
pub proof fn lemma_text_less_transitive(a: Seq<char>, b: Seq<char>, c: Seq<char>)
    requires
        text_less(a, b),
        text_less(b, c),
    ensures
        text_less(a, c),
    decreases a.len(),
{
    if a.len() > 0 && b.len() > 0 && c.len() > 0 && a[0] == b[0] && b[0] == c[0] {
        lemma_text_less_transitive(a.drop_first(), b.drop_first(), c.drop_first());
    }
}

/// Of two different texts, one is less than the other.
pub proof fn lemma_text_less_total(a: Seq<char>, b: Seq<char>)
    requires
        a != b,
    ensures
        text_less(a, b) || text_less(b, a),
    decreases a.len(),
{
    if a.len() > 0 && b.len() > 0 && a[0] == b[0] {
        if a.drop_first() == b.drop_first() {
            assert(a =~= seq![a[0]] + a.drop_first());
            assert(b =~= seq![b[0]] + b.drop_first());
        }
        lemma_text_less_total(a.drop_first(), b.drop_first());
    } else if a.len() == 0 && b.len() == 0 {
        assert(a =~= b);
    } else if a.len() > 0 && b.len() > 0 {
    }
}

/// The oldest yt-dlp version that still works with YouTube.
pub open spec fn min_version() -> Seq<char> {
    "2024.11.00"@
}

/// `a < b` for strings.
pub fn str_less(a: &str, b: &str) -> (r: bool)
    ensures
        r == text_less(a@, b@),
{
    let x = chars_of(a);
    let y = chars_of(b);
    let mut i: usize = 0;
    assert(x@.skip(0) =~= x@);
    assert(y@.skip(0) =~= y@);
    while i < x.len() && i < y.len()
        invariant
            x@ == a@,
            y@ == b@,
            i <= x@.len(),
            i <= y@.len(),
            text_less(a@, b@) == text_less(x@.skip(i as int), y@.skip(i as int)),
        decreases x@.len() - i,
    {
        assert(x@.skip(i as int)[0] == x@[i as int]);
        assert(y@.skip(i as int)[0] == y@[i as int]);
        if x[i] != y[i] {
            return x[i] < y[i];
        }
        assert(x@.skip(i as int).drop_first() =~= x@.skip(i + 1));
        assert(y@.skip(i as int).drop_first() =~= y@.skip(i + 1));
        i = i + 1;
    }
    i < y.len()
}

/// The version is older than the oldest one that still works.
pub fn version_is_outdated(version: &str) -> (r: bool)
    ensures
        r == text_less(version@, min_version()),
{
    str_less(version, "2024.11.00")
}

/// The notice to show before yt-dlp is fetched, if it has to be: when it
/// was not found, or when it is older than the oldest version that works.
pub open spec fn fetch_notice(ytdlp: Option<Seq<char>>, version: Option<Seq<char>>) -> Option<Seq<char>> {
    if ytdlp is None {
        Some("yt-dlp not found. Downloading..."@)
    } else if version matches Some(v) && text_less(v, min_version()) {
        Some("Found outdated yt-dlp version: "@ + version->0 + ". Updating..."@)
    } else {
        None
    }
}

/// Whether yt-dlp has to be fetched, and the notice to show first.
pub fn ytdlp_fetch_notice(status: &DependencyStatus) -> (r: Option<String>)
    ensures
        text::opt_view(r) == fetch_notice(
            text::opt_view(status.ytdlp),
            text::opt_view(status.ytdlp_version),
        ),
{
    if status.ytdlp.is_none() {
        return Some("yt-dlp not found. Downloading...".to_owned());
    }
    match &status.ytdlp_version {
        Some(v) => {
            if version_is_outdated(v.as_str()) {
                let mut s = concat("Found outdated yt-dlp version: ", v.as_str());
                text::push_str(&mut s, ". Updating...");
                Some(s)
            } else {
                None
            }
        },
        None => None,
    }
}

/// The version of yt-dlp is read again when yt-dlp is there and its version
/// is unknown or too old.
pub fn should_reread_version(status: &DependencyStatus) -> (r: bool)
    ensures
        r == (status.ytdlp is Some && match status.ytdlp_version {
            Some(v) => text_less(v@, min_version()),
            None => true,
        }),
{
    let old = match &status.ytdlp_version {
        Some(v) => version_is_outdated(v.as_str()),
        None => true,
    };
    old && status.ytdlp.is_some()
}

/// The first line of a program's output, trimmed; none when there is no output.
pub open spec fn first_line_of(out: Seq<char>) -> Option<Seq<char>> {
    if out.len() == 0 {
        None
    } else {
        Some(text::trim(text::split_first(out, "\n"@)))
    }
}

/// The first line of `out`, trimmed (`out.lines().next()`, trimmed).
pub fn first_line_trimmed(out: &str) -> (r: Option<String>)
    ensures
        text::opt_view(r) == first_line_of(out@),
{
    let v = chars_of(out);
    if v.len() == 0 {
        return None;
    }
    let nl = chars_of("\n");
    let first = text::split_first_chars(&v, &nl);
    let t = trim_chars(&first);
    Some(string_of(t.as_slice()))
}

/// Where yt-dlp is published for the platform `os` on the processor `arch`
/// (the values of `std::env::consts::OS` and `ARCH`).
pub open spec fn download_url_of(os: Seq<char>, arch: Seq<char>) -> Seq<char> {
    let base = "https://github.com/yt-dlp/yt-dlp/releases/latest/download"@;
    if os == "windows"@ {
        base + "/yt-dlp.exe"@
    } else if os == "macos"@ {
        base + "/yt-dlp_macos"@
    } else if arch == "aarch64"@ || arch == "arm"@ {
        base + "/yt-dlp_linux_aarch64"@
    } else {
        base + "/yt-dlp_linux"@
    }
}

/// The address to fetch yt-dlp from, for the platform `os` on the processor `arch`.
pub fn ytdlp_download_url(os: &str, arch: &str) -> (r: String)
    ensures
        r@ == download_url_of(os@, arch@),
{
    let base = "https://github.com/yt-dlp/yt-dlp/releases/latest/download";
    if str_eq(os, "windows") {
        concat(base, "/yt-dlp.exe")
    } else if str_eq(os, "macos") {
        concat(base, "/yt-dlp_macos")
    } else if str_eq(arch, "aarch64") || str_eq(arch, "arm") {
        concat(base, "/yt-dlp_linux_aarch64")
    } else {
        concat(base, "/yt-dlp_linux")
    }
}

/// The yt-dlp installed for the user alone, under the home folder `home`:
/// `.local/bin/yt-dlp`.
pub open spec fn local_bin_of(home: Seq<char>) -> Seq<char> {
    paths::joined_path(paths::joined_path(paths::joined_path(home, ".local"@), "bin"@), "yt-dlp"@)
}

/// The files that may hold yt-dlp, in the order they are tried: the one
/// Onyx fetched, then the user's `.local/bin/yt-dlp` when the home folder
/// is known. When none of them exists, the search path is asked.
pub open spec fn ytdlp_candidates_of(local: Option<Seq<char>>, home: Option<Seq<char>>, windows: bool) -> Seq<Seq<char>> {
    seq![program_path(local, "yt-dlp"@, windows)] + match home {
        Some(h) => seq![local_bin_of(h)],
        None => Seq::<Seq<char>>::empty(),
    }
}

/// The files that may hold yt-dlp, in the order they are tried, given the
/// local data folder and the home folder where known.
pub fn ytdlp_candidates(local: Option<String>, home: Option<String>, windows: bool) -> (r: Vec<String>)
    ensures
        text::strings_view(r@) == ytdlp_candidates_of(text::opt_view(local), text::opt_view(home), windows),
{
    let mut v: Vec<String> = Vec::new();
    v.push(program_path_in(local, "yt-dlp", windows));
    match home {
        Some(h) => {
            let a = path_join(h.as_str(), ".local");
            let b = path_join(a.as_str(), "bin");
            v.push(path_join(b.as_str(), "yt-dlp"));
        },
        None => {},
    }
    assert(text::strings_view(v@) =~= ytdlp_candidates_of(
        text::opt_view(local),
        text::opt_view(home),
        windows,
    ));
    v
}

/// The file that may hold ffmpeg: the one Onyx fetched. When it does not
/// exist, the search path is asked.
pub fn ffmpeg_candidates(local: Option<String>, windows: bool) -> (r: Vec<String>)
    ensures
        text::strings_view(r@) == seq![program_path(text::opt_view(local), "ffmpeg"@, windows)],
{
    let mut v: Vec<String> = Vec::new();
    v.push(program_path_in(local, "ffmpeg", windows));
    assert(text::strings_view(v@) =~= seq![program_path(text::opt_view(local), "ffmpeg"@, windows)]);
    v
}

/// The program that finds another on the search path: `where` on Windows,
/// `which` elsewhere.
pub fn search_command(windows: bool) -> (r: &'static str)
    ensures
        r@ == (if windows {
            "where"@
        } else {
            "which"@
        }),
{
    if windows {
        "where"
    } else {
        "which"
    }
}

/// A program that fetches a file from the web.
#[derive(Debug, Clone, Copy, PartialEq, Eq, Structural)]
pub enum FetchTool {
    PowerShell,
    Curl,
    Wget,
}

/// The name of the program to run for a fetch.
pub open spec fn fetch_program_of(t: FetchTool) -> Seq<char> {
    match t {
        FetchTool::PowerShell => "powershell"@,
        FetchTool::Curl => "curl"@,
        FetchTool::Wget => "wget"@,
    }
}

/// The arguments that fetch `url` into the file `target`.
pub open spec fn fetch_args_of(t: FetchTool, url: Seq<char>, target: Seq<char>) -> Seq<Seq<char>> {
    match t {
        FetchTool::PowerShell => seq![
            "-Command"@,
            "Invoke-WebRequest -Uri '"@ + url + "' -OutFile '"@ + target + "'"@,
        ],
        FetchTool::Curl => seq!["-sL"@, "-o"@, target, url],
        FetchTool::Wget => seq!["-q"@, "-O"@, target, url],
    }
}

/// The fetch tried first: PowerShell on Windows, curl elsewhere.
pub fn first_fetch_tool(windows: bool) -> (r: FetchTool)
    ensures
        r == (if windows {
            FetchTool::PowerShell
        } else {
            FetchTool::Curl
        }),
{
    if windows {
        FetchTool::PowerShell
    } else {
        FetchTool::Curl
    }
}

/// The fetch to try after `t`, which could not be started or did not
/// succeed: wget after curl; nothing after the others, whose outcome is
/// final.
pub fn fetch_fallback(t: FetchTool, succeeded: bool) -> (r: Option<FetchTool>)
    ensures
        r == (if t == FetchTool::Curl && !succeeded {
            Some(FetchTool::Wget)
        } else {
            None::<FetchTool>
        }),
{
    if t == FetchTool::Curl && !succeeded {
        Some(FetchTool::Wget)
    } else {
        None
    }
}

/// The program and arguments of a fetch of `url` into `target`.
pub fn fetch_command(t: FetchTool, url: &str, target: &str) -> (r: (&'static str, Vec<String>))
    ensures
        r.0@ == fetch_program_of(t),
        text::strings_view(r.1@) == fetch_args_of(t, url@, target@),
{
    let mut v: Vec<String> = Vec::new();
    match t {
        FetchTool::PowerShell => {
            v.push("-Command".to_owned());
            let mut c = concat("Invoke-WebRequest -Uri '", url);
            text::push_str(&mut c, "' -OutFile '");
            text::push_str(&mut c, target);
            text::push_str(&mut c, "'");
            v.push(c);
        },
        FetchTool::Curl => {
            v.push("-sL".to_owned());
            v.push("-o".to_owned());
            v.push(target.to_owned());
            v.push(url.to_owned());
        },
        FetchTool::Wget => {
            v.push("-q".to_owned());
            v.push("-O".to_owned());
            v.push(target.to_owned());
            v.push(url.to_owned());
        },
    }
    assert(text::strings_view(v@) =~= fetch_args_of(t, url@, target@));
    let program = match t {
        FetchTool::PowerShell => "powershell",
        FetchTool::Curl => "curl",
        FetchTool::Wget => "wget",
    };
    (program, v)
}

/// The notice shown when yt-dlp starts to be fetched.
pub fn fetch_start_notice() -> (r: &'static str)
    ensures
        r@ == "Downloading yt-dlp..."@,
{
    "Downloading yt-dlp..."
}

/// The notice shown when yt-dlp was fetched.
pub fn fetch_done_notice() -> (r: &'static str)
    ensures
        r@ == "yt-dlp downloaded successfully!"@,
{
    "yt-dlp downloaded successfully!"
}

/// The error when yt-dlp could not be fetched, with the reason `detail`
/// (the fetch's error output, or why it could not be started).
pub fn fetch_failure(detail: &str) -> (r: String)
    ensures
        r@ == "Failed to download yt-dlp: "@ + detail@,
{
    concat("Failed to download yt-dlp: ", detail)
}


/// The release fetched fits the platform: the macOS build on macOS whatever
/// the processor, the Windows build on Windows, and a Linux build (the ARM
/// one on aarch64 and arm) only on the other systems.
pub proof fn law_download_url_fits_platform(os: Seq<char>, arch: Seq<char>)
    ensures
        os == "macos"@ ==> download_url_of(os, arch)
            == "https://github.com/yt-dlp/yt-dlp/releases/latest/download/yt-dlp_macos"@,
        os == "windows"@ ==> download_url_of(os, arch)
            == "https://github.com/yt-dlp/yt-dlp/releases/latest/download/yt-dlp.exe"@,
        os != "windows"@ && os != "macos"@ && (arch == "aarch64"@ || arch == "arm"@) ==> download_url_of(os, arch)
            == "https://github.com/yt-dlp/yt-dlp/releases/latest/download/yt-dlp_linux_aarch64"@,
        os != "windows"@ && os != "macos"@ && arch != "aarch64"@ && arch != "arm"@ ==> download_url_of(os, arch)
            == "https://github.com/yt-dlp/yt-dlp/releases/latest/download/yt-dlp_linux"@,
{
    reveal_strlit("macos");
    reveal_strlit("windows");
    reveal_strlit("https://github.com/yt-dlp/yt-dlp/releases/latest/download");
    reveal_strlit("/yt-dlp_macos");
    reveal_strlit("/yt-dlp.exe");
    reveal_strlit("/yt-dlp_linux_aarch64");
    reveal_strlit("/yt-dlp_linux");
    reveal_strlit("https://github.com/yt-dlp/yt-dlp/releases/latest/download/yt-dlp_macos");
    reveal_strlit("https://github.com/yt-dlp/yt-dlp/releases/latest/download/yt-dlp.exe");
    reveal_strlit("https://github.com/yt-dlp/yt-dlp/releases/latest/download/yt-dlp_linux_aarch64");
    reveal_strlit("https://github.com/yt-dlp/yt-dlp/releases/latest/download/yt-dlp_linux");
    let base = "https://github.com/yt-dlp/yt-dlp/releases/latest/download"@;
    assert(base + "/yt-dlp_macos"@ =~= "https://github.com/yt-dlp/yt-dlp/releases/latest/download/yt-dlp_macos"@);
    assert(base + "/yt-dlp.exe"@ =~= "https://github.com/yt-dlp/yt-dlp/releases/latest/download/yt-dlp.exe"@);
    assert(base + "/yt-dlp_linux_aarch64"@
        =~= "https://github.com/yt-dlp/yt-dlp/releases/latest/download/yt-dlp_linux_aarch64"@);
    assert(base + "/yt-dlp_linux"@ =~= "https://github.com/yt-dlp/yt-dlp/releases/latest/download/yt-dlp_linux"@);
    assert("macos"@ != "windows"@) by {
        assert("macos"@.len() != "windows"@.len());
    }
}

} // verus!
