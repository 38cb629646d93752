//! Dependency checks and installation plans (tmux, or itmux on Windows).
use crate::text::{chars_of, concat, contains, find, find_exec, lines, lines_of, owned, string_of};
use crate::config::same_chars;
use vstd::prelude::*;

verus! {

/// Dependency name of tmux.
pub const DEP_TMUX: &'static str = "tmux";

/// Dependency name of itmux.
pub const DEP_ITMUX: &'static str = "itmux";

/// The operating system family.
#[derive(Debug, Clone, Copy, PartialEq, Eq)]
pub enum Platform {
    MacOS,
    Linux,
    Windows,
    Unknown,
}

impl Platform {
    /// The platform named by `std::env::consts::OS`.
    pub fn detect(os: &str) -> (p: Platform)
        ensures
            p == if os@ == "macos"@ {
                Platform::MacOS
            } else if os@ == "linux"@ {
                Platform::Linux
            } else if os@ == "windows"@ {
                Platform::Windows
            } else {
                Platform::Unknown
            },
    {
        let o = chars_of(os);
        if same_chars(&o, &chars_of("macos")) {
            Platform::MacOS
        } else if same_chars(&o, &chars_of("linux")) {
            Platform::Linux
        } else if same_chars(&o, &chars_of("windows")) {
            Platform::Windows
        } else {
            Platform::Unknown
        }
    }
}

/// A program the agent needs.
#[derive(Debug, Clone)]
pub struct Dependency {
    pub name: &'static str,
    pub binary: &'static str,
    pub description: Option<&'static str>,
}

/// The programs a platform needs: tmux on macOS and Linux, itmux on Windows,
/// nothing known elsewhere.
pub fn get_required_deps(platform: Platform) -> (deps: Vec<Dependency>)
    ensures
        match platform {
            Platform::MacOS | Platform::Linux => {
                &&& deps@.len() == 1
                &&& deps@[0].name@ == "tmux"@
                &&& deps@[0].binary@ == "tmux"@
                &&& deps@[0].description is Some
                &&& deps@[0].description->0@ == "Terminal multiplexer for session management"@
            },
            Platform::Windows => {
                &&& deps@.len() == 1
                &&& deps@[0].name@ == "itmux"@
                &&& deps@[0].binary@ == "itmux"@
                &&& deps@[0].description is Some
                &&& deps@[0].description->0@ == "tmux-like terminal multiplexer for Windows"@
            },
            Platform::Unknown => deps@.len() == 0,
        },
{
    match platform {
        Platform::MacOS | Platform::Linux => vec![
            Dependency {
                name: "tmux",
                binary: DEP_TMUX,
                description: Some("Terminal multiplexer for session management"),
            },
        ],
        Platform::Windows => vec![
            Dependency {
                name: "itmux",
                binary: DEP_ITMUX,
                description: Some("tmux-like terminal multiplexer for Windows"),
            },
        ],
        Platform::Unknown => vec![],
    }
}

/// How a missing dependency is installed.
#[derive(Debug, Clone, Copy, PartialEq, Eq)]
pub enum InstallMethod {
    /// `brew install tmux`.
    Brew,
    /// The Linux package manager.
    LinuxPackageManager,
    /// Download itmux (Windows).
    ItmuxDownload,
    /// Nothing to do for this dependency on this platform.
    Nothing,
}

/// Why dependencies cannot be installed automatically.
#[derive(Debug, Clone, Copy, PartialEq, Eq)]
pub enum DepsError {
    /// The platform is not known.
    UnknownPlatform,
    /// No supported Linux package manager was found.
    NoPackageManager,
    /// itmux is a Windows package.
    ItmuxOnlyOnWindows,
}

impl DepsError {
    /// What to tell the user.
    pub fn message(&self) -> (s: String)
        ensures
            s@ == match *self {
                DepsError::UnknownPlatform => "Unknown platform. Please install dependencies manually."@,
                DepsError::NoPackageManager => "Could not detect package manager. Please install tmux manually:\n  Debian/Ubuntu: sudo apt install tmux\n  Fedora: sudo dnf install tmux\n  Arch: sudo pacman -S tmux\n  Alpine: apk add tmux"@,
                DepsError::ItmuxOnlyOnWindows => "itmux is only needed on Windows"@,
            },
    {
        match self {
            DepsError::UnknownPlatform => owned("Unknown platform. Please install dependencies manually."),
            DepsError::NoPackageManager => owned("Could not detect package manager. Please install tmux manually:\n  Debian/Ubuntu: sudo apt install tmux\n  Fedora: sudo dnf install tmux\n  Arch: sudo pacman -S tmux\n  Alpine: apk add tmux"),
            DepsError::ItmuxOnlyOnWindows => owned("itmux is only needed on Windows"),
        }
    }
}

/// How to install a dependency on a platform: tmux with Homebrew on macOS
/// and with the package manager on Linux, itmux by download on Windows;
/// other dependencies need nothing; an unknown platform is refused.
pub fn install_dep(dep: &Dependency, platform: Platform) -> (r: Result<InstallMethod, DepsError>)
    ensures
        r == match platform {
            Platform::MacOS => Ok::<InstallMethod, DepsError>(
                if dep.binary@ == "tmux"@ {
                    InstallMethod::Brew
                } else {
                    InstallMethod::Nothing
                },
            ),
            Platform::Linux => Ok(
                if dep.binary@ == "tmux"@ {
                    InstallMethod::LinuxPackageManager
                } else {
                    InstallMethod::Nothing
                },
            ),
            Platform::Windows => Ok(
                if dep.binary@ == "itmux"@ {
                    InstallMethod::ItmuxDownload
                } else {
                    InstallMethod::Nothing
                },
            ),
            Platform::Unknown => Err(DepsError::UnknownPlatform),
        },
{
    let b = chars_of(dep.binary);
    match platform {
        Platform::MacOS => Ok(
            if same_chars(&b, &chars_of(DEP_TMUX)) {
                InstallMethod::Brew
            } else {
                InstallMethod::Nothing
            },
        ),
        Platform::Linux => Ok(
            if same_chars(&b, &chars_of(DEP_TMUX)) {
                InstallMethod::LinuxPackageManager
            } else {
                InstallMethod::Nothing
            },
        ),
        Platform::Windows => Ok(
            if same_chars(&b, &chars_of(DEP_ITMUX)) {
                InstallMethod::ItmuxDownload
            } else {
                InstallMethod::Nothing
            },
        ),
        Platform::Unknown => Err(DepsError::UnknownPlatform),
    }
}

/// Installing itmux where it is not needed (outside Windows) is refused.
pub fn install_itmux_windows(platform: Platform) -> (r: Result<(), DepsError>)
    ensures
        platform != Platform::Windows ==> r == Err::<(), DepsError>(DepsError::ItmuxOnlyOnWindows),
        platform == Platform::Windows ==> r is Ok,
{
    match platform {
        Platform::Windows => Ok(()),
        _ => Err(DepsError::ItmuxOnlyOnWindows),
    }
}

/// Where itmux is installed: `%USERPROFILE%\itmux`, or `C:\itmux` when
/// `USERPROFILE` is not set.
pub fn itmux_install_dir(userprofile: Option<&str>) -> (d: String)
    ensures
        d@ == match userprofile {
            Some(p) => p@ + "\\itmux"@,
            None => "C:\\itmux"@,
        },
{
    match userprofile {
        Some(p) => concat(p, "\\itmux"),
        None => owned("C:\\itmux"),
    }
}

/// The views of a sequence of strings.
pub open spec fn str_views(v: Seq<String>) -> Seq<Seq<char>> {
    v.map_values(|s: String| s@)
}

/// The Linux package manager to use, the first found of apt-get, dnf, yum,
/// pacman and apk, with the command that installs tmux (run under sudo, or
/// as its first word with the rest as arguments when sudo fails).
pub open spec fn linux_install_plan(apt_get: bool, dnf: bool, yum: bool, pacman: bool, apk: bool) -> Option<(Seq<char>, Seq<Seq<char>>)> {
    if apt_get {
        Some(("apt"@, seq!["apt-get"@, "install"@, "-y"@, "tmux"@]))
    } else if dnf {
        Some(("dnf"@, seq!["dnf"@, "install"@, "-y"@, "tmux"@]))
    } else if yum {
        Some(("yum"@, seq!["yum"@, "install"@, "-y"@, "tmux"@]))
    } else if pacman {
        Some(("pacman"@, seq!["pacman"@, "-S"@, "--noconfirm"@, "tmux"@]))
    } else if apk {
        Some(("apk"@, seq!["apk"@, "add"@, "tmux"@]))
    } else {
        None
    }
}

/// The package manager and tmux install command, from which of apt-get,
/// dnf, yum, pacman and apk exist.
pub fn linux_install_command(apt_get: bool, dnf: bool, yum: bool, pacman: bool, apk: bool) -> (r:
    Result<(String, Vec<String>), DepsError>)
    ensures
        match linux_install_plan(apt_get, dnf, yum, pacman, apk) {
            Some((pm, cmd)) => r matches Ok((p, c)) && p@ == pm && str_views(c@) == cmd,
            None => r == Err::<(String, Vec<String>), DepsError>(DepsError::NoPackageManager),
        },
{
    if apt_get {
        let c = vec![owned("apt-get"), owned("install"), owned("-y"), owned("tmux")];
        assert(str_views(c@) =~= seq!["apt-get"@, "install"@, "-y"@, "tmux"@]);
        Ok((owned("apt"), c))
    } else if dnf {
        let c = vec![owned("dnf"), owned("install"), owned("-y"), owned("tmux")];
        assert(str_views(c@) =~= seq!["dnf"@, "install"@, "-y"@, "tmux"@]);
        Ok((owned("dnf"), c))
    } else if yum {
        let c = vec![owned("yum"), owned("install"), owned("-y"), owned("tmux")];
        assert(str_views(c@) =~= seq!["yum"@, "install"@, "-y"@, "tmux"@]);
        Ok((owned("yum"), c))
    } else if pacman {
        let c = vec![owned("pacman"), owned("-S"), owned("--noconfirm"), owned("tmux")];
        assert(str_views(c@) =~= seq!["pacman"@, "-S"@, "--noconfirm"@, "tmux"@]);
        Ok((owned("pacman"), c))
    } else if apk {
        let c = vec![owned("apk"), owned("add"), owned("tmux")];
        assert(str_views(c@) =~= seq!["apk"@, "add"@, "tmux"@]);
        Ok((owned("apk"), c))
    } else {
        Err(DepsError::NoPackageManager)
    }
}

/// The first line that mentions both `browser_download_url` and `.zip`.
pub open spec fn first_zip_line(ls: Seq<Seq<char>>) -> Option<Seq<char>>
    decreases ls.len(),
{
    if ls.len() == 0 {
        None
    } else if contains(ls[0], "browser_download_url"@) && contains(ls[0], ".zip"@) {
        Some(ls[0])
    } else {
        first_zip_line(ls.drop_first())
    }
}

/// Index of the last `"` in `l`.
pub open spec fn last_quote(l: Seq<char>) -> Option<int>
    decreases l.len(),
{
    if l.len() == 0 {
        None
    } else if l.last() == '"' {
        Some(l.len() - 1)
    } else {
        last_quote(l.drop_last())
    }
}

/// The download URL of the itmux archive in a GitHub release description:
/// on the first line naming a `.zip` download, from `https://` up to the last
/// quote.
pub open spec fn zip_url(body: Seq<char>) -> Option<Seq<char>> {
    match first_zip_line(lines(body)) {
        None => None,
        Some(l) => match (find(l, "https://"@), last_quote(l)) {
            (Some(a), Some(b)) => Some(l.subrange(a, b)),
            _ => None,
        },
    }
}

/// The selected line has its last quote before its `https://`, which the
/// extraction cannot slice.
pub open spec fn zip_url_unsliceable(body: Seq<char>) -> bool {
    match first_zip_line(lines(body)) {
        None => false,
        Some(l) => match (find(l, "https://"@), last_quote(l)) {
            (Some(a), Some(b)) => b < a,
            _ => false,
        },
    }
}

fn last_quote_exec(l: &Vec<char>) -> (r: Option<usize>)
    ensures
        r matches Some(b) ==> b < l@.len() && last_quote(l@) == Some(b as int),
        r is None ==> last_quote(l@) is None,
{
    let mut j: usize = l.len();
    assert(l@.take(j as int) =~= l@);
    while j > 0
        invariant
            j <= l@.len(),
            last_quote(l@) == last_quote(l@.take(j as int)),
        decreases j,
    {
        assert(l@.take(j as int).last() == l@[j - 1]);
        assert(l@.take(j as int).drop_last() =~= l@.take(j - 1));
        if l[j - 1] == '"' {
            return Some(j - 1);
        }
        j = j - 1;
    }
    None
}

/// The first line of `body` that names a `.zip` download.
fn zip_line(body: &str) -> (r: Option<Vec<char>>)
    ensures
        match r {
            Some(l) => first_zip_line(lines(body@)) == Some(l@),
            None => first_zip_line(lines(body@)) is None,
        },
{
    let ls = lines_of(&chars_of(body));
    let ghost lv = lines(body@);
    let marker = chars_of("browser_download_url");
    let zip = chars_of(".zip");
    let n = ls.len();
    let mut i: usize = 0;
    assert(lv.skip(0) =~= lv);
    while i < n
        invariant
            n == ls@.len(),
            lv.len() == n,
            forall|k: int| 0 <= k < n ==> #[trigger] ls@[k]@ == lv[k],
            i <= n,
            marker@ == "browser_download_url"@,
            zip@ == ".zip"@,
            first_zip_line(lv) == first_zip_line(lv.skip(i as int)),
            lv == lines(body@),
        decreases n - i,
    {
        let line = &ls[i];
        assert(lv.skip(i as int)[0] == line@);
        assert(lv.skip(i as int).drop_first() =~= lv.skip(i + 1));
        if find_exec(line, &marker).is_some() && find_exec(line, &zip).is_some() {
            assert(contains(line@, "browser_download_url"@) && contains(line@, ".zip"@));
            return Some(line.clone());
        }
        i = i + 1;
    }
    assert(lv.skip(n as int) =~= Seq::<Seq<char>>::empty());
    None
}

/// Whether the download URL can be cut out of `body` (see
/// `zip_url_unsliceable`).
pub fn zip_url_sliceable(body: &str) -> (b: bool)
    ensures
        b == !zip_url_unsliceable(body@),
{
    match zip_line(body) {
        None => true,
        Some(line) => match (find_exec(&line, &chars_of("https://")), last_quote_exec(&line)) {
            (Some(a), Some(b)) => a <= b,
            _ => true,
        },
    }
}

/// The itmux download URL in a GitHub release description, if any.
pub fn find_zip_url(body: &str) -> (r: Option<String>)
    requires
        !zip_url_unsliceable(body@),
    ensures
        crate::config::app_config::opt_str(r) == zip_url(body@),
{
    let line = match zip_line(body) {
        Some(l) => l,
        None => return None,
    };
    let https = chars_of("https://");
    match (find_exec(&line, &https), last_quote_exec(&line)) {
        (Some(a), Some(b)) => {
            proof {
                crate::text::lemma_find_some_in_range(line@, https@);
            }
            let mut out: Vec<char> = Vec::new();
            let mut k: usize = a;
            while k < b
                invariant
                    a <= k <= b,
                    b < line@.len(),
                    out@ == line@.subrange(a as int, k as int),
                decreases b - k,
            {
                out.push(line[k]);
                assert(line@.subrange(a as int, k + 1) =~= line@.subrange(a as int, k as int).push(
                    line@[k as int],
                ));
                k = k + 1;
            }
            Some(string_of(&out))
        },
        _ => None,
    }
}

} // verus!
