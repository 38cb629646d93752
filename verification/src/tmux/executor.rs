//! tmux commands for each platform, and what their output means.
//!
//! On Unix tmux runs directly with an argument vector; on Windows it runs
//! inside itmux's Cygwin bash as one command line. Running a command is the
//! application's part: this module says which command to run and reads the
//! output (`None` when the command could not run or failed).
use super::{opt_view, PaneData, PaneView};
use crate::config::app_config::opt_slice;
use crate::text::{
    chars_of, concat, contains, ends_with, is_digit, lemma_decimal_digits, lemma_join_split,
    lemma_parse_decimal, lemma_split_from_nonempty, lemma_split_from_piece, find_exec, is_prefix, is_suffix, is_ws, join, join_from, lines, lines_of, owned, parse_usize,
    parse_usize_exec, replace_char, replace_char_exec, split, split_at_char, starts_with,
    string_of, trim, trim_chars, usize_to_string, decimal, ascii_lower, ascii_lower_exec,
};
use vstd::prelude::*;

verus! {

/// A tmux invocation.
#[derive(Debug, Clone)]
pub enum TmuxCommand {
    /// `tmux` with these arguments.
    Tmux(Vec<String>),
    /// This command line, run by `bash -l -c` inside itmux.
    Shell(String),
}

/// The value of a `TmuxCommand`.
pub enum CommandView {
    Tmux(Seq<Seq<char>>),
    Shell(Seq<char>),
}

/// The views of a sequence of strings.
pub open spec fn strs(v: Seq<String>) -> Seq<Seq<char>> {
    v.map_values(|s: String| s@)
}

impl View for TmuxCommand {
    type V = CommandView;

    open spec fn view(&self) -> CommandView {
        match self {
            TmuxCommand::Tmux(args) => CommandView::Tmux(strs(args@)),
            TmuxCommand::Shell(line) => CommandView::Shell(line@),
        }
    }
}

/// tmux run directly.
#[derive(Debug, Clone, Copy)]
pub struct UnixTmuxExecutor;

/// tmux run inside an itmux installation on Windows.
#[derive(Debug, Clone)]
pub struct WindowsTmuxExecutor {
    pub itmux_path: Option<String>,
    pub bash_path: Option<String>,
}

/// The tmux of the platform.
#[derive(Debug, Clone)]
pub enum TmuxExecutor {
    Unix(UnixTmuxExecutor),
    Windows(WindowsTmuxExecutor),
}

// ---------------------------------------------------------------------------
// Escaping and paths
// ---------------------------------------------------------------------------

/// `"`, `$` and backquote each preceded by a backslash.
pub open spec fn shell_escaped(s: Seq<char>) -> Seq<char> {
    replace_char(replace_char(replace_char(s, '"', "\\\""@), '$', "\\$"@), '`', "\\`"@)
}

/// Every `'` replaced by `'\''`, for use inside single quotes.
pub open spec fn quote_escaped(s: Seq<char>) -> Seq<char> {
    replace_char(s, '\'', "'\\''"@)
}

/// The number of bytes of `c` in UTF-8.
pub open spec fn utf8_width(c: char) -> nat {
    if (c as u32) < 0x80 {
        1
    } else if (c as u32) < 0x800 {
        2
    } else if (c as u32) < 0x10000 {
        3
    } else {
        4
    }
}

/// A drive-letter path (`X:` first) whose first character takes more than
/// two bytes: the conversion to a Cygwin path would cut that character.
pub open spec fn splits_first_char(p: Seq<char>) -> bool {
    !is_prefix("\\\\"@, p) && p.len() >= 2 && p[1] == ':' && utf8_width(p[0]) > 2
}

/// A Windows path as Cygwin sees it: UNC paths unchanged; `X:rest` becomes
/// `/cygdrive/x` followed by what comes after the first two bytes, with
/// forward slashes; anything else gets forward slashes.
pub open spec fn cygwin_path(p: Seq<char>) -> Seq<char> {
    if is_prefix("\\\\"@, p) {
        p
    } else if p.len() >= 2 && p[1] == ':' {
        let rest = if utf8_width(p[0]) == 1 {
            p.skip(2)
        } else {
            p.skip(1)
        };
        "/cygdrive/"@ + seq![ascii_lower(p[0])] + replace_char(rest, '\\', "/"@)
    } else {
        replace_char(p, '\\', "/"@)
    }
}

/// Unicode `Alphabetic` or `Numeric` (what `char::is_alphanumeric` tests).
pub uninterp spec fn unicode_alphanumeric(c: char) -> bool;

/// `char::is_alphanumeric`; its value is the name above.
#[verifier::external_body]
fn is_alphanumeric(c: char) -> (b: bool)
    ensures
        b == unicode_alphanumeric(c),
{
    c.is_alphanumeric()
}

/// Whether `c` may stand in a session name.
pub open spec fn session_name_char(c: char) -> bool {
    unicode_alphanumeric(c) || c == '_' || c == '-'
}

/// The characters of `s` that may stand in a session name, in order.
pub open spec fn sanitized(s: Seq<char>) -> Seq<char>
    decreases s.len(),
{
    if s.len() == 0 {
        seq![]
    } else if session_name_char(s.last()) {
        sanitized(s.drop_last()).push(s.last())
    } else {
        sanitized(s.drop_last())
    }
}

/// Keeps letters, digits, `_` and `-`.
pub fn sanitize_session_name(s: &str) -> (out: Vec<char>)
    ensures
        out@ == sanitized(s@),
{
    let cs = chars_of(s);
    let mut out: Vec<char> = Vec::new();
    let n = cs.len();
    for i in 0..n
        invariant
            n == cs@.len(),
            cs@ == s@,
            out@ == sanitized(cs@.take(i as int)),
    {
        let c = cs[i];
        assert(cs@.take(i + 1).drop_last() =~= cs@.take(i as int));
        if is_alphanumeric(c) || c == '_' || c == '-' {
            out.push(c);
        }
    }
    assert(cs@.take(n as int) =~= cs@);
    out
}

proof fn lemma_sanitized_chars(s: Seq<char>)
    ensures
        forall|i: int| 0 <= i < sanitized(s).len() ==> session_name_char(#[trigger] sanitized(s)[i]),
    decreases s.len(),
{
    if s.len() > 0 {
        lemma_sanitized_chars(s.drop_last());
        let r = sanitized(s.drop_last());
        if session_name_char(s.last()) {
            assert forall|i: int| 0 <= i < sanitized(s).len() implies session_name_char(
                #[trigger] sanitized(s)[i],
            ) by {
                if i < r.len() {
                    assert(sanitized(s)[i] == r[i]);
                }
            }
        }
    }
}

proof fn lemma_sanitized_keeps_clean(t: Seq<char>)
    requires
        forall|i: int| 0 <= i < t.len() ==> session_name_char(#[trigger] t[i]),
    ensures
        sanitized(t) == t,
    decreases t.len(),
{
    if t.len() > 0 {
        lemma_sanitized_keeps_clean(t.drop_last());
        assert(t.drop_last().push(t.last()) =~= t);
    }
}

/// Sanitizing a session name twice gives what sanitizing it once gives.
pub proof fn lemma_sanitize_idempotent(s: Seq<char>)
    ensures
        sanitized(sanitized(s)) == sanitized(s),
{
    lemma_sanitized_chars(s);
    lemma_sanitized_keeps_clean(sanitized(s));
}

impl UnixTmuxExecutor {
    /// The executor that runs tmux directly.
    pub fn new() -> (e: Self) {
        UnixTmuxExecutor
    }

    /// Escapes `"`, `$` and backquote with a backslash.
    pub fn escape_for_shell(s: &str) -> (out: String)
        ensures
            out@ == shell_escaped(s@),
    {
        let cs = chars_of(s);
        let a = replace_char_exec(&cs, '"', &chars_of("\\\""));
        let b = replace_char_exec(&a, '$', &chars_of("\\$"));
        let c = replace_char_exec(&b, '`', &chars_of("\\`"));
        string_of(&c)
    }
}

/// `base\bin\bash.exe`, where itmux keeps its bash.
pub open spec fn bash_exe_path(base: Seq<char>) -> Seq<char> {
    base + "\\bin\\bash.exe"@
}

impl WindowsTmuxExecutor {
    /// An executor for the itmux installation at `itmux_path`, if one was
    /// found; its bash is `itmux_path\bin\bash.exe`.
    pub fn new(itmux_path: Option<String>) -> (e: Self)
        ensures
            opt_view(e.itmux_path) == opt_view(itmux_path),
            opt_view(e.bash_path) == match itmux_path {
                Some(p) => Some(bash_exe_path(p@)),
                None => None,
            },
    {
        let bash_path = match &itmux_path {
            Some(p) => Some(Self::check_bash_path(p.as_str())),
            None => None,
        };
        WindowsTmuxExecutor { itmux_path, bash_path }
    }

    /// The bash whose existence marks `base_path` as an itmux installation.
    pub fn check_bash_path(base_path: &str) -> (out: String)
        ensures
            out@ == bash_exe_path(base_path@),
    {
        concat(base_path, "\\bin\\bash.exe")
    }

    /// Escapes `'` for use inside single quotes.
    pub fn escape_session(s: &str) -> (out: String)
        ensures
            out@ == quote_escaped(s@),
    {
        let cs = chars_of(s);
        let r = replace_char_exec(&cs, '\'', &chars_of("'\\''"));
        string_of(&r)
    }

    /// Whether converting `windows_path` would cut its first character (see
    /// `splits_first_char`).
    pub fn cuts_first_char(windows_path: &str) -> (b: bool)
        ensures
            b == splits_first_char(windows_path@),
    {
        let p = chars_of(windows_path);
        if starts_with(&p, &chars_of("\\\\")) {
            return false;
        }
        p.len() >= 2 && p[1] == ':' && (p[0] as u32) >= 0x800
    }

    /// Converts a Windows path to the Cygwin form (`C:\x` to `/cygdrive/c/x`).
    pub fn windows_to_cygwin_path(windows_path: &str) -> (out: String)
        requires
            !splits_first_char(windows_path@),
        ensures
            out@ == cygwin_path(windows_path@),
    {
        let p = chars_of(windows_path);
        let unc = chars_of("\\\\");
        let slash = chars_of("/");
        if starts_with(&p, &unc) {
            return owned(windows_path);
        }
        if p.len() >= 2 && p[1] == ':' {
            let first = p[0];
            let skip: usize = if (first as u32) < 0x80 {
                2
            } else {
                1
            };
            let mut rest: Vec<char> = Vec::new();
            let n = p.len();
            let mut k: usize = skip;
            while k < n
                invariant
                    n == p@.len(),
                    skip <= k <= n,
                    rest@ == p@.subrange(skip as int, k as int),
                decreases n - k,
            {
                rest.push(p[k]);
                assert(p@.subrange(skip as int, k + 1) =~= p@.subrange(skip as int, k as int).push(
                    p@[k as int],
                ));
                k = k + 1;
            }
            assert(rest@ =~= p@.skip(skip as int));
            let converted = replace_char_exec(&rest, '\\', &slash);
            let mut out = chars_of("/cygdrive/");
            out.push(ascii_lower_exec(first));
            let m = converted.len();
            let ghost head = out@;
            for i in 0..m
                invariant
                    m == converted@.len(),
                    out@ == head + converted@.take(i as int),
            {
                out.push(converted[i]);
                assert(converted@.take(i + 1) =~= converted@.take(i as int).push(
                    converted@[i as int],
                ));
            }
            assert(converted@.take(m as int) =~= converted@);
            return string_of(&out);
        }
        let converted = replace_char_exec(&p, '\\', &slash);
        string_of(&converted)
    }

    /// Whether an itmux installation with its bash was found.
    pub fn is_available(&self) -> (b: bool)
        ensures
            b == (self.itmux_path is Some && self.bash_path is Some),
    {
        self.itmux_path.is_some() && self.bash_path.is_some()
    }
}

/// `str::to_lowercase`: the Unicode lowercase mapping of each character.
pub uninterp spec fn unicode_lowercase(s: Seq<char>) -> Seq<char>;

/// `str::to_lowercase`; its value is the name above.
#[verifier::external_body]
fn to_lowercase(s: &str) -> (r: String)
    ensures
        r@ == unicode_lowercase(s@),
{
    s.to_lowercase()
}

/// A directory that may hold an itmux installation.
#[derive(Debug, Clone)]
pub struct ItmuxCandidate {
    /// The directory.
    pub path: String,
    /// Whether the installation is the parent of `path` (a `bin` directory
    /// on the `PATH`), or `path` itself when it has no parent.
    pub parent: bool,
}

/// The separator of the `PATH` variable: `;` when it holds one, else `:`.
pub open spec fn path_separator(path_env: Seq<char>) -> char {
    if contains(path_env, seq![';']) {
        ';'
    } else {
        ':'
    }
}

/// A `PATH` entry that names itmux or Cygwin, in any case.
pub open spec fn mentions_itmux(dir: Seq<char>) -> bool {
    contains(unicode_lowercase(dir), "itmux"@) || contains(unicode_lowercase(dir), "cygwin"@)
}

/// The candidates among `PATH` entries, in order: each entry that mentions
/// itmux, to be taken by its parent when it is a `bin` directory.
pub open spec fn path_candidates(dirs: Seq<Seq<char>>) -> Seq<(Seq<char>, bool)>
    decreases dirs.len(),
{
    if dirs.len() == 0 {
        seq![]
    } else {
        let rest = path_candidates(dirs.drop_last());
        let d = dirs.last();
        if mentions_itmux(d) {
            rest.push((d, is_suffix("\\bin"@, d) || is_suffix("/bin"@, d)))
        } else {
            rest
        }
    }
}

/// Where itmux is looked for, in order: `ITMUX_HOME`; the `PATH` entries
/// that mention it; `%USERPROFILE%\itmux`, `C:\itmux`, `D:\itmux` and
/// `%LOCALAPPDATA%\itmux` (an unset variable reads as empty).
pub open spec fn itmux_search(
    home: Option<Seq<char>>,
    path_env: Option<Seq<char>>,
    userprofile: Option<Seq<char>>,
    localappdata: Option<Seq<char>>,
) -> Seq<(Seq<char>, bool)> {
    let first = match home {
        Some(h) => seq![(h, false)],
        None => seq![],
    };
    let from_path = match path_env {
        Some(p) => path_candidates(split(p, path_separator(p))),
        None => seq![],
    };
    let up = match userprofile {
        Some(u) => u,
        None => seq![],
    };
    let la = match localappdata {
        Some(l) => l,
        None => seq![],
    };
    first + from_path + seq![
        (up + "\\itmux"@, false),
        ("C:\\itmux"@, false),
        ("D:\\itmux"@, false),
        (la + "\\itmux"@, false),
    ]
}

/// The views of a sequence of candidates.
pub open spec fn candidate_views(v: Seq<ItmuxCandidate>) -> Seq<(Seq<char>, bool)> {
    v.map_values(|c: ItmuxCandidate| (c.path@, c.parent))
}

fn opt_or_empty(s: Option<&str>) -> (r: String)
    ensures
        r@ == match s {
            Some(v) => v@,
            None => Seq::<char>::empty(),
        },
{
    match s {
        Some(v) => owned(v),
        None => String::new(),
    }
}

/// The directories to try, in order, when looking for itmux, from the
/// values of `ITMUX_HOME`, `PATH`, `USERPROFILE` and `LOCALAPPDATA` (`None`
/// when unset). The first whose `bin\bash.exe` exists is the installation.
pub fn itmux_candidates(
    itmux_home: Option<&str>,
    path_env: Option<&str>,
    userprofile: Option<&str>,
    localappdata: Option<&str>,
) -> (c: Vec<ItmuxCandidate>)
    ensures
        candidate_views(c@) == itmux_search(
            opt_slice(itmux_home),
            opt_slice(path_env),
            opt_slice(userprofile),
            opt_slice(localappdata),
        ),
{
    let mut out: Vec<ItmuxCandidate> = Vec::new();
    match itmux_home {
        Some(h) => out.push(ItmuxCandidate { path: owned(h), parent: false }),
        None => {},
    }
    let ghost first = candidate_views(out@);
    match path_env {
        Some(p) => {
            let pc = chars_of(p);
            let semi: Vec<char> = vec![';'];
            assert(semi@ =~= seq![';']);
            let sep = if find_exec(&pc, &semi).is_some() {
                ';'
            } else {
                ':'
            };
            let dirs = split_at_char(&pc, sep);
            let ghost dv = split(p@, path_separator(p@));
            let itmux = chars_of("itmux");
            let cygwin = chars_of("cygwin");
            let bs_bin = chars_of("\\bin");
            let sl_bin = chars_of("/bin");
            let n = dirs.len();
            for i in 0..n
                invariant
                    n == dirs@.len(),
                    dv.len() == n,
                    forall|k: int| 0 <= k < n ==> #[trigger] dirs@[k]@ == dv[k],
                    itmux@ == "itmux"@,
                    cygwin@ == "cygwin"@,
                    bs_bin@ == "\\bin"@,
                    sl_bin@ == "/bin"@,
                    candidate_views(out@) == first + path_candidates(dv.take(i as int)),
            {
                let d = string_of(&dirs[i]);
                let lower = chars_of(to_lowercase(d.as_str()).as_str());
                proof {
                    assert(dv.take(i + 1).drop_last() =~= dv.take(i as int));
                    assert(dv.take(i + 1).last() == d@);
                }
                if find_exec(&lower, &itmux).is_some() || find_exec(&lower, &cygwin).is_some() {
                    let parent = ends_with(&dirs[i], &bs_bin) || ends_with(&dirs[i], &sl_bin);
                    let ghost before = candidate_views(out@);
                    out.push(ItmuxCandidate { path: d, parent });
                    assert(candidate_views(out@) =~= before.push((dv[i as int], parent)));
                }
            }
            assert(dv.take(n as int) =~= dv);
        },
        None => {},
    }
    let ghost mid = candidate_views(out@);
    let mut up = opt_or_empty(userprofile);
    up.append("\\itmux");
    let mut la = opt_or_empty(localappdata);
    la.append("\\itmux");
    out.push(ItmuxCandidate { path: up, parent: false });
    out.push(ItmuxCandidate { path: owned("C:\\itmux"), parent: false });
    out.push(ItmuxCandidate { path: owned("D:\\itmux"), parent: false });
    out.push(ItmuxCandidate { path: la, parent: false });
    let ghost tail = seq![
        (opt_or_empty_view(userprofile) + "\\itmux"@, false),
        ("C:\\itmux"@, false),
        ("D:\\itmux"@, false),
        (opt_or_empty_view(localappdata) + "\\itmux"@, false),
    ];
    assert(candidate_views(out@) =~= mid + tail);
    out
}

/// The view of an optional string slice, empty when absent.
pub open spec fn opt_or_empty_view(s: Option<&str>) -> Seq<char> {
    match s {
        Some(v) => v@,
        None => Seq::<char>::empty(),
    }
}

/// Index of the first pair whose flag is set.
pub open spec fn first_flagged(v: Seq<(String, bool)>) -> Option<int>
    decreases v.len(),
{
    if v.len() == 0 {
        None
    } else {
        match first_flagged(v.drop_last()) {
            Some(i) => Some(i),
            None => if v.last().1 {
                Some(v.len() - 1)
            } else {
                None
            },
        }
    }
}

/// The itmux installation among the candidate directories, each paired with
/// whether its `bin\bash.exe` exists: the first that has it.
pub fn first_installation(dirs: &Vec<(String, bool)>) -> (r: Option<String>)
    ensures
        match first_flagged(dirs@) {
            Some(i) => r matches Some(d) && d@ == dirs@[i].0@,
            None => r is None,
        },
{
    let n = dirs.len();
    for i in 0..n
        invariant
            n == dirs@.len(),
            first_flagged(dirs@.take(i as int)) is None,
    {
        assert(dirs@.take(i + 1).drop_last() =~= dirs@.take(i as int));
        assert(dirs@.take(i + 1).last() == dirs@[i as int]);
        if dirs[i].1 {
            proof {
                lemma_first_flagged_prefix(dirs@, i as int);
            }
            return Some(owned(dirs[i].0.as_str()));
        }
    }
    assert(dirs@.take(n as int) =~= dirs@);
    None
}

/// Once a prefix has its first flag at `i`, every longer prefix has it there.
proof fn lemma_first_flagged_prefix(v: Seq<(String, bool)>, i: int)
    requires
        0 <= i < v.len(),
        first_flagged(v.take(i)) is None,
        v[i].1,
    ensures
        first_flagged(v) == Some(i),
    decreases v.len(),
{
    if v.len() == i + 1 {
        assert(v.drop_last() =~= v.take(i));
    } else {
        assert(v.drop_last().take(i) =~= v.take(i));
        lemma_first_flagged_prefix(v.drop_last(), i);
    }
}

// ---------------------------------------------------------------------------
// Reading output
// ---------------------------------------------------------------------------

/// The session names in the output of `tmux ls`: the lines, trimmed, without
/// empty ones (and, on Windows, without tmux's "no server" notice).
pub open spec fn session_names(ls: Seq<Seq<char>>, windows: bool) -> Seq<Seq<char>>
    decreases ls.len(),
{
    if ls.len() == 0 {
        seq![]
    } else {
        let rest = session_names(ls.drop_last(), windows);
        let t = trim(ls.last());
        if t.len() > 0 && !(windows && is_prefix("no server"@, t)) {
            rest.push(t)
        } else {
            rest
        }
    }
}

/// One line of `list-panes` output, `id:index:width:height:top:left:active:title`;
/// the title may itself hold colons. `None` when a number does not parse or
/// a field is missing.
pub open spec fn parse_pane_line(line: Seq<char>) -> Option<PaneView> {
    let parts = split(line, ':');
    if parts.len() >= 8 {
        match (
            parse_usize(parts[1]),
            parse_usize(parts[2]),
            parse_usize(parts[3]),
            parse_usize(parts[4]),
            parse_usize(parts[5]),
        ) {
            (Some(index), Some(width), Some(height), Some(top), Some(left)) => Some(
                PaneView {
                    id: parts[0],
                    index,
                    width,
                    height,
                    top,
                    left,
                    active: parts[6] == seq!['1'],
                    title: join(parts.skip(7), seq![':']),
                },
            ),
            _ => None,
        }
    } else {
        None
    }
}

proof fn lemma_decimal_no_colon(n: usize)
    ensures
        forall|i: int| 0 <= i < decimal(n as nat).len() ==> decimal(n as nat)[i] != ':',
{
    lemma_decimal_digits(n as nat);
    assert forall|i: int| 0 <= i < decimal(n as nat).len() implies decimal(n as nat)[i] != ':' by {
        assert(is_digit(decimal(n as nat)[i]));
    }
}

/// A `list-panes` line made of an id, then the decimal index, width,
/// height, top and left, an active flag and a title, joined by colons (the
/// id and the flag without colons, the title with or without), reads as the
/// pane that holds each value in its own field: index second, width third,
/// height fourth, top fifth, left sixth; the pane is active exactly when the
/// flag is `1`, and the title is the rest of the line.
pub proof fn lemma_pane_line_fields(
    id: Seq<char>,
    index: usize,
    width: usize,
    height: usize,
    top: usize,
    left: usize,
    flag: Seq<char>,
    title: Seq<char>,
)
    requires
        forall|i: int| 0 <= i < id.len() ==> id[i] != ':',
        forall|i: int| 0 <= i < flag.len() ==> flag[i] != ':',
    ensures
        parse_pane_line(
            id + seq![':'] + decimal(index as nat) + seq![':'] + decimal(width as nat) + seq![':']
                + decimal(height as nat) + seq![':'] + decimal(top as nat) + seq![':'] + decimal(
                left as nat,
            ) + seq![':'] + flag + seq![':'] + title,
        ) == Some(
            PaneView {
                id,
                index,
                width,
                height,
                top,
                left,
                active: flag == seq!['1'],
                title,
            },
        ),
{
    let c = seq![':'];
    let di = decimal(index as nat);
    let dw = decimal(width as nat);
    let dh = decimal(height as nat);
    let dt = decimal(top as nat);
    let dl = decimal(left as nat);
    lemma_decimal_no_colon(index);
    lemma_decimal_no_colon(width);
    lemma_decimal_no_colon(height);
    lemma_decimal_no_colon(top);
    lemma_decimal_no_colon(left);
    let r6 = flag + c + title;
    let r5 = dl + c + r6;
    let r4 = dt + c + r5;
    let r3 = dh + c + r4;
    let r2 = dw + c + r3;
    let r1 = di + c + r2;
    let line = id + c + di + c + dw + c + dh + c + dt + c + dl + c + flag + c + title;
    assert(line =~= id + c + r1);
    let e = Seq::<char>::empty();
    lemma_split_from_piece(e, ':', id, r1);
    lemma_split_from_piece(e, ':', di, r2);
    lemma_split_from_piece(e, ':', dw, r3);
    lemma_split_from_piece(e, ':', dh, r4);
    lemma_split_from_piece(e, ':', dt, r5);
    lemma_split_from_piece(e, ':', dl, r6);
    lemma_split_from_piece(e, ':', flag, title);
    assert(e + id =~= id);
    assert(e + di =~= di);
    assert(e + dw =~= dw);
    assert(e + dh =~= dh);
    assert(e + dt =~= dt);
    assert(e + dl =~= dl);
    assert(e + flag =~= flag);
    let rest = split(title, ':');
    let parts = split(line, ':');
    assert(parts =~= seq![id, di, dw, dh, dt, dl, flag] + rest);
    lemma_split_from_nonempty(e, ':', title);
    lemma_parse_decimal(index);
    lemma_parse_decimal(width);
    lemma_parse_decimal(height);
    lemma_parse_decimal(top);
    lemma_parse_decimal(left);
    assert(parts.skip(7) =~= rest);
    lemma_join_split(title, ':');
}

/// The panes described by the non-empty lines that parse.
pub open spec fn panes_of(ls: Seq<Seq<char>>) -> Seq<PaneView>
    decreases ls.len(),
{
    if ls.len() == 0 {
        seq![]
    } else {
        let rest = panes_of(ls.drop_last());
        if ls.last().len() > 0 && parse_pane_line(ls.last()) is Some {
            rest.push(parse_pane_line(ls.last())->0)
        } else {
            rest
        }
    }
}

/// `o` trimmed, unless nothing is left.
pub open spec fn trimmed_non_empty(o: Seq<char>) -> Option<Seq<char>> {
    if trim(o).len() == 0 {
        None
    } else {
        Some(trim(o))
    }
}

/// Parses one line of `list-panes` output.
fn parse_pane(line: &Vec<char>) -> (r: Option<PaneData>)
    ensures
        match parse_pane_line(line@) {
            Some(v) => r matches Some(p) && p@ == v,
            None => r is None,
        },
{
    let parts = split_at_char(line, ':');
    if parts.len() < 8 {
        return None;
    }
    let ghost sp = split(line@, ':');
    assert(parts@[0]@ == sp[0] && parts@[1]@ == sp[1] && parts@[2]@ == sp[2] && parts@[3]@ == sp[3]
        && parts@[4]@ == sp[4] && parts@[5]@ == sp[5] && parts@[6]@ == sp[6]);
    let index = parse_usize_exec(&parts[1]);
    let width = parse_usize_exec(&parts[2]);
    let height = parse_usize_exec(&parts[3]);
    let top = parse_usize_exec(&parts[4]);
    let left = parse_usize_exec(&parts[5]);
    match (index, width, height, top, left) {
        (Some(index), Some(width), Some(height), Some(top), Some(left)) => {
            let active = parts[6].len() == 1 && parts[6][0] == '1';
            assert(active == (parts@[6]@ == seq!['1'])) by {
                if parts@[6]@ == seq!['1'] {
                    assert(parts@[6]@[0] == '1');
                }
                if active {
                    assert(parts@[6]@ =~= seq!['1']);
                }
            }
            let colon: Vec<char> = vec![':'];
            let title = join_from(&parts, 7, &colon);
            assert(colon@ =~= seq![':']);
            let ghost views = crate::text::vec_views(parts@.skip(7));
            assert forall|k: int| 0 <= k < views.len() implies views[k] == sp.skip(7)[k] by {
                assert(parts@[k + 7]@ == sp[k + 7]);
            }
            assert(views =~= sp.skip(7));
            assert(title@ == join(views, colon@));
            assert(join(views, colon@) == join(sp.skip(7), seq![':']));
            Some(
                PaneData {
                    id: string_of(&parts[0]),
                    index,
                    width,
                    height,
                    top,
                    left,
                    active,
                    title: string_of(&title),
                },
            )
        },
        _ => {
            assert(parse_pane_line(line@) is None);
            None
        },
    }
}

impl TmuxExecutor {
    /// Whether this is the itmux executor.
    pub open spec fn is_windows(&self) -> bool {
        self is Windows
    }

    /// Whether tmux can be used: on Unix whether `tmux` is on the `PATH`
    /// (which the caller looks up), on Windows whether an itmux installation
    /// with its bash was found.
    pub fn is_available(&self, tmux_on_path: bool) -> (b: bool)
        ensures
            b == match *self {
                TmuxExecutor::Unix(_) => tmux_on_path,
                TmuxExecutor::Windows(w) => w.itmux_path is Some && w.bash_path is Some,
            },
    {
        match self {
            TmuxExecutor::Unix(_) => tmux_on_path,
            TmuxExecutor::Windows(w) => w.is_available(),
        }
    }

    /// The session names in the output of the session-list command.
    pub fn list_sessions(&self, output: Option<&str>) -> (names: Vec<String>)
        ensures
            output is None ==> names@.len() == 0,
            output matches Some(o) ==> strs(names@) == session_names(lines(o@), self.is_windows()),
    {
        let o = match output {
            None => {
                return Vec::new();
            },
            Some(o) => o,
        };
        let windows = match self {
            TmuxExecutor::Windows(_) => true,
            TmuxExecutor::Unix(_) => false,
        };
        let ls = lines_of(&chars_of(o));
        let ghost lv = lines(o@);
        let no_server = chars_of("no server");
        let mut names: Vec<String> = Vec::new();
        let n = ls.len();
        for i in 0..n
            invariant
                n == ls@.len(),
                lv.len() == n,
                forall|k: int| 0 <= k < n ==> #[trigger] ls@[k]@ == lv[k],
                no_server@ == "no server"@,
                windows == self.is_windows(),
                strs(names@) == session_names(lv.take(i as int), windows),
        {
            let t = trim_chars(&ls[i]);
            proof {
                assert(lv.take(i + 1).drop_last() =~= lv.take(i as int));
                assert(lv.take(i + 1).last() == ls@[i as int]@);
            }
            if t.len() > 0 && !(windows && starts_with(&t, &no_server)) {
                let ghost before = names@;
                names.push(string_of(&t));
                assert(strs(names@) =~= strs(before).push(t@));
            }
        }
        assert(lv.take(n as int) =~= lv);
        names
    }

    /// The panes in the output of the pane-list command.
    pub fn list_panes(&self, output: Option<&str>) -> (r: Option<Vec<PaneData>>)
        ensures
            output is None ==> r is None,
            output matches Some(o) ==> r matches Some(panes) && panes@.len() == panes_of(
                lines(o@),
            ).len() && forall|k: int|
                0 <= k < panes@.len() ==> #[trigger] panes@[k]@ == panes_of(lines(o@))[k],
    {
        let o = match output {
            None => {
                return None;
            },
            Some(o) => o,
        };
        let ls = lines_of(&chars_of(o));
        let ghost lv = lines(o@);
        let mut panes: Vec<PaneData> = Vec::new();
        let n = ls.len();
        for i in 0..n
            invariant
                n == ls@.len(),
                lv.len() == n,
                forall|k: int| 0 <= k < n ==> #[trigger] ls@[k]@ == lv[k],
                panes@.len() == panes_of(lv.take(i as int)).len(),
                forall|k: int|
                    0 <= k < panes@.len() ==> #[trigger] panes@[k]@ == panes_of(lv.take(i as int))[k],
        {
            proof {
                assert(lv.take(i + 1).drop_last() =~= lv.take(i as int));
                assert(lv.take(i + 1).last() == ls@[i as int]@);
            }
            if ls[i].len() > 0 {
                match parse_pane(&ls[i]) {
                    Some(p) => {
                        panes.push(p);
                    },
                    None => {},
                }
            }
        }
        assert(lv.take(n as int) =~= lv);
        Some(panes)
    }

    /// A captured screen with line feeds turned into CR LF for the terminal
    /// on the other end.
    pub fn captured_screen(output: Option<&str>) -> (r: Option<String>)
        ensures
            opt_view(r) == match output {
                Some(o) => Some(replace_char(o@, '\n', "\r\n"@)),
                None => None,
            },
    {
        match output {
            None => None,
            Some(o) => {
                let r = replace_char_exec(&chars_of(o), '\n', &chars_of("\r\n"));
                Some(string_of(&r))
            },
        }
    }

    /// The trimmed output, or `None` when it is empty.
    fn non_empty_trimmed(output: Option<&str>) -> (r: Option<String>)
        ensures
            opt_view(r) == match output {
                Some(o) => trimmed_non_empty(o@),
                None => None,
            },
    {
        match output {
            None => None,
            Some(o) => {
                let t = trim_chars(&chars_of(o));
                if t.len() == 0 {
                    None
                } else {
                    Some(string_of(&t))
                }
            },
        }
    }

    /// The active pane's id, from the output of the active-pane query.
    pub fn get_active_pane(output: Option<&str>) -> (r: Option<String>)
        ensures
            opt_view(r) == match output {
                Some(o) => trimmed_non_empty(o@),
                None => None,
            },
    {
        Self::non_empty_trimmed(output)
    }

    /// A pane's working directory, from the output of the working-directory
    /// query.
    pub fn get_pane_cwd(output: Option<&str>) -> (r: Option<String>)
        ensures
            opt_view(r) == match output {
                Some(o) => trimmed_non_empty(o@),
                None => None,
            },
    {
        Self::non_empty_trimmed(output)
    }

    /// The tmux version line, trimmed.
    pub fn get_version(output: Option<&str>) -> (r: Option<String>)
        ensures
            opt_view(r) == match output {
                Some(o) => Some(trim(o@)),
                None => None,
            },
    {
        match output {
            None => None,
            Some(o) => Some(string_of(&trim_chars(&chars_of(o)))),
        }
    }
}


// ---------------------------------------------------------------------------
// Commands
// ---------------------------------------------------------------------------

/// Format of one `list-panes` line.
pub open spec fn pane_format() -> Seq<char> {
    "#{pane_id}:#{pane_index}:#{pane_width}:#{pane_height}:#{pane_top}:#{pane_left}:#{?pane_active,1,0}:#{pane_title}"@
}

/// `tmux` with these arguments on Unix, this command line on Windows.
pub open spec fn per_platform(e: TmuxExecutor, args: Seq<Seq<char>>, line: Seq<char>) -> CommandView {
    match e {
        TmuxExecutor::Unix(_) => CommandView::Tmux(args),
        TmuxExecutor::Windows(_) => CommandView::Shell(line),
    }
}

/// The command that lists the session names.
pub open spec fn list_sessions_cmd(e: TmuxExecutor) -> CommandView {
    per_platform(
        e,
        seq!["ls"@, "-F"@, "#{session_name}"@],
        "tmux ls -F '#{session_name}' 2>/dev/null || true"@,
    )
}

/// The command that prints a target's screen with its escape sequences.
pub open spec fn capture_cmd(e: TmuxExecutor, target: Seq<char>) -> CommandView {
    per_platform(
        e,
        seq!["capture-pane"@, "-t"@, target, "-p"@, "-e"@, "-N"@],
        "tmux capture-pane -t '"@ + quote_escaped(target) + "' -p -e -N"@,
    )
}

/// The command that lists a session's panes, one `pane_format` line each.
pub open spec fn list_panes_cmd(e: TmuxExecutor, session: Seq<char>) -> CommandView {
    per_platform(
        e,
        seq!["list-panes"@, "-t"@, session, "-F"@, pane_format()],
        "tmux list-panes -t '"@ + quote_escaped(session) + "' -F \""@ + pane_format() + "\""@,
    )
}

/// The command that types `keys` literally into a session.
pub open spec fn send_keys_cmd(e: TmuxExecutor, session: Seq<char>, keys: Seq<char>) -> CommandView {
    per_platform(
        e,
        seq!["send-keys"@, "-t"@, session, "-l"@, shell_escaped(keys)],
        "tmux send-keys -t '"@ + quote_escaped(session) + "' -l '"@ + quote_escaped(keys) + "'"@,
    )
}

/// The command that presses a named key in a session.
pub open spec fn send_special_key_cmd(e: TmuxExecutor, session: Seq<char>, key: Seq<char>) -> CommandView {
    per_platform(
        e,
        seq!["send-keys"@, "-t"@, session, key],
        "tmux send-keys -t '"@ + quote_escaped(session) + "' "@ + key,
    )
}

/// The command that resizes a window or pane (`verb`) to `cols` by `rows`.
pub open spec fn resize_cmd(e: TmuxExecutor, verb: Seq<char>, target: Seq<char>, cols: usize, rows: usize) -> CommandView {
    per_platform(
        e,
        seq![verb, "-t"@, target, "-x"@, decimal(cols as nat), "-y"@, decimal(rows as nat)],
        "tmux "@ + verb + " -t '"@ + quote_escaped(target) + "' -x "@ + decimal(cols as nat) + " -y "@
            + decimal(rows as nat),
    )
}

/// The command that kills a session.
pub open spec fn kill_session_cmd(e: TmuxExecutor, session: Seq<char>) -> CommandView {
    per_platform(
        e,
        seq!["kill-session"@, "-t"@, session],
        "tmux kill-session -t '"@ + quote_escaped(session) + "'"@,
    )
}

/// The command that creates a detached session named by the sanitized
/// name, in `working_dir` if given (a Cygwin path on Windows);
/// `None` when nothing of the name is left after sanitizing.
pub open spec fn create_session_cmd(e: TmuxExecutor, session: Seq<char>, working_dir: Option<Seq<char>>) -> Option<CommandView> {
    let name = sanitized(session);
    if name.len() == 0 {
        None
    } else {
        Some(
            per_platform(
                e,
                match working_dir {
                    Some(cwd) => seq!["new-session"@, "-d"@, "-s"@, name, "-c"@, cwd],
                    None => seq!["new-session"@, "-d"@, "-s"@, name],
                },
                match working_dir {
                    Some(cwd) => "tmux new-session -d -s '"@ + name + "' -c '"@ + cygwin_path(cwd) + "'"@,
                    None => "tmux new-session -d -s '"@ + name + "'"@,
                },
            ),
        )
    }
}

/// The command that prints the tmux version.
pub open spec fn get_version_cmd(e: TmuxExecutor) -> CommandView {
    per_platform(e, seq!["-V"@], "tmux -V"@)
}

/// The command that prints the id of a session's active pane.
pub open spec fn active_pane_cmd(e: TmuxExecutor, session: Seq<char>) -> CommandView {
    per_platform(
        e,
        seq!["display-message"@, "-t"@, session, "-p"@, "#{pane_id}"@],
        "tmux display-message -t '"@ + quote_escaped(session) + "' -p \"#{pane_id}\""@,
    )
}

/// The command that prints the working directory of a session's active
/// pane, or of the pane `pane_id` in it.
pub open spec fn pane_cwd_cmd(e: TmuxExecutor, session: Seq<char>, pane_id: Option<Seq<char>>) -> CommandView {
    let target = match pane_id {
        Some(p) => session + ":"@ + p,
        None => session,
    };
    let quoted_target = match pane_id {
        Some(p) => quote_escaped(session) + ":"@ + p,
        None => quote_escaped(session),
    };
    per_platform(
        e,
        seq!["display-message"@, "-t"@, target, "-p"@, "#{pane_current_path}"@],
        "tmux display-message -t '"@ + quoted_target + "' -p \"#{pane_current_path}\""@,
    )
}

/// `a + b + c`.
fn cat3(a: &str, b: &str, c: &str) -> (out: String)
    ensures
        out@ == a@ + b@ + c@,
{
    let mut out = owned(a);
    out.append(b);
    out.append(c);
    out
}

/// `tmux` with these arguments, or this command line, as the platform wants.
fn platform_command(e: &TmuxExecutor, args: Vec<String>, line: String) -> (c: TmuxCommand)
    ensures
        c@ == per_platform(*e, strs(args@), line@),
{
    match e {
        TmuxExecutor::Unix(_) => TmuxCommand::Tmux(args),
        TmuxExecutor::Windows(_) => TmuxCommand::Shell(line),
    }
}

/// Picks the executor of the platform: itmux (at `itmux_path`, if found) on
/// Windows, tmux elsewhere.
pub fn create_executor(windows: bool, itmux_path: Option<String>) -> (e: TmuxExecutor)
    ensures
        e.is_windows() == windows,
        e matches TmuxExecutor::Windows(w) ==> opt_view(w.itmux_path) == opt_view(itmux_path),
{
    if windows {
        TmuxExecutor::Windows(WindowsTmuxExecutor::new(itmux_path))
    } else {
        TmuxExecutor::Unix(UnixTmuxExecutor::new())
    }
}

impl TmuxExecutor {
    /// The command that lists the sessions.
    pub fn list_sessions_command(&self) -> (c: TmuxCommand)
        ensures
            c@ == list_sessions_cmd(*self),
    {
        let args = vec![owned("ls"), owned("-F"), owned("#{session_name}")];
        assert(strs(args@) =~= seq!["ls"@, "-F"@, "#{session_name}"@]);
        platform_command(self, args, owned("tmux ls -F '#{session_name}' 2>/dev/null || true"))
    }

    fn capture_command(&self, target: &str) -> (c: TmuxCommand)
        ensures
            c@ == capture_cmd(*self, target@),
    {
        let args = vec![owned("capture-pane"), owned("-t"), owned(target), owned("-p"), owned("-e"), owned("-N")];
        assert(strs(args@) =~= seq!["capture-pane"@, "-t"@, target@, "-p"@, "-e"@, "-N"@]);
        let q = WindowsTmuxExecutor::escape_session(target);
        platform_command(self, args, cat3("tmux capture-pane -t '", q.as_str(), "' -p -e -N"))
    }

    /// The command that captures a session's active pane.
    pub fn capture_pane(&self, session: &str) -> (c: TmuxCommand)
        ensures
            c@ == capture_cmd(*self, session@),
    {
        self.capture_command(session)
    }

    /// The command that captures a pane, addressed by its id.
    pub fn capture_pane_by_id(&self, _session: &str, pane_id: &str) -> (c: TmuxCommand)
        ensures
            c@ == capture_cmd(*self, pane_id@),
    {
        self.capture_command(pane_id)
    }

    /// The command that lists a session's panes in the format that
    /// `list_panes` reads.
    pub fn list_panes_command(&self, session: &str) -> (c: TmuxCommand)
        ensures
            c@ == list_panes_cmd(*self, session@),
    {
        let fmt = "#{pane_id}:#{pane_index}:#{pane_width}:#{pane_height}:#{pane_top}:#{pane_left}:#{?pane_active,1,0}:#{pane_title}";
        let args = vec![owned("list-panes"), owned("-t"), owned(session), owned("-F"), owned(fmt)];
        assert(strs(args@) =~= seq!["list-panes"@, "-t"@, session@, "-F"@, pane_format()]);
        let q = WindowsTmuxExecutor::escape_session(session);
        let mut line = cat3("tmux list-panes -t '", q.as_str(), "' -F \"");
        line.append(fmt);
        line.append("\"");
        platform_command(self, args, line)
    }

    /// The command that types `keys` literally into a session.
    pub fn send_keys_command(&self, session: &str, keys: &str) -> (c: TmuxCommand)
        ensures
            c@ == send_keys_cmd(*self, session@, keys@),
    {
        let escaped = UnixTmuxExecutor::escape_for_shell(keys);
        let args = vec![owned("send-keys"), owned("-t"), owned(session), owned("-l"), escaped];
        assert(strs(args@) =~= seq!["send-keys"@, "-t"@, session@, "-l"@, shell_escaped(keys@)]);
        let qs = WindowsTmuxExecutor::escape_session(session);
        let qk = WindowsTmuxExecutor::escape_session(keys);
        let mut line = cat3("tmux send-keys -t '", qs.as_str(), "' -l '");
        line.append(qk.as_str());
        line.append("'");
        platform_command(self, args, line)
    }

    /// The command that presses a named key (`Enter`, `C-c`, ...) in a
    /// session.
    pub fn send_special_key(&self, session: &str, key: &str) -> (c: TmuxCommand)
        ensures
            c@ == send_special_key_cmd(*self, session@, key@),
    {
        let args = vec![owned("send-keys"), owned("-t"), owned(session), owned(key)];
        assert(strs(args@) =~= seq!["send-keys"@, "-t"@, session@, key@]);
        let qs = WindowsTmuxExecutor::escape_session(session);
        let mut line = cat3("tmux send-keys -t '", qs.as_str(), "' ");
        line.append(key);
        platform_command(self, args, line)
    }

    fn resize_command(&self, verb: &str, target: &str, cols: usize, rows: usize) -> (c: TmuxCommand)
        ensures
            c@ == resize_cmd(*self, verb@, target@, cols, rows),
    {
        let c = usize_to_string(cols);
        let r = usize_to_string(rows);
        let args = vec![owned(verb), owned("-t"), owned(target), owned("-x"), owned(c.as_str()), owned("-y"), owned(r.as_str())];
        assert(strs(args@) =~= seq![verb@, "-t"@, target@, "-x"@, decimal(cols as nat), "-y"@, decimal(rows as nat)]);
        let q = WindowsTmuxExecutor::escape_session(target);
        let mut line = cat3("tmux ", verb, " -t '");
        line.append(q.as_str());
        line.append("' -x ");
        line.append(c.as_str());
        line.append(" -y ");
        line.append(r.as_str());
        platform_command(self, args, line)
    }

    /// The command that resizes a session's window.
    pub fn resize_window(&self, session: &str, cols: usize, rows: usize) -> (c: TmuxCommand)
        ensures
            c@ == resize_cmd(*self, "resize-window"@, session@, cols, rows),
    {
        self.resize_command("resize-window", session, cols, rows)
    }

    /// The command that resizes a pane.
    pub fn resize_pane(&self, pane_id: &str, cols: usize, rows: usize) -> (c: TmuxCommand)
        ensures
            c@ == resize_cmd(*self, "resize-pane"@, pane_id@, cols, rows),
    {
        self.resize_command("resize-pane", pane_id, cols, rows)
    }

    /// The command that kills a session.
    pub fn kill_session(&self, session: &str) -> (c: TmuxCommand)
        ensures
            c@ == kill_session_cmd(*self, session@),
    {
        let args = vec![owned("kill-session"), owned("-t"), owned(session)];
        assert(strs(args@) =~= seq!["kill-session"@, "-t"@, session@]);
        let q = WindowsTmuxExecutor::escape_session(session);
        platform_command(self, args, cat3("tmux kill-session -t '", q.as_str(), "'"))
    }

    /// The command that creates a detached session named by the letters,
    /// digits, `_` and `-` of `session`, in `working_dir` if given; `None`
    /// (nothing to run, creation fails) when no such character is left.
    pub fn create_session(&self, session: &str, working_dir: Option<&str>) -> (c: Option<
        TmuxCommand,
    >)
        requires
            self.is_windows() ==> (working_dir matches Some(w) ==> !splits_first_char(w@)),
        ensures
            match create_session_cmd(*self, session@, match working_dir {
                Some(w) => Some(w@),
                None => None,
            }) {
                Some(v) => c matches Some(cmd) && cmd@ == v,
                None => c is None,
            },
    {
        let name = sanitize_session_name(session);
        if name.len() == 0 {
            return None;
        }
        let name_s = string_of(&name);
        match working_dir {
            Some(cwd) => {
                let args = vec![owned("new-session"), owned("-d"), owned("-s"), owned(name_s.as_str()), owned("-c"), owned(cwd)];
                assert(strs(args@) =~= seq!["new-session"@, "-d"@, "-s"@, name@, "-c"@, cwd@]);
                let line = match self {
                    TmuxExecutor::Windows(_) => {
                        let cyg = WindowsTmuxExecutor::windows_to_cygwin_path(cwd);
                        let mut line = cat3("tmux new-session -d -s '", name_s.as_str(), "' -c '");
                        line.append(cyg.as_str());
                        line.append("'");
                        line
                    },
                    TmuxExecutor::Unix(_) => String::new(),
                };
                Some(platform_command(self, args, line))
            },
            None => {
                let args = vec![owned("new-session"), owned("-d"), owned("-s"), owned(name_s.as_str())];
                assert(strs(args@) =~= seq!["new-session"@, "-d"@, "-s"@, name@]);
                Some(platform_command(self, args, cat3("tmux new-session -d -s '", name_s.as_str(), "'")))
            },
        }
    }

    /// The command that prints the tmux version.
    pub fn get_version_command(&self) -> (c: TmuxCommand)
        ensures
            c@ == get_version_cmd(*self),
    {
        let args = vec![owned("-V")];
        assert(strs(args@) =~= seq!["-V"@]);
        platform_command(self, args, owned("tmux -V"))
    }

    /// The command that prints the id of a session's active pane.
    pub fn get_active_pane_command(&self, session: &str) -> (c: TmuxCommand)
        ensures
            c@ == active_pane_cmd(*self, session@),
    {
        let args = vec![owned("display-message"), owned("-t"), owned(session), owned("-p"), owned("#{pane_id}")];
        assert(strs(args@) =~= seq!["display-message"@, "-t"@, session@, "-p"@, "#{pane_id}"@]);
        let q = WindowsTmuxExecutor::escape_session(session);
        platform_command(self, args, cat3("tmux display-message -t '", q.as_str(), "' -p \"#{pane_id}\""))
    }

    /// The command that prints the working directory of a session's active
    /// pane, or of the pane `pane_id` in it.
    pub fn get_pane_cwd_command(&self, session: &str, pane_id: Option<&str>) -> (c: TmuxCommand)
        ensures
            c@ == pane_cwd_cmd(*self, session@, match pane_id {
                Some(p) => Some(p@),
                None => None,
            }),
    {
        let target = match pane_id {
            Some(pid) => cat3(session, ":", pid),
            None => owned(session),
        };
        let args = vec![owned("display-message"), owned("-t"), target, owned("-p"), owned("#{pane_current_path}")];
        let q = WindowsTmuxExecutor::escape_session(session);
        let wtarget = match pane_id {
            Some(pid) => cat3(q.as_str(), ":", pid),
            None => q,
        };
        let line = cat3("tmux display-message -t '", wtarget.as_str(), "' -p \"#{pane_current_path}\"");
        let c = platform_command(self, args, line);
        proof {
            let pv = match pane_id {
                Some(p) => Some(p@),
                None => None::<Seq<char>>,
            };
            let tv = match pv {
                Some(p) => session@ + ":"@ + p,
                None => session@,
            };
            assert(strs(args@) =~= seq!["display-message"@, "-t"@, tv, "-p"@, "#{pane_current_path}"@]);
            let wv = match pv {
                Some(p) => quote_escaped(session@) + ":"@ + p,
                None => quote_escaped(session@),
            };
            assert(wtarget@ == wv);
            assert(line@ =~= "tmux display-message -t '"@ + wv + "' -p \"#{pane_current_path}\""@);
            assert(c@ == pane_cwd_cmd(*self, session@, pv));
        }
        c
    }
}

/// The session names that a scan finds, from the output of the session-list
/// command (`list_sessions_command`).
pub fn scan_sessions(executor: &TmuxExecutor, output: Option<&str>) -> (names: Vec<String>)
    ensures
        output is None ==> names@.len() == 0,
        output matches Some(o) ==> strs(names@) == session_names(lines(o@), executor.is_windows()),
{
    executor.list_sessions(output)
}

/// What `send_keys` does with the commands it runs.
#[derive(Debug, Clone, Copy, PartialEq, Eq)]
pub enum KeyResult {
    /// Report whether the last command succeeded.
    LastCommand,
    /// Report success whatever the commands did.
    Sent,
}

/// The commands that deliver keys to a target, in order, and how the
/// delivery is reported.
#[derive(Debug, Clone)]
pub struct KeyPlan {
    pub commands: Vec<TmuxCommand>,
    pub result: KeyResult,
}

/// The views of a sequence of commands.
pub open spec fn command_views(v: Seq<TmuxCommand>) -> Seq<CommandView> {
    v.map_values(|c: TmuxCommand| c@)
}

/// How keys from a viewer reach a target: Ctrl-C, Ctrl-D and a bare line
/// feed (or CR LF) become named key presses; text ending in a line feed is
/// typed without it and followed by Enter; other text is typed, followed by
/// Enter when `enter` is set.
pub open spec fn key_plan(e: TmuxExecutor, target: Seq<char>, keys: Seq<char>, enter: bool) -> (Seq<CommandView>, KeyResult) {
    if keys == seq!['\u{3}'] {
        (seq![send_special_key_cmd(e, target, "C-c"@)], KeyResult::LastCommand)
    } else if keys == seq!['\u{4}'] {
        (seq![send_special_key_cmd(e, target, "C-d"@)], KeyResult::LastCommand)
    } else if keys == seq!['\n'] || keys == seq!['\r', '\n'] {
        (seq![send_special_key_cmd(e, target, "Enter"@)], KeyResult::LastCommand)
    } else if keys.len() > 0 && keys.last() == '\n' {
        let text = keys.drop_last();
        if text.len() > 0 {
            (seq![send_keys_cmd(e, target, text), send_special_key_cmd(e, target, "Enter"@)], KeyResult::LastCommand)
        } else {
            (seq![send_special_key_cmd(e, target, "Enter"@)], KeyResult::LastCommand)
        }
    } else if enter {
        (seq![send_keys_cmd(e, target, keys), send_special_key_cmd(e, target, "Enter"@)], KeyResult::Sent)
    } else {
        (seq![send_keys_cmd(e, target, keys)], KeyResult::Sent)
    }
}

/// On every platform the pane-list command asks tmux for the same format:
/// id, index, width, height, top, left, active flag and title, each as a
/// single-brace tmux field, joined by colons. On Unix it is the argument
/// after `-F`; on Windows it stands between the double quotes after `-F`.
pub proof fn lemma_pane_list_format(u: UnixTmuxExecutor, w: WindowsTmuxExecutor, session: Seq<char>)
    ensures
        ({
            let fmt = "#{pane_id}:#{pane_index}:#{pane_width}:#{pane_height}:#{pane_top}:#{pane_left}:#{?pane_active,1,0}:#{pane_title}"@;
            &&& list_panes_cmd(TmuxExecutor::Unix(u), session) == CommandView::Tmux(
                seq!["list-panes"@, "-t"@, session, "-F"@, fmt],
            )
            &&& list_panes_cmd(TmuxExecutor::Windows(w), session) == CommandView::Shell(
                "tmux list-panes -t '"@ + quote_escaped(session) + "' -F \""@ + fmt + "\""@,
            )
        }),
{
}

/// Keys that are not a control key and do not end in a line feed are typed
/// literally first; with `enter` set, Enter is pressed after them and last,
/// and without it nothing else is run. The delivery counts as sent.
pub proof fn lemma_keys_typed_before_enter(e: TmuxExecutor, target: Seq<char>, keys: Seq<char>, enter: bool)
    requires
        keys != seq!['\u{3}'],
        keys != seq!['\u{4}'],
        keys.len() == 0 || keys.last() != '\n',
    ensures
        ({
            let plan = key_plan(e, target, keys, enter);
            &&& plan.1 == KeyResult::Sent
            &&& plan.0.len() == (if enter { 2int } else { 1int })
            &&& plan.0[0] == send_keys_cmd(e, target, keys)
            &&& enter ==> plan.0[1] == send_special_key_cmd(e, target, "Enter"@)
            &&& e is Unix ==> plan.0[0] == CommandView::Tmux(
                seq!["send-keys"@, "-t"@, target, "-l"@, shell_escaped(keys)],
            )
            &&& (e is Unix && enter) ==> plan.0[1] == CommandView::Tmux(
                seq!["send-keys"@, "-t"@, target, "Enter"@],
            )
        }),
{
    if keys == seq!['\n'] {
        assert(keys.last() == '\n');
    }
    if keys == seq!['\r', '\n'] {
        assert(keys.last() == '\n');
    }
}

/// Whether `s` is exactly the characters `cs`.
fn is_exactly(s: &Vec<char>, cs: &Vec<char>) -> (b: bool)
    ensures
        b == (s@ == cs@),
{
    if s.len() != cs.len() {
        return false;
    }
    let r = starts_with(s, cs);
    proof {
        if r {
            assert(s@.take(cs@.len() as int) =~= s@);
        } else {
            assert(s@.take(cs@.len() as int) =~= s@);
        }
    }
    r
}

/// The commands that deliver `keys` to `target`, and how to report the
/// delivery.
pub fn send_keys(executor: &TmuxExecutor, target: &str, keys: &str, enter: bool) -> (plan: KeyPlan)
    ensures
        (command_views(plan.commands@), plan.result) == key_plan(*executor, target@, keys@, enter),
{
    let k = chars_of(keys);
    let ctrl_c: Vec<char> = vec!['\u{3}'];
    let ctrl_d: Vec<char> = vec!['\u{4}'];
    let lf: Vec<char> = vec!['\n'];
    let crlf: Vec<char> = vec!['\r', '\n'];
    assert(ctrl_c@ =~= seq!['\u{3}'] && ctrl_d@ =~= seq!['\u{4}'] && lf@ =~= seq!['\n'] && crlf@ =~= seq!['\r', '\n']);
    let mut commands: Vec<TmuxCommand> = Vec::new();
    let result;
    if is_exactly(&k, &ctrl_c) {
        commands.push(executor.send_special_key(target, "C-c"));
        result = KeyResult::LastCommand;
    } else if is_exactly(&k, &ctrl_d) {
        commands.push(executor.send_special_key(target, "C-d"));
        result = KeyResult::LastCommand;
    } else if is_exactly(&k, &lf) || is_exactly(&k, &crlf) {
        commands.push(executor.send_special_key(target, "Enter"));
        result = KeyResult::LastCommand;
    } else if k.len() > 0 && k[k.len() - 1] == '\n' {
        let mut text = k.clone();
        text.pop();
        assert(text@ =~= keys@.drop_last());
        if text.len() > 0 {
            let t = string_of(&text);
            commands.push(executor.send_keys_command(target, t.as_str()));
        }
        commands.push(executor.send_special_key(target, "Enter"));
        result = KeyResult::LastCommand;
    } else {
        commands.push(executor.send_keys_command(target, keys));
        if enter {
            commands.push(executor.send_special_key(target, "Enter"));
        }
        result = KeyResult::Sent;
    }
    let plan = KeyPlan { commands, result };
    assert(command_views(plan.commands@) =~= key_plan(*executor, target@, keys@, enter).0);
    plan
}

} // verus!
