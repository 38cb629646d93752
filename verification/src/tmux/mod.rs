//! tmux data: panes, sessions and the git state of a pane's directory.
pub mod executor;

use crate::text::{
    chars_of, find, find_exec, is_prefix, owned, replace_str, replace_str_exec, string_of, trim,
    trim_chars,
};
use vstd::prelude::*;

verus! {

/// One pane of a tmux window.
#[derive(Debug, Clone)]
pub struct PaneData {
    pub id: String,
    pub index: usize,
    pub width: usize,
    pub height: usize,
    pub top: usize,
    pub left: usize,
    pub active: bool,
    pub title: String,
}

/// The value of a `PaneData`.
pub struct PaneView {
    pub id: Seq<char>,
    pub index: usize,
    pub width: usize,
    pub height: usize,
    pub top: usize,
    pub left: usize,
    pub active: bool,
    pub title: Seq<char>,
}

impl View for PaneData {
    type V = PaneView;

    open spec fn view(&self) -> PaneView {
        PaneView {
            id: self.id@,
            index: self.index,
            width: self.width,
            height: self.height,
            top: self.top,
            left: self.left,
            active: self.active,
            title: self.title@,
        }
    }
}

/// A tmux session as the session list shows it.
#[derive(Debug, Clone)]
pub struct TmuxSession {
    pub name: String,
    pub windows: usize,
    pub attached: bool,
}

/// Git state of a directory.
#[derive(Debug, Clone)]
pub struct GitInfo {
    pub branch: Option<String>,
    pub remote: Option<String>,
    pub repo: Option<String>,
}

/// The view of an optional string.
pub open spec fn opt_view(s: Option<String>) -> Option<Seq<char>> {
    match s {
        Some(v) => Some(v@),
        None => None,
    }
}

/// `s` without leading characters that are `:` or `/`.
pub open spec fn trim_start_separators(s: Seq<char>) -> Seq<char>
    decreases s.len(),
{
    if s.len() > 0 && (s[0] == ':' || s[0] == '/') {
        trim_start_separators(s.drop_first())
    } else {
        s
    }
}

/// The piece of `s` between the first and the second occurrence of `pat`
/// (the second piece of `str::split`), if `pat` occurs.
pub open spec fn second_piece(s: Seq<char>, pat: Seq<char>) -> Option<Seq<char>> {
    match find(s, pat) {
        None => None,
        Some(i) => {
            let after = s.skip(i + pat.len());
            match find(after, pat) {
                Some(j) => Some(after.take(j)),
                None => Some(after),
            }
        },
    }
}

/// The `owner/name` of a GitHub remote URL: what follows `github.com`, without
/// leading `:` or `/`, with every `.git` removed.
pub open spec fn github_repo(remote: Seq<char>) -> Option<Seq<char>> {
    match second_piece(remote, "github.com"@) {
        None => None,
        Some(piece) => Some(replace_str(trim_start_separators(piece), ".git"@, seq![])),
    }
}

/// Drops leading `:` and `/`.
fn trim_start_separators_exec(s: &Vec<char>) -> (out: Vec<char>)
    ensures
        out@ == trim_start_separators(s@),
{
    let n = s.len();
    let mut i: usize = 0;
    assert(s@.skip(0) =~= s@);
    while i < n && (s[i] == ':' || s[i] == '/')
        invariant
            n == s@.len(),
            i <= n,
            trim_start_separators(s@) == trim_start_separators(s@.skip(i as int)),
        decreases n - i,
    {
        assert(s@.skip(i as int).drop_first() =~= s@.skip(i + 1));
        i = i + 1;
    }
    let mut out: Vec<char> = Vec::new();
    let mut k: usize = i;
    while k < n
        invariant
            n == s@.len(),
            i <= k <= n,
            out@ == s@.subrange(i as int, k as int),
        decreases n - k,
    {
        out.push(s[k]);
        assert(s@.subrange(i as int, k + 1) =~= s@.subrange(i as int, k as int).push(s@[k as int]));
        k = k + 1;
    }
    assert(out@ =~= s@.skip(i as int));
    out
}

/// Elements `from..to` of `s`.
fn slice_chars(s: &Vec<char>, from: usize, to: usize) -> (out: Vec<char>)
    requires
        from <= to <= s@.len(),
    ensures
        out@ == s@.subrange(from as int, to as int),
{
    let mut out: Vec<char> = Vec::new();
    let mut k: usize = from;
    while k < to
        invariant
            from <= k <= to <= s@.len(),
            out@ == s@.subrange(from as int, k as int),
        decreases to - k,
    {
        out.push(s[k]);
        assert(s@.subrange(from as int, k + 1) =~= s@.subrange(from as int, k as int).push(
            s@[k as int],
        ));
        k = k + 1;
    }
    out
}

/// The GitHub `owner/name` of a remote URL (`git@github.com:o/r.git` and
/// `https://github.com/o/r.git` give `o/r`); `None` when the URL does not
/// mention `github.com`.
pub fn repo_from_remote(remote: &str) -> (r: Option<String>)
    ensures
        opt_view(r) == github_repo(remote@),
{
    let s = chars_of(remote);
    let pat = chars_of("github.com");
    match find_exec(&s, &pat) {
        None => None,
        Some(i) => {
            proof {
                crate::text::lemma_find_some_in_range(s@, pat@);
            }
            let slen = s.len();
            let plen = pat.len();
            assert(i + plen <= slen);
            let after = slice_chars(&s, i + plen, slen);
            assert(after@ =~= s@.skip(i + pat@.len()));
            let piece = match find_exec(&after, &pat) {
                Some(j) => {
                    proof {
                        crate::text::lemma_find_some_in_range(after@, pat@);
                    }
                    let p = slice_chars(&after, 0, j);
                    assert(p@ =~= after@.take(j as int));
                    p
                },
                None => after,
            };
            let trimmed = trim_start_separators_exec(&piece);
            let dot_git = chars_of(".git");
            proof {
                reveal_strlit(".git");
            }
            let empty: Vec<char> = Vec::new();
            assert(empty@ =~= seq![]);
            let repo = replace_str_exec(&trimmed, &dot_git, &empty);
            Some(string_of(&repo))
        },
    }
}

impl GitInfo {
    /// Git state from the outputs of `git rev-parse --abbrev-ref HEAD` and
    /// `git config --get remote.origin.url` (each `None` when the command
    /// failed): both trimmed, and the GitHub repository taken from the remote.
    pub fn from_git_output(branch_output: Option<String>, remote_output: Option<String>) -> (g:
        GitInfo)
        ensures
            g.branch matches Some(b) ==> branch_output matches Some(o) && b@ == trim(o@),
            g.branch is None ==> branch_output is None,
            g.remote matches Some(r) ==> remote_output matches Some(o) && r@ == trim(o@),
            g.remote is None ==> remote_output is None,
            opt_view(g.repo) == match remote_output {
                Some(o) => github_repo(trim(o@)),
                None => None,
            },
    {
        let branch = match branch_output {
            Some(o) => Some(string_of(&trim_chars(&chars_of(o.as_str())))),
            None => None,
        };
        let remote = match remote_output {
            Some(o) => Some(string_of(&trim_chars(&chars_of(o.as_str())))),
            None => None,
        };
        let repo = match &remote {
            Some(r) => repo_from_remote(r.as_str()),
            None => None,
        };
        GitInfo { branch, remote, repo }
    }
}

/// The session list from the names that tmux reported; tmux is not asked for
/// window counts or attachment.
pub fn list_sessions(names: Vec<String>) -> (out: Vec<TmuxSession>)
    ensures
        out@.len() == names@.len(),
        forall|k: int|
            0 <= k < out@.len() ==> {
                &&& (#[trigger] out@[k]).name@ == names@[k]@
                &&& out@[k].windows == 1
                &&& !out@[k].attached
            },
{
    let mut out: Vec<TmuxSession> = Vec::new();
    let n = names.len();
    for i in 0..n
        invariant
            n == names@.len(),
            out@.len() == i,
            forall|k: int|
                0 <= k < i ==> {
                    &&& (#[trigger] out@[k]).name@ == names@[k]@
                    &&& out@[k].windows == 1
                    &&& !out@[k].attached
                },
    {
        let name = owned(names[i].as_str());
        out.push(TmuxSession { name, windows: 1, attached: false });
    }
    out
}

} // verus!
