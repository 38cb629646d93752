//! `sessioncast cmd`: running a shell command in a tmux session.
use crate::text::{ascii_lower, ascii_lower_exec, chars_of, concat, owned, string_of};
use crate::agent::runner::{contains_name, name_set};
use crate::tmux::executor::strs;
use rand::Rng;
use vstd::prelude::*;

verus! {

/// An ASCII letter or digit.
pub open spec fn is_ascii_alphanumeric(c: char) -> bool {
    ('a' <= c && c <= 'z') || ('A' <= c && c <= 'Z') || ('0' <= c && c <= '9')
}

/// `n` characters drawn from `rand::distributions::Alphanumeric`, which
/// samples ASCII letters and digits.
#[verifier::external_body]
fn random_alphanumeric(n: usize) -> (s: String)
    ensures
        s@.len() == n,
        forall|i: int| 0 <= i < n ==> is_ascii_alphanumeric(#[trigger] s@[i]),
{
    rand::thread_rng().sample_iter(&rand::distributions::Alphanumeric).take(n).map(char::from).collect()
}

/// `s` with ASCII capitals lowered.
pub open spec fn lowered(s: Seq<char>) -> Seq<char> {
    s.map_values(|c: char| ascii_lower(c))
}

/// `prefix` followed by `suffix` lowered.
fn prefixed_lower(prefix: &str, suffix: &str) -> (out: String)
    ensures
        out@ == prefix@ + lowered(suffix@),
{
    let mut cs = chars_of(prefix);
    let sfx = chars_of(suffix);
    let n = sfx.len();
    let ghost head = cs@;
    for i in 0..n
        invariant
            n == sfx@.len(),
            sfx@ == suffix@,
            head == prefix@,
            cs@ == head + lowered(sfx@.take(i as int)),
    {
        cs.push(ascii_lower_exec(sfx[i]));
        assert(lowered(sfx@.take(i + 1)) =~= lowered(sfx@.take(i as int)).push(ascii_lower(sfx@[i as int])));
    }
    assert(sfx@.take(n as int) =~= sfx@);
    string_of(&cs)
}

/// A random session name: `sc-` and six lowercase letters or digits.
pub fn generate_random_session_name() -> (name: String)
    ensures
        exists|suffix: Seq<char>| #![trigger lowered(suffix)]
            suffix.len() == 6 && (forall|i: int| 0 <= i < 6 ==> is_ascii_alphanumeric(#[trigger] suffix[i]))
                && name@ == "sc-"@ + lowered(suffix),
{
    let suffix = random_alphanumeric(6);
    prefixed_lower("sc-", suffix.as_str())
}

/// A random window name: `cmd-` and four lowercase letters or digits.
pub fn generate_window_name() -> (name: String)
    ensures
        exists|suffix: Seq<char>| #![trigger lowered(suffix)]
            suffix.len() == 4 && (forall|i: int| 0 <= i < 4 ==> is_ascii_alphanumeric(#[trigger] suffix[i]))
                && name@ == "cmd-"@ + lowered(suffix),
{
    let suffix = random_alphanumeric(4);
    prefixed_lower("cmd-", suffix.as_str())
}

/// How `sessioncast cmd` runs a command.
#[derive(Debug, Clone, Copy, PartialEq, Eq)]
pub enum ExecMode {
    /// Open a new window in the existing session and type the command there.
    NewWindow,
    /// Type the command into the existing session.
    ExistingSession,
    /// Create the session and type the command into it.
    NewSession,
}

/// The mode for a session that exists or not, with or without a new window.
pub open spec fn exec_mode_of(session_exists: bool, new_window: bool) -> ExecMode {
    if session_exists {
        if new_window {
            ExecMode::NewWindow
        } else {
            ExecMode::ExistingSession
        }
    } else {
        ExecMode::NewSession
    }
}

/// How to run a command in `session_name`, given the sessions that exist:
/// in the session when it exists (in a new window when asked), else in a
/// new session.
pub fn exec_mode(existing: &Vec<String>, session_name: &String, new_window: bool) -> (m: ExecMode)
    ensures
        m == exec_mode_of(name_set(existing@).contains(session_name@), new_window),
{
    let exists = contains_name(existing, session_name);
    if exists {
        if new_window {
            ExecMode::NewWindow
        } else {
            ExecMode::ExistingSession
        }
    } else {
        ExecMode::NewSession
    }
}

/// tmux arguments that open a window named `window_name` in `session`.
pub fn create_window_args(session: &str, window_name: &str) -> (a: Vec<String>)
    ensures
        strs(a@) == seq!["new-window"@, "-t"@, session@, "-n"@, window_name@],
{
    let a = vec![owned("new-window"), owned("-t"), owned(session), owned("-n"), owned(window_name)];
    assert(strs(a@) =~= seq!["new-window"@, "-t"@, session@, "-n"@, window_name@]);
    a
}

/// The tmux target of a window: `session:window`.
pub fn window_target(session: &str, window: &str) -> (t: String)
    ensures
        t@ == session@ + ":"@ + window@,
{
    let mut t = concat(session, ":");
    t.append(window);
    t
}

/// tmux arguments that type `command` literally into `target`.
pub fn type_command_args(target: &str, command: &str) -> (a: Vec<String>)
    ensures
        strs(a@) == seq!["send-keys"@, "-t"@, target@, "-l"@, command@],
{
    let a = vec![owned("send-keys"), owned("-t"), owned(target), owned("-l"), owned(command)];
    assert(strs(a@) =~= seq!["send-keys"@, "-t"@, target@, "-l"@, command@]);
    a
}

/// tmux arguments that press Enter in `target`.
pub fn press_enter_args(target: &str) -> (a: Vec<String>)
    ensures
        strs(a@) == seq!["send-keys"@, "-t"@, target@, "Enter"@],
{
    let a = vec![owned("send-keys"), owned("-t"), owned(target), owned("Enter")];
    assert(strs(a@) =~= seq!["send-keys"@, "-t"@, target@, "Enter"@]);
    a
}

/// Arguments of `tmux new-session` for a command's session: detached when
/// asked, named, in `working_dir` when given.
pub open spec fn new_session_args_spec(session_name: Seq<char>, working_dir: Option<Seq<char>>, detach: bool) -> Seq<Seq<char>> {
    let head = if detach {
        seq!["new-session"@, "-d"@]
    } else {
        seq!["new-session"@]
    };
    let named = head + seq!["-s"@, session_name];
    match working_dir {
        Some(cwd) => named + seq!["-c"@, cwd],
        None => named,
    }
}

/// tmux arguments that create the session in which a command runs.
pub fn new_session_args(session_name: &str, working_dir: Option<&str>, detach: bool) -> (a: Vec<String>)
    ensures
        strs(a@) == new_session_args_spec(
            session_name@,
            match working_dir {
                Some(w) => Some(w@),
                None => None,
            },
            detach,
        ),
{
    let mut a: Vec<String> = vec![owned("new-session")];
    if detach {
        a.push(owned("-d"));
    }
    a.push(owned("-s"));
    a.push(owned(session_name));
    match working_dir {
        Some(cwd) => {
            a.push(owned("-c"));
            a.push(owned(cwd));
        },
        None => {},
    }
    let ghost wd = match working_dir {
        Some(w) => Some(w@),
        None => None::<Seq<char>>,
    };
    assert(strs(a@) =~= new_session_args_spec(session_name@, wd, detach));
    a
}

} // verus!
