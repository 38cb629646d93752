//! Small decisions of the command line.
use crate::text::{chars_of, concat, owned, parse_usize, parse_usize_exec};
use vstd::prelude::*;

verus! {

/// What `str::parse::<u16>` accepts: a decimal port number.
pub open spec fn port_of(s: Seq<char>) -> Option<u16> {
    match parse_usize(s) {
        Some(n) => if n <= u16::MAX {
            Some(n as u16)
        } else {
            None
        },
        None => None,
    }
}

/// The URL a tunnel serves: a bare port number means a local web service.
pub fn tunnel_url(target: &str) -> (url: String)
    ensures
        url@ == if port_of(target@) is Some {
            "http://localhost:"@ + target@
        } else {
            target@
        },
{
    let is_port = match parse_usize_exec(&chars_of(target)) {
        Some(n) => n <= 65535,
        None => false,
    };
    if is_port {
        concat("http://localhost:", target)
    } else {
        owned(target)
    }
}

/// How a session is listed: `agent:session` when an agent is named.
pub fn listed_session_name(agent: Option<&str>, session: &str) -> (s: String)
    ensures
        s@ == match agent {
            Some(a) => a@ + ":"@ + session@,
            None => session@,
        },
{
    match agent {
        Some(a) => {
            let mut s = concat(a, ":");
            s.append(session);
            s
        },
        None => owned(session),
    }
}

} // verus!
