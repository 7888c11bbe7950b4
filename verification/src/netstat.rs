//! Finding the process that listens on the harness port in `netstat -ano` output.

use vstd::prelude::*;
use crate::text::{chars_of, contains, occurs_in, parse_u32, parse_unsigned};
use crate::lines::{last_word, last_word_of, lines_view, split_lines, text_lines};

verus! {

/// The port marker searched for in a `netstat` line.
pub open spec fn port_marker() -> Seq<char> {
    seq![':', '3', '0', '8', '0']
}

/// The state word of a listening socket in a `netstat` line.
pub open spec fn listening_marker() -> Seq<char> {
    seq!['L', 'I', 'S', 'T', 'E', 'N', 'I', 'N', 'G']
}

/// The process id named by one `netstat` line: the line mentions the port and
/// the `LISTENING` state, and its last word parses as a `u32`.
pub open spec fn line_listener_pid(l: Seq<char>) -> Option<nat> {
    if occurs_in(l, port_marker()) && occurs_in(l, listening_marker()) {
        match last_word(l) {
            Some(w) => parse_unsigned(w, u32::MAX as nat),
            None => None,
        }
    } else {
        None
    }
}

/// The first process id that any of `lines` names.
pub open spec fn first_listener_pid(lines: Seq<Seq<char>>) -> Option<nat>
    decreases lines.len(),
{
    if lines.len() == 0 {
        None
    } else {
        match line_listener_pid(lines[0]) {
            Some(pid) => Some(pid),
            None => first_listener_pid(lines.drop_first()),
        }
    }
}

/// The process id that `netstat` output `text` names as listening on the port.
pub open spec fn listener_pid_of(text: Seq<char>) -> Option<nat> {
    first_listener_pid(text_lines(text))
}

fn line_pid(line: &[char]) -> (r: Option<u32>)
    ensures
        match r {
            Some(p) => line_listener_pid(line@) == Some(p as nat),
            None => line_listener_pid(line@) is None,
        },
{
    let port = vec![':', '3', '0', '8', '0'];
    let listening = vec!['L', 'I', 'S', 'T', 'E', 'N', 'I', 'N', 'G'];
    assert(port@ == port_marker());
    assert(listening@ == listening_marker());
    if contains(line, port.as_slice()) && contains(line, listening.as_slice()) {
        match last_word_of(line) {
            Some(w) => parse_u32(w.as_slice()),
            None => None,
        }
    } else {
        None
    }
}

/// The process id listening on the harness port according to the `netstat -ano`
/// output `text`: the last word of the first line that holds both `:3080` and
/// `LISTENING` and whose last word is a `u32`.
pub fn port_listener_pid(text: &str) -> (r: Option<u32>)
    ensures
        match r {
            Some(p) => listener_pid_of(text@) == Some(p as nat),
            None => listener_pid_of(text@) is None,
        },
{
    let v = chars_of(text);
    let lines = split_lines(v.as_slice());
    let ghost all = lines_view(lines@);
    let mut k: usize = 0;
    assert(all.skip(0) == all);
    while k < lines.len()
        invariant
            k <= lines.len(),
            all == lines_view(lines@),
            all == text_lines(text@),
            first_listener_pid(all) == first_listener_pid(all.skip(k as int)),
        decreases lines.len() - k,
    {
        let p = line_pid(lines[k].as_slice());
        assert(all.skip(k as int)[0] == lines@[k as int]@);
        assert(all.skip(k as int).drop_first() == all.skip(k + 1));
        if p.is_some() {
            return p;
        }
        k = k + 1;
    }
    None
}

} // verus!
