//! Reading the remote endpoints out of a tunnel configuration.
//!
//! A configuration is line oriented.  `proto <transport>` sets the transport
//! for the whole file (the last such line wins; `udp` when there is none), and
//! each `remote <host> [port] [transport]` line names one endpoint.  A missing
//! or unreadable port is 1194, and a remote without its own transport takes
//! the file's.

use crate::text::{
    chars_of, has_prefix, lines, lowercase_of, parse_u16, parse_u16_spec, split_lines,
    split_words, starts_with_str, string_of, to_lowercase, trim, trim_chars, views, words,
};
use vstd::prelude::*;

verus! {

/// The port a remote uses when its line names none, or names no number.
pub const DEFAULT_PORT: u16 = 1194;

/// One remote endpoint as plain values: host, port, transport.
pub open spec fn remote_view(r: (String, u16, String)) -> (Seq<char>, u16, Seq<char>) {
    (r.0@, r.1, r.2@)
}

/// Whether a trimmed line is a `proto` directive with a value.
pub open spec fn is_proto_line(t: Seq<char>) -> bool {
    has_prefix(t, "proto "@) && words(t).len() >= 2
}

/// Whether a trimmed line is a `remote` directive with a host.
pub open spec fn is_remote_line(t: Seq<char>) -> bool {
    has_prefix(t, "remote "@) && words(t).len() >= 2
}

/// The transport that the lines `ls` set for the whole file.
pub open spec fn file_proto(ls: Seq<Seq<char>>) -> Seq<char>
    decreases ls.len(),
{
    if ls.len() == 0 {
        "udp"@
    } else if is_proto_line(trim(ls.last())) {
        lowercase_of(words(trim(ls.last()))[1])
    } else {
        file_proto(ls.drop_last())
    }
}

/// The endpoint named by the words `w` of a remote line, under the file's
/// transport `proto`.
pub open spec fn remote_entry(w: Seq<Seq<char>>, proto: Seq<char>) -> (Seq<char>, u16, Seq<char>) {
    let port = if w.len() >= 3 {
        match parse_u16_spec(w[2]) {
            Some(p) => p,
            None => DEFAULT_PORT,
        }
    } else {
        DEFAULT_PORT
    };
    let tr = if w.len() >= 4 {
        lowercase_of(w[3])
    } else {
        proto
    };
    (w[1], port, tr)
}

/// The endpoints named in the lines `ls`, in order.
pub open spec fn remotes_in(ls: Seq<Seq<char>>, proto: Seq<char>) -> Seq<
    (Seq<char>, u16, Seq<char>),
>
    decreases ls.len(),
{
    if ls.len() == 0 {
        Seq::empty()
    } else {
        let prev = remotes_in(ls.drop_last(), proto);
        let t = trim(ls.last());
        if is_remote_line(t) {
            prev.push(remote_entry(words(t), proto))
        } else {
            prev
        }
    }
}

/// The endpoints that a configuration text names.
pub open spec fn config_remotes(text: Seq<char>) -> Seq<(Seq<char>, u16, Seq<char>)> {
    remotes_in(lines(text), file_proto(lines(text)))
}

fn entry_of(w: &Vec<Vec<char>>, proto: &Vec<char>) -> (r: (String, u16, String))
    requires
        w.len() >= 2,
    ensures
        remote_view(r) == remote_entry(views(w@), proto@),
{
    let port = if w.len() >= 3 {
        match parse_u16(&w[2]) {
            Some(p) => p,
            None => DEFAULT_PORT,
        }
    } else {
        DEFAULT_PORT
    };
    let tr = if w.len() >= 4 {
        string_of(&to_lowercase(&w[3]))
    } else {
        string_of(proto)
    };
    (string_of(&w[1]), port, tr)
}

/// The remote endpoints of a configuration text, in the order of their lines.
pub fn parse_openvpn_remotes(config_text: &str) -> (r: Vec<(String, u16, String)>)
    ensures
        r@.map_values(|e: (String, u16, String)| remote_view(e)) == config_remotes(config_text@),
{
    let text = chars_of(config_text);
    let ls = split_lines(&text);
    let ghost lv = views(ls@);
    let mut proto = chars_of("udp");
    let mut i: usize = 0;
    while i < ls.len()
        invariant
            i <= ls.len(),
            lv == views(ls@),
            proto@ == file_proto(lv.take(i as int)),
        decreases ls.len() - i,
    {
        let t = trim_chars(&ls[i]);
        assert(lv.take(i + 1).drop_last() =~= lv.take(i as int));
        assert(lv.take(i + 1).last() == ls@[i as int]@);
        if starts_with_str(&t, "proto ") {
            let w = split_words(&t);
            if w.len() >= 2 {
                proto = to_lowercase(&w[1]);
            }
        }
        i = i + 1;
    }
    assert(lv.take(ls.len() as int) =~= lv);
    let mut out: Vec<(String, u16, String)> = Vec::new();
    let mut j: usize = 0;
    while j < ls.len()
        invariant
            j <= ls.len(),
            lv == views(ls@),
            proto@ == file_proto(lv),
            out@.map_values(|e: (String, u16, String)| remote_view(e)) == remotes_in(
                lv.take(j as int),
                proto@,
            ),
        decreases ls.len() - j,
    {
        let t = trim_chars(&ls[j]);
        assert(lv.take(j + 1).drop_last() =~= lv.take(j as int));
        assert(lv.take(j + 1).last() == ls@[j as int]@);
        if starts_with_str(&t, "remote ") {
            let w = split_words(&t);
            if w.len() >= 2 {
                let e = entry_of(&w, &proto);
                out.push(e);
                assert(out@.map_values(|e: (String, u16, String)| remote_view(e)) =~= out@.drop_last().map_values(
                    |e: (String, u16, String)| remote_view(e),
                ).push(remote_view(e)));
            }
        }
        j = j + 1;
    }
    assert(lv.take(ls.len() as int) =~= lv);
    out
}

} // verus!
