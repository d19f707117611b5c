//! Container listing and log streaming of the node agent.

use vstd::prelude::*;
use crate::agent::types::ContainerInfo;
use crate::text::{chars_of, owned, slice_chars, string_of, trim_end, trim_end_chars, opt_view};

verus! {

/// Query of `GET /containers/:id/logs`.
pub struct LogsQuery {
    pub tail: String,
    pub follow: bool,
}

/// How many log lines are sent when the query names no number.
pub fn default_tail() -> (s: String)
    ensures
        s@ == "100"@,
{
    owned("100")
}

/// `s` without its leading `c` characters (`str::trim_start_matches`).
pub open spec fn trim_leading(s: Seq<char>, c: char) -> Seq<char>
    decreases s.len(),
{
    if s.len() > 0 && s[0] == c {
        trim_leading(s.drop_first(), c)
    } else {
        s
    }
}

proof fn lemma_trim_leading_skip(s: Seq<char>, c: char, i: int)
    requires
        0 <= i <= s.len(),
        forall|j: int| 0 <= j < i ==> s[j] == c,
    ensures
        trim_leading(s, c) == trim_leading(s.skip(i), c),
    decreases i,
{
    if i > 0 {
        assert(s.drop_first().skip(i - 1) =~= s.skip(i));
        lemma_trim_leading_skip(s.drop_first(), c, i - 1);
    } else {
        assert(s.skip(0) =~= s);
    }
}

/// The name a container is listed under: its first Docker name without the
/// leading slashes, or the empty string when it has none.
pub open spec fn display_name(names: Option<Seq<Seq<char>>>) -> Seq<char> {
    match names {
        Some(n) => if n.len() > 0 {
            trim_leading(n[0], '/')
        } else {
            Seq::empty()
        },
        None => Seq::empty(),
    }
}

pub open spec fn names_view(names: Option<Vec<String>>) -> Option<Seq<Seq<char>>> {
    match names {
        Some(v) => Some(crate::text::views(v@)),
        None => None,
    }
}

fn strip_leading(s: &String, c: char) -> (r: String)
    ensures
        r@ == trim_leading(s@, c),
{
    strip_leading_str(s.as_str(), c)
}

/// `s.trim_start_matches(c)`.
pub(crate) fn strip_leading_str(s: &str, c: char) -> (r: String)
    ensures
        r@ == trim_leading(s@, c),
{
    let v = chars_of(s);
    let mut i: usize = 0;
    while i < v.len() && v[i] == c
        invariant
            i <= v.len(),
            v@ == s@,
            forall|j: int| 0 <= j < i ==> v@[j] == c,
        decreases v.len() - i,
    {
        i = i + 1;
    }
    proof {
        lemma_trim_leading_skip(v@, c, i as int);
        assert(v@.subrange(i as int, v.len() as int) =~= v@.skip(i as int));
    }
    let rest = slice_chars(&v, i, v.len());
    string_of(&rest)
}

/// The listing entry of one container as the daemon reports it: absent
/// fields become empty strings or zero.
pub fn container_info(
    id: Option<String>,
    names: Option<Vec<String>>,
    image: Option<String>,
    state: Option<String>,
    status: Option<String>,
    created: Option<i64>,
) -> (c: ContainerInfo)
    ensures
        c.id@ == (match opt_view(id) { Some(s) => s, None => Seq::empty() }),
        c.name@ == display_name(names_view(names)),
        c.image@ == (match opt_view(image) { Some(s) => s, None => Seq::empty() }),
        c.state@ == (match opt_view(state) { Some(s) => s, None => Seq::empty() }),
        c.status@ == (match opt_view(status) { Some(s) => s, None => Seq::empty() }),
        c.created == (match created { Some(n) => n, None => 0 }),
{
    let name = match &names {
        Some(v) => if v.len() > 0 {
            strip_leading(&v[0], '/')
        } else {
            String::new()
        },
        None => String::new(),
    };
    ContainerInfo {
        id: match id { Some(s) => s, None => String::new() },
        name,
        image: match image { Some(s) => s, None => String::new() },
        state: match state { Some(s) => s, None => String::new() },
        status: match status { Some(s) => s, None => String::new() },
        created: match created { Some(n) => n, None => 0 },
    }
}

/// The data of one server-sent log event: the log line without trailing
/// whitespace.
pub fn log_event_data(line: &str) -> (r: String)
    ensures
        r@ == trim_end(line@),
{
    let v = chars_of(line);
    let t = trim_end_chars(&v);
    string_of(&t)
}

} // verus!
