//! Small text helpers.
use vstd::prelude::*;

verus! {

/// `s` without one trailing and then one leading double quote, each where
/// present.
pub open spec fn unquoted(s: Seq<char>) -> Seq<char> {
    let t = if s.len() > 0 && s.last() == '"' {
        s.drop_last()
    } else {
        s
    };
    if t.len() > 0 && t[0] == '"' {
        t.drop_first()
    } else {
        t
    }
}

/// Removes one trailing and then one leading double quote, where present.
pub fn strip_quotes(st: String) -> (r: String)
    ensures
        r@ == unquoted(st@),
{
    let n = st.unicode_len();
    let mut end = n;
    if n > 0 && st.as_str().get_char(n - 1) == '"' {
        end = n - 1;
    }
    let mut start: usize = 0;
    if end > 0 && st.as_str().get_char(0) == '"' {
        start = 1;
    }
    let r = st.as_str().substring_char(start, end).to_owned();
    proof {
        let s = st@;
        let t = if s.len() > 0 && s.last() == '"' {
            s.drop_last()
        } else {
            s
        };
        assert(t =~= s.subrange(0, end as int));
        assert(r@ =~= unquoted(s));
    }
    r
}

} // verus!
