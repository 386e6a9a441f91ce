//! Configuration parsing: truthy flags and the pipe-delimited trigger
//! list.  The numeric reaction latency is a floating-point setting and
//! is parsed by the host glue, not here.

use vstd::prelude::*;
use crate::text::str_eq;
use crate::text::trim_str;
use crate::text::trimmed;

verus! {

/// Whether a configuration value counts as true: its trimmed form is
/// one of `true`, `t`, `y`, `1`.
pub open spec fn is_truthy(s: Seq<char>) -> bool {
    let t = trimmed(s);
    ||| t == seq!['t', 'r', 'u', 'e']
    ||| t == seq!['t']
    ||| t == seq!['y']
    ||| t == seq!['1']
}

/// Parse a truthy configuration value.
pub fn parse_truthy(s: &str) -> (r: bool)
    ensures
        r == is_truthy(s@),
{
    proof {
        reveal_strlit("true");
        reveal_strlit("t");
        reveal_strlit("y");
        reveal_strlit("1");
        assert("true"@ =~= seq!['t', 'r', 'u', 'e']);
        assert("t"@ =~= seq!['t']);
        assert("y"@ =~= seq!['y']);
        assert("1"@ =~= seq!['1']);
    }
    let t = trim_str(s);
    str_eq(t.as_str(), "true") || str_eq(t.as_str(), "t") || str_eq(t.as_str(), "y") || str_eq(
        t.as_str(),
        "1",
    )
}

/// `s` split at every occurrence of `sep`.  Splitting never yields an
/// empty list: an empty input is one empty piece, and `n` separators
/// yield `n + 1` pieces.
pub open spec fn split_on(s: Seq<char>, sep: char) -> Seq<Seq<char>>
    decreases s.len(),
{
    if s.len() == 0 {
        seq![Seq::<char>::empty()]
    } else if s[0] == sep {
        seq![Seq::<char>::empty()] + split_on(s.drop_first(), sep)
    } else {
        let rest = split_on(s.drop_first(), sep);
        rest.update(0, seq![s[0]] + rest[0])
    }
}

/// The trigger list a configuration value denotes: the value split on
/// `|`, each entry trimmed.
pub open spec fn trigger_list(s: Seq<char>) -> Seq<Seq<char>> {
    split_on(s, '|').map_values(|p: Seq<char>| trimmed(p))
}

proof fn lemma_split_on_len(s: Seq<char>, sep: char)
    ensures
        split_on(s, sep).len() >= 1,
    decreases s.len(),
{
    if s.len() > 0 {
        lemma_split_on_len(s.drop_first(), sep);
    }
}

proof fn lemma_split_on_no_sep(s: Seq<char>, sep: char)
    requires
        forall|k: int| 0 <= k < s.len() ==> s[k] != sep,
    ensures
        split_on(s, sep) == seq![s],
    decreases s.len(),
{
    if s.len() == 0 {
        assert(s =~= Seq::<char>::empty());
    } else {
        lemma_split_on_no_sep(s.drop_first(), sep);
        let rest = split_on(s.drop_first(), sep);
        assert(rest == seq![s.drop_first()]);
        assert(seq![s[0]] + s.drop_first() =~= s);
        assert(rest.update(0, seq![s[0]] + rest[0]) =~= seq![s]);
    }
}

proof fn lemma_split_on_append(x: Seq<char>, y: Seq<char>, sep: char)
    requires
        forall|k: int| 0 <= k < x.len() ==> x[k] != sep,
    ensures
        split_on(x + seq![sep] + y, sep) == seq![x] + split_on(y, sep),
    decreases x.len(),
{
    let s = x + seq![sep] + y;
    if x.len() == 0 {
        assert(s[0] == sep);
        assert(s.drop_first() =~= y);
        assert(x =~= Seq::<char>::empty());
    } else {
        assert(s[0] == x[0]);
        assert(s[0] != sep);
        assert(s.drop_first() =~= x.drop_first() + seq![sep] + y);
        lemma_split_on_append(x.drop_first(), y, sep);
        let rest = split_on(s.drop_first(), sep);
        assert(rest == seq![x.drop_first()] + split_on(y, sep));
        lemma_split_on_len(y, sep);
        assert(rest[0] == x.drop_first());
        assert(seq![s[0]] + x.drop_first() =~= x);
        assert(rest.update(0, seq![s[0]] + rest[0]) =~= seq![x] + split_on(y, sep));
    }
}

/// Parse the pipe-delimited trigger list: split on `|`, trim each
/// entry.
pub fn parse_trigger_list(s: &str) -> (r: Vec<String>)
    ensures
        r@.map_values(|t: String| t@) == trigger_list(s@),
{
    let len = s.unicode_len();
    let mut out: Vec<String> = Vec::new();
    let mut start: usize = 0;
    let mut i: usize = 0;
    let ghost mut pieces: Seq<Seq<char>> = Seq::empty();
    proof {
        assert(s@.subrange(0, len as int) =~= s@);
        assert(pieces + split_on(s@, '|') =~= split_on(s@, '|'));
        assert(out@.map_values(|t: String| t@) =~= pieces.map_values(|p: Seq<char>| trimmed(p)));
    }
    while i < len
        invariant
            start <= i <= len,
            len == s@.len(),
            forall|k: int| start <= k < i ==> s@[k] != '|',
            split_on(s@, '|') == pieces + split_on(
                s@.subrange(start as int, len as int),
                '|',
            ),
            out@.map_values(|t: String| t@) == pieces.map_values(|p: Seq<char>| trimmed(p)),
        decreases len - i,
    {
        if s.get_char(i) == '|' {
            let seg = s.substring_char(start, i);
            let entry = trim_str(seg);
            let ghost old_out = out@;
            let ghost cur = s@.subrange(start as int, i as int);
            out.push(entry);
            proof {
                let rem = s@.subrange(start as int, len as int);
                let rest = s@.subrange(i as int + 1, len as int);
                assert(rem =~= cur + seq!['|'] + rest);
                lemma_split_on_append(cur, rest, '|');
                assert(out@ =~= old_out + seq![entry]);
                assert((old_out + seq![entry]).map_values(|t: String| t@) =~= old_out.map_values(
                    |t: String| t@,
                ) + seq![entry@]);
                assert((pieces + seq![cur]).map_values(|p: Seq<char>| trimmed(p)) =~= pieces
                    .map_values(|p: Seq<char>| trimmed(p)) + seq![trimmed(cur)]);
                assert(pieces + seq![cur] + split_on(rest, '|') =~= pieces + (seq![cur]
                    + split_on(rest, '|')));
                pieces = pieces + seq![cur];
            }
            start = i + 1;
        }
        i += 1;
    }
    let seg = s.substring_char(start, len);
    let entry = trim_str(seg);
    let ghost old_out = out@;
    let ghost rem = s@.subrange(start as int, len as int);
    out.push(entry);
    proof {
        lemma_split_on_no_sep(rem, '|');
        assert(out@ =~= old_out + seq![entry]);
        assert((old_out + seq![entry]).map_values(|t: String| t@) =~= old_out.map_values(
            |t: String| t@,
        ) + seq![entry@]);
        assert((pieces + seq![rem]).map_values(|p: Seq<char>| trimmed(p)) =~= pieces.map_values(
            |p: Seq<char>| trimmed(p),
        ) + seq![trimmed(rem)]);
        assert(split_on(s@, '|') == pieces + seq![rem]);
        assert(out@.map_values(|t: String| t@) =~= split_on(s@, '|').map_values(
            |p: Seq<char>| trimmed(p),
        ));
    }
    out
}

} // verus!
