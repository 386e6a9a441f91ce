//! Small string toolkit the classifier and the configuration parser
//! are built on: whitespace trimming, the first whitespace-delimited
//! token, the part after the last path separator, and string equality,
//! each with a spec-level definition over `Seq<char>`.

use vstd::prelude::*;

verus! {

/// The whitespace characters recognised when trimming and splitting
/// command lines.
pub open spec fn is_space(c: char) -> bool {
    c == ' ' || c == '\t' || c == '\n' || c == '\r'
}

/// `s` without its leading whitespace.
pub open spec fn trim_front(s: Seq<char>) -> Seq<char>
    decreases s.len(),
{
    if s.len() > 0 && is_space(s[0]) {
        trim_front(s.drop_first())
    } else {
        s
    }
}

/// `s` without its trailing whitespace.
pub open spec fn trim_back(s: Seq<char>) -> Seq<char>
    decreases s.len(),
{
    if s.len() > 0 && is_space(s.last()) {
        trim_back(s.drop_last())
    } else {
        s
    }
}

/// `s` without surrounding whitespace.
pub open spec fn trimmed(s: Seq<char>) -> Seq<char> {
    trim_back(trim_front(s))
}

/// The prefix of `s` up to (excluding) its first whitespace character:
/// the first whitespace-delimited token of a trimmed command line.
pub open spec fn first_token(s: Seq<char>) -> Seq<char>
    decreases s.len(),
{
    if s.len() == 0 {
        Seq::<char>::empty()
    } else if is_space(s[0]) {
        Seq::<char>::empty()
    } else {
        seq![s[0]] + first_token(s.drop_first())
    }
}

/// The suffix of `s` after its last `/`; all of `s` when it holds no
/// `/`.  Applied to an invocation's first token this is the
/// executable's basename.
pub open spec fn after_last_slash(s: Seq<char>) -> Seq<char>
    decreases s.len(),
{
    if s.len() == 0 {
        Seq::<char>::empty()
    } else if s.last() == '/' {
        Seq::<char>::empty()
    } else {
        after_last_slash(s.drop_last()) + seq![s.last()]
    }
}

/// Whether `c` is one of the whitespace characters `trimmed` removes.
pub fn is_space_char(c: char) -> (r: bool)
    ensures
        r == is_space(c),
{
    c == ' ' || c == '\t' || c == '\n' || c == '\r'
}

proof fn lemma_trim_front_skip(s: Seq<char>, i: int)
    requires
        0 <= i <= s.len(),
        forall|k: int| 0 <= k < i ==> is_space(s[k]),
    ensures
        trim_front(s) == trim_front(s.subrange(i, s.len() as int)),
    decreases i,
{
    if i > 0 {
        assert(s.drop_first() =~= s.subrange(1, s.len() as int));
        lemma_trim_front_skip(s.drop_first(), i - 1);
        assert(s.drop_first().subrange(i - 1, s.drop_first().len() as int) =~= s.subrange(
            i,
            s.len() as int,
        ));
    } else {
        assert(s.subrange(0, s.len() as int) =~= s);
    }
}

proof fn lemma_trim_back_skip(s: Seq<char>, j: int)
    requires
        0 <= j <= s.len(),
        forall|k: int| j <= k < s.len() ==> is_space(s[k]),
    ensures
        trim_back(s) == trim_back(s.subrange(0, j)),
    decreases s.len() - j,
{
    if j < s.len() {
        assert(is_space(s.last()));
        assert(s.drop_last() =~= s.subrange(0, s.len() - 1));
        lemma_trim_back_skip(s.drop_last(), j);
        assert(s.drop_last().subrange(0, j) =~= s.subrange(0, j));
    } else {
        assert(s.subrange(0, s.len() as int) =~= s);
    }
}

/// `trimmed(s)` is exactly the subrange of `s` between its first and
/// one past its last non-whitespace character.
pub proof fn lemma_trimmed_is_subrange(s: Seq<char>, i: int, j: int)
    requires
        0 <= i <= j <= s.len(),
        forall|k: int| 0 <= k < i ==> is_space(s[k]),
        forall|k: int| j <= k < s.len() ==> is_space(s[k]),
        i < j ==> !is_space(s[i]) && !is_space(s[j - 1]),
    ensures
        trimmed(s) == s.subrange(i, j),
{
    if i == j {
        // everything is whitespace: the trimmed string is empty
        lemma_trim_front_skip(s, s.len() as int);
        assert(s.subrange(s.len() as int, s.len() as int) =~= Seq::<char>::empty());
        assert(trimmed(s) =~= Seq::<char>::empty());
        assert(s.subrange(i, j) =~= Seq::<char>::empty());
    } else {
        lemma_trim_front_skip(s, i);
        let t = s.subrange(i, s.len() as int);
        assert(!is_space(t[0]));
        assert(trim_front(t) == t);
        assert(forall|k: int| j - i <= k < t.len() ==> is_space(t[k]));
        lemma_trim_back_skip(t, j - i);
        let u = t.subrange(0, j - i);
        assert(u =~= s.subrange(i, j));
        assert(!is_space(u.last()));
        assert(trim_back(u) == u);
    }
}

/// Trim surrounding whitespace.
pub fn trim_str(s: &str) -> (r: String)
    ensures
        r@ == trimmed(s@),
{
    let len = s.unicode_len();
    let mut i: usize = 0;
    while i < len && is_space_char(s.get_char(i))
        invariant
            i <= len,
            len == s@.len(),
            forall|k: int| 0 <= k < i ==> is_space(s@[k]),
        decreases len - i,
    {
        i += 1;
    }
    let mut j: usize = len;
    while j > i && is_space_char(s.get_char(j - 1))
        invariant
            i <= j <= len,
            len == s@.len(),
            forall|k: int| j <= k < len ==> is_space(s@[k]),
        decreases j,
    {
        j -= 1;
    }
    proof {
        lemma_trimmed_is_subrange(s@, i as int, j as int);
    }
    let r = s.substring_char(i, j);
    r.to_owned()
}

/// Exact string equality, stated over the views.
pub fn str_eq(a: &str, b: &str) -> (r: bool)
    ensures
        r == (a@ == b@),
{
    let alen = a.unicode_len();
    let blen = b.unicode_len();
    if alen != blen {
        return false;
    }
    let mut i: usize = 0;
    while i < alen
        invariant
            i <= alen,
            alen == a@.len(),
            alen == b@.len(),
            forall|k: int| 0 <= k < i ==> a@[k] == b@[k],
        decreases alen - i,
    {
        if a.get_char(i) != b.get_char(i) {
            return false;
        }
        i += 1;
    }
    proof {
        assert(a@ =~= b@);
    }
    true
}

pub proof fn lemma_first_token_is_prefix(s: Seq<char>, k: int)
    requires
        0 <= k <= s.len(),
        forall|m: int| 0 <= m < k ==> !is_space(s[m]),
        k == s.len() || is_space(s[k]),
    ensures
        first_token(s) == s.subrange(0, k),
    decreases k,
{
    if k == 0 {
        assert(s.subrange(0, 0) =~= Seq::<char>::empty());
    } else {
        lemma_first_token_is_prefix(s.drop_first(), k - 1);
        assert(seq![s[0]] + s.drop_first().subrange(0, k - 1) =~= s.subrange(0, k));
    }
}

/// The first whitespace-delimited token.
pub fn first_token_str(s: &str) -> (r: String)
    ensures
        r@ == first_token(s@),
{
    let len = s.unicode_len();
    let mut k: usize = 0;
    while k < len && !is_space_char(s.get_char(k))
        invariant
            k <= len,
            len == s@.len(),
            forall|m: int| 0 <= m < k ==> !is_space(s@[m]),
        decreases len - k,
    {
        k += 1;
    }
    proof {
        lemma_first_token_is_prefix(s@, k as int);
    }
    let r = s.substring_char(0, k);
    r.to_owned()
}

pub proof fn lemma_after_slash_is_suffix(s: Seq<char>, p: int)
    requires
        0 <= p <= s.len(),
        forall|m: int| p <= m < s.len() ==> s[m] != '/',
        p == 0 || s[p - 1] == '/',
    ensures
        after_last_slash(s) == s.subrange(p, s.len() as int),
    decreases s.len(),
{
    if s.len() == 0 {
        assert(s.subrange(0, 0) =~= Seq::<char>::empty());
    } else if p == s.len() {
        assert(s.subrange(p, s.len() as int) =~= Seq::<char>::empty());
    } else {
        assert(s.last() != '/');
        assert(s.drop_last() =~= s.subrange(0, s.len() - 1));
        lemma_after_slash_is_suffix(s.drop_last(), p);
        assert(s.drop_last().subrange(p, s.len() - 1) + seq![s.last()] =~= s.subrange(
            p,
            s.len() as int,
        ));
    }
}

/// The part after the last `/`: all of `s` when it holds none.
pub fn after_last_slash_str(s: &str) -> (r: String)
    ensures
        r@ == after_last_slash(s@),
{
    let len = s.unicode_len();
    let mut p: usize = len;
    while p > 0 && s.get_char(p - 1) != '/'
        invariant
            p <= len,
            len == s@.len(),
            forall|m: int| p <= m < len ==> s@[m] != '/',
        decreases p,
    {
        p -= 1;
    }
    proof {
        lemma_after_slash_is_suffix(s@, p as int);
    }
    let r = s.substring_char(p, len);
    r.to_owned()
}

} // verus!
