//! Character-level text helpers: whitespace trimming, character
//! substitution, and string comparison, with full functional contracts.

use vstd::prelude::*;

verus! {

/// Characters trimmed from either end of a name: the Unicode
/// White_Space set.
pub open spec fn is_space(c: char) -> bool {
    ||| c == ' '
    ||| '\u{9}' <= c && c <= '\u{d}'
    ||| c == '\u{85}'
    ||| c == '\u{a0}'
    ||| c == '\u{1680}'
    ||| '\u{2000}' <= c && c <= '\u{200a}'
    ||| c == '\u{2028}'
    ||| c == '\u{2029}'
    ||| c == '\u{202f}'
    ||| c == '\u{205f}'
    ||| c == '\u{3000}'
}

/// The sequence with its leading whitespace removed.
pub open spec fn trim_front(s: Seq<char>) -> Seq<char>
    decreases s.len(),
{
    if s.len() > 0 && is_space(s[0]) {
        trim_front(s.drop_first())
    } else {
        s
    }
}

/// The sequence with its trailing whitespace removed.
pub open spec fn trim_back(s: Seq<char>) -> Seq<char>
    decreases s.len(),
{
    if s.len() > 0 && is_space(s[s.len() - 1]) {
        trim_back(s.drop_last())
    } else {
        s
    }
}

/// The sequence with whitespace removed from both ends.
pub open spec fn trim_spec(s: Seq<char>) -> Seq<char> {
    trim_back(trim_front(s))
}

fn is_space_char(c: char) -> (r: bool)
    ensures
        r == is_space(c),
{
    c == ' ' || ('\u{9}' <= c && c <= '\u{d}') || c == '\u{85}' || c == '\u{a0}' || c == '\u{1680}'
        || ('\u{2000}' <= c && c <= '\u{200a}') || c == '\u{2028}' || c == '\u{2029}'
        || c == '\u{202f}' || c == '\u{205f}' || c == '\u{3000}'
}

proof fn lemma_trim_front_prefix(s: Seq<char>, i: int)
    requires
        0 <= i <= s.len(),
        forall|k: int| 0 <= k < i ==> is_space(s[k]),
        i < s.len() ==> !is_space(s[i]),
    ensures
        trim_front(s) == s.subrange(i, s.len() as int),
    decreases i,
{
    if i == 0 {
        assert(s.subrange(0, s.len() as int) =~= s);
    } else {
        assert(is_space(s[0]));
        let d = s.drop_first();
        assert(forall|k: int| 0 <= k < i - 1 ==> is_space(d[k]));
        lemma_trim_front_prefix(d, i - 1);
        assert(d.subrange(i - 1, d.len() as int) =~= s.subrange(i, s.len() as int));
    }
}

proof fn lemma_trim_back_suffix(s: Seq<char>, start: int, end: int)
    requires
        0 <= start <= end <= s.len(),
        forall|k: int| end <= k < s.len() ==> is_space(s[k]),
        end > start ==> !is_space(s[end - 1]),
    ensures
        trim_back(s.subrange(start, s.len() as int)) == s.subrange(start, end),
    decreases s.len() - end,
{
    let t = s.subrange(start, s.len() as int);
    if end == s.len() {
        if t.len() > 0 {
            assert(t[t.len() - 1] == s[s.len() - 1]);
            assert(!is_space(t[t.len() - 1]));
        }
    } else {
        assert(is_space(s[s.len() - 1]));
        assert(t.len() > 0 && is_space(t[t.len() - 1]));
        let d = s.drop_last();
        lemma_trim_back_suffix(d, start, end);
        assert(t.drop_last() =~= d.subrange(start, d.len() as int));
        assert(d.subrange(start, end) =~= s.subrange(start, end));
    }
}

proof fn lemma_trim_front_no_lead(s: Seq<char>)
    ensures
        trim_front(s).len() > 0 ==> !is_space(trim_front(s)[0]),
    decreases s.len(),
{
    if s.len() > 0 && is_space(s[0]) {
        lemma_trim_front_no_lead(s.drop_first());
    }
}

proof fn lemma_trim_back_no_trail(s: Seq<char>)
    ensures
        trim_back(s).len() > 0 ==> !is_space(trim_back(s)[trim_back(s).len() - 1]),
    decreases s.len(),
{
    if s.len() > 0 && is_space(s[s.len() - 1]) {
        lemma_trim_back_no_trail(s.drop_last());
    }
}

proof fn lemma_trim_back_keeps_first(s: Seq<char>)
    ensures
        trim_back(s).len() > 0 ==> trim_back(s)[0] == s[0],
    decreases s.len(),
{
    if s.len() > 0 && is_space(s[s.len() - 1]) {
        lemma_trim_back_keeps_first(s.drop_last());
    }
}

/// Law: trimming is idempotent — what trimming leaves carries no
/// whitespace at either end, so trimming it again changes nothing.
pub proof fn lemma_trim_fixpoint(s: Seq<char>)
    ensures
        trim_spec(trim_spec(s)) == trim_spec(s),
{
    let f = trim_front(s);
    let t = trim_back(f);
    if t.len() > 0 {
        lemma_trim_front_no_lead(s);
        lemma_trim_back_keeps_first(f);
        assert(f.len() > 0);
        assert(!is_space(t[0]));
        assert(trim_front(t) == t);
        lemma_trim_back_no_trail(f);
        assert(!is_space(t[t.len() - 1]));
        assert(trim_back(t) == t);
    }
}

/// Returns the input with whitespace stripped from both ends.
pub fn trim_ends(s: &str) -> (r: String)
    ensures
        r@ == trim_spec(s@),
{
    let len = s.unicode_len();
    let mut start: usize = 0;
    while start < len && is_space_char(s.get_char(start))
        invariant
            0 <= start <= len,
            len == s@.len(),
            forall|k: int| 0 <= k < start ==> is_space(s@[k]),
        decreases len - start,
    {
        start = start + 1;
    }
    proof {
        lemma_trim_front_prefix(s@, start as int);
    }
    let mut end: usize = len;
    while end > start && is_space_char(s.get_char(end - 1))
        invariant
            start <= end <= len,
            len == s@.len(),
            forall|k: int| end <= k < len ==> is_space(s@[k]),
        decreases end,
    {
        end = end - 1;
    }
    proof {
        lemma_trim_back_suffix(s@, start as int, end as int);
    }
    let t = s.substring_char(start, end);
    String::from_str(t)
}

/// The sequence with every hyphen replaced by a space.
pub open spec fn dashes_to_spaces_spec(s: Seq<char>) -> Seq<char> {
    Seq::new(
        s.len(),
        |i: int|
            if s[i] == '-' {
                ' '
            } else {
                s[i]
            },
    )
}

pub assume_specification[ String::push ](s: &mut String, ch: char)
    ensures
        final(s)@ == old(s)@.push(ch),
;

/// Returns the input with every hyphen replaced by a space.
pub fn dashes_to_spaces(s: &str) -> (r: String)
    ensures
        r@ == dashes_to_spaces_spec(s@),
{
    let len = s.unicode_len();
    let mut r = String::new();
    let mut i: usize = 0;
    while i < len
        invariant
            0 <= i <= len,
            len == s@.len(),
            r@.len() == i,
            forall|k: int| 0 <= k < i ==> r@[k] == dashes_to_spaces_spec(s@)[k],
        decreases len - i,
    {
        let c = s.get_char(i);
        if c == '-' {
            r.push(' ');
        } else {
            r.push(c);
        }
        i = i + 1;
    }
    proof {
        assert(r@ =~= dashes_to_spaces_spec(s@));
    }
    r
}

/// Character-by-character string equality.
pub fn str_eq(a: &str, b: &str) -> (r: bool)
    ensures
        r == (a@ == b@),
{
    let alen = a.unicode_len();
    let blen = b.unicode_len();
    if alen != blen {
        return false;
    }
    let mut i: usize = 0;
    while i < alen
        invariant
            0 <= i <= alen,
            alen == a@.len(),
            alen == b@.len(),
            forall|k: int| 0 <= k < i ==> a@[k] == b@[k],
        decreases alen - i,
    {
        if a.get_char(i) != b.get_char(i) {
            return false;
        }
        i = i + 1;
    }
    proof {
        assert(a@ =~= b@);
    }
    true
}

} // verus!
