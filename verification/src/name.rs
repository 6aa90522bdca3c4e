//! Name normalization and validation: trimming, default substitution,
//! and the length bound on a submitted name.

use vstd::prelude::*;

use crate::slugger::is_slug;
use crate::slugger::is_slug_char;
use crate::text::is_space;
use crate::text::lemma_trim_fixpoint;
use crate::text::trim_back;
use crate::text::trim_front;
use crate::text::trim_ends;
use crate::text::trim_spec;

verus! {

/// The default display name substituted for an empty submission.
pub open spec fn default_name() -> Seq<char> {
    seq!['Y', 'o', 'u', 'r', ' ', 'N', 'a', 'm', 'e']
}

/// The normalized form of a raw name: trimmed at both ends, with the
/// default name substituted when nothing is left.
pub open spec fn normalize_spec(raw: Seq<char>) -> Seq<char> {
    if trim_spec(raw).len() == 0 {
        default_name()
    } else {
        trim_spec(raw)
    }
}

/// Trims a raw name and substitutes the default when it comes out empty.
/// The result is never empty.
pub fn normalize(raw: &str) -> (r: String)
    ensures
        r@ == normalize_spec(raw@),
        r@.len() > 0,
{
    let t = trim_ends(raw);
    if t.as_str().unicode_len() == 0 {
        let d = String::from_str("Your Name");
        proof {
            reveal_strlit("Your Name");
            assert(d@ =~= default_name());
        }
        d
    } else {
        t
    }
}

/// Law: normalization is idempotent — normalizing an already-normalized
/// name returns it unchanged. Since every handler contract is stated
/// over `normalize_spec` of the raw name, a raw name and its normalized
/// form are owed the same decision.
pub proof fn lemma_normalize_idempotent(raw: Seq<char>)
    ensures
        normalize_spec(normalize_spec(raw)) == normalize_spec(raw),
{
    lemma_trim_fixpoint(raw);
    let t = trim_spec(raw);
    if t.len() == 0 {
        let d = default_name();
        assert(!is_space(d[0]));
        assert(trim_front(d) == d);
        assert(!is_space(d[d.len() - 1]));
        assert(trim_back(d) == d);
    }
}

/// Law: a non-empty slug is already normalized — no slug character is
/// whitespace, so trimming leaves it unchanged and no default is
/// substituted.
pub proof fn lemma_slug_already_normalized(s: Seq<char>)
    requires
        is_slug(s),
        s.len() > 0,
    ensures
        normalize_spec(s) == s,
{
    assert forall|i: int| 0 <= i < s.len() implies !is_space(s[i]) by {
        assert(is_slug_char(s[i]));
    }
    assert(trim_front(s) == s);
    assert(trim_back(s) == s);
}

/// Why a normalized name was rejected.
#[derive(Debug, PartialEq, Eq, Structural)]
pub enum RejectReason {
    TooLong,
}

/// The outcome of validating a normalized name.
#[derive(Debug, PartialEq, Eq, Structural)]
pub enum ValidationOutcome {
    Valid,
    Rejected(RejectReason),
}

/// Accepts a normalized name of at most 50 characters; rejects a longer one.
pub fn validate(name: &str) -> (o: ValidationOutcome)
    ensures
        o is Valid <==> name@.len() <= 50,
        name@.len() > 50 ==> o == ValidationOutcome::Rejected(RejectReason::TooLong),
{
    if name.unicode_len() > 50 {
        ValidationOutcome::Rejected(RejectReason::TooLong)
    } else {
        ValidationOutcome::Valid
    }
}

} // verus!
