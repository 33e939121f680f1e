//! Whitespace trimming, modelled at the level of character sequences.
//!
//! Form fields are trimmed before any other rule looks at them; a field
//! that trims to nothing counts as absent. The spec functions here say
//! exactly which characters are removed, and the lemmas relate "trims to
//! empty" to "every character is whitespace".

use vstd::prelude::*;

verus! {

/// The characters that trimming removes: Unicode `White_Space`.
pub open spec fn is_space(c: char) -> bool {
    let n = c as u32;
    n == 0x09 || n == 0x0A || n == 0x0B || n == 0x0C || n == 0x0D || n == 0x20 || n == 0x85
        || n == 0xA0 || n == 0x1680 || (0x2000 <= n && n <= 0x200A) || n == 0x2028 || n == 0x2029
        || n == 0x202F || n == 0x205F || n == 0x3000
}

/// `s` with its leading whitespace removed.
pub open spec fn trim_front(s: Seq<char>) -> Seq<char>
    decreases s.len(),
{
    if s.len() > 0 && is_space(s[0]) {
        trim_front(s.drop_first())
    } else {
        s
    }
}

/// `s` with its trailing whitespace removed.
pub open spec fn trim_back(s: Seq<char>) -> Seq<char>
    decreases s.len(),
{
    if s.len() > 0 && is_space(s[s.len() - 1]) {
        trim_back(s.drop_last())
    } else {
        s
    }
}

/// `s` with both leading and trailing whitespace removed.
pub open spec fn trimmed(s: Seq<char>) -> Seq<char> {
    trim_back(trim_front(s))
}

/// Every character of `s` is whitespace; holds vacuously of the empty string.
pub open spec fn all_space(s: Seq<char>) -> bool {
    forall|i: int| 0 <= i < s.len() ==> is_space(s[i])
}

proof fn lemma_trim_front_empty_iff(s: Seq<char>)
    ensures
        trim_front(s).len() == 0 <==> all_space(s),
    decreases s.len(),
{
    if s.len() > 0 && is_space(s[0]) {
        lemma_trim_front_empty_iff(s.drop_first());
        assert(forall|i: int| 0 <= i < s.drop_first().len() ==> s.drop_first()[i] == s[i + 1]);
        assert(all_space(s.drop_first()) ==> all_space(s)) by {
            if all_space(s.drop_first()) {
                assert forall|i: int| 0 <= i < s.len() implies is_space(s[i]) by {
                    if i > 0 {
                        assert(is_space(s.drop_first()[i - 1]));
                    }
                }
            }
        }
    }
}

proof fn lemma_trim_front_head(s: Seq<char>)
    ensures
        trim_front(s).len() > 0 ==> !is_space(trim_front(s)[0]),
    decreases s.len(),
{
    if s.len() > 0 && is_space(s[0]) {
        lemma_trim_front_head(s.drop_first());
    }
}

proof fn lemma_trim_back_keeps_head(s: Seq<char>)
    requires
        s.len() > 0,
        !is_space(s[0]),
    ensures
        trim_back(s).len() > 0,
        trim_back(s)[0] == s[0],
    decreases s.len(),
{
    if is_space(s[s.len() - 1]) {
        lemma_trim_back_keeps_head(s.drop_last());
    }
}

/// A string trims to the empty string exactly when all of its characters
/// are whitespace (in particular, when it is empty).
pub proof fn lemma_trimmed_empty_iff_blank(s: Seq<char>)
    ensures
        trimmed(s).len() == 0 <==> all_space(s),
{
    lemma_trim_front_empty_iff(s);
    if trim_front(s).len() > 0 {
        lemma_trim_front_head(s);
        lemma_trim_back_keeps_head(trim_front(s));
    }
}

/// Relies on `str::trim`: it returns the input with its leading and
/// trailing Unicode `White_Space` characters removed, and on
/// `str::to_owned` to copy the result into an owned string.
#[verifier::external_body]
pub(crate) fn trim_to_string(s: &String) -> (r: String)
    ensures
        r@ == trimmed(s@),
{
    s.trim().to_owned()
}

} // verus!
