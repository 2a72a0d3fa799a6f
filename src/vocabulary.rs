//! Controlled vocabularies: each value has exactly one wire token, and a
//! token outside the table decodes to nothing. Tokens match exactly, with no
//! case folding.

use vstd::prelude::*;
use crate::text::{free_of, upper};

verus! {

/// The characters that tokens are made of: upper-case letters, digits and
/// `_`, `.`, `?`. None of them is a delimiter of the wire format or of a list.
pub open spec fn token_char(c: char) -> bool {
    ('A' <= c && c <= 'Z') || ('0' <= c && c <= '9') || c == '_' || c == '.' || c == '?'
}

/// `a` and `b` have different lengths, or differ at position `k`; either way
/// they are different texts.
pub open spec fn differ_at(a: Seq<char>, b: Seq<char>, k: int) -> bool {
    a.len() != b.len() || (0 <= k < a.len() && a[k] != b[k])
}

pub open spec fn token_chars(s: Seq<char>) -> bool {
    forall|i: int| 0 <= i < s.len() ==> token_char(#[trigger] s[i])
}

/// Token characters are their own upper case and are none of the wire
/// format's delimiters.
pub proof fn lemma_token_chars(s: Seq<char>)
    requires
        token_chars(s),
    ensures
        upper(s) == s,
        free_of(s, ':'),
        free_of(s, '>'),
        free_of(s, '<'),
        free_of(s, ','),
        free_of(s, '-'),
{
    assert(upper(s) =~= s);
}

pub trait Vocabulary: Sized + Copy {
    /// The wire token of a value.
    spec fn spec_token(self) -> Seq<char>;

    /// The value whose token is `s`, if any.
    spec fn spec_from_token(s: Seq<char>) -> Option<Self>;

    fn push_token(&self, out: &mut Vec<char>)
        ensures
            final(out)@ == old(out)@ + self.spec_token(),
    ;

    fn from_token(s: &[char]) -> (r: Option<Self>)
        ensures
            r == Self::spec_from_token(s@),
    ;

    /// Decoding finds only values whose token is the input.
    proof fn lemma_from_token(s: Seq<char>)
        ensures
            Self::spec_from_token(s) matches Some(v) ==> v.spec_token() == s,
    ;

    /// Every value decodes from its own token; tokens are non-empty words.
    proof fn lemma_token(self)
        ensures
            Self::spec_from_token(self.spec_token()) == Some(self),
            self.spec_token().len() > 0,
            token_chars(self.spec_token()),
    ;
}

/// For a vocabulary, decoding is exact: `s` decodes to `v` if and only if
/// `s` is the token of `v`. In particular decoding the token of a value gives
/// that value back, and a text that is no value's token does not decode.
pub proof fn lemma_vocabulary_round_trip<V: Vocabulary>(v: V, s: Seq<char>)
    ensures
        V::spec_from_token(v.spec_token()) == Some(v),
        (V::spec_from_token(s) == Some(v)) <==> (v.spec_token() == s),
        (V::spec_from_token(s) is None) <==> (forall|w: V| #[trigger] w.spec_token() != s),
{
    v.lemma_token();
    V::lemma_from_token(s);
    if V::spec_from_token(s) is None {
        assert forall|w: V| #[trigger] w.spec_token() != s by {
            w.lemma_token();
        }
    }
}

} // verus!
