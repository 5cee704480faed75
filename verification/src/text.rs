//! Texts of bounded encoded length, as the radio driver stores them.

use std::str::FromStr;
use vstd::prelude::*;
use vstd::string::StringSliceAdditionalSpecFns;
use vstd::utf8::{encode_utf8, is_ascii_chars, is_ascii_chars_encode_utf8};

verus! {

/// Number of bytes that `text` occupies once encoded as UTF-8.
pub open spec fn encoded_len(text: Seq<char>) -> nat {
    encode_utf8(text).len()
}

/// A text of ASCII characters takes one byte for each of them.
pub proof fn lemma_ascii_encoded_len(text: Seq<char>)
    requires
        is_ascii_chars(text),
    ensures
        encoded_len(text) == text.len(),
{
    is_ascii_chars_encode_utf8(text);
}

/// Copies `s` through a `heapless::String<N>` built by
/// `heapless::String::<N>::from_str`. That function starts from an empty
/// string and appends `s`, which fails, leaving nothing, exactly when the
/// bytes of `s` number more than the capacity `N`; otherwise the string holds
/// the text of `s` unchanged.
#[verifier::external_body]
fn copy_within_capacity<const N: usize>(s: &str) -> (copy: Option<String>)
    ensures
        copy is Some <==> encoded_len(s@) <= N,
        copy is Some ==> copy->Some_0@ == s@,
{
    match heapless::String::<N>::from_str(s) {
        Ok(held) => Some(held.as_str().to_owned()),
        Err(_) => None,
    }
}

/// A text whose UTF-8 encoding takes at most `N` bytes.
#[derive(Debug, PartialEq, Eq)]
pub struct BoundedText<const N: usize> {
    text: String,
}

impl<const N: usize> Clone for BoundedText<N> {
    fn clone(&self) -> (copy: Self)
        ensures
            copy@ == self@,
    {
        proof {
            use_type_invariant(self);
        }
        BoundedText { text: self.text.clone() }
    }
}

impl<const N: usize> View for BoundedText<N> {
    type V = Seq<char>;

    closed spec fn view(&self) -> Seq<char> {
        self.text@
    }
}

impl<const N: usize> BoundedText<N> {
    #[verifier::type_invariant]
    spec fn within_capacity(&self) -> bool {
        encoded_len(self.text@) <= N
    }

    /// The text of `s`, if it fits in `N` bytes.
    pub fn from_str(s: &str) -> (made: Option<Self>)
        ensures
            made is Some <==> encoded_len(s@) <= N,
            made is Some ==> made->Some_0@ == s@,
    {
        match copy_within_capacity::<N>(s) {
            Some(text) => Some(BoundedText { text }),
            None => None,
        }
    }

    /// The text as a string slice.
    pub fn as_str(&self) -> (s: &str)
        ensures
            s@ == self@,
            encoded_len(s@) <= N,
    {
        proof {
            use_type_invariant(self);
        }
        self.text.as_str()
    }

    /// Whether the text has no characters.
    pub fn is_empty(&self) -> (empty: bool)
        ensures
            empty == (self@.len() == 0),
    {
        self.text.as_str().is_empty()
    }
}

} // verus!
