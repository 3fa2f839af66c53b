//! A container for secret text: keys, card numbers, security codes.
//!
//! A secret has no formatting of its own, so it cannot leak through debug
//! output; its text is read only through `peek` and `expose`.

use vstd::prelude::*;

verus! {

/// Secret text.
#[derive(PartialEq, Eq)]
pub struct Secret {
    inner: String,
}

impl Secret {
    /// The text that the secret holds.
    pub closed spec fn view(&self) -> Seq<char> {
        self.inner@
    }

    /// Wraps `text`.
    pub fn new(text: String) -> (r: Self)
        ensures
            r@ == text@,
    {
        Secret { inner: text }
    }

    /// Reads the text without giving it away.
    pub fn peek(&self) -> (r: &String)
        ensures
            r@ == self@,
    {
        &self.inner
    }

    /// Gives the text away.
    pub fn expose(self) -> (r: String)
        ensures
            r@ == self@,
    {
        self.inner
    }
}

impl Clone for Secret {
    fn clone(&self) -> (r: Self)
        ensures
            r == *self,
    {
        Secret { inner: self.inner.clone() }
    }
}

/// A copy of an optional secret.
pub fn clone_optional_secret(o: &Option<Secret>) -> (r: Option<Secret>)
    ensures
        r == *o,
{
    match o {
        Some(s) => Some(s.clone()),
        None => None,
    }
}

} // verus!
