//! Absolute URLs, held as the serialization that the `url` crate writes.

use vstd::prelude::*;

verus! {

/// What `url::Url::parse` makes of a text: the serialization of the parsed
/// absolute URL, or `None` where the text is no absolute URL.
pub uninterp spec fn parsed_url(input: Seq<char>) -> Option<Seq<char>>;

/// What `url::Url::join` gives when the URL parsed from `base` resolves the
/// reference `input`: the serialization of the result, or `None` on failure.
pub uninterp spec fn joined_url(base: Seq<char>, input: Seq<char>) -> Option<Seq<char>>;

/// Relies on `url::Url::parse`: returns the serialization (`as_str`) of the
/// parsed URL, or `None` where it reports an error.
#[verifier::external_body]
fn parse_serialization(input: &str) -> (r: Option<String>)
    ensures
        r is Some <==> parsed_url(input@) is Some,
        r is Some ==> r->0@ == parsed_url(input@)->0,
{
    match url::Url::parse(input) {
        Ok(u) => Some(u.into()),
        Err(_) => None,
    }
}

/// Relies on `url::Url::join`, applied to the URL that `url::Url::parse`
/// rebuilds from `base`: returns the serialization of the joined URL, or
/// `None` where either call reports an error.
#[verifier::external_body]
fn join_serialization(base: &str, input: &str) -> (r: Option<String>)
    ensures
        r is Some <==> joined_url(base@, input@) is Some,
        r is Some ==> r->0@ == joined_url(base@, input@)->0,
{
    match url::Url::parse(base) {
        Ok(b) => match b.join(input) {
            Ok(u) => Some(u.into()),
            Err(_) => None,
        },
        Err(_) => None,
    }
}

/// An absolute URL, as the `url` crate serializes it.
#[derive(Debug, PartialEq, Eq)]
pub struct Url {
    serialization: String,
}

impl View for Url {
    type V = Seq<char>;

    closed spec fn view(&self) -> Seq<char> {
        self.serialization@
    }
}

impl Url {
    /// Parses an absolute URL; `None` where `input` is none.
    pub fn parse(input: &str) -> (r: Option<Url>)
        ensures
            r is Some <==> parsed_url(input@) is Some,
            r is Some ==> r->0@ == parsed_url(input@)->0,
    {
        match parse_serialization(input) {
            Some(s) => Some(Url { serialization: s }),
            None => None,
        }
    }

    /// Resolves the reference `input` against this URL.
    pub fn join(&self, input: &str) -> (r: Option<Url>)
        ensures
            r is Some <==> joined_url(self@, input@) is Some,
            r is Some ==> r->0@ == joined_url(self@, input@)->0,
    {
        match join_serialization(self.serialization.as_str(), input) {
            Some(s) => Some(Url { serialization: s }),
            None => None,
        }
    }

    /// The serialization of this URL.
    pub fn as_str(&self) -> (r: &str)
        ensures
            r@ == self@,
    {
        self.serialization.as_str()
    }
}

} // verus!
