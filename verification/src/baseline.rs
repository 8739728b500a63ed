//! The expected bodies: what each URL answers when it is fetched directly.

use vstd::prelude::*;

verus! {

/// A URL together with the body that a faithful proxy must hand back for it.
/// It is made once, from a direct fetch, and never changed.
#[derive(Debug)]
pub struct UrlTestCase {
    /// The target.
    pub url: String,
    /// The body that the target answered with when fetched directly.
    pub expected: String,
}

impl UrlTestCase {
    /// The texts of the URL and of the expected body.
    pub open spec fn pair(self) -> (Seq<char>, Seq<char>) {
        (self.url@, self.expected@)
    }
}

/// The URL and body texts of a sequence of cases, in order.
pub open spec fn pairs(cases: Seq<UrlTestCase>) -> Seq<(Seq<char>, Seq<char>)> {
    cases.map_values(|case: UrlTestCase| case.pair())
}

/// The baseline that the direct fetches of the first URLs give when they
/// answer with `bodies`: each body beside its URL, in the URLs' order.
pub open spec fn captured(urls: Seq<Seq<char>>, bodies: Seq<Seq<char>>) -> Seq<(Seq<char>, Seq<char>)>
    recommends
        bodies.len() <= urls.len(),
{
    Seq::new(bodies.len(), |i: int| (urls[i], bodies[i]))
}

} // verus!
