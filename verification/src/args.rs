//! The configuration of one run, and the built-in defaults.

use vstd::prelude::*;

verus! {

/// Requests per second each load stream aims for when none is given.
pub const DEFAULT_RPS: u32 = 100;

/// Local port of the proxy under test when none is given.
pub const DEFAULT_PORT: u16 = 1080;

/// The texts of a sequence of strings, in order.
pub open spec fn texts(strings: Seq<String>) -> Seq<Seq<char>> {
    strings.map_values(|s: String| s@)
}

/// The built-in targets: four endpoints that are served over plain HTTP.
pub open spec fn default_urls() -> Seq<Seq<char>> {
    seq![
        "http://http.badssl.com"@,
        "http://majesticgrandastoundinglight.neverssl.com/online/"@,
        "http://icio.us"@,
        "http://httpforever.com"@,
    ]
}

/// The target URLs that are used when none are given.
pub fn urls() -> (list: Vec<String>)
    ensures
        texts(list@) == default_urls(),
{
    let mut list: Vec<String> = Vec::new();
    list.push(String::from_str("http://http.badssl.com"));
    list.push(String::from_str("http://majesticgrandastoundinglight.neverssl.com/online/"));
    list.push(String::from_str("http://icio.us"));
    list.push(String::from_str("http://httpforever.com"));
    assert(texts(list@) =~= default_urls());
    list
}

/// What one run is configured with. It is filled in once, before the run
/// starts, and only read afterwards.
#[derive(Debug)]
pub struct Args {
    /// The targets, in the order in which every phase visits them.
    pub urls: Vec<String>,
    /// Requests per second that each load stream aims for. From 1000 upwards
    /// a stream is not slowed down at all.
    pub rps: u32,
    /// Local port on which the proxy under test listens.
    pub port: u16,
    /// How many requests are in flight at once for a URL while the proxy's
    /// answers are checked.
    pub clients: u32,
}

impl Args {
    /// A configuration the run can work with: at least one target, a positive
    /// rate and a positive fan-out.
    pub open spec fn wf(&self) -> bool {
        &&& self.urls@.len() >= 1
        &&& self.rps >= 1
        &&& self.clients >= 1
    }

    /// Whether this configuration is one the run can work with.
    pub fn is_valid(&self) -> (ok: bool)
        ensures
            ok == self.wf(),
    {
        self.urls.len() >= 1 && self.rps >= 1 && self.clients >= 1
    }
}

} // verus!
