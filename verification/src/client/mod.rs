//! The decisions of the request dispatcher.
//!
//! Sending a request over the network, reading a clock and sleeping are left
//! to the embedding program. What is decided here is when a request may go
//! out, whether a response is final, how long to back off, and when to give
//! up.

use vstd::prelude::*;
use crate::entities::Mbid;
use crate::text::{join, join_spec, texts_of};

pub mod dispatch;
pub mod fetch;
pub mod rate;
pub mod retry;

pub use self::fetch::{
    body_text, check_response_error, checked_url, decode, decode_old, fetch_url,
    musicbrainz_context,
};
pub use self::dispatch::{Directive, Fetch};
pub use self::rate::RateGate;
pub use self::retry::{Action, Event, RetryState};

verus! {

/// Specification of the wait time between requests.
///
/// Times are specified in milliseconds.
#[derive(Clone, Copy, Debug, PartialEq, Eq, Structural)]
pub struct ClientWaits {
    /// Initial wait time after a ServiceUnavailable to use for the exponential
    /// backoff strategy.
    pub backoff_init: u64,
    /// Minimal time between requests.
    pub requests: u64,
}

impl Default for ClientWaits {
    fn default() -> (waits: ClientWaits)
        ensures
            waits == (ClientWaits { backoff_init: 400, requests: 1000 }),
    {
        ClientWaits { backoff_init: 400, requests: 1000 }
    }
}

/// Configuration for the client.
#[derive(Clone, Debug)]
pub struct ClientConfig {
    /// The user-agent to be sent with every request to the API.
    ///
    /// Provide a meaningful one as it will be used by MusicBrainz to identify
    /// your application and without a user agent sever throttling will be
    /// undertaken. The official suggestion is to use either one of the
    /// following two options:
    ///
    /// * `Application name/<version> ( contact-url )`
    /// * `Application name/<version> ( contact-email )`
    pub user_agent: String,
    /// How many times to retry requests where MusicBrainz returned 503 because
    /// too many requests were being made.
    pub max_retries: u8,
    /// Specifies amounts of time to wait between certain actions.
    pub waits: ClientWaits,
}

/// A request to be performed on the client: the name of the resource and the
/// list of optional parts that are asked for.
#[derive(Clone, Debug)]
pub struct Request {
    pub name: String,
    pub inc: String,
}

/// The address under which every resource of the service is found.
pub open spec fn base_url() -> Seq<char> {
    "https://musicbrainz.org/ws/2/"@
}

/// The address of one record: base, resource name, identifier, and the
/// list of optional parts as the `inc` parameter.
pub open spec fn lookup_url(name: Seq<char>, mbid: Mbid, inc: Seq<char>) -> Seq<char> {
    base_url() + name + "/"@ + mbid.text_spec() + "?inc="@ + inc
}

/// The names whose toggle is on, in the order in which they are listed.
pub open spec fn selected(toggles: Seq<(Seq<char>, bool)>) -> Seq<Seq<char>>
    decreases toggles.len(),
{
    if toggles.len() == 0 {
        Seq::empty()
    } else if toggles.last().1 {
        selected(toggles.drop_last()).push(toggles.last().0)
    } else {
        selected(toggles.drop_last())
    }
}

/// The `inc` list for a row of toggles: the selected names, joined with
/// `+`.
pub open spec fn include_list(toggles: Seq<(Seq<char>, bool)>) -> Seq<char> {
    join_spec(selected(toggles), "+"@)
}

/// A row of named toggles, in the order in which they were offered.
pub struct Includes {
    offered: Vec<(String, bool)>,
}

impl Includes {
    /// The toggles that were offered, in order.
    pub closed spec fn toggles(&self) -> Seq<(Seq<char>, bool)> {
        Seq::new(self.offered@.len(), |i: int| (self.offered@[i].0@, self.offered@[i].1))
    }

    /// A row to which nothing was offered yet.
    pub fn new() -> (includes: Includes)
        ensures
            includes.toggles() == Seq::<(Seq<char>, bool)>::empty(),
    {
        Includes { offered: Vec::new() }
    }

    /// Offers one more name, which is selected if its toggle is on.
    pub fn offer(&mut self, name: &str, on: bool)
        ensures
            final(self).toggles() == old(self).toggles().push((name@, on)),
    {
        self.offered.push((String::from_str(name), on));
    }

    /// The `inc` list of the names selected.
    pub fn finish(&self) -> (list: String)
        ensures
            list@ == include_list(self.toggles()),
    {
        let mut names: Vec<String> = Vec::new();
        let mut i: usize = 0;
        assert(texts_of(names@) == Seq::<Seq<char>>::empty());
        assert(self.toggles().subrange(0, 0) == Seq::<(Seq<char>, bool)>::empty());
        while i < self.offered.len()
            invariant
                i <= self.offered.len(),
                texts_of(names@) == selected(self.toggles().subrange(0, i as int)),
            decreases self.offered.len() - i,
        {
            let ghost before = texts_of(names@);
            proof {
                let upto = self.toggles().subrange(0, i + 1);
                assert(upto.drop_last() == self.toggles().subrange(0, i as int));
                assert(upto.last() == (self.offered@[i as int].0@, self.offered@[i as int].1));
            }
            if self.offered[i].1 {
                names.push(self.offered[i].0.clone());
                assert(texts_of(names@) == before.push(self.offered@[i as int].0@));
            }
            i += 1;
        }
        assert(self.toggles().subrange(0, i as int) == self.toggles());
        join(&names, "+")
    }
}

impl Request {
    /// Returns the url where one can get a resource in the valid format for
    /// parsing from.
    pub fn get_by_mbid_url(&self, mbid: &Mbid) -> (url: String)
        ensures
            url@ == lookup_url(self.name@, *mbid, self.inc@),
    {
        let mut url = String::from_str("https://musicbrainz.org/ws/2/");
        url.append(self.name.as_str());
        url.append("/");
        url.append(mbid.to_string().as_str());
        url.append("?inc=");
        url.append(self.inc.as_str());
        url
    }
}

/// The number of whole milliseconds in a span of `secs` seconds and
/// `subsec_nanos` nanoseconds, or `None` where that number does not fit.
pub fn as_millis(secs: u64, subsec_nanos: u32) -> (ms: Option<u64>)
    ensures
        ms is Some <==> secs * 1000 + subsec_nanos / 1_000_000 <= u64::MAX,
        ms matches Some(v) ==> v == secs * 1000 + subsec_nanos / 1_000_000,
{
    let whole: u64 = (subsec_nanos / 1_000_000) as u64;
    if secs > (u64::MAX - whole) / 1000 {
        None
    } else {
        Some(secs * 1000 + whole)
    }
}

} // verus!
