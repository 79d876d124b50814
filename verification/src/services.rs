//! The supported cloud services.
//!
//! A service knows what to ask its vendor and what to make of the answer.
//! The caller sends the requests; it hands every answer over as a [`Reply`].

pub mod hoymiles;
pub mod my_autarco;

use vstd::prelude::*;
use url::{ParseError, Url};

verus! {

/// The HTTP status that tells a request was not authorized.
pub const UNAUTHORIZED: u16 = 401;

/// The kinds of failure of a service transaction.
#[derive(Clone, Copy, Debug, PartialEq, Eq, Structural)]
pub enum ServiceError {
    /// The service is not or no longer authorized to perform requests.
    ///
    /// This usually indicates that the service needs to log in again.
    NotAuthorized,
    /// The request failed on the network or HTTP level.
    Transport,
    /// The response arrived but does not hold what was expected of it.
    Malformed,
}

/// What came back for a request.
#[derive(Debug)]
pub enum Reply<T> {
    /// The request could not be sent, or no response arrived.
    Unreachable,
    /// A response arrived with the given HTTP status. The `body` is what the
    /// response held, or `None` if it could not be decoded.
    Received { status: u16, body: Option<T> },
}

/// Whether an HTTP status reports that the request failed: every status
/// outside the range of 200 to 299 does.
pub open spec fn error_status(status: u16) -> bool {
    !(200 <= status < 300)
}

/// Tells whether an HTTP status reports that the request failed.
pub fn is_error_status(status: u16) -> (is_error: bool)
    ensures
        is_error == error_status(status),
{
    status < 200 || status >= 300
}

/// The total that is published for a freshly computed one: the computed
/// total if it is greater than the last known total, else the last known
/// total. It is the last known total from then on.
pub open spec fn published_total(last_known: u64, computed: u64) -> u64 {
    if computed <= last_known {
        last_known
    } else {
        computed
    }
}

/// A computed total that is not greater than the last known total is
/// masked: the last known total is published in its place and stays the
/// last known total. A greater one is published as it is. Either way the
/// published total is not less than the last known total was.
pub proof fn lemma_published_total_masks_regression(last_known: u64, computed: u64)
    ensures
        computed <= last_known ==> published_total(last_known, computed) == last_known,
        computed > last_known ==> published_total(last_known, computed) == computed,
        published_total(last_known, computed) >= last_known,
        published_total(last_known, computed) >= computed,
{
}

/// The failure that an HTTP status reports, if it reports one: a status of
/// 401 tells that the request was not authorized, whichever request it was;
/// any other status outside 200 to 299 is a failure of the transport.
pub open spec fn status_failure(status: u16) -> Option<ServiceError> {
    if !error_status(status) {
        None
    } else if status == UNAUTHORIZED {
        Some(ServiceError::NotAuthorized)
    } else {
        Some(ServiceError::Transport)
    }
}

/// Returns the failure that an HTTP status reports, if it reports one.
pub fn failure_of_status(status: u16) -> (failure: Option<ServiceError>)
    ensures
        failure == status_failure(status),
{
    if !is_error_status(status) {
        None
    } else if status == UNAUTHORIZED {
        Some(ServiceError::NotAuthorized)
    } else {
        Some(ServiceError::Transport)
    }
}

/// What is made of a reply before its body is looked into: the body of a
/// response with a status of 200 to 299, or the failure. An unanswered
/// request is a `Transport` failure, a status outside 200 to 299 is the
/// failure it reports, and a response whose body could not be decoded is
/// `Malformed`.
pub open spec fn reply_body<T>(reply: Reply<T>) -> Result<T, ServiceError> {
    match reply {
        Reply::Unreachable => Err(ServiceError::Transport),
        Reply::Received { status, body } => match status_failure(status) {
            Some(failure) => Err(failure),
            None => match body {
                Some(body) => Ok(body),
                None => Err(ServiceError::Malformed),
            },
        },
    }
}

/// Takes the body out of a reply, or tells why there is none to work with.
pub fn body_of<T>(reply: Reply<T>) -> (body: Result<T, ServiceError>)
    ensures
        body == reply_body(reply),
{
    match reply {
        Reply::Unreachable => Err(ServiceError::Transport),
        Reply::Received { status, body } => match failure_of_status(status) {
            Some(failure) => Err(failure),
            None => match body {
                Some(body) => Ok(body),
                None => Err(ServiceError::Malformed),
            },
        },
    }
}

/// The last known total after a poll: what is published for the total the
/// poll computed, or the last known total as it was if the poll failed
/// (`None`).
pub open spec fn total_after_poll(last_known: u64, computed: Option<u64>) -> u64 {
    match computed {
        Some(computed) => published_total(last_known, computed),
        None => last_known,
    }
}

/// The last known total after the given polls, made one after the other by
/// a service that knew `last_known` before. A poll is the total it
/// computed, or `None` if it failed.
pub open spec fn last_total_after(last_known: u64, polls: Seq<Option<u64>>) -> u64
    decreases polls.len(),
{
    if polls.len() == 0 {
        last_known
    } else {
        total_after_poll(last_total_after(last_known, polls.drop_last()), polls.last())
    }
}

/// The total of the reading of the poll at `index` of the given polls, if
/// that poll succeeds.
pub open spec fn total_of_poll(last_known: u64, polls: Seq<Option<u64>>, index: int) -> u64 {
    total_after_poll(last_total_after(last_known, polls.subrange(0, index)), polls[index])
}

/// The last known total never decreases from one poll to a later one,
/// whether the polls in between succeed or fail.
pub proof fn lemma_last_total_never_decreases(
    last_known: u64,
    polls: Seq<Option<u64>>,
    earlier: int,
    later: int,
)
    requires
        0 <= earlier <= later <= polls.len(),
    ensures
        last_known <= last_total_after(last_known, polls.subrange(0, earlier)) <= last_total_after(
            last_known,
            polls.subrange(0, later),
        ),
    decreases later, earlier,
{
    if earlier == 0 {
        assert(polls.subrange(0, 0).len() == 0);
    }
    if earlier < later {
        lemma_last_total_never_decreases(last_known, polls, earlier, later - 1);
        assert(polls.subrange(0, later).drop_last() == polls.subrange(0, later - 1));
    } else if earlier > 0 {
        lemma_last_total_never_decreases(last_known, polls, 0, later);
    }
}

/// Over any sequence of polls the totals of the readings never decrease:
/// the reading of a poll holds at least the total of the reading of every
/// poll before it, and at least the total that was known before the first
/// poll, whichever of the polls in between failed.
pub proof fn lemma_totals_never_decrease(
    last_known: u64,
    polls: Seq<Option<u64>>,
    earlier: int,
    later: int,
)
    requires
        0 <= earlier <= later < polls.len(),
    ensures
        last_known <= total_of_poll(last_known, polls, earlier) <= total_of_poll(
            last_known,
            polls,
            later,
        ),
{
    lemma_last_total_never_decreases(last_known, polls, 0, earlier);
    assert(polls.subrange(0, earlier + 1).drop_last() == polls.subrange(0, earlier));
    assert(polls.subrange(0, earlier + 1).last() == polls[earlier]);
    assert(polls.subrange(0, later + 1).drop_last() == polls.subrange(0, later));
    assert(polls.subrange(0, later + 1).last() == polls[later]);
    lemma_last_total_never_decreases(last_known, polls, earlier + 1, later + 1);
}

/// `Url` of the `url` crate: a parsed URL, handed on as it is.
#[verifier::external_type_specification]
#[verifier::external_body]
pub struct ExUrl(Url);

/// `ParseError` of the `url` crate: why a text is no URL, handed on as it is.
#[verifier::external_type_specification]
#[verifier::external_body]
pub struct ExParseError(ParseError);

/// What parsing `text` as an absolute URL gives.
pub uninterp spec fn parsed_url(text: Seq<char>) -> Result<Url, ParseError>;

/// `Url::parse` of the `url` crate: the result depends on the text alone.
#[verifier::external_body]
pub(crate) fn parse_url(text: &str) -> (url: Result<Url, ParseError>)
    ensures
        url == parsed_url(text@),
{
    Url::parse(text)
}

/// The service-specific configuration necessary to access a cloud service API.
#[derive(Debug)]
pub enum Config {
    /// Hoymiles (<https://global.hoymiles.com>)
    Hoymiles(hoymiles::Config),
    /// My Autarco (<https://my.autarco.com>)
    MyAutarco(my_autarco::Config),
}

/// The supported cloud services.
#[derive(Debug)]
pub enum Services {
    /// Hoymiles (<https://global.hoymiles.com>)
    Hoymiles(hoymiles::Service),
    /// My Autarco (<https://my.autarco.com>)
    MyAutarco(my_autarco::Service),
}

/// Retrieves the service for the provided configuration: the service of the
/// vendor the configuration is for, set up with it and with no total known
/// from an earlier poll.
pub fn get(config: Config) -> (service: Services)
    ensures
        match config {
            Config::Hoymiles(config) => service matches Services::Hoymiles(service)
                && service.config() == config && service.last_total() == 0,
            Config::MyAutarco(config) => service matches Services::MyAutarco(service)
                && service.config() == config && service.last_total() == 0,
        },
{
    match config {
        Config::Hoymiles(config) => Services::Hoymiles(hoymiles::service(config)),
        Config::MyAutarco(config) => Services::MyAutarco(my_autarco::service(config)),
    }
}

impl Services {
    /// The interval between data polls of the service (in seconds).
    pub open spec fn interval(&self) -> u64 {
        match self {
            Services::Hoymiles(_) => hoymiles::POLL_INTERVAL,
            Services::MyAutarco(_) => my_autarco::POLL_INTERVAL,
        }
    }

    /// The interval between data polls (in seconds).
    pub fn poll_interval(&self) -> (interval: u64)
        ensures
            interval == self.interval(),
    {
        match self {
            Services::Hoymiles(service) => service.poll_interval(),
            Services::MyAutarco(service) => service.poll_interval(),
        }
    }
}

} // verus!
