//! The My Autarco service.
//!
//! It uses the private My Autarco API to log in (and obtain the session
//! cookie) and to retrieve the energy data of one site from two endpoints,
//! one after the other.
//! See also: <https://my.autarco.com>.

use vstd::prelude::*;
use vstd::string::*;
use url::{ParseError, Url};
use crate::reading::{Reading, MILLI};
use crate::services::{
    body_of, failure_of_status, lemma_published_total_masks_regression, parse_url, parsed_url,
    published_total, reply_body, status_failure, total_after_poll, Reply, ServiceError,
};

verus! {

/// The base URL of My Autarco site.
pub const BASE_URL: &'static str = "https://my.autarco.com";

/// The path of the login endpoint below the base URL.
pub const LOGIN_PATH: &'static str = "/auth/login";

/// What stands before the site ID in the path of an API endpoint.
pub const SITE_PATH: &'static str = "/api/site/";

/// What stands between the site ID and the endpoint in the path of an API
/// endpoint.
pub const KPIS_PATH: &'static str = "/kpis/";

/// The endpoint that reports the produced energy.
pub const ENERGY_ENDPOINT: &'static str = "energy";

/// The endpoint that reports the current power.
pub const POWER_ENDPOINT: &'static str = "power";

/// The interval between data polls (in seconds).
pub const POLL_INTERVAL: u64 = 300;

/// The configuration necessary to access the My Autarco API.
#[derive(Debug)]
pub struct Config {
    /// The username of the account to login with
    pub username: String,
    /// The password of the account to login with
    pub password: String,
    /// The Autarco site ID to track
    pub site_id: String,
}

/// The form passed to the login endpoint.
#[derive(Debug)]
pub struct LoginForm {
    /// The username to login with.
    pub username: String,
    /// The password to login with.
    pub password: String,
}

/// The energy data returned by the energy API endpoint.
#[derive(Clone, Copy, Debug, PartialEq, Eq)]
pub struct ApiEnergy {
    /// Total energy produced since installation (kWh)
    pub pv_to_date: u32,
}

///  The power data returned by the power API endpoint.
#[derive(Clone, Copy, Debug, PartialEq, Eq)]
pub struct ApiPower {
    /// Current power production (W)
    pub pv_now: u32,
}

/// The text of the URL of an API endpoint of a site.
pub open spec fn api_url_text(site_id: Seq<char>, endpoint: Seq<char>) -> Seq<char> {
    BASE_URL@ + SITE_PATH@ + site_id + KPIS_PATH@ + endpoint
}

/// Returns the login URL for the My Autarco site.
pub fn login_url() -> (url: Result<Url, ParseError>)
    ensures
        url == parsed_url(BASE_URL@ + LOGIN_PATH@),
{
    let text = String::from_str(BASE_URL).concat(LOGIN_PATH);
    parse_url(text.as_str())
}

/// Returns an API endpoint URL for the given site ID and endpoint of the My
/// Autarco site.
pub fn api_url(site_id: &str, endpoint: &str) -> (url: Result<Url, ParseError>)
    ensures
        url == parsed_url(api_url_text(site_id@, endpoint@)),
{
    let text = String::from_str(BASE_URL).concat(SITE_PATH).concat(site_id).concat(
        KPIS_PATH,
    ).concat(endpoint);
    parse_url(text.as_str())
}

/// What is made of the reply to a login request: the login succeeded if the
/// response has a status of 200 to 299. A status of 401 tells that the
/// credentials were not accepted, any other status is a failure of the
/// transport. What the response holds does not matter.
pub open spec fn login_outcome<T>(reply: Reply<T>) -> Result<(), ServiceError> {
    match reply {
        Reply::Unreachable => Err(ServiceError::Transport),
        Reply::Received { status, .. } => match status_failure(status) {
            Some(failure) => Err(failure),
            None => Ok(()),
        },
    }
}

/// The total energy in watt-hours that the energy data report.
pub open spec fn site_total(energy: ApiEnergy) -> u64 {
    (energy.pv_to_date * MILLI) as u64
}

/// The reading that the reply of the power endpoint yields at the poll time
/// `timestamp`, with the energy data got before, and the total that is
/// known as the last one afterwards.
///
/// Power and energy are held in thousandths of the units they are reported
/// in. The reported total is published unless it is not greater than the
/// last known total, which is published in its place then. A failure leaves
/// the last known total as it is.
pub open spec fn power_outcome(
    last_known: u64,
    timestamp: u64,
    energy: ApiEnergy,
    reply: Reply<ApiPower>,
) -> (Result<Reading, ServiceError>, u64) {
    match reply_body(reply) {
        Ok(power) => (
            Ok(
                Reading {
                    current_power_mw: (power.pv_now * MILLI) as u64,
                    total_energy_wh: published_total(last_known, site_total(energy)),
                    observed_at: timestamp,
                },
            ),
            published_total(last_known, site_total(energy)),
        ),
        Err(error) => (Err(error), last_known),
    }
}

/// The My Autarco service.
#[derive(Debug)]
pub struct Service {
    /// The configuration used to access the API.
    config: Config,
    /// The last known total produced energy value (Wh).
    total_wh: u64,
}

/// Instantiates the My Autarco service.
pub fn service(config: Config) -> (service: Service)
    ensures
        service.config() == config,
        service.last_total() == 0,
{
    Service { config, total_wh: 0 }
}

impl Service {
    /// The configuration used to access the API.
    pub closed spec fn config(&self) -> Config {
        self.config
    }

    /// The last known total produced energy value (Wh).
    pub closed spec fn last_total(&self) -> u64 {
        self.total_wh
    }

    /// Returns the last known total produced energy value (Wh): the total
    /// of the last reading, or zero before the first one.
    pub fn total_wh(&self) -> (total: u64)
        ensures
            total == self.last_total(),
    {
        self.total_wh
    }

    /// The interval between data polls (in seconds).
    ///
    /// Autaurco processes provides information from the invertor every 5
    /// minutes.
    pub fn poll_interval(&self) -> (interval: u64)
        ensures
            interval == POLL_INTERVAL,
    {
        POLL_INTERVAL
    }

    /// Returns the form that logs in with the credentials of the
    /// configuration.
    pub fn login_form(&self) -> (form: LoginForm)
        ensures
            form.username@ == self.config().username@,
            form.password@ == self.config().password@,
    {
        LoginForm {
            username: String::from_str(self.config.username.as_str()),
            password: String::from_str(self.config.password.as_str()),
        }
    }

    /// Takes the reply to a login request.
    pub fn login<T>(&self, reply: &Reply<T>) -> (outcome: Result<(), ServiceError>)
        ensures
            outcome == login_outcome(*reply),
    {
        match reply {
            Reply::Unreachable => Err(ServiceError::Transport),
            Reply::Received { status, .. } => match failure_of_status(*status) {
                Some(failure) => Err(failure),
                None => Ok(()),
            },
        }
    }

    /// Returns the URL of the energy endpoint of the site of the
    /// configuration, which an update asks first.
    pub fn energy_url(&self) -> (url: Result<Url, ParseError>)
        ensures
            url == parsed_url(api_url_text(self.config().site_id@, ENERGY_ENDPOINT@)),
    {
        api_url(self.config.site_id.as_str(), ENERGY_ENDPOINT)
    }

    /// Returns the URL of the power endpoint of the site of the
    /// configuration, which an update asks second.
    pub fn power_url(&self) -> (url: Result<Url, ParseError>)
        ensures
            url == parsed_url(api_url_text(self.config().site_id@, POWER_ENDPOINT@)),
    {
        api_url(self.config.site_id.as_str(), POWER_ENDPOINT)
    }

    /// Takes the reply of the energy endpoint. The update goes on with the
    /// power endpoint if this gives the energy data, and ends with the error
    /// otherwise. A status of 401 tells that the session has expired.
    pub fn energy(&self, reply: Reply<ApiEnergy>) -> (energy: Result<ApiEnergy, ServiceError>)
        ensures
            energy == reply_body(reply),
    {
        body_of(reply)
    }

    /// Takes the reply of the power endpoint and returns, with the energy
    /// data got before, the reading of the poll made at `timestamp`.
    ///
    /// A status of 401 tells that the session has expired, as it does at the
    /// energy endpoint. The total should never decrease, so where the vendor
    /// reports less than it did before, the last known value is reported
    /// until this is corrected.
    pub fn power(&mut self, timestamp: u64, energy: ApiEnergy, reply: Reply<ApiPower>) -> (reading:
        Result<Reading, ServiceError>)
        ensures
            reading == power_outcome(old(self).last_total(), timestamp, energy, reply).0,
            final(self).last_total() == power_outcome(
                old(self).last_total(),
                timestamp,
                energy,
                reply,
            ).1,
            final(self).config() == old(self).config(),
    {
        match body_of(reply) {
            Ok(power) => {
                let computed = energy.pv_to_date as u64 * MILLI;
                let total_wh = if computed <= self.total_wh {
                    self.total_wh
                } else {
                    computed
                };
                self.total_wh = total_wh;
                Ok(Reading::new(power.pv_now as u64 * MILLI, total_wh, timestamp))
            },
            Err(error) => Err(error),
        }
    }
}

/// The total in watt-hours that a poll yields, before it is held against
/// the last known total; `None` where the reply of the power endpoint is a
/// failure.
pub open spec fn site_computed(energy: ApiEnergy, reply: Reply<ApiPower>) -> Option<u64> {
    match reply_body(reply) {
        Ok(_) => Some(site_total(energy)),
        Err(_) => None,
    }
}

/// A poll never lowers the total: it succeeds exactly where the power
/// endpoint gave its data, its reading holds what is published for the
/// reported total, no less than the last known total, and that is the last
/// known total afterwards. A failed poll leaves the last known total as it
/// is. So what holds of every sequence of polls holds of this service (see
/// [`lemma_totals_never_decrease`](crate::services::lemma_totals_never_decrease)).
pub proof fn lemma_site_total_never_decreases(
    last_known: u64,
    timestamp: u64,
    energy: ApiEnergy,
    reply: Reply<ApiPower>,
)
    ensures
        ({
            let (reading, total) = power_outcome(last_known, timestamp, energy, reply);
            let computed = site_computed(energy, reply);
            &&& total == total_after_poll(last_known, computed)
            &&& total >= last_known
            &&& reading is Ok <==> computed is Some
            &&& reading matches Ok(reading) ==> reading.total_energy_wh == total
                && reading.observed_at == timestamp
        }),
{
    lemma_published_total_masks_regression(last_known, site_total(energy));
}

} // verus!
