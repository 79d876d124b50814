//! The Hoymiles service.
//!
//! It uses the private Hoymiles API to log in (and obtain the session token)
//! and to retrieve the energy data of one station.
//! See also: <https://global.hoymiles.com>.

use vstd::prelude::*;
use vstd::string::*;
use chrono::{Local, MappedLocalTime, NaiveDateTime, TimeZone};
use md5::{Digest, Md5};
use url::{ParseError, Url};
use crate::numeric::{decimal_value, integer_value, parse_thousandths, parse_u16};
use crate::reading::{Reading, MILLI};
use crate::services::{
    body_of, lemma_published_total_masks_regression, parse_url, parsed_url, published_total,
    reply_body, total_after_poll, Reply, ServiceError,
};

verus! {

/// The base URL of Hoymiles API gateway.
pub const BASE_URL: &'static str = "https://global.hoymiles.com/platform/api/gateway";

/// The path of the login endpoint below the base URL.
pub const LOGIN_PATH: &'static str = "/iam/auth_login";

/// The path of the station data endpoint below the base URL.
pub const DATA_PATH: &'static str = "/pvm-data/data_count_station_real_data";

/// The date/time format used by the Hoymiles API.
pub const DATE_TIME_FORMAT: &'static str = "%Y-%m-%d %H:%M:%S";

/// The cookie that switches the API to English.
///
/// If not set, it seems it uses `zh_cn`.
pub const LANGUAGE_COOKIE: &'static str = "hm_token_language=en_us";

/// What stands before the token in the cookie that carries the session.
pub const TOKEN_COOKIE_PREFIX: &'static str = "hm_token=";

/// The interval between data polls (in seconds).
pub const POLL_INTERVAL: u64 = 300;

/// The configuration necessary to access the Hoymiles.
#[derive(Debug)]
pub struct Config {
    /// The username of the account to login with
    pub username: String,
    /// The password of the account to login with
    pub password: String,
    /// The ID of the Hoymiles station to track
    pub sid: u32,
}

/// Returns the base URL of the Hoymiles site, to which the cookies belong.
pub fn base_url() -> (url: Result<Url, ParseError>)
    ensures
        url == parsed_url(BASE_URL@),
{
    parse_url(BASE_URL)
}

/// Returns the login URL for the Hoymiles site.
pub fn login_url() -> (url: Result<Url, ParseError>)
    ensures
        url == parsed_url(BASE_URL@ + LOGIN_PATH@),
{
    let text = String::from_str(BASE_URL).concat(LOGIN_PATH);
    parse_url(text.as_str())
}

/// Returns an API endpoint URL for for the Hoymiles site.
pub fn api_url() -> (url: Result<Url, ParseError>)
    ensures
        url == parsed_url(BASE_URL@ + DATA_PATH@),
{
    let text = String::from_str(BASE_URL).concat(DATA_PATH);
    parse_url(text.as_str())
}

/// Returns the cookie that carries the session `token`.
pub fn token_cookie(token: &str) -> (cookie: String)
    ensures
        cookie@ == TOKEN_COOKIE_PREFIX@ + token@,
{
    String::from_str(TOKEN_COOKIE_PREFIX).concat(token)
}

/// The MD5 digest of `data`.
pub uninterp spec fn md5_digest(data: Seq<u8>) -> Seq<u8>;

/// `Md5` of the `md5` crate, fed with `data` through `Digest::new`,
/// `Digest::update` and `Digest::finalize`: the digest depends on the data
/// alone and has sixteen bytes.
#[verifier::external_body]
fn md5_of(data: &[u8]) -> (digest: Vec<u8>)
    ensures
        digest@ == md5_digest(data@),
        digest@.len() == 16,
{
    let mut hasher = Md5::new();
    hasher.update(data);
    hasher.finalize().to_vec()
}

/// The lower-case hexadecimal digit for a number below sixteen.
pub open spec fn hex_digit(nibble: u8) -> char {
    if nibble < 10 {
        (nibble + 48) as char
    } else {
        (nibble + 87) as char
    }
}

/// The bytes written as lower-case hexadecimal text, two digits per byte.
pub open spec fn hex(bytes: Seq<u8>) -> Seq<char> {
    Seq::new(
        2 * bytes.len(),
        |i: int|
            if i % 2 == 0 {
                hex_digit(bytes[i / 2] / 16)
            } else {
                hex_digit(bytes[i / 2] % 16)
            },
    )
}

/// What is sent in place of a password: the MD5 digest of its UTF-8 bytes
/// as hexadecimal text.
pub open spec fn password_digest(password: Seq<char>) -> Seq<char> {
    hex(md5_digest(vstd::utf8::encode_utf8(password)))
}

/// Returns the lower-case hexadecimal digit for a number below sixteen.
fn to_hex_digit(nibble: u8) -> (digit: &'static str)
    requires
        nibble < 16,
    ensures
        digit@ == seq![hex_digit(nibble)],
{
    proof {
        reveal_strlit("0");
        reveal_strlit("1");
        reveal_strlit("2");
        reveal_strlit("3");
        reveal_strlit("4");
        reveal_strlit("5");
        reveal_strlit("6");
        reveal_strlit("7");
        reveal_strlit("8");
        reveal_strlit("9");
        reveal_strlit("a");
        reveal_strlit("b");
        reveal_strlit("c");
        reveal_strlit("d");
        reveal_strlit("e");
        reveal_strlit("f");
    }
    let digit = match nibble {
        0 => "0",
        1 => "1",
        2 => "2",
        3 => "3",
        4 => "4",
        5 => "5",
        6 => "6",
        7 => "7",
        8 => "8",
        9 => "9",
        10 => "a",
        11 => "b",
        12 => "c",
        13 => "d",
        14 => "e",
        _ => "f",
    };
    assert(digit@ =~= seq![hex_digit(nibble)]);
    digit
}

/// Writes the bytes as lower-case hexadecimal text, two digits per byte.
pub fn to_hex(bytes: &Vec<u8>) -> (text: String)
    ensures
        text@ == hex(bytes@),
{
    let mut text = String::new();
    let mut i: usize = 0;
    while i < bytes.len()
        invariant
            i <= bytes.len(),
            text@ == hex(bytes@.subrange(0, i as int)),
        decreases bytes.len() - i,
    {
        let byte = bytes[i];
        text.append(to_hex_digit(byte / 16));
        text.append(to_hex_digit(byte % 16));
        i = i + 1;
        assert(text@ =~= hex(bytes@.subrange(0, i as int)));
    }
    assert(bytes@.subrange(0, i as int) =~= bytes@);
    text
}

/// The request passed to the API login endpoint.
#[derive(Debug)]
pub struct ApiLoginRequest {
    /// The body of the API login request.
    pub body: ApiLoginRequestBody,
}

/// The request body passed to the API login endpoint.
#[derive(Debug)]
pub struct ApiLoginRequestBody {
    /// The password to login with, as the hexadecimal MD5 digest of its
    /// UTF-8 bytes.
    pub password: String,
    /// The username to login with.
    pub user_name: String,
}

impl ApiLoginRequest {
    /// Creates a new API login request. The password is not sent as it is,
    /// but as the hexadecimal MD5 digest of its UTF-8 bytes.
    pub fn new(username: &str, password: &str) -> (request: Self)
        ensures
            request.body.user_name@ == username@,
            request.body.password@ == password_digest(password@),
            request.body.password@.len() == 32,
    {
        let user_name = String::from_str(username);
        let digest = md5_of(password.as_bytes());
        let password = to_hex(&digest);
        let body = ApiLoginRequestBody { user_name, password };

        Self { body }
    }
}

/// The request passed to the API data endpoint.
#[derive(Clone, Copy, Debug, PartialEq, Eq)]
pub struct ApiDataRequest {
    /// The body of the API data request.
    pub body: ApiDataRequestBody,
}

/// The request body passed to the API data endpoint.
#[derive(Clone, Copy, Debug, PartialEq, Eq)]
pub struct ApiDataRequestBody {
    /// The ID of the Hoymiles station.
    pub sid: u32,
}

impl ApiDataRequest {
    /// Creates a new API data request.
    pub fn new(sid: u32) -> (request: Self)
        ensures
            request.body.sid == sid,
    {
        let body = ApiDataRequestBody { sid };

        Self { body }
    }
}

/// Captures JSON values that can either be a string or an object.
///
/// This is used for the API responses where the data field is either an
/// object or an empty string instead of `null`.
#[derive(Debug)]
pub enum StringOrObject<T> {
    /// The value is an object.
    Object(T),
    /// The value is a string.
    String(String),
}

/// What a value that is either a string or an object stands for: nothing if
/// it is the empty string, the object if it is one. Any other string is not
/// allowed there.
pub open spec fn empty_str_or_object<T>(value: StringOrObject<T>) -> Result<
    Option<T>,
    ServiceError,
> {
    match value {
        StringOrObject::Object(object) => Ok(Some(object)),
        StringOrObject::String(text) => if text@.len() == 0 {
            Ok(None)
        } else {
            Err(ServiceError::Malformed)
        },
    }
}

/// Takes either a string or an object as an optional object.
pub fn from_empty_str_or_object<T>(value: StringOrObject<T>) -> (object: Result<
    Option<T>,
    ServiceError,
>)
    ensures
        object == empty_str_or_object(value),
{
    match value {
        StringOrObject::Object(object) => Ok(Some(object)),
        StringOrObject::String(text) => if text.as_str().unicode_len() == 0 {
            Ok(None)
        } else {
            Err(ServiceError::Malformed)
        },
    }
}

/// What an integer put into a string stands for.
pub open spec fn integer_str(s: Seq<char>) -> Result<u16, ServiceError> {
    match integer_value(s) {
        Some(value) => if value <= u16::MAX {
            Ok(value as u16)
        } else {
            Err(ServiceError::Malformed)
        },
        None => Err(ServiceError::Malformed),
    }
}

/// Reads a string as an integer.
///
/// This is used for the API responses where the value is an integer put into
/// a string.
pub fn from_integer_str(s: &str) -> (number: Result<u16, ServiceError>)
    ensures
        number == integer_str(s@),
{
    match parse_u16(s) {
        Some(number) => Ok(number),
        None => Err(ServiceError::Malformed),
    }
}

/// What a decimal put into a string stands for, in thousandths.
pub open spec fn decimal_str(s: Seq<char>) -> Result<u64, ServiceError> {
    match decimal_value(s) {
        Some(value) => if value <= u64::MAX {
            Ok(value as u64)
        } else {
            Err(ServiceError::Malformed)
        },
        None => Err(ServiceError::Malformed),
    }
}

/// Reads a string as a decimal, in thousandths.
///
/// This is used for the API responses where the value is a decimal put into
/// a string.
pub fn from_decimal_str(s: &str) -> (number: Result<u64, ServiceError>)
    ensures
        number == decimal_str(s@),
{
    match parse_thousandths(s) {
        Some(number) => Ok(number),
        None => Err(ServiceError::Malformed),
    }
}

/// `NaiveDateTime` of the `chrono` crate: a date and a time of day without a
/// time zone, handed on as it is.
#[verifier::external_type_specification]
#[verifier::external_body]
pub struct ExNaiveDateTime(NaiveDateTime);

/// The date/time that `text` holds in the given format, without a time
/// zone; `None` if the text is not in that format or names no date/time.
pub uninterp spec fn naive_date_time(text: Seq<char>, format: Seq<char>) -> Option<NaiveDateTime>;

/// `NaiveDateTime::parse_from_str` of the `chrono` crate: the result depends
/// on the text and the format alone.
#[verifier::external_body]
fn parse_naive_date_time(text: &str, format: &str) -> (date_time: Option<NaiveDateTime>)
    ensures
        date_time == naive_date_time(text@, format@),
{
    match NaiveDateTime::parse_from_str(text, format) {
        Ok(date_time) => Some(date_time),
        Err(_) => None,
    }
}

/// What the time zone of the machine makes of a date/time, as timestamps
/// (seconds since the UNIX epoch).
#[derive(Clone, Copy, Debug, PartialEq, Eq)]
pub enum LocalTime {
    /// The time zone has one time for the date/time.
    Single { timestamp: i64 },
    /// The time zone has two times for the date/time, as when clocks are
    /// set back.
    Ambiguous { earliest: i64, latest: i64 },
    /// The time zone has no time for the date/time, as when clocks are set
    /// forward, or the time zone could not be asked.
    Missing,
}

/// `TimeZone::from_local_datetime` of the `chrono` crate on `Local`, with
/// `DateTime::timestamp` on each time it gives. What the time zone of the
/// machine makes of the date/time depends on that time zone, so nothing is
/// said about the result.
#[verifier::external_body]
fn local_time(date_time: &NaiveDateTime) -> (local: LocalTime) {
    match Local.from_local_datetime(date_time) {
        MappedLocalTime::Single(time) => LocalTime::Single { timestamp: time.timestamp() },
        MappedLocalTime::Ambiguous(earliest, latest) => LocalTime::Ambiguous {
            earliest: earliest.timestamp(),
            latest: latest.timestamp(),
        },
        MappedLocalTime::None => LocalTime::Missing,
    }
}

/// What is made of a date/time once it was placed in the local time zone:
/// the timestamp of the single time that the time zone has for it. A
/// date/time for which the time zone has no time, or more than one, is not
/// accepted.
pub open spec fn local_date_time(local: LocalTime) -> Result<i64, ServiceError> {
    match local {
        LocalTime::Single { timestamp } => Ok(timestamp),
        LocalTime::Ambiguous { .. } => Err(ServiceError::Malformed),
        LocalTime::Missing => Err(ServiceError::Malformed),
    }
}

/// Takes what placing a date/time in the local time zone gave.
pub fn to_local_date_time(local: LocalTime) -> (date_time: Result<i64, ServiceError>)
    ensures
        date_time == local_date_time(local),
{
    match local {
        LocalTime::Single { timestamp } => Ok(timestamp),
        LocalTime::Ambiguous { .. } => Err(ServiceError::Malformed),
        LocalTime::Missing => Err(ServiceError::Malformed),
    }
}

/// What a date/time put into a string stands for, if `local` is what the
/// time zone of the machine makes of it. A string that is no date/time in
/// the format of the API is malformed, whatever the time zone.
pub open spec fn date_time_str(s: Seq<char>, local: LocalTime) -> Result<i64, ServiceError> {
    match naive_date_time(s, DATE_TIME_FORMAT@) {
        None => Err(ServiceError::Malformed),
        Some(_) => local_date_time(local),
    }
}

/// Reads a string as a date/time in the local time zone and returns its
/// timestamp (seconds since the UNIX epoch).
///
/// A string that is no date/time in the format of the API is malformed.
/// One that is, is placed in the time zone of the machine, which decides
/// what comes of it.
pub fn from_date_time_str(s: &str) -> (timestamp: Result<i64, ServiceError>)
    ensures
        exists|local: LocalTime| timestamp == #[trigger] date_time_str(s@, local),
{
    match parse_naive_date_time(s, DATE_TIME_FORMAT) {
        Some(date_time) => {
            let local = local_time(&date_time);
            assert(date_time_str(s@, local) == local_date_time(local));
            to_local_date_time(local)
        },
        None => {
            assert(date_time_str(s@, LocalTime::Missing) == Err::<i64, ServiceError>(
                ServiceError::Malformed,
            ));
            Err(ServiceError::Malformed)
        },
    }
}

/// The response returned by the API login endpoint, as it was received.
#[derive(Debug)]
pub struct ApiLoginResponse {
    /// The status (error) code as a string: 0 for OK, another number for error.
    pub status: String,
    /// The status message.
    pub message: String,
    /// The embedded response data: an object, or an empty string for none.
    pub data: StringOrObject<ApiLoginResponseData>,
}

/// The response data returned by the API login endpoint.
#[derive(Debug)]
pub struct ApiLoginResponseData {
    /// The token to be used as cookie for API data requests.
    pub token: String,
}

/// The response returned by the API data endpoint, as it was received.
#[derive(Debug)]
pub struct ApiDataResponse {
    /// The status (error) code as a string: 0 for OK, another number for error.
    pub status: String,
    /// The status message.
    pub message: String,
    /// The embedded response data: an object, or an empty string for none.
    pub data: StringOrObject<ApiDataResponseData>,
}

/// The response data returned by the API data endpoint, as it was received:
/// every number is a decimal put into a string.
#[derive(Debug)]
pub struct ApiDataResponseData {
    /// Energy produced today (Wh)
    pub today_eq: String,
    /// Total energy produced since installation, excluding today's (Wh)
    pub total_eq: String,
    /// Current power production (W)
    pub real_power: String,
    /// The time of the data, in the format of the API.
    pub last_data_time: String,
}

/// The total energy in watt-hours that two counters of thousandths of a
/// watt-hour add up to; `None` if the sum is beyond what can be held.
pub open spec fn station_total(today_eq: u64, total_eq: u64) -> Option<u64> {
    if today_eq + total_eq <= u64::MAX {
        Some(((today_eq + total_eq) / MILLI as int) as u64)
    } else {
        None
    }
}

/// The token cookie that a login response yields. The status has to be an
/// integer, and the data, which holds the token, are required.
pub open spec fn login_outcome(response: ApiLoginResponse) -> Result<Seq<char>, ServiceError> {
    if integer_str(response.status@) is Err {
        Err(ServiceError::Malformed)
    } else {
        match empty_str_or_object(response.data) {
            Ok(Some(data)) => Ok(TOKEN_COOKIE_PREFIX@ + data.token@),
            _ => Err(ServiceError::Malformed),
        }
    }
}

/// The reading that station data yield at the poll time `timestamp`, and
/// the total that is known as the last one afterwards.
///
/// All three numbers have to be decimals, and the time of the data has to
/// have been read (`data_time` is what reading it gave), else the data are
/// malformed and the last known total stays. The two energy counters are
/// added up, and the sum is published unless it is not greater than the last
/// known total.
pub open spec fn station_outcome(
    last_known: u64,
    timestamp: u64,
    data: ApiDataResponseData,
    data_time: Result<i64, ServiceError>,
) -> (Result<Reading, ServiceError>, u64) {
    match (
        decimal_str(data.today_eq@),
        decimal_str(data.total_eq@),
        decimal_str(data.real_power@),
        data_time,
    ) {
        (Ok(today_eq), Ok(total_eq), Ok(real_power), Ok(_)) => match station_total(
            today_eq,
            total_eq,
        ) {
            Some(computed) => (
                Ok(
                    Reading {
                        current_power_mw: real_power,
                        total_energy_wh: published_total(last_known, computed),
                        observed_at: timestamp,
                    },
                ),
                published_total(last_known, computed),
            ),
            None => (Err(ServiceError::Malformed), last_known),
        },
        _ => (Err(ServiceError::Malformed), last_known),
    }
}

/// The reading that the reply to a data request yields at the poll time
/// `timestamp`, and the total that is known as the last one afterwards, if
/// `local` is what the time zone of the machine makes of the time of the
/// data. The status has to be an integer, the data are required, and the
/// time of the data has to be a date/time in the format of the API.
pub open spec fn update_outcome(
    last_known: u64,
    timestamp: u64,
    reply: Reply<ApiDataResponse>,
    local: LocalTime,
) -> (Result<Reading, ServiceError>, u64) {
    match reply_body(reply) {
        Err(error) => (Err(error), last_known),
        Ok(response) => if integer_str(response.status@) is Err {
            (Err(ServiceError::Malformed), last_known)
        } else {
            match empty_str_or_object(response.data) {
                Ok(Some(data)) => station_outcome(
                    last_known,
                    timestamp,
                    data,
                    date_time_str(data.last_data_time@, local),
                ),
                _ => (Err(ServiceError::Malformed), last_known),
            }
        },
    }
}

/// The Hoymiles service.
#[derive(Debug)]
pub struct Service {
    /// The configuration used to access the API.
    config: Config,
    /// The last known total produced energy value (Wh).
    total_wh: u64,
}

/// Instantiates the Hoymiles service.
pub fn service(config: Config) -> (service: Service)
    ensures
        service.config() == config,
        service.last_total() == 0,
{
    Service { config, total_wh: 0 }
}

impl Service {
    /// The configuration used to access the API.
    pub closed spec fn config(&self) -> Config {
        self.config
    }

    /// The last known total produced energy value (Wh).
    pub closed spec fn last_total(&self) -> u64 {
        self.total_wh
    }

    /// Returns the last known total produced energy value (Wh): the total
    /// of the last reading, or zero before the first one.
    pub fn total_wh(&self) -> (total: u64)
        ensures
            total == self.last_total(),
    {
        self.total_wh
    }

    /// The interval between data polls (in seconds).
    ///
    /// Hoymiles processes information from the invertor about every 15
    /// minutes. Since this is not really exact, we need to poll at a higher
    /// rate to detect changes faster!
    pub fn poll_interval(&self) -> (interval: u64)
        ensures
            interval == POLL_INTERVAL,
    {
        POLL_INTERVAL
    }

    /// Returns the request that logs in with the credentials of the
    /// configuration.
    pub fn login_request(&self) -> (request: ApiLoginRequest)
        ensures
            request.body.user_name@ == self.config().username@,
            request.body.password@ == password_digest(self.config().password@),
            request.body.password@.len() == 32,
    {
        ApiLoginRequest::new(self.config.username.as_str(), self.config.password.as_str())
    }

    /// Takes the reply to a login request and returns the cookie that
    /// carries the session from then on. A status of 401 tells that the
    /// credentials were not accepted.
    pub fn login(&self, reply: Reply<ApiLoginResponse>) -> (cookie: Result<String, ServiceError>)
        ensures
            match reply_body(reply) {
                Err(error) => cookie == Err::<String, ServiceError>(error),
                Ok(response) => match login_outcome(response) {
                    Ok(text) => cookie is Ok && cookie->Ok_0@ == text,
                    Err(error) => cookie == Err::<String, ServiceError>(error),
                },
            },
    {
        let response = match body_of(reply) {
            Ok(response) => response,
            Err(error) => {
                return Err(error);
            },
        };
        if from_integer_str(response.status.as_str()).is_err() {
            return Err(ServiceError::Malformed);
        }
        match from_empty_str_or_object(response.data) {
            Ok(Some(data)) => Ok(token_cookie(data.token.as_str())),
            _ => Err(ServiceError::Malformed),
        }
    }

    /// Returns the request for the data of the station of the configuration.
    pub fn update_request(&self) -> (request: ApiDataRequest)
        ensures
            request.body.sid == self.config().sid,
    {
        ApiDataRequest::new(self.config.sid)
    }

    /// Turns station data into the reading of the poll made at `timestamp`.
    /// `data_time` is what reading the time of the data gave, which the
    /// reading does not depend on otherwise.
    ///
    /// It needs to add up the today value and the total value because
    /// Hoymiles only includes the former in the latter after the day has
    /// finished. Sometimes the today value is reset when the day switches
    /// before it has been added to the total value. The total should never
    /// decrease, so the last known value is reported until this is
    /// corrected.
    pub fn station_reading(
        &mut self,
        timestamp: u64,
        data: &ApiDataResponseData,
        data_time: Result<i64, ServiceError>,
    ) -> (reading: Result<Reading, ServiceError>)
        ensures
            reading == station_outcome(old(self).last_total(), timestamp, *data, data_time).0,
            final(self).last_total() == station_outcome(
                old(self).last_total(),
                timestamp,
                *data,
                data_time,
            ).1,
            final(self).config() == old(self).config(),
    {
        let today_eq = from_decimal_str(data.today_eq.as_str());
        let total_eq = from_decimal_str(data.total_eq.as_str());
        let real_power = from_decimal_str(data.real_power.as_str());
        match (today_eq, total_eq, real_power, data_time) {
            (Ok(today_eq), Ok(total_eq), Ok(real_power), Ok(_)) => {
                let computed = match today_eq.checked_add(total_eq) {
                    Some(sum) => sum / MILLI,
                    None => {
                        return Err(ServiceError::Malformed);
                    },
                };
                let total_wh = if computed <= self.total_wh {
                    self.total_wh
                } else {
                    computed
                };
                self.total_wh = total_wh;
                Ok(Reading::new(real_power, total_wh, timestamp))
            },
            _ => Err(ServiceError::Malformed),
        }
    }

    /// Takes the reply to a data request and returns the reading of the poll
    /// made at `timestamp`.
    ///
    /// A status of 401 tells that the session has expired. The time of the
    /// data is read in the time zone of the machine. The outcome is the one
    /// that [`update_outcome`] gives for what the time zone makes of that
    /// time.
    pub fn update(&mut self, timestamp: u64, reply: Reply<ApiDataResponse>) -> (reading: Result<
        Reading,
        ServiceError,
    >)
        ensures
            exists|local: LocalTime|
                {
                    &&& reading == #[trigger] update_outcome(
                        old(self).last_total(),
                        timestamp,
                        reply,
                        local,
                    ).0
                    &&& final(self).last_total() == update_outcome(
                        old(self).last_total(),
                        timestamp,
                        reply,
                        local,
                    ).1
                },
            final(self).config() == old(self).config(),
    {
        let ghost last_known = self.last_total();
        let response = match body_of(reply) {
            Ok(response) => response,
            Err(error) => {
                assert(update_outcome(last_known, timestamp, reply, LocalTime::Missing).0 == Err::<
                    Reading,
                    ServiceError,
                >(error));
                return Err(error);
            },
        };
        if from_integer_str(response.status.as_str()).is_err() {
            assert(update_outcome(last_known, timestamp, reply, LocalTime::Missing).1
                == last_known);
            return Err(ServiceError::Malformed);
        }
        match from_empty_str_or_object(response.data) {
            Ok(Some(data)) => {
                let data_time = from_date_time_str(data.last_data_time.as_str());
                let ghost local = choose|local: LocalTime|
                    data_time == date_time_str(data.last_data_time@, local);
                let reading = self.station_reading(timestamp, &data, data_time);
                assert(update_outcome(last_known, timestamp, reply, local).0 == reading);
                reading
            },
            _ => {
                assert(update_outcome(last_known, timestamp, reply, LocalTime::Missing).1
                    == last_known);
                Err(ServiceError::Malformed)
            },
        }
    }
}

/// The total in watt-hours that station data yield, before it is held
/// against the last known total; `None` where the data are malformed.
pub open spec fn station_computed(
    data: ApiDataResponseData,
    data_time: Result<i64, ServiceError>,
) -> Option<u64> {
    match (
        decimal_str(data.today_eq@),
        decimal_str(data.total_eq@),
        decimal_str(data.real_power@),
        data_time,
    ) {
        (Ok(today_eq), Ok(total_eq), Ok(_), Ok(_)) => station_total(today_eq, total_eq),
        _ => None,
    }
}

/// Station data never lower the published total: a poll succeeds exactly
/// where the data yield a total, its reading holds what is published for
/// that total, no less than the last known total, and that is the last
/// known total afterwards. A failed poll leaves the last known total as it
/// is. So what holds of every sequence of polls holds of this service (see
/// [`lemma_totals_never_decrease`](crate::services::lemma_totals_never_decrease)).
pub proof fn lemma_station_total_never_decreases(
    last_known: u64,
    timestamp: u64,
    data: ApiDataResponseData,
    data_time: Result<i64, ServiceError>,
)
    ensures
        ({
            let (reading, total) = station_outcome(last_known, timestamp, data, data_time);
            let computed = station_computed(data, data_time);
            &&& total == total_after_poll(last_known, computed)
            &&& total >= last_known
            &&& reading is Ok <==> computed is Some
            &&& reading matches Ok(reading) ==> reading.total_energy_wh == total
                && reading.observed_at == timestamp
        }),
{
    match station_computed(data, data_time) {
        Some(computed) => {
            lemma_published_total_masks_regression(last_known, computed);
        },
        None => {},
    }
}

} // verus!
