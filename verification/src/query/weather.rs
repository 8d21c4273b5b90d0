//! The weather service: what is asked of it and how its answers are read.
//!
//! The request itself is sent by the embedding program.  This module builds
//! the address that is asked, classifies what came back, and defines the
//! values in which a reading and a failure are held.

use crate::text::{decimal, digit, digit_char, push_decimal};
use vstd::prelude::*;
use vstd::string::*;

verus! {

/// The text that `reqwest::StatusCode` displays for an HTTP status code: the
/// number, a space and the standardised reason phrase, or a fixed phrase
/// where the code has none.
pub uninterp spec fn status_line(code: u16) -> Seq<char>;

/// Formats an HTTP status through `reqwest::StatusCode::from_u16` and the
/// `Display` of the status it returns.  `from_u16` accepts exactly the codes
/// from 100 to 999, and the text displayed depends on the code alone.
#[verifier::external_body]
fn display_status(code: u16) -> (text: String)
    requires
        100 <= code <= 999,
    ensures
        text@ == status_line(code),
{
    match reqwest::StatusCode::from_u16(code) {
        Ok(status) => status.to_string(),
        Err(_) => String::new(),
    }
}

/// An HTTP status code.  Like the status of the HTTP client it stands for,
/// it is always in the range from 100 to 999.
#[derive(Clone, Copy, Debug, PartialEq, Eq)]
pub struct Status {
    code: u16,
}

impl Status {
    #[verifier::type_invariant]
    spec fn in_range(self) -> bool {
        100 <= self.code <= 999
    }

    /// The code as a number.
    pub closed spec fn value(self) -> u16 {
        self.code
    }

    /// Whether a code is one that a status can hold.
    pub open spec fn valid(code: u16) -> bool {
        100 <= code <= 999
    }

    /// Makes a status of a code, if the code is between 100 and 999.
    pub fn from_u16(code: u16) -> (status: Option<Status>)
        ensures
            status is Some <==> Status::valid(code),
            status matches Some(s) ==> s.value() == code,
    {
        if 100 <= code && code <= 999 {
            Some(Status { code })
        } else {
            None
        }
    }

    /// The code as a number.
    pub fn as_u16(&self) -> (code: u16)
        ensures
            code == self.value(),
            Status::valid(code),
    {
        proof {
            use_type_invariant(self);
        }
        self.code
    }

    /// Tells whether the status reports success, that is, lies between 200
    /// and 299.
    pub fn is_success(&self) -> (ok: bool)
        ensures
            ok == (200 <= self.value() <= 299),
    {
        200 <= self.code && self.code <= 299
    }

    /// The status as text: the number and its reason phrase.
    pub fn to_text(&self) -> (text: String)
        ensures
            text@ == status_line(self.value()),
    {
        proof {
            use_type_invariant(self);
        }
        display_status(self.code)
    }
}

/// Why no weather reading could be had.
#[derive(Clone, Copy, Debug, PartialEq, Eq)]
pub enum WeatherError {
    /// The service could not be reached.
    Network,
    /// The service answered with a status other than success.
    Server(Status),
    /// The service answered, but not with a reading.
    Decode,
}

/// The message that goes with a failure.
pub open spec fn message_of(error: WeatherError) -> Seq<char> {
    match error {
        WeatherError::Network => "Could not connect to the weather service. Internet in fire?"@,
        WeatherError::Server(status) => "Weather service responded with an error (Status: "@
            + status_line(status.value()) + "). It might be temporarily down."@,
        WeatherError::Decode => "Received an undecipherable response from the weather service?!"@,
    }
}

impl WeatherError {
    /// Describes the failure in a sentence.
    pub fn message(&self) -> (text: String)
        ensures
            text@ == message_of(*self),
    {
        match self {
            WeatherError::Network => String::from_str(
                "Could not connect to the weather service. Internet in fire?",
            ),
            WeatherError::Server(status) => {
                let mut text = String::from_str(
                    "Weather service responded with an error (Status: ",
                );
                let line = status.to_text();
                text.append(line.as_str());
                text.append("). It might be temporarily down.");
                text
            },
            WeatherError::Decode => String::from_str(
                "Received an undecipherable response from the weather service?!",
            ),
        }
    }
}

/// A temperature in hundredths of a degree Celsius.
#[derive(Clone, Copy, Debug, PartialEq, Eq, Structural)]
pub struct Temperature {
    pub hundredths: i32,
}

/// The absolute value of an integer.
pub open spec fn magnitude(h: int) -> nat {
    if h < 0 {
        (-h) as nat
    } else {
        h as nat
    }
}

/// A number of hundredths rounded to tenths: to the nearest tenth, and to the
/// even one of the two where both are equally near.
pub open spec fn rounded_tenths(m: nat) -> nat {
    if m % 10 > 5 || (m % 10 == 5 && (m / 10) % 2 == 1) {
        m / 10 + 1
    } else {
        m / 10
    }
}

/// A temperature of `h` hundredths of a degree, written with one decimal
/// place: a minus sign if it is below zero, the whole degrees, a point and
/// one digit.
pub open spec fn one_decimal(h: int) -> Seq<char> {
    let tenths = rounded_tenths(magnitude(h));
    let sign = if h < 0 {
        seq!['-']
    } else {
        Seq::<char>::empty()
    };
    sign + decimal(tenths / 10).push('.').push(digit_char((tenths % 10) as int))
}

impl Temperature {
    /// Appends the temperature to `out`, with one decimal place.
    pub fn push_one_decimal(&self, out: &mut String)
        ensures
            final(out)@ == old(out)@ + one_decimal(self.hundredths as int),
    {
        let h: i32 = self.hundredths;
        let m: u64 = if h < 0 {
            (-(h as i64)) as u64
        } else {
            h as u64
        };
        let whole: u64 = m / 10;
        let rest: u64 = m % 10;
        let tenths: u64 = if rest > 5 || (rest == 5 && whole % 2 == 1) {
            whole + 1
        } else {
            whole
        };
        if h < 0 {
            out.push('-');
        }
        push_decimal(out, tenths / 10);
        out.push('.');
        out.push(digit((tenths % 10) as u8));
    }

    /// The temperature as text, with one decimal place.
    pub fn to_one_decimal(&self) -> (text: String)
        ensures
            text@ == one_decimal(self.hundredths as int),
    {
        let mut text = String::new();
        self.push_one_decimal(&mut text);
        text
    }
}

/// What the weather service reports.
#[derive(Clone, Copy, Debug, PartialEq, Eq, Structural)]
pub struct WeatherReading {
    /// The temperature.
    pub temp: Temperature,
    /// The temperature as it feels.
    pub feels_like: Temperature,
}

/// What became of one request to the weather service.
#[derive(Clone, Copy, Debug, PartialEq, Eq)]
pub enum Exchange {
    /// The request could not be sent or was not answered.
    Unreachable,
    /// The service answered.  `body` is the reading that the answer holds,
    /// or `None` if it could not be read as one.
    Answered { status: Status, body: Option<WeatherReading> },
}

/// The start of every request address, up to the name of the city.
pub open spec fn url_head() -> Seq<char> {
    "https://msukanen.net/api/weather?city="@
}

/// The part of a request address between city and country.
pub open spec fn url_joint() -> Seq<char> {
    "&country="@
}

/// The address that is asked for the weather of a place.
pub open spec fn url_of(city: Seq<char>, country: Seq<char>) -> Seq<char> {
    url_head() + city + url_joint() + country
}

/// Builds the address that is asked for the weather of a place.  City and
/// country are put into it as they are.
pub fn request_url(city: &str, country: &str) -> (url: String)
    ensures
        url@ == url_of(city@, country@),
{
    let mut url = String::from_str("https://msukanen.net/api/weather?city=");
    url.append(city);
    url.append("&country=");
    url.append(country);
    url
}

/// The result of a request, by what became of it.  An exchange that did not
/// happen is a network failure; an answer with a status other than success
/// is a server failure, whatever its body; a successful answer without a
/// readable body is a decoding failure.
pub open spec fn outcome_of(exchange: Exchange) -> Result<WeatherReading, WeatherError> {
    match exchange {
        Exchange::Unreachable => Err(WeatherError::Network),
        Exchange::Answered { status, body } => if !(200 <= status.value() <= 299) {
            Err(WeatherError::Server(status))
        } else {
            match body {
                Some(reading) => Ok(reading),
                None => Err(WeatherError::Decode),
            }
        },
    }
}

/// Turns what became of a request into a reading or a failure.
pub fn get_weather(exchange: Exchange) -> (result: Result<WeatherReading, WeatherError>)
    ensures
        result == outcome_of(exchange),
{
    match exchange {
        Exchange::Unreachable => Err(WeatherError::Network),
        Exchange::Answered { status, body } => {
            if !status.is_success() {
                Err(WeatherError::Server(status))
            } else {
                match body {
                    Some(reading) => Ok(reading),
                    None => Err(WeatherError::Decode),
                }
            }
        },
    }
}

/// Rounding to tenths goes to a nearest tenth: the result is never more than
/// five hundredths away, and where it is exactly five away it is even.
pub proof fn lemma_rounded_tenths_nearest(m: nat)
    ensures
        10 * rounded_tenths(m) - m <= 5,
        m - 10 * rounded_tenths(m) <= 5,
        (10 * rounded_tenths(m) - m == 5 || m - 10 * rounded_tenths(m) == 5) ==> rounded_tenths(
            m,
        ) % 2 == 0,
{
}

} // verus!
