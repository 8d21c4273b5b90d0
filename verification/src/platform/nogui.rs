//! Weather as a line of text, for running without a display surface.

use crate::query::weather::{one_decimal, WeatherError, WeatherReading};
use vstd::prelude::*;
use vstd::string::*;

verus! {

/// The line that reports a reading for a place: both temperatures with one
/// decimal place, then city and country.
pub open spec fn info_line(reading: WeatherReading, city: Seq<char>, country: Seq<char>) -> Seq<
    char,
> {
    one_decimal(reading.temp.hundredths as int) + "\u{2070}C (feels like "@ + one_decimal(
        reading.feels_like.hundredths as int,
    ) + "\u{2070}C) at "@ + city + ", "@ + country
}

/// Bridge from a fetched reading to the text that is printed when there is
/// no display surface.
///
/// A reading becomes its line of text, for the place it was asked for; a
/// failure is handed on as it is.
///
/// # Arguments
/// - `city`: the place that was asked for.
/// - `country`: its country code, e.g. "FI", "UK" (or "GB"), "US".
/// - `fetched`: what the weather service returned.
pub fn get_weather(
    city: &String,
    country: &String,
    fetched: Result<WeatherReading, WeatherError>,
) -> (result: Result<String, WeatherError>)
    ensures
        match fetched {
            Ok(reading) => result matches Ok(info) && info@ == info_line(
                reading,
                city@,
                country@,
            ),
            Err(e) => result == Err::<String, WeatherError>(e),
        },
{
    match fetched {
        Ok(reading) => {
            let mut info = String::new();
            reading.temp.push_one_decimal(&mut info);
            info.append("\u{2070}C (feels like ");
            reading.feels_like.push_one_decimal(&mut info);
            info.append("\u{2070}C) at ");
            info.append(city.as_str());
            info.append(", ");
            info.append(country.as_str());
            Ok(info)
        },
        Err(e) => Err(e),
    }
}

} // verus!
