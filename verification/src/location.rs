//! The place whose weather is shown, and how it is settled at startup.
//!
//! City and country each come from the command line or, where the command
//! line is silent, from the configuration file.  Unless both are had from
//! somewhere, there is no location and the program does not go on.

use crate::text::{ascii_upper, lemma_ascii_upper_idempotent, to_ascii_upper};
use vstd::prelude::*;
use vstd::string::*;

verus! {

/// City written into a new configuration file as an example.
pub const DEFAULT_CITY: &'static str = "Oulu";

/// Country written into a new configuration file as an example.
pub const DEFAULT_COUNTRY: &'static str = "FI";

/// A city and the country it lies in.  The country is held in upper case.
#[derive(Debug, PartialEq, Eq)]
pub struct Location {
    pub city: String,
    pub country: String,
}

/// A location as plain text.
pub struct LocationView {
    pub city: Seq<char>,
    pub country: Seq<char>,
}

impl View for Location {
    type V = LocationView;

    open spec fn view(&self) -> LocationView {
        LocationView { city: self.city@, country: self.country@ }
    }
}

impl Location {
    /// Whether the country is in upper case, as it is in every location that
    /// [`resolve`] returns.
    pub open spec fn well_formed(&self) -> bool {
        ascii_upper(self.country@) == self.country@
    }
}

impl Clone for Location {
    fn clone(&self) -> (copy: Location)
        ensures
            copy == *self,
    {
        Location { city: self.city.clone(), country: self.country.clone() }
    }
}

/// Why the program cannot start.
#[derive(Clone, Copy, Debug, PartialEq, Eq, Structural)]
pub enum ConfigurationError {
    /// City or country is given neither on the command line nor in the
    /// configuration file.
    LocationMissing,
}

/// The text of an optional string.
pub open spec fn text_of(value: Option<String>) -> Option<Seq<char>> {
    match value {
        Some(s) => Some(s@),
        None => None,
    }
}

/// One field of the location: the value from the command line if there is
/// one, else the value from the configuration file, else nothing.
pub open spec fn first_present(cli: Option<Seq<char>>, config: Option<Seq<char>>) -> Option<
    Seq<char>,
> {
    if cli is Some {
        cli
    } else {
        config
    }
}

/// The location that four optional values settle on.  City and country are
/// settled independently of each other, the country is put in upper case,
/// and there is a location only if both are settled.
pub open spec fn resolved(
    cli_city: Option<Seq<char>>,
    cli_country: Option<Seq<char>>,
    config_city: Option<Seq<char>>,
    config_country: Option<Seq<char>>,
) -> Option<LocationView> {
    let city = first_present(cli_city, config_city);
    let country = first_present(cli_country, config_country);
    if city is Some && country is Some {
        Some(LocationView { city: city->Some_0, country: ascii_upper(country->Some_0) })
    } else {
        None
    }
}

/// Takes the first of two optional values that is present.
fn pick(cli: Option<String>, config: Option<String>) -> (value: Option<String>)
    ensures
        text_of(value) == first_present(text_of(cli), text_of(config)),
{
    match cli {
        Some(s) => Some(s),
        None => config,
    }
}

/// Settles the location.  Each field is taken from the command line if it is
/// given there and from the configuration file otherwise; the country is put
/// in upper case.  If either field is given in neither place the result is
/// `LocationMissing`.
pub fn resolve(
    cli_city: Option<String>,
    cli_country: Option<String>,
    config_city: Option<String>,
    config_country: Option<String>,
) -> (result: Result<Location, ConfigurationError>)
    ensures
        match resolved(
            text_of(cli_city),
            text_of(cli_country),
            text_of(config_city),
            text_of(config_country),
        ) {
            Some(location) => result matches Ok(l) && l@ == location && l.well_formed(),
            None => result == Err::<Location, ConfigurationError>(
                ConfigurationError::LocationMissing,
            ),
        },
{
    let city = pick(cli_city, config_city);
    let country = pick(cli_country, config_country);
    match (city, country) {
        (Some(city), Some(country)) => {
            proof {
                lemma_ascii_upper_idempotent(country@);
            }
            Ok(Location { city, country: to_ascii_upper(country.as_str()) })
        },
        _ => Err(ConfigurationError::LocationMissing),
    }
}

/// A value given on the command line wins: the city is that value, and the
/// country is that value in upper case, whatever the configuration file
/// holds.  A country that is given in upper case is taken as it is.
pub proof fn lemma_command_line_wins(
    cli_city: Option<Seq<char>>,
    cli_country: Option<Seq<char>>,
    config_city: Option<Seq<char>>,
    config_country: Option<Seq<char>>,
)
    ensures
        cli_city is Some ==> first_present(cli_city, config_city) == cli_city,
        cli_country is Some ==> first_present(cli_country, config_country) == cli_country,
        (cli_city is Some && resolved(cli_city, cli_country, config_city, config_country) is Some)
            ==> resolved(cli_city, cli_country, config_city, config_country)->Some_0.city
            == cli_city->Some_0,
        (cli_country is Some && resolved(cli_city, cli_country, config_city, config_country)
            is Some) ==> resolved(
            cli_city,
            cli_country,
            config_city,
            config_country,
        )->Some_0.country == ascii_upper(cli_country->Some_0),
        (cli_country is Some && ascii_upper(cli_country->Some_0) == cli_country->Some_0
            && resolved(cli_city, cli_country, config_city, config_country) is Some) ==> resolved(
            cli_city,
            cli_country,
            config_city,
            config_country,
        )->Some_0.country == cli_country->Some_0,
{
}

/// The country of every settled location is the upper case of the value it
/// was taken from, and is in upper case itself.
pub proof fn lemma_country_is_upper_case(
    cli_city: Option<Seq<char>>,
    cli_country: Option<Seq<char>>,
    config_city: Option<Seq<char>>,
    config_country: Option<Seq<char>>,
)
    requires
        resolved(cli_city, cli_country, config_city, config_country) is Some,
    ensures
        first_present(cli_country, config_country) is Some,
        resolved(cli_city, cli_country, config_city, config_country)->Some_0.country
            == ascii_upper(first_present(cli_country, config_country)->Some_0),
        ascii_upper(resolved(cli_city, cli_country, config_city, config_country)->Some_0.country)
            == resolved(cli_city, cli_country, config_city, config_country)->Some_0.country,
{
    let source = first_present(cli_country, config_country)->Some_0;
    lemma_ascii_upper_idempotent(source);
}

/// There is a location exactly if each field is given in at least one of the
/// two places.
pub proof fn lemma_missing_field_fails(
    cli_city: Option<Seq<char>>,
    cli_country: Option<Seq<char>>,
    config_city: Option<Seq<char>>,
    config_country: Option<Seq<char>>,
)
    ensures
        resolved(cli_city, cli_country, config_city, config_country) is None <==> ((cli_city
            is None && config_city is None) || (cli_country is None && config_country is None)),
{
}

} // verus!
