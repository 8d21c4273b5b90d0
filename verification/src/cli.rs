//! What the command line says.

use crate::location::text_of;
use crate::text::{ascii_upper, to_ascii_upper};
use vstd::prelude::*;
use vstd::string::*;

verus! {

/// The arguments of the program.
#[derive(Debug, PartialEq, Eq)]
pub struct CommandLineArgs {
    /// If given, no display surface is used and the weather is printed.
    pub headless: bool,
    /// If given, the weather is checked once and printed, and the program
    /// ends right after.
    pub oneshot: bool,
    /// If given, overrides the configured city.
    pub city: Option<String>,
    /// If given, overrides the configured country.
    pub country: Option<String>,
}

/// An optional text in upper case.
pub open spec fn upper_of(value: Option<Seq<char>>) -> Option<Seq<char>> {
    match value {
        Some(s) => Some(ascii_upper(s)),
        None => None,
    }
}

impl CommandLineArgs {
    /// Adjusts the arguments to what the program was built with.  The
    /// country is put in upper case.  A program built without a display
    /// surface (`headless_build`) runs headless whatever the command line
    /// says.
    pub fn adjust_to_features(self, headless_build: bool) -> (args: CommandLineArgs)
        ensures
            args.headless == (self.headless || headless_build),
            args.oneshot == self.oneshot,
            args.city == self.city,
            text_of(args.country) == upper_of(text_of(self.country)),
    {
        let country = match self.country {
            Some(country) => Some(to_ascii_upper(country.as_str())),
            None => None,
        };
        CommandLineArgs {
            headless: self.headless || headless_build,
            oneshot: self.oneshot,
            city: self.city,
            country,
        }
    }
}

} // verus!
