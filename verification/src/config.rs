//! The configuration file: what a new one holds, and what the user is told
//! when it does not settle the location.
//!
//! The file itself is read and written by the embedding program.

use vstd::prelude::*;
use vstd::string::*;

verus! {

/// The content of a new configuration file: a comment, and city and country
/// as commented-out examples.
pub open spec fn template_of(city: Seq<char>, country: Seq<char>) -> Seq<char> {
    "# Set your (favorite?) city and country here:\n#city = \""@ + city + "\"\n#country = \""@
        + country + "\"\n"@
}

/// What is said when a new configuration file has been written to `path`.
pub open spec fn established_note_of(path: Seq<char>) -> Seq<char> {
    "NOTE: configuration file established, do edit/uncomment the appropriate values in\n  "@
        + path + "\n\n"@
}

/// Where to set the location in the configuration file at `path`.
pub open spec fn file_hint_of(path: Seq<char>) -> Seq<char> {
    "\nTo fix this, please create or edit the config file at:\n  "@ + path
        + "\n\nAnd add your location, for example:\n  city = \"YourCity\"\n  country = \"XY\"\n"@
}

/// What is said to a user whose location is not settled.
///
/// After a new configuration file has been written the user is pointed to
/// it.  Otherwise the failure is named and, if the place of the
/// configuration file is known, the file and the two lines to put into it
/// are shown.  The command-line arguments are mentioned in either case.
pub open spec fn guidance_of(new_config: bool, path: Option<Seq<char>>) -> Seq<char> {
    let lead = if new_config {
        "Location not yet concretely configured, please edit the above mentioned configuration file.\n"@
    } else {
        match path {
            Some(p) => "Error: location is not (yet) concretely configured.\n"@ + file_hint_of(p),
            None => "Error: location is not (yet) concretely configured.\n"@,
        }
    };
    lead
        + "\nAlternatively, specify a location using command-line arguments.\nRun with  --help  to see all the available options and their usage.\n"@
}

/// Writes out the content of a new configuration file, with the given city
/// and country as examples.
pub fn config_template(city: &str, country: &str) -> (content: String)
    ensures
        content@ == template_of(city@, country@),
{
    let mut content = String::from_str(
        "# Set your (favorite?) city and country here:\n#city = \"",
    );
    content.append(city);
    content.append("\"\n#country = \"");
    content.append(country);
    content.append("\"\n");
    content
}

/// Words the note that a new configuration file has been written to `path`.
pub fn established_note(path: &str) -> (note: String)
    ensures
        note@ == established_note_of(path@),
{
    let mut note = String::from_str(
        "NOTE: configuration file established, do edit/uncomment the appropriate values in\n  ",
    );
    note.append(path);
    note.append("\n\n");
    note
}

/// Words the guidance for a user whose location is not settled.
/// `new_config` says whether a new configuration file has just been
/// written, `path` where the configuration file is, if that is known.
pub fn guidance(new_config: bool, path: Option<&str>) -> (text: String)
    ensures
        text@ == guidance_of(
            new_config,
            match path {
                Some(p) => Some(p@),
                None => None,
            },
        ),
{
    let mut text = String::new();
    if new_config {
        text.append(
            "Location not yet concretely configured, please edit the above mentioned configuration file.\n",
        );
    } else {
        text.append("Error: location is not (yet) concretely configured.\n");
        match path {
            Some(p) => {
                text.append("\nTo fix this, please create or edit the config file at:\n  ");
                text.append(p);
                text.append(
                    "\n\nAnd add your location, for example:\n  city = \"YourCity\"\n  country = \"XY\"\n",
                );
            },
            None => {},
        }
    }
    text.append(
        "\nAlternatively, specify a location using command-line arguments.\nRun with  --help  to see all the available options and their usage.\n",
    );
    text
}

} // verus!
