//! The boundary to the display surface.
//!
//! The surface shows one line of text and may go away at any time, also
//! while a fetch is under way.  Every result is delivered through a
//! [`Surface`], the library's picture of the surface as a handle sees it:
//! whether it still exists, and the text it shows.  Delivery to a surface
//! that is gone does nothing.

use crate::location::Location;
use crate::query::weather::{one_decimal, WeatherError, WeatherReading};
use vstd::prelude::*;
use vstd::string::*;

verus! {

/// The text that stands for "no reading".
pub const UNAVAILABLE: &'static str = "Weather unavailable.";

/// The text that the surface shows for a result: the temperature with one
/// decimal place, the unit and the city, or the fixed text that stands for
/// "no reading".
pub open spec fn display_text_of(
    result: Result<WeatherReading, WeatherError>,
    city: Seq<char>,
) -> Seq<char> {
    match result {
        Ok(reading) => one_decimal(reading.temp.hundredths as int) + "\u{b0}C in "@ + city,
        Err(_) => UNAVAILABLE@,
    }
}

/// Formats a result for the surface.
pub fn display_text(result: Result<WeatherReading, WeatherError>, location: &Location) -> (text:
    String)
    ensures
        text@ == display_text_of(result, location.city@),
        result is Err ==> text@ == UNAVAILABLE@,
{
    match result {
        Ok(reading) => {
            let mut text = String::new();
            reading.temp.push_one_decimal(&mut text);
            text.append("\u{b0}C in ");
            text.append(location.city.as_str());
            text
        },
        Err(_) => String::from_str(UNAVAILABLE),
    }
}

/// The display surface as a handle sees it.
#[derive(Debug, PartialEq, Eq)]
pub struct Surface {
    alive: bool,
    text: String,
}

/// The state of a surface: whether it exists, and the text it shows.
pub struct SurfaceView {
    pub alive: bool,
    pub text: Seq<char>,
}

impl View for Surface {
    type V = SurfaceView;

    closed spec fn view(&self) -> SurfaceView {
        SurfaceView { alive: self.alive, text: self.text@ }
    }
}

/// The surface after one delivery.  A surface that exists shows the text of
/// the result; a surface that is gone stays as it was.
pub open spec fn delivered(
    surface: SurfaceView,
    result: Result<WeatherReading, WeatherError>,
    city: Seq<char>,
) -> SurfaceView {
    if surface.alive {
        SurfaceView { alive: true, text: display_text_of(result, city) }
    } else {
        surface
    }
}

/// The surface after a run of deliveries, made in the order in which the
/// fetches completed.
pub open spec fn delivered_all(
    surface: SurfaceView,
    completed: Seq<(Result<WeatherReading, WeatherError>, Seq<char>)>,
) -> SurfaceView
    decreases completed.len(),
{
    if completed.len() == 0 {
        surface
    } else {
        delivered(
            delivered_all(surface, completed.drop_last()),
            completed.last().0,
            completed.last().1,
        )
    }
}

impl Clone for Surface {
    fn clone(&self) -> (copy: Surface)
        ensures
            copy@ == self@,
    {
        Surface { alive: self.alive, text: self.text.clone() }
    }
}

impl Surface {
    /// A surface that has just been created: it exists and shows nothing.
    pub fn new() -> (surface: Surface)
        ensures
            surface@.alive,
            surface@.text == Seq::<char>::empty(),
    {
        Surface { alive: true, text: String::new() }
    }

    /// Marks the surface as gone.  The text it showed last is kept.
    pub fn revoke(&mut self)
        ensures
            !final(self)@.alive,
            final(self)@.text == old(self)@.text,
    {
        self.alive = false;
    }

    /// Tells whether the surface exists.
    pub fn is_alive(&self) -> (alive: bool)
        ensures
            alive == self@.alive,
    {
        self.alive
    }

    /// The text that the surface shows, or showed last.
    pub fn text(&self) -> (text: &str)
        ensures
            text@ == self@.text,
    {
        self.text.as_str()
    }

    /// Delivers the result of a fetch.  On a surface that exists the text
    /// becomes that of the result; on one that is gone nothing happens.
    pub fn deliver(&mut self, result: Result<WeatherReading, WeatherError>, location: &Location)
        ensures
            final(self)@ == delivered(old(self)@, result, location.city@),
            !old(self)@.alive ==> final(self)@ == old(self)@,
            old(self)@.alive && result is Err ==> final(self)@.text == UNAVAILABLE@,
    {
        if self.alive {
            self.text = display_text(result, location);
        }
    }
}

/// Delivery to a surface that is gone changes nothing, however often it is
/// tried.
pub proof fn lemma_delivery_to_revoked_surface(
    surface: SurfaceView,
    completed: Seq<(Result<WeatherReading, WeatherError>, Seq<char>)>,
)
    requires
        !surface.alive,
    ensures
        delivered_all(surface, completed) == surface,
        completed.len() > 0 ==> delivered(surface, completed[0].0, completed[0].1) == surface,
    decreases completed.len(),
{
    if completed.len() > 0 {
        lemma_delivery_to_revoked_surface(surface, completed.drop_last());
    }
}

/// A failed fetch shows the fixed text on a surface that exists, whatever
/// the failure was and whatever was shown before.
pub proof fn lemma_failure_shows_placeholder(
    surface: SurfaceView,
    error: WeatherError,
    city: Seq<char>,
)
    requires
        surface.alive,
    ensures
        delivered(surface, Err(error), city).text == UNAVAILABLE@,
        delivered(surface, Err(error), city).alive,
{
}

/// Of two results the one that is delivered last is the one that shows,
/// whichever of the two fetches was issued first.
pub proof fn lemma_last_of_two_wins(
    surface: SurfaceView,
    first: (Result<WeatherReading, WeatherError>, Seq<char>),
    second: (Result<WeatherReading, WeatherError>, Seq<char>),
)
    requires
        surface.alive,
    ensures
        delivered(delivered(surface, first.0, first.1), second.0, second.1).text
            == display_text_of(second.0, second.1),
        delivered(delivered(surface, second.0, second.1), first.0, first.1).text
            == display_text_of(first.0, first.1),
{
}

/// After any run of deliveries a surface that exists still exists, and
/// shows the result that was delivered last.
pub proof fn lemma_last_delivery_wins(
    surface: SurfaceView,
    completed: Seq<(Result<WeatherReading, WeatherError>, Seq<char>)>,
)
    requires
        surface.alive,
    ensures
        delivered_all(surface, completed).alive,
        completed.len() > 0 ==> delivered_all(surface, completed).text == display_text_of(
            completed.last().0,
            completed.last().1,
        ),
    decreases completed.len(),
{
    if completed.len() > 0 {
        lemma_last_delivery_wins(surface, completed.drop_last());
    }
}

} // verus!
