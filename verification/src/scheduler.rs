//! When the weather is fetched, and what is done with each result.
//!
//! The program runs in one of three modes.  In each of them the embedding
//! program does the waiting: it fetches, sleeps, prints and listens to the
//! display surface, and reports what happened as an [`Event`].  The
//! [`Scheduler`] answers every event with what to say and what to do next.
//! A scheduler is made of a location, so without a location nothing is ever
//! fetched.

use crate::cli::CommandLineArgs;
use crate::location::{
    resolve, resolved, text_of, ConfigurationError, Location, LocationView,
};
use crate::platform::nogui::{get_weather, info_line};
use crate::query::weather::{message_of, WeatherError, WeatherReading};
use vstd::prelude::*;
use vstd::string::*;

verus! {

/// Time between two fetches, in milliseconds: 15 minutes.  The timer of the
/// display surface runs at the same interval.
pub const REFRESH_MILLIS: u64 = 900_000;

/// Exit code of a run that did what it was asked to do.
pub const EXIT_OK: i32 = 0;

/// Exit code of a run without a location, or of a single fetch that failed.
pub const EXIT_FAILURE: i32 = 1;

/// How the program runs.
#[derive(Clone, Copy, Debug, PartialEq, Eq, Structural)]
pub enum RunMode {
    /// Fetch once, print the result, end.
    OneShot,
    /// Fetch and print every 15 minutes, without a display surface.
    Unattended,
    /// Show the weather on the display surface; fetch at once and then
    /// whenever the surface asks for it.
    Interactive,
}

/// The mode that two flags of the command line select.  `oneshot` goes
/// before `headless`.
pub open spec fn mode_of(oneshot: bool, headless: bool) -> RunMode {
    if oneshot {
        RunMode::OneShot
    } else if headless {
        RunMode::Unattended
    } else {
        RunMode::Interactive
    }
}

/// Where a scheduler stands.
#[derive(Clone, Copy, Debug, PartialEq, Eq, Structural)]
pub enum Phase {
    /// Nothing has been fetched yet.
    Idle,
    /// A fetch is under way and its result is waited for.
    Fetching,
    /// The time to the next fetch is being slept.
    Sleeping,
    /// The display surface is up.  Any number of fetches may be under way.
    Serving,
    /// The program is to end with this exit code.
    Finished { exit_code: i32 },
}

/// What the embedding program reports.
#[derive(Clone, Copy, Debug, PartialEq, Eq)]
pub enum Event {
    /// The program is ready to run: in interactive mode the display surface
    /// has been created.
    Started,
    /// A fetch has completed.
    Fetched(Result<WeatherReading, WeatherError>),
    /// The sleep that was asked for is over.
    Woke,
    /// The timer of the display surface has fired.
    RefreshRequested,
    /// The display surface has been closed.
    SurfaceClosed,
}

/// What the embedding program is to do.
#[derive(Clone, Copy, Debug, PartialEq, Eq)]
pub enum Action {
    /// Fetch the weather of the scheduler's location and report `Fetched`.
    /// In interactive mode the fetch runs beside whatever else is under way.
    Fetch,
    /// Sleep, then report `Woke`.
    Sleep { millis: u64 },
    /// End the program.
    Exit { code: i32 },
    /// Hand the result to the display surface, on the thread that owns it.
    Deliver(Result<WeatherReading, WeatherError>),
    /// Nothing.
    Wait,
}

/// What the embedding program is to print before it acts.
#[derive(Debug, PartialEq, Eq)]
pub enum Notice {
    /// Nothing.
    Silent,
    /// A line for standard output.
    Info(String),
    /// A line for the error log.
    Failure(String),
}

/// A notice as plain text.
pub enum NoticeView {
    Silent,
    Info(Seq<char>),
    Failure(Seq<char>),
}

impl View for Notice {
    type V = NoticeView;

    open spec fn view(&self) -> NoticeView {
        match self {
            Notice::Silent => NoticeView::Silent,
            Notice::Info(line) => NoticeView::Info(line@),
            Notice::Failure(line) => NoticeView::Failure(line@),
        }
    }
}

/// The answer to an event: where the scheduler stands now, what to print and
/// what to do.
pub struct Step {
    pub phase: Phase,
    pub notice: NoticeView,
    pub action: Action,
}

/// The line that reports a failed fetch.
pub open spec fn failure_line(error: WeatherError) -> Seq<char> {
    "Could not fetch weather data! "@ + message_of(error)
}

/// What is printed for the result of a fetch when there is no display
/// surface.
pub open spec fn notice_of(
    location: LocationView,
    fetched: Result<WeatherReading, WeatherError>,
) -> NoticeView {
    match fetched {
        Ok(reading) => NoticeView::Info(info_line(reading, location.city, location.country)),
        Err(error) => NoticeView::Failure(failure_line(error)),
    }
}

/// The transition function of the scheduler.
///
/// - One-shot: one fetch; its result is printed and the program ends, with
///   exit code 0 after a reading and 1 after a failure.
/// - Unattended: fetch, print, sleep 15 minutes, and again, for ever.  A
///   failure is printed like a reading and ends nothing.
/// - Interactive: one fetch at the start and one for every request of the
///   display surface, whether or not earlier ones are still under way; every
///   result is handed to the surface in the order of completion.  Closing
///   the surface ends the program with exit code 0.
///
/// An event that the current phase does not wait for changes nothing.
pub open spec fn next(mode: RunMode, location: LocationView, phase: Phase, event: Event) -> Step {
    match (mode, phase, event) {
        (RunMode::OneShot, Phase::Idle, Event::Started) => Step {
            phase: Phase::Fetching,
            notice: NoticeView::Silent,
            action: Action::Fetch,
        },
        (RunMode::OneShot, Phase::Fetching, Event::Fetched(fetched)) => {
            let code = if fetched is Ok {
                EXIT_OK
            } else {
                EXIT_FAILURE
            };
            Step {
                phase: Phase::Finished { exit_code: code },
                notice: notice_of(location, fetched),
                action: Action::Exit { code },
            }
        },
        (RunMode::Unattended, Phase::Idle, Event::Started) => Step {
            phase: Phase::Fetching,
            notice: NoticeView::Silent,
            action: Action::Fetch,
        },
        (RunMode::Unattended, Phase::Fetching, Event::Fetched(fetched)) => Step {
            phase: Phase::Sleeping,
            notice: notice_of(location, fetched),
            action: Action::Sleep { millis: REFRESH_MILLIS },
        },
        (RunMode::Unattended, Phase::Sleeping, Event::Woke) => Step {
            phase: Phase::Fetching,
            notice: NoticeView::Silent,
            action: Action::Fetch,
        },
        (RunMode::Interactive, Phase::Idle, Event::Started) => Step {
            phase: Phase::Serving,
            notice: NoticeView::Silent,
            action: Action::Fetch,
        },
        (RunMode::Interactive, Phase::Serving, Event::RefreshRequested) => Step {
            phase: Phase::Serving,
            notice: NoticeView::Silent,
            action: Action::Fetch,
        },
        (RunMode::Interactive, Phase::Serving, Event::Fetched(fetched)) => Step {
            phase: Phase::Serving,
            notice: NoticeView::Silent,
            action: Action::Deliver(fetched),
        },
        (RunMode::Interactive, Phase::Serving, Event::SurfaceClosed) => Step {
            phase: Phase::Finished { exit_code: EXIT_OK },
            notice: NoticeView::Silent,
            action: Action::Exit { code: EXIT_OK },
        },
        _ => Step { phase, notice: NoticeView::Silent, action: Action::Wait },
    }
}

/// Picks the mode that the command line asks for.
pub fn run_mode(args: &CommandLineArgs) -> (mode: RunMode)
    ensures
        mode == mode_of(args.oneshot, args.headless),
{
    if args.oneshot {
        RunMode::OneShot
    } else if args.headless {
        RunMode::Unattended
    } else {
        RunMode::Interactive
    }
}

/// Puts into words the result of a fetch, for a program without a display
/// surface.
pub fn notice(location: &Location, fetched: Result<WeatherReading, WeatherError>) -> (said: Notice)
    ensures
        said@ == notice_of(location@, fetched),
{
    match get_weather(&location.city, &location.country, fetched) {
        Ok(info) => Notice::Info(info),
        Err(error) => {
            let mut line = String::from_str("Could not fetch weather data! ");
            let message = error.message();
            line.append(message.as_str());
            Notice::Failure(line)
        },
    }
}

/// The repeating-fetch lifecycle of one run of the program.
#[derive(Debug, PartialEq, Eq)]
pub struct Scheduler {
    /// How the program runs.
    pub mode: RunMode,
    /// The place whose weather is fetched.
    pub location: Location,
    /// Where the scheduler stands.
    pub phase: Phase,
}

impl Scheduler {
    /// A scheduler that has not started yet.
    pub fn new(mode: RunMode, location: Location) -> (scheduler: Scheduler)
        ensures
            scheduler.mode == mode,
            scheduler.location == location,
            scheduler.phase == Phase::Idle,
    {
        Scheduler { mode, location, phase: Phase::Idle }
    }

    /// Answers one event: moves the scheduler on and returns what to print
    /// and what to do.  Mode and location never change.
    pub fn handle(&mut self, event: Event) -> (answer: (Notice, Action))
        ensures
            final(self).mode == old(self).mode,
            final(self).location == old(self).location,
            final(self).phase == next(
                old(self).mode,
                old(self).location@,
                old(self).phase,
                event,
            ).phase,
            answer.0@ == next(old(self).mode, old(self).location@, old(self).phase, event).notice,
            answer.1 == next(old(self).mode, old(self).location@, old(self).phase, event).action,
    {
        match (self.mode, self.phase, event) {
            (RunMode::OneShot, Phase::Idle, Event::Started) => {
                self.phase = Phase::Fetching;
                (Notice::Silent, Action::Fetch)
            },
            (RunMode::OneShot, Phase::Fetching, Event::Fetched(fetched)) => {
                let code: i32 = match fetched {
                    Ok(_) => EXIT_OK,
                    Err(_) => EXIT_FAILURE,
                };
                self.phase = Phase::Finished { exit_code: code };
                (notice(&self.location, fetched), Action::Exit { code })
            },
            (RunMode::Unattended, Phase::Idle, Event::Started) => {
                self.phase = Phase::Fetching;
                (Notice::Silent, Action::Fetch)
            },
            (RunMode::Unattended, Phase::Fetching, Event::Fetched(fetched)) => {
                self.phase = Phase::Sleeping;
                (notice(&self.location, fetched), Action::Sleep { millis: REFRESH_MILLIS })
            },
            (RunMode::Unattended, Phase::Sleeping, Event::Woke) => {
                self.phase = Phase::Fetching;
                (Notice::Silent, Action::Fetch)
            },
            (RunMode::Interactive, Phase::Idle, Event::Started) => {
                self.phase = Phase::Serving;
                (Notice::Silent, Action::Fetch)
            },
            (RunMode::Interactive, Phase::Serving, Event::RefreshRequested) => (
                Notice::Silent,
                Action::Fetch,
            ),
            (RunMode::Interactive, Phase::Serving, Event::Fetched(fetched)) => (
                Notice::Silent,
                Action::Deliver(fetched),
            ),
            (RunMode::Interactive, Phase::Serving, Event::SurfaceClosed) => {
                self.phase = Phase::Finished { exit_code: EXIT_OK };
                (Notice::Silent, Action::Exit { code: EXIT_OK })
            },
            _ => (Notice::Silent, Action::Wait),
        }
    }
}

/// How a run of the program begins.
#[derive(Debug, PartialEq, Eq)]
pub enum Boot {
    /// There is no location.  The program prints its guidance and ends with
    /// `exit_code`; nothing is fetched.
    Refused { error: ConfigurationError, exit_code: i32 },
    /// There is a location, and a scheduler to run with it.
    Ready(Scheduler),
}

/// Begins a run: settles the location from the command line and the two
/// values of the configuration file, and picks the mode.  Without a location
/// there is no scheduler, and so no fetch.
pub fn boot(
    args: CommandLineArgs,
    config_city: Option<String>,
    config_country: Option<String>,
) -> (begun: Boot)
    ensures
        match resolved(
            text_of(args.city),
            text_of(args.country),
            text_of(config_city),
            text_of(config_country),
        ) {
            Some(location) => {
                &&& begun matches Boot::Ready(scheduler)
                &&& scheduler.location@ == location
                &&& scheduler.location.well_formed()
                &&& scheduler.mode == mode_of(args.oneshot, args.headless)
                &&& scheduler.phase == Phase::Idle
            },
            None => begun == (Boot::Refused {
                error: ConfigurationError::LocationMissing,
                exit_code: EXIT_FAILURE,
            }),
        },
{
    let mode = run_mode(&args);
    match resolve(args.city, args.country, config_city, config_country) {
        Ok(location) => Boot::Ready(Scheduler::new(mode, location)),
        Err(error) => Boot::Refused { error, exit_code: EXIT_FAILURE },
    }
}

/// The number of fetches that a scheduler asks for while it takes a run of
/// events, starting in `phase`.
pub open spec fn fetches_asked(
    mode: RunMode,
    location: LocationView,
    phase: Phase,
    events: Seq<Event>,
) -> nat
    decreases events.len(),
{
    if events.len() == 0 {
        0
    } else {
        let step = next(mode, location, phase, events.first());
        let asked: nat = if step.action == Action::Fetch {
            1
        } else {
            0
        };
        asked + fetches_asked(mode, location, step.phase, events.drop_first())
    }
}

/// A one-shot run fetches once at most, whatever is reported to it: once
/// from the start, and never again after that.
pub proof fn lemma_one_shot_fetches_once(location: LocationView, phase: Phase, events: Seq<Event>)
    ensures
        phase is Idle ==> fetches_asked(RunMode::OneShot, location, phase, events) <= 1,
        !(phase is Idle) ==> fetches_asked(RunMode::OneShot, location, phase, events) == 0,
    decreases events.len(),
{
    if events.len() > 0 {
        let step = next(RunMode::OneShot, location, phase, events.first());
        lemma_one_shot_fetches_once(location, step.phase, events.drop_first());
    }
}

/// A scheduler that has finished stays finished and asks for nothing more.
pub proof fn lemma_finished_is_final(
    mode: RunMode,
    location: LocationView,
    phase: Phase,
    event: Event,
)
    requires
        phase is Finished,
    ensures
        next(mode, location, phase, event).phase == phase,
        next(mode, location, phase, event).action == Action::Wait,
        next(mode, location, phase, event).notice == NoticeView::Silent,
{
}

/// A one-shot run ends with the result of its one fetch: with exit code 0
/// after a reading, with exit code 1 after a failure, and never fetches
/// again.
pub proof fn lemma_one_shot_ends(
    location: LocationView,
    fetched: Result<WeatherReading, WeatherError>,
    event: Event,
)
    ensures
        next(RunMode::OneShot, location, Phase::Fetching, Event::Fetched(fetched)).action == (
        Action::Exit { code: if fetched is Ok {
            EXIT_OK
        } else {
            EXIT_FAILURE
        } }),
        next(RunMode::OneShot, location, Phase::Fetching, Event::Fetched(fetched)).phase
            is Finished,
        next(RunMode::OneShot, location, Phase::Fetching, event).action != Action::Fetch,
{
}

/// An unattended run never ends: no event takes it to the finished phase,
/// and after every fetch, failed or not, it sleeps the full interval.
pub proof fn lemma_unattended_goes_on(
    location: LocationView,
    phase: Phase,
    event: Event,
    fetched: Result<WeatherReading, WeatherError>,
)
    requires
        !(phase is Finished),
    ensures
        !(next(RunMode::Unattended, location, phase, event).phase is Finished),
        !(next(RunMode::Unattended, location, phase, event).action is Exit),
        next(RunMode::Unattended, location, Phase::Fetching, Event::Fetched(fetched)).action
            == (Action::Sleep { millis: REFRESH_MILLIS }),
        next(RunMode::Unattended, location, Phase::Sleeping, Event::Woke).action == Action::Fetch,
{
}

/// In interactive mode every request of the display surface starts a fetch,
/// however many are under way, and every result is handed on as it comes.
pub proof fn lemma_interactive_never_coalesces(
    location: LocationView,
    fetched: Result<WeatherReading, WeatherError>,
)
    ensures
        next(RunMode::Interactive, location, Phase::Serving, Event::RefreshRequested).action
            == Action::Fetch,
        next(RunMode::Interactive, location, Phase::Serving, Event::RefreshRequested).phase
            == Phase::Serving,
        next(RunMode::Interactive, location, Phase::Serving, Event::Fetched(fetched)).action
            == Action::Deliver(fetched),
        next(RunMode::Interactive, location, Phase::Serving, Event::Fetched(fetched)).phase
            == Phase::Serving,
{
}

/// A failed fetch is never fetched again at once: the answer to a result is
/// never a fetch.
pub proof fn lemma_no_immediate_retry(
    mode: RunMode,
    location: LocationView,
    phase: Phase,
    fetched: Result<WeatherReading, WeatherError>,
)
    ensures
        next(mode, location, phase, Event::Fetched(fetched)).action != Action::Fetch,
{
}

} // verus!
