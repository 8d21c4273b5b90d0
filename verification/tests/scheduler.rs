use taskbar_weather::cli::CommandLineArgs;
use taskbar_weather::location::{ConfigurationError, Location};
use taskbar_weather::query::weather::{Status, Temperature, WeatherError, WeatherReading};
use taskbar_weather::scheduler::{
    boot, notice, run_mode, Action, Boot, Event, Notice, Phase, RunMode, Scheduler, EXIT_FAILURE,
    EXIT_OK, REFRESH_MILLIS,
};

fn oulu() -> Location {
    Location { city: "Oulu".to_string(), country: "FI".to_string() }
}

fn reading() -> WeatherReading {
    WeatherReading {
        temp: Temperature { hundredths: 735 },
        feels_like: Temperature { hundredths: 520 },
    }
}

fn args(headless: bool, oneshot: bool, city: Option<&str>, country: Option<&str>) -> CommandLineArgs {
    CommandLineArgs {
        headless,
        oneshot,
        city: city.map(|s| s.to_string()),
        country: country.map(|s| s.to_string()),
    }
}

const LINE: &str = "7.4\u{2070}C (feels like 5.2\u{2070}C) at Oulu, FI";
const NETWORK: &str =
    "Could not fetch weather data! Could not connect to the weather service. Internet in fire?";

#[test]
fn scheduler_constants() {
    assert_eq!(REFRESH_MILLIS, 15 * 60 * 1000);
    assert_eq!((EXIT_OK, EXIT_FAILURE), (0, 1));
}

#[test]
fn mode_is_picked_from_the_flags() {
    assert_eq!(run_mode(&args(false, false, None, None)), RunMode::Interactive);
    assert_eq!(run_mode(&args(true, false, None, None)), RunMode::Unattended);
    assert_eq!(run_mode(&args(false, true, None, None)), RunMode::OneShot);
    assert_eq!(run_mode(&args(true, true, None, None)), RunMode::OneShot);
}

#[test]
fn boot_without_a_location_is_refused() {
    let refused = Boot::Refused { error: ConfigurationError::LocationMissing, exit_code: 1 };
    assert_eq!(boot(args(false, false, None, None), None, None), refused);
    assert_eq!(boot(args(true, false, Some("Oulu"), None), None, None), refused);
    assert_eq!(boot(args(false, true, None, Some("FI")), None, Some("FI".to_string())), refused);
    assert_eq!(boot(args(false, true, None, None), Some("Oulu".to_string()), None), refused);
}

#[test]
fn boot_with_a_location_is_ready() {
    let begun = boot(args(true, false, Some("Oulu"), None), Some("Kemi".to_string()), Some("fi".to_string()));
    assert_eq!(
        begun,
        Boot::Ready(Scheduler { mode: RunMode::Unattended, location: oulu(), phase: Phase::Idle })
    );
}

#[test]
fn notice_words_a_reading_and_a_failure() {
    assert_eq!(notice(&oulu(), Ok(reading())), Notice::Info(LINE.to_string()));
    assert_eq!(notice(&oulu(), Err(WeatherError::Network)), Notice::Failure(NETWORK.to_string()));
    let status = Status::from_u16(502).unwrap();
    assert_eq!(
        notice(&oulu(), Err(WeatherError::Server(status))),
        Notice::Failure(
            "Could not fetch weather data! Weather service responded with an error (Status: 502 Bad Gateway). It might be temporarily down."
                .to_string()
        )
    );
    assert_eq!(
        notice(&oulu(), Err(WeatherError::Decode)),
        Notice::Failure(
            "Could not fetch weather data! Received an undecipherable response from the weather service?!"
                .to_string()
        )
    );
}

#[test]
fn one_shot_prints_and_ends() {
    let mut scheduler = Scheduler::new(RunMode::OneShot, oulu());
    assert_eq!(scheduler.phase, Phase::Idle);
    assert_eq!(scheduler.handle(Event::Started), (Notice::Silent, Action::Fetch));
    assert_eq!(scheduler.phase, Phase::Fetching);
    assert_eq!(
        scheduler.handle(Event::Fetched(Ok(reading()))),
        (Notice::Info(LINE.to_string()), Action::Exit { code: 0 })
    );
    assert_eq!(scheduler.phase, Phase::Finished { exit_code: 0 });
    assert_eq!(scheduler.handle(Event::Started), (Notice::Silent, Action::Wait));
    assert_eq!(scheduler.handle(Event::Fetched(Ok(reading()))), (Notice::Silent, Action::Wait));
    assert_eq!(scheduler.phase, Phase::Finished { exit_code: 0 });
    assert_eq!(scheduler.location, oulu());
    assert_eq!(scheduler.mode, RunMode::OneShot);
}

#[test]
fn one_shot_failure_ends_with_exit_code_one() {
    let mut scheduler = Scheduler::new(RunMode::OneShot, oulu());
    scheduler.handle(Event::Started);
    assert_eq!(
        scheduler.handle(Event::Fetched(Err(WeatherError::Network))),
        (Notice::Failure(NETWORK.to_string()), Action::Exit { code: 1 })
    );
    assert_eq!(scheduler.phase, Phase::Finished { exit_code: 1 });
}

#[test]
fn unattended_fetches_prints_and_sleeps_for_ever() {
    let mut scheduler = Scheduler::new(RunMode::Unattended, oulu());
    assert_eq!(scheduler.handle(Event::Started), (Notice::Silent, Action::Fetch));
    let mut round = 0;
    while round < 5 {
        assert_eq!(scheduler.phase, Phase::Fetching);
        let fetched = if round % 2 == 0 { Ok(reading()) } else { Err(WeatherError::Network) };
        let said = if round % 2 == 0 {
            Notice::Info(LINE.to_string())
        } else {
            Notice::Failure(NETWORK.to_string())
        };
        assert_eq!(
            scheduler.handle(Event::Fetched(fetched)),
            (said, Action::Sleep { millis: 900_000 })
        );
        assert_eq!(scheduler.phase, Phase::Sleeping);
        assert_eq!(scheduler.handle(Event::Woke), (Notice::Silent, Action::Fetch));
        round += 1;
    }
}

#[test]
fn unattended_ignores_the_surface() {
    let mut scheduler = Scheduler::new(RunMode::Unattended, oulu());
    scheduler.handle(Event::Started);
    assert_eq!(scheduler.handle(Event::RefreshRequested), (Notice::Silent, Action::Wait));
    assert_eq!(scheduler.handle(Event::SurfaceClosed), (Notice::Silent, Action::Wait));
    assert_eq!(scheduler.handle(Event::Woke), (Notice::Silent, Action::Wait));
    assert_eq!(scheduler.phase, Phase::Fetching);
}

#[test]
fn interactive_fetches_at_once_and_on_every_request() {
    let mut scheduler = Scheduler::new(RunMode::Interactive, oulu());
    assert_eq!(scheduler.handle(Event::Started), (Notice::Silent, Action::Fetch));
    assert_eq!(scheduler.phase, Phase::Serving);
    assert_eq!(scheduler.handle(Event::RefreshRequested), (Notice::Silent, Action::Fetch));
    assert_eq!(scheduler.handle(Event::RefreshRequested), (Notice::Silent, Action::Fetch));
    assert_eq!(scheduler.phase, Phase::Serving);
    assert_eq!(
        scheduler.handle(Event::Fetched(Ok(reading()))),
        (Notice::Silent, Action::Deliver(Ok(reading())))
    );
    assert_eq!(
        scheduler.handle(Event::Fetched(Err(WeatherError::Decode))),
        (Notice::Silent, Action::Deliver(Err(WeatherError::Decode)))
    );
    assert_eq!(scheduler.phase, Phase::Serving);
}

#[test]
fn interactive_ends_when_the_surface_is_closed() {
    let mut scheduler = Scheduler::new(RunMode::Interactive, oulu());
    scheduler.handle(Event::Started);
    assert_eq!(scheduler.handle(Event::SurfaceClosed), (Notice::Silent, Action::Exit { code: 0 }));
    assert_eq!(scheduler.phase, Phase::Finished { exit_code: 0 });
    assert_eq!(scheduler.handle(Event::Fetched(Ok(reading()))), (Notice::Silent, Action::Wait));
    assert_eq!(scheduler.handle(Event::RefreshRequested), (Notice::Silent, Action::Wait));
}

#[test]
fn nothing_happens_before_the_start() {
    for mode in [RunMode::OneShot, RunMode::Unattended, RunMode::Interactive] {
        let mut scheduler = Scheduler::new(mode, oulu());
        for event in [
            Event::Fetched(Ok(reading())),
            Event::Woke,
            Event::RefreshRequested,
            Event::SurfaceClosed,
        ] {
            assert_eq!(scheduler.handle(event), (Notice::Silent, Action::Wait));
            assert_eq!(scheduler.phase, Phase::Idle);
        }
    }
}
