use taskbar_weather::query::weather::{
    get_weather, request_url, Exchange, Status, Temperature, WeatherError, WeatherReading,
};

fn reading(temp: i32, feels_like: i32) -> WeatherReading {
    WeatherReading {
        temp: Temperature { hundredths: temp },
        feels_like: Temperature { hundredths: feels_like },
    }
}

fn one_decimal(hundredths: i32) -> String {
    Temperature { hundredths }.to_one_decimal()
}

#[test]
fn temperature_rounds_to_one_decimal() {
    assert_eq!(one_decimal(735), "7.4");
    assert_eq!(one_decimal(734), "7.3");
    assert_eq!(one_decimal(736), "7.4");
    assert_eq!(one_decimal(1250), "12.5");
    assert_eq!(one_decimal(2000), "20.0");
}

#[test]
fn temperature_ties_go_to_the_even_tenth() {
    assert_eq!(one_decimal(725), "7.2");
    assert_eq!(one_decimal(715), "7.2");
    assert_eq!(one_decimal(5), "0.0");
    assert_eq!(one_decimal(15), "0.2");
    assert_eq!(one_decimal(-725), "-7.2");
    assert_eq!(one_decimal(-735), "-7.4");
}

#[test]
fn temperature_rounding_carries_into_the_whole_degrees() {
    assert_eq!(one_decimal(995), "10.0");
    assert_eq!(one_decimal(996), "10.0");
    assert_eq!(one_decimal(9996), "100.0");
    assert_eq!(one_decimal(-96), "-1.0");
}

#[test]
fn temperature_around_zero() {
    assert_eq!(one_decimal(0), "0.0");
    assert_eq!(one_decimal(4), "0.0");
    assert_eq!(one_decimal(6), "0.1");
    assert_eq!(one_decimal(-4), "-0.0");
    assert_eq!(one_decimal(-6), "-0.1");
    assert_eq!(one_decimal(-100), "-1.0");
}

#[test]
fn temperature_at_the_ends_of_the_range() {
    assert_eq!(one_decimal(i32::MAX), "21474836.5");
    assert_eq!(one_decimal(i32::MIN), "-21474836.5");
}

#[test]
fn temperature_agrees_with_float_formatting_on_exact_fractions() {
    let mut hundredths: i32 = -5000;
    while hundredths <= 5000 {
        if hundredths != 0 {
            let float = hundredths as f64 / 100.0;
            assert_eq!(one_decimal(hundredths), format!("{:.1}", float));
        }
        hundredths += 25;
    }
}

#[test]
fn temperature_is_appended_to_what_is_there() {
    let mut text = String::from("now: ");
    Temperature { hundredths: -1234 }.push_one_decimal(&mut text);
    assert_eq!(text, "now: -12.3");
}

#[test]
fn status_holds_codes_from_100_to_999() {
    assert_eq!(Status::from_u16(0), None);
    assert_eq!(Status::from_u16(99), None);
    assert_eq!(Status::from_u16(100).unwrap().as_u16(), 100);
    assert_eq!(Status::from_u16(404).unwrap().as_u16(), 404);
    assert_eq!(Status::from_u16(999).unwrap().as_u16(), 999);
    assert_eq!(Status::from_u16(1000), None);
    assert_eq!(Status::from_u16(u16::MAX), None);
}

#[test]
fn status_success_is_200_to_299() {
    assert!(!Status::from_u16(100).unwrap().is_success());
    assert!(!Status::from_u16(199).unwrap().is_success());
    assert!(Status::from_u16(200).unwrap().is_success());
    assert!(Status::from_u16(204).unwrap().is_success());
    assert!(Status::from_u16(299).unwrap().is_success());
    assert!(!Status::from_u16(300).unwrap().is_success());
    assert!(!Status::from_u16(404).unwrap().is_success());
    assert!(!Status::from_u16(999).unwrap().is_success());
}

#[test]
fn status_agrees_with_the_http_client() {
    let mut code: u16 = 0;
    while code < 1100 {
        match (Status::from_u16(code), reqwest::StatusCode::from_u16(code)) {
            (Some(ours), Ok(theirs)) => {
                assert_eq!(ours.as_u16(), theirs.as_u16());
                assert_eq!(ours.is_success(), theirs.is_success());
                assert_eq!(ours.to_text(), theirs.to_string());
            }
            (None, Err(_)) => {}
            _ => panic!("disagreement on {}", code),
        }
        code += 1;
    }
}

#[test]
fn status_text_has_number_and_reason() {
    assert_eq!(Status::from_u16(200).unwrap().to_text(), "200 OK");
    assert_eq!(Status::from_u16(404).unwrap().to_text(), "404 Not Found");
    assert_eq!(Status::from_u16(503).unwrap().to_text(), "503 Service Unavailable");
    assert_eq!(Status::from_u16(999).unwrap().to_text(), "999 <unknown status code>");
}

#[test]
fn network_failure_message() {
    assert_eq!(
        WeatherError::Network.message(),
        "Could not connect to the weather service. Internet in fire?"
    );
}

#[test]
fn server_failure_message_names_the_status() {
    let status = Status::from_u16(500).unwrap();
    assert_eq!(
        WeatherError::Server(status).message(),
        "Weather service responded with an error (Status: 500 Internal Server Error). It might be temporarily down."
    );
}

#[test]
fn decode_failure_message() {
    assert_eq!(
        WeatherError::Decode.message(),
        "Received an undecipherable response from the weather service?!"
    );
}

#[test]
fn request_url_names_city_and_country() {
    assert_eq!(
        request_url("Oulu", "FI"),
        "https://msukanen.net/api/weather?city=Oulu&country=FI"
    );
}

#[test]
fn request_url_takes_the_values_as_they_are() {
    assert_eq!(
        request_url("New York", ""),
        "https://msukanen.net/api/weather?city=New York&country="
    );
    assert_eq!(
        request_url("Jyv\u{e4}skyl\u{e4}", "fi"),
        "https://msukanen.net/api/weather?city=Jyv\u{e4}skyl\u{e4}&country=fi"
    );
}

#[test]
fn unreachable_service_is_a_network_failure() {
    assert_eq!(get_weather(Exchange::Unreachable), Err(WeatherError::Network));
}

#[test]
fn unsuccessful_status_is_a_server_failure() {
    let status = Status::from_u16(404).unwrap();
    assert_eq!(
        get_weather(Exchange::Answered { status, body: None }),
        Err(WeatherError::Server(status))
    );
}

#[test]
fn unsuccessful_status_goes_before_the_body() {
    let status = Status::from_u16(301).unwrap();
    assert_eq!(
        get_weather(Exchange::Answered { status, body: Some(reading(735, 520)) }),
        Err(WeatherError::Server(status))
    );
}

#[test]
fn unreadable_body_is_a_decode_failure() {
    let status = Status::from_u16(200).unwrap();
    assert_eq!(get_weather(Exchange::Answered { status, body: None }), Err(WeatherError::Decode));
}

#[test]
fn successful_answer_is_its_reading() {
    let status = Status::from_u16(200).unwrap();
    assert_eq!(
        get_weather(Exchange::Answered { status, body: Some(reading(735, 520)) }),
        Ok(reading(735, 520))
    );
    let status = Status::from_u16(299).unwrap();
    assert_eq!(
        get_weather(Exchange::Answered { status, body: Some(reading(-40, -1200)) }),
        Ok(reading(-40, -1200))
    );
}
