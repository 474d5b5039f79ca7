use weather_cli::records::CurrentConditions;
use weather_cli::records::Location;
use weather_cli::records::PublicAddress;
use weather_cli::records::UnitLabels;
use weather_cli::records::WeatherReport;
use weather_cli::report::Flags;
use weather_cli::report::day_label;
use weather_cli::report::render_output;

fn sample_address() -> PublicAddress {
    PublicAddress { ip: "203.0.113.9".to_string() }
}

fn sample_location() -> Location {
    Location {
        latitude: "51.5074".to_string(),
        longitude: "-0.1278".to_string(),
        city: "London".to_string(),
        country: "United Kingdom".to_string(),
    }
}

fn sample_report(is_day: i64, is_day_text: &str) -> WeatherReport {
    WeatherReport {
        units: UnitLabels {
            temperature: "C".to_string(),
            humidity: "%".to_string(),
            precipitation: "mm".to_string(),
            rain: "mm".to_string(),
            showers: "mm".to_string(),
            snowfall: "cm".to_string(),
        },
        current: CurrentConditions {
            time: "2024-05-01T12:00".to_string(),
            temperature: "21.5".to_string(),
            humidity: "58".to_string(),
            apparent_temperature: "20.9".to_string(),
            is_day,
            is_day_text: is_day_text.to_string(),
            precipitation: "0.0".to_string(),
            rain: "0.0".to_string(),
            showers: "0.25".to_string(),
            snowfall: "0.0".to_string(),
        },
    }
}

#[test]
fn full_report_has_nine_lines_in_fixed_order() {
    let flags = Flags::all_clear();
    let out = render_output(&flags, &sample_address(), &sample_location(), &sample_report(1, "1"));
    assert_eq!(out.len(), 9);
    assert_eq!(out[0], "Location: London, United Kingdom");
    assert_eq!(out[1], "Time: 2024-05-01T12:00 (Day)");
    assert_eq!(out[2], "Temperature: 21.5 C");
    assert_eq!(out[3], "Relative Humidity: 58 %");
    assert_eq!(out[4], "Apparent Temperature: 20.9");
    assert_eq!(out[5], "Precipitation: 0.0 mm");
    assert_eq!(out[6], "Rain: 0.0 mm");
    assert_eq!(out[7], "Showers: 0.25 mm");
    assert_eq!(out[8], "Snowfall: 0.0 cm");
}

#[test]
fn zero_indicator_prints_night() {
    let flags = Flags::all_clear();
    let out = render_output(&flags, &sample_address(), &sample_location(), &sample_report(0, "0"));
    assert_eq!(out[1], "Time: 2024-05-01T12:00 (Night)");
}

#[test]
fn negative_indicator_prints_day() {
    let flags = Flags::all_clear();
    let out =
        render_output(&flags, &sample_address(), &sample_location(), &sample_report(-1, "-1"));
    assert_eq!(out[1], "Time: 2024-05-01T12:00 (Day)");
}

#[test]
fn day_label_is_zero_versus_nonzero() {
    assert_eq!(day_label(0), "Night");
    assert_eq!(day_label(1), "Day");
    assert_eq!(day_label(-1), "Day");
    assert_eq!(day_label(7), "Day");
}

#[test]
fn temperature_flag_beats_humidity_flag() {
    let mut flags = Flags::all_clear();
    flags.temperature = true;
    flags.humidity = true;
    let out = render_output(&flags, &sample_address(), &sample_location(), &sample_report(1, "1"));
    assert_eq!(out, vec!["21.5".to_string()]);
}

#[test]
fn humidity_flag_beats_later_flags() {
    let mut flags = Flags::all_clear();
    flags.humidity = true;
    flags.rain = true;
    flags.ip = true;
    let out = render_output(&flags, &sample_address(), &sample_location(), &sample_report(1, "1"));
    assert_eq!(out, vec!["58".to_string()]);
}

#[test]
fn nightorday_flag_prints_raw_indicator() {
    let mut flags = Flags::all_clear();
    flags.nightorday = true;
    let out = render_output(&flags, &sample_address(), &sample_location(), &sample_report(0, "0"));
    assert_eq!(out, vec!["0".to_string()]);
}

#[test]
fn ip_flag_prints_raw_address() {
    let mut flags = Flags::all_clear();
    flags.ip = true;
    let out = render_output(&flags, &sample_address(), &sample_location(), &sample_report(1, "1"));
    assert_eq!(out, vec!["203.0.113.9".to_string()]);
}

#[test]
fn snowfall_flag_prints_value_without_unit() {
    let mut flags = Flags::all_clear();
    flags.snowfall = true;
    let out = render_output(&flags, &sample_address(), &sample_location(), &sample_report(1, "1"));
    assert_eq!(out, vec!["0.0".to_string()]);
}
