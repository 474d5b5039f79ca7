use weather_cli::errors::PipelineError;
use weather_cli::pipeline::Stage;
use weather_cli::report::Flags;

const IP_BODY: &str = r#"{"ip":"203.0.113.9"}"#;
const GEO_BODY: &str =
    r#"{"lat":51.5074,"lon":-0.1278,"city":"London","country":"United Kingdom"}"#;
const WEATHER_BODY: &str = r#"{"current_units":{"time":"iso8601","temperature_2m":"C","relative_humidity_2m":"%","apparent_temperature":"C","is_day":"","precipitation":"mm","rain":"mm","showers":"mm","snowfall":"cm"},"current":{"time":"2024-05-01T12:00","temperature_2m":21.5,"relative_humidity_2m":58,"apparent_temperature":20.9,"is_day":0,"precipitation":0.0,"rain":0.0,"showers":0.25,"snowfall":0.0}}"#;

#[test]
fn first_request_is_the_ip_echo_service() {
    let url = Stage::ResolveIp.request_url();
    assert_eq!(url, Some("https://api.ipify.org?format=json".to_string()));
}

#[test]
fn second_request_embeds_the_address_in_the_path() {
    let stage = Stage::ResolveIp.advance(IP_BODY).expect("ip body must decode");
    let url = stage.request_url();
    assert_eq!(url, Some("http://ip-api.com/json/203.0.113.9".to_string()));
}

#[test]
fn third_request_embeds_the_coordinates_as_query_parameters() {
    let stage = Stage::ResolveIp
        .advance(IP_BODY)
        .expect("ip body must decode")
        .advance(GEO_BODY)
        .expect("geo body must decode");
    let url = stage.request_url();
    assert_eq!(
        url,
        Some(
            "https://api.open-meteo.com/v1/forecast?latitude=51.5074&longitude=-0.1278&current=temperature_2m,relative_humidity_2m,apparent_temperature,is_day,precipitation,rain,showers,snowfall"
                .to_string()
        )
    );
}

#[test]
fn complete_run_owes_no_request_and_yields_the_report() {
    let stage = Stage::ResolveIp
        .advance(IP_BODY)
        .expect("ip body must decode")
        .advance(GEO_BODY)
        .expect("geo body must decode")
        .advance(WEATHER_BODY)
        .expect("weather body must decode");
    assert!(stage.request_url().is_none());
    let lines = stage.finish(&Flags::all_clear()).expect("complete run must render");
    assert_eq!(lines.len(), 9);
    assert_eq!(lines[0], "Location: London, United Kingdom");
    assert_eq!(lines[1], "Time: 2024-05-01T12:00 (Night)");
}

#[test]
fn unfinished_run_yields_no_lines() {
    let stage = Stage::ResolveIp.advance(IP_BODY).expect("ip body must decode");
    assert!(stage.finish(&Flags::all_clear()).is_none());
    assert!(Stage::ResolveIp.finish(&Flags::all_clear()).is_none());
}

#[test]
fn malformed_body_aborts_the_run() {
    let stage = Stage::ResolveIp.advance(IP_BODY).expect("ip body must decode");
    let r = stage.advance(r#"{"lat":51.5074,"lon":-0.1278,"city":"London"}"#);
    assert!(matches!(r, Err(PipelineError::ParseError)));
}

#[test]
fn error_descriptions_are_fixed() {
    assert_eq!(PipelineError::NetworkError.describe(), "network error");
    assert_eq!(PipelineError::ParseError.describe(), "malformed response");
}
