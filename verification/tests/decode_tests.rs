use weather::ApiError;
use weather::OutputStyle;
use weather::decode_response;
use weather::format_reading;

#[test]
fn success_answer_decodes_and_formats() {
    let body = "{\"cod\":200,\"main\":{\"temp\":20.4},\"weather\":[{\"icon\":\"01d\"}]}";
    let reading = decode_response(body).unwrap();
    assert_eq!(reading.temperature_celsius, 20);
    assert_eq!(reading.condition_code, "01d");
    assert_eq!(reading.feels_like_celsius, None);
    assert_eq!(reading.location_name, None);
    assert_eq!(reading.description, None);
    let out = format_reading(&reading, OutputStyle::Plain);
    assert_eq!(out.text, "\u{f0599} 20\u{b0}C");
}

#[test]
fn full_answer_carries_the_optional_fields() {
    let body = "{\"cod\":200,\"name\":\"Berlin\",\"main\":{\"temp\":19.6,\"feels_like\":18.2},\"weather\":[{\"icon\":\"10d\",\"main\":\"Rain\"}]}";
    let reading = decode_response(body).unwrap();
    assert_eq!(reading.temperature_celsius, 20);
    assert_eq!(reading.feels_like_celsius, Some(18));
    assert_eq!(reading.location_name, Some(String::from("Berlin")));
    assert_eq!(reading.description, Some(String::from("Rain")));
    let out = format_reading(&reading, OutputStyle::WithTooltip);
    assert_eq!(
        out.tooltip,
        "Weather in Berlin\nFeels like: 18\u{b0}C\nForecast: Rain"
    );
}

#[test]
fn rounding_is_to_the_nearest_degree() {
    let a = decode_response("{\"cod\":200,\"main\":{\"temp\":-0.4},\"weather\":[{\"icon\":\"01d\"}]}");
    assert_eq!(a.unwrap().temperature_celsius, 0);
    let b = decode_response("{\"cod\":200,\"main\":{\"temp\":-2.5},\"weather\":[{\"icon\":\"01d\"}]}");
    assert_eq!(b.unwrap().temperature_celsius, -3);
    let c = decode_response("{\"cod\":200,\"main\":{\"temp\":2.5},\"weather\":[{\"icon\":\"01d\"}]}");
    assert_eq!(c.unwrap().temperature_celsius, 3);
}

#[test]
fn provider_refusal_surfaces_its_message() {
    let body = "{\"cod\":404,\"message\":\"city not found\"}";
    match decode_response(body) {
        Err(ApiError::Provider { message }) => {
            assert!(message.contains("city not found"));
        },
        _ => panic!("expected the provider's refusal"),
    }
}

#[test]
fn provider_refusal_with_a_string_status() {
    let body = "{\"cod\":\"404\",\"message\":\"city not found\"}";
    match decode_response(body) {
        Err(ApiError::Provider { message }) => {
            assert_eq!(message, "city not found");
        },
        _ => panic!("expected the provider's refusal"),
    }
}

#[test]
fn text_that_is_no_json_is_a_decode_error() {
    match decode_response("not json at all") {
        Err(ApiError::Decode) => {},
        _ => panic!("expected a decode error"),
    }
}

#[test]
fn a_success_answer_without_temperature_is_malformed() {
    let body = "{\"cod\":200,\"main\":{},\"weather\":[{\"icon\":\"01d\"}]}";
    match decode_response(body) {
        Err(ApiError::Decode) => {},
        _ => panic!("expected a decode error"),
    }
}

#[test]
fn a_success_answer_without_icon_is_malformed() {
    let body = "{\"cod\":200,\"main\":{\"temp\":1.0},\"weather\":[]}";
    match decode_response(body) {
        Err(ApiError::Decode) => {},
        _ => panic!("expected a decode error"),
    }
}
