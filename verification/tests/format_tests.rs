use weather::OutputStyle;
use weather::WeatherReading;
use weather::format_reading;
use weather::icon_for;

fn reading(temp: i64, code: &str) -> WeatherReading {
    WeatherReading {
        temperature_celsius: temp,
        feels_like_celsius: None,
        condition_code: String::from(code),
        location_name: None,
        description: None,
    }
}

#[test]
fn known_codes_have_their_glyphs() {
    assert_eq!(icon_for("01d"), "\u{f0599}");
    assert_eq!(icon_for("01n"), "\u{f0594}");
    assert_eq!(icon_for("02d"), "\u{f0595}");
    assert_eq!(icon_for("02n"), "\u{f0f31}");
    assert_eq!(icon_for("03d"), "\u{f0590}");
    assert_eq!(icon_for("03n"), "\u{f0590}");
    assert_eq!(icon_for("04d"), "\u{f0590}");
    assert_eq!(icon_for("04n"), "\u{f0590}");
    assert_eq!(icon_for("09"), "\u{f0596}");
    assert_eq!(icon_for("10d"), "\u{f0f33}");
    assert_eq!(icon_for("10n"), "\u{e325}");
    assert_eq!(icon_for("10n 11n"), "\u{e322}");
    assert_eq!(icon_for("10d 11d"), "\u{f0f32}");
    assert_eq!(icon_for("11"), "\u{e315}");
    assert_eq!(icon_for("13d"), "\u{e35f}");
    assert_eq!(icon_for("13n"), "\u{e327}");
    assert_eq!(icon_for("50d"), "\u{e303}");
    assert_eq!(icon_for("50n"), "\u{e346}");
}

#[test]
fn unknown_codes_map_to_the_empty_glyph() {
    assert_eq!(icon_for("zz"), "");
    assert_eq!(icon_for(""), "");
    assert_eq!(icon_for("01D"), "");
    assert_eq!(icon_for("99x"), "");
}

#[test]
fn text_holds_glyph_and_rounded_degrees() {
    let out = format_reading(&reading(20, "01d"), OutputStyle::Plain);
    assert_eq!(out.text, "\u{f0599} 20\u{b0}C");
    assert_eq!(out.tooltip, "");
}

#[test]
fn text_for_an_unknown_code_still_renders() {
    let out = format_reading(&reading(3, "weird"), OutputStyle::Plain);
    assert_eq!(out.text, " 3\u{b0}C");
}

#[test]
fn text_with_a_negative_temperature() {
    let out = format_reading(&reading(-5, "13d"), OutputStyle::Plain);
    assert_eq!(out.text, "\u{e35f} -5\u{b0}C");
}

#[test]
fn tooltip_with_every_field() {
    let mut r = reading(20, "01d");
    r.location_name = Some(String::from("Berlin"));
    r.feels_like_celsius = Some(19);
    r.description = Some(String::from("Clouds"));
    let out = format_reading(&r, OutputStyle::WithTooltip);
    assert_eq!(
        out.tooltip,
        "Weather in Berlin\nFeels like: 19\u{b0}C\nForecast: Clouds"
    );
}

#[test]
fn tooltip_omits_absent_fields() {
    let mut r = reading(20, "01d");
    r.description = Some(String::from("Clouds"));
    let out = format_reading(&r, OutputStyle::WithTooltip);
    assert_eq!(out.tooltip, "Forecast: Clouds");

    let mut r2 = reading(20, "01d");
    r2.location_name = Some(String::from("Berlin"));
    r2.description = Some(String::from("Rain"));
    let out2 = format_reading(&r2, OutputStyle::WithTooltip);
    assert_eq!(out2.tooltip, "Weather in Berlin\nForecast: Rain");
}

#[test]
fn tooltip_of_a_bare_reading_is_empty() {
    let out = format_reading(&reading(20, "01d"), OutputStyle::WithTooltip);
    assert_eq!(out.tooltip, "");
}
