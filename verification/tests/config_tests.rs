use weather::ConfigError;
use weather::config_file_path;
use weather::lookup;
use weather::resolve;

fn pairs(list: &[(&str, &str)]) -> Vec<(String, String)> {
    let mut v: Vec<(String, String)> = Vec::new();
    for (k, val) in list {
        v.push((String::from(*k), String::from(*val)));
    }
    v
}

fn strings(list: &[&str]) -> Vec<String> {
    let mut v: Vec<String> = Vec::new();
    for s in list {
        v.push(String::from(*s));
    }
    v
}

#[test]
fn cli_city_wins_over_env() {
    let args = strings(&["Berlin"]);
    let env = pairs(&[("CITY", "Paris"), ("WEATHER_API", "k")]);
    let config = resolve(&args, &env, None).unwrap();
    assert_eq!(config.city, "Berlin");
}

#[test]
fn env_city_is_the_fallback() {
    let args = strings(&[]);
    let env = pairs(&[("CITY", "Paris"), ("WEATHER_API", "k")]);
    let config = resolve(&args, &env, None).unwrap();
    assert_eq!(config.city, "Paris");
}

#[test]
fn no_city_source_fails_before_any_request() {
    let args = strings(&[]);
    let env = pairs(&[("WEATHER_API", "k")]);
    let r = resolve(&args, &env, None);
    assert_eq!(r.unwrap_err(), ConfigError::MissingCity);
}

#[test]
fn env_key_wins_over_file_key() {
    let args = strings(&["Berlin"]);
    let env = pairs(&[("WEATHER_API", "from-env")]);
    let file = pairs(&[("WEATHER_API", "from-file")]);
    let config = resolve(&args, &env, Some(&file)).unwrap();
    assert_eq!(config.api_key, "from-env");
}

#[test]
fn file_key_is_the_fallback() {
    let args = strings(&["Berlin"]);
    let env = pairs(&[("CITY", "Paris")]);
    let file = pairs(&[("OTHER", "x"), ("WEATHER_API", "from-file")]);
    let config = resolve(&args, &env, Some(&file)).unwrap();
    assert_eq!(config.api_key, "from-file");
    assert_eq!(config.city, "Berlin");
}

#[test]
fn no_key_anywhere_fails() {
    let args = strings(&["Berlin"]);
    let env = pairs(&[]);
    let file = pairs(&[("OTHER", "x")]);
    let r = resolve(&args, &env, Some(&file));
    assert_eq!(r.unwrap_err(), ConfigError::MissingApiKey);
}

#[test]
fn unreadable_file_is_not_fatal_when_env_has_key() {
    let args = strings(&["Berlin"]);
    let env = pairs(&[("WEATHER_API", "k")]);
    let config = resolve(&args, &env, None).unwrap();
    assert_eq!(config.api_key, "k");
}

#[test]
fn unreadable_file_without_env_key_fails() {
    let args = strings(&["Berlin"]);
    let env = pairs(&[]);
    let r = resolve(&args, &env, None);
    assert_eq!(r.unwrap_err(), ConfigError::MissingApiKey);
}

#[test]
fn second_argument_names_the_config_file() {
    let args = strings(&["Berlin", "/tmp/custom.env"]);
    let env = pairs(&[("HOME", "/home/u")]);
    assert_eq!(config_file_path(&args, &env), Some(String::from("/tmp/custom.env")));
}

#[test]
fn default_config_file_lies_under_home() {
    let args = strings(&["Berlin"]);
    let env = pairs(&[("HOME", "/home/u")]);
    assert_eq!(config_file_path(&args, &env), Some(String::from("/home/u/.env")));
}

#[test]
fn no_home_means_no_default_config_file() {
    let args = strings(&["Berlin"]);
    let env = pairs(&[]);
    assert_eq!(config_file_path(&args, &env), None);
}

#[test]
fn resolve_carries_the_config_file_path() {
    let args = strings(&["Berlin"]);
    let env = pairs(&[("HOME", "/home/u"), ("WEATHER_API", "k")]);
    let config = resolve(&args, &env, None).unwrap();
    assert_eq!(config.config_file_path, Some(String::from("/home/u/.env")));
}

#[test]
fn lookup_takes_the_first_match() {
    let env = pairs(&[("A", "one"), ("A", "two")]);
    assert_eq!(lookup(&env, "A"), Some(String::from("one")));
    assert_eq!(lookup(&env, "B"), None);
}

#[test]
fn request_url_is_exact() {
    let args = strings(&["Berlin"]);
    let env = pairs(&[("WEATHER_API", "k")]);
    let config = resolve(&args, &env, None).unwrap();
    assert_eq!(
        config.request_url(),
        "http://api.openweathermap.org/data/2.5/weather?q=Berlin&appid=k&units=metric"
    );
}
