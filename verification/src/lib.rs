//! A small weather status library: it resolves a city name and an API
//! credential from arguments, environment pairs and a dotenv-style file,
//! decodes a weather provider's JSON answer, and renders a one-line status
//! string with a glyph for the sky condition.

pub mod config;
pub mod decode;
pub mod formatter;
pub mod icons;
pub mod output;
pub mod strnum;

pub use config::Config;
pub use config::ConfigError;
pub use config::config_file_path;
pub use config::lookup;
pub use config::resolve;
pub use decode::ApiError;
pub use decode::decode_response;
pub use formatter::OutputStyle;
pub use formatter::WeatherReading;
pub use formatter::format_reading;
pub use icons::icon_for;
pub use output::Output;
pub use output::parse_output_line;
pub use strnum::i64_to_string;
pub use strnum::str_eq;
pub use strnum::u64_to_string;
