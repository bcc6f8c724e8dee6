//! Resolution of the effective city name, API credential and config-file
//! path from command-line arguments, environment pairs and the pairs read
//! out of a dotenv-style file, in a fixed precedence order.

use vstd::prelude::*;
use crate::strnum::str_eq;
use vstd::string::StringExecFns;

verus! {

/// The effective configuration of one invocation.
#[derive(Debug, Clone)]
pub struct Config {
    pub city: String,
    pub api_key: String,
    pub config_file_path: Option<String>,
}

/// Why no configuration could be put together.
#[derive(PartialEq, Eq, Structural, Debug, Clone, Copy)]
pub enum ConfigError {
    /// No positional argument and no `CITY` environment entry.
    MissingCity,
    /// A city was found, but no `WEATHER_API` entry anywhere.
    MissingApiKey,
}

/// The first value bound to `key` in an association list, scanning from
/// position `i`.
pub open spec fn spec_lookup_from(
    pairs: Seq<(String, String)>,
    key: Seq<char>,
    i: int,
) -> Option<Seq<char>>
    decreases pairs.len() - i,
{
    if i < 0 || i >= pairs.len() {
        None
    } else if pairs[i].0@ == key {
        Some(pairs[i].1@)
    } else {
        spec_lookup_from(pairs, key, i + 1)
    }
}

/// The first value bound to `key` in an association list.
pub open spec fn spec_lookup(pairs: Seq<(String, String)>, key: Seq<char>) -> Option<Seq<char>> {
    spec_lookup_from(pairs, key, 0)
}

/// The effective city: the first positional argument wins, else the
/// `CITY` environment entry.
pub open spec fn spec_city(args: Seq<String>, env: Seq<(String, String)>) -> Option<Seq<char>> {
    if args.len() > 0 {
        Some(args[0]@)
    } else {
        spec_lookup(env, "CITY"@)
    }
}

/// The effective credential: the `WEATHER_API` environment entry wins,
/// else the same key among the pairs read from the config file, if that
/// file could be read at all.
pub open spec fn spec_api_key(
    env: Seq<(String, String)>,
    file: Option<Seq<(String, String)>>,
) -> Option<Seq<char>> {
    if spec_lookup(env, "WEATHER_API"@) is Some {
        spec_lookup(env, "WEATHER_API"@)
    } else {
        match file {
            Some(f) => spec_lookup(f, "WEATHER_API"@),
            None => None,
        }
    }
}

/// The config-file path: the second positional argument wins, else
/// `<home>/.env` when a `HOME` entry exists, else nothing.
pub open spec fn spec_config_file_path(
    args: Seq<String>,
    env: Seq<(String, String)>,
) -> Option<Seq<char>> {
    if args.len() > 1 {
        Some(args[1]@)
    } else {
        match spec_lookup(env, "HOME"@) {
            Some(h) => Some(h + "/.env"@),
            None => None,
        }
    }
}

/// The pairs of a file that could be read, or nothing for one that could
/// not.
pub open spec fn file_view(file_vars: Option<&Vec<(String, String)>>) -> Option<
    Seq<(String, String)>,
> {
    match file_vars {
        Some(f) => Some(f@),
        None => None,
    }
}

/// The fixed endpoint of the weather provider.
pub open spec fn spec_base_url() -> Seq<char> {
    "http://api.openweathermap.org/data/2.5/weather"@
}

/// The full query URL for a city and a credential: the fixed endpoint,
/// the city under `q`, the credential under `appid`, and metric units.
pub open spec fn spec_request_url(city: Seq<char>, api_key: Seq<char>) -> Seq<char> {
    spec_base_url() + "?q="@ + city + "&appid="@ + api_key + "&units=metric"@
}

impl Config {
    /// Builds the query URL that one invocation sends.
    pub fn request_url(&self) -> (r: String)
        ensures
            r@ == spec_request_url(self.city@, self.api_key@),
    {
        let mut r = String::from_str("http://api.openweathermap.org/data/2.5/weather");
        r.append("?q=");
        r.append(self.city.as_str());
        r.append("&appid=");
        r.append(self.api_key.as_str());
        r.append("&units=metric");
        proof {
            assert(r@ =~= spec_request_url(self.city@, self.api_key@));
        }
        r
    }
}

/// Finds the first pair whose key equals `key` and returns its value.
pub fn lookup(pairs: &Vec<(String, String)>, key: &str) -> (r: Option<String>)
    ensures
        (match r {
            Some(v) => spec_lookup(pairs@, key@) == Some(v@),
            None => spec_lookup(pairs@, key@) is None,
        }),
{
    let n = pairs.len();
    let mut i: usize = 0;
    while i < n
        invariant
            0 <= i <= n,
            n == pairs@.len(),
            spec_lookup(pairs@, key@) == spec_lookup_from(pairs@, key@, i as int),
        decreases n - i,
    {
        if str_eq(pairs[i].0.as_str(), key) {
            return Some(pairs[i].1.clone());
        }
        i += 1;
    }
    None
}

/// Picks the config-file path: the second positional argument wins,
/// else `<home>/.env` when a `HOME` entry exists. The pairs read from
/// this path feed `resolve`.
pub fn config_file_path(args: &Vec<String>, env: &Vec<(String, String)>) -> (r: Option<String>)
    ensures
        (match r {
            Some(p) => spec_config_file_path(args@, env@) == Some(p@),
            None => spec_config_file_path(args@, env@) is None,
        }),
{
    if args.len() > 1 {
        Some(args[1].clone())
    } else {
        match lookup(env, "HOME") {
            Some(h) => {
                let mut p = h;
                p.append("/.env");
                Some(p)
            },
            None => None,
        }
    }
}

/// Puts the effective configuration together, or says which required
/// value is missing. `args` holds the positional arguments only, the
/// program name excluded; `env` the process environment as pairs;
/// `file_vars` the pairs read out of the dotenv-style config file, or
/// nothing when that file could not be read (which is not an error).
pub fn resolve(
    args: &Vec<String>,
    env: &Vec<(String, String)>,
    file_vars: Option<&Vec<(String, String)>>,
) -> (r: Result<Config, ConfigError>)
    ensures
        (match r {
            Ok(c) => {
                &&& spec_city(args@, env@) == Some(c.city@)
                &&& spec_api_key(env@, file_view(file_vars)) == Some(c.api_key@)
                &&& (match c.config_file_path {
                    Some(p) => spec_config_file_path(args@, env@) == Some(p@),
                    None => spec_config_file_path(args@, env@) is None,
                })
            },
            Err(ConfigError::MissingCity) => spec_city(args@, env@) is None,
            Err(ConfigError::MissingApiKey) => spec_city(args@, env@) is Some && spec_api_key(
                env@,
                file_view(file_vars),
            ) is None,
        }),
{
    let city_opt = if args.len() > 0 {
        Some(args[0].clone())
    } else {
        lookup(env, "CITY")
    };
    let city = match city_opt {
        Some(c) => c,
        None => {
            return Err(ConfigError::MissingCity);
        },
    };
    let key_opt = match lookup(env, "WEATHER_API") {
        Some(k) => Some(k),
        None => match file_vars {
            Some(f) => lookup(f, "WEATHER_API"),
            None => None,
        },
    };
    let api_key = match key_opt {
        Some(k) => k,
        None => {
            return Err(ConfigError::MissingApiKey);
        },
    };
    let config_file_path = config_file_path(args, env);
    Ok(Config { city, api_key, config_file_path })
}

/// The city given on the command line wins over any `CITY` environment
/// entry, whatever that entry holds.
pub proof fn lemma_cli_city_wins(args: Seq<String>, env: Seq<(String, String)>)
    requires
        args.len() > 0,
    ensures
        spec_city(args, env) == Some(args[0]@),
{
}

/// With no positional argument and no `CITY` entry there is no city at
/// all, so resolution must fail before any request could be built.
pub proof fn lemma_no_city_source(args: Seq<String>, env: Seq<(String, String)>)
    requires
        args.len() == 0,
        spec_lookup(env, "CITY"@) is None,
    ensures
        spec_city(args, env) is None,
{
}

} // verus!
