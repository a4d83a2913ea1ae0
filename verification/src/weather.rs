use vstd::prelude::*;

use vstd::string::{StrSliceExecFns, StringExecFns};

verus! {

/// The sky conditions the display distinguishes.
#[derive(Clone, Copy, Debug, PartialEq, Eq, Structural)]
pub enum WeatherCondition {
    Clear,
    PartlyCloudy,
    Cloudy,
    Overcast,
    Fog,
    Drizzle,
    Rain,
    FreezingRain,
    Snow,
    SnowGrains,
    RainShowers,
    SnowShowers,
    Thunderstorm,
    ThunderstormHail,
}

#[derive(Clone, Copy, Debug, PartialEq, Eq, Structural)]
pub enum RainIntensity {
    Drizzle,
    Light,
    Heavy,
    Storm,
}

#[derive(Clone, Copy, Debug, PartialEq, Eq, Structural)]
pub enum SnowIntensity {
    Light,
    Medium,
    Heavy,
}

impl WeatherCondition {
    /// How hard it rains under this condition.
    pub fn rain_intensity(&self) -> (r: RainIntensity)
        ensures
            r == (match *self {
                WeatherCondition::Drizzle => RainIntensity::Drizzle,
                WeatherCondition::FreezingRain => RainIntensity::Heavy,
                WeatherCondition::Thunderstorm => RainIntensity::Heavy,
                WeatherCondition::ThunderstormHail => RainIntensity::Storm,
                _ => RainIntensity::Light,
            }),
    {
        match self {
            Self::Drizzle => RainIntensity::Drizzle,
            Self::Rain | Self::RainShowers => RainIntensity::Light,
            Self::FreezingRain => RainIntensity::Heavy,
            Self::Thunderstorm => RainIntensity::Heavy,
            Self::ThunderstormHail => RainIntensity::Storm,
            _ => RainIntensity::Light,
        }
    }

    /// How hard it snows under this condition.
    pub fn snow_intensity(&self) -> (r: SnowIntensity)
        ensures
            r == (match *self {
                WeatherCondition::SnowShowers => SnowIntensity::Medium,
                WeatherCondition::Snow => SnowIntensity::Heavy,
                _ => SnowIntensity::Light,
            }),
    {
        match self {
            Self::SnowGrains => SnowIntensity::Light,
            Self::SnowShowers => SnowIntensity::Medium,
            Self::Snow => SnowIntensity::Heavy,
            _ => SnowIntensity::Light,
        }
    }

    pub fn is_raining(&self) -> (r: bool)
        ensures
            r == (*self matches WeatherCondition::Drizzle || *self matches WeatherCondition::Rain
                || *self matches WeatherCondition::RainShowers
                || *self matches WeatherCondition::FreezingRain
                || *self matches WeatherCondition::Thunderstorm
                || *self matches WeatherCondition::ThunderstormHail),
    {
        match self {
            Self::Drizzle
            | Self::Rain
            | Self::RainShowers
            | Self::FreezingRain
            | Self::Thunderstorm
            | Self::ThunderstormHail => true,
            _ => false,
        }
    }

    pub fn is_snowing(&self) -> (r: bool)
        ensures
            r == (*self matches WeatherCondition::Snow || *self matches WeatherCondition::SnowGrains
                || *self matches WeatherCondition::SnowShowers),
    {
        match self {
            Self::Snow | Self::SnowGrains | Self::SnowShowers => true,
            _ => false,
        }
    }

    pub fn is_thunderstorm(&self) -> (r: bool)
        ensures
            r == (*self matches WeatherCondition::Thunderstorm
                || *self matches WeatherCondition::ThunderstormHail),
    {
        match self {
            Self::Thunderstorm | Self::ThunderstormHail => true,
            _ => false,
        }
    }

    pub fn is_cloudy(&self) -> (r: bool)
        ensures
            r == (*self matches WeatherCondition::PartlyCloudy
                || *self matches WeatherCondition::Cloudy
                || *self matches WeatherCondition::Overcast),
    {
        match self {
            Self::PartlyCloudy | Self::Cloudy | Self::Overcast => true,
            _ => false,
        }
    }
}

#[derive(Clone, Copy, Debug, PartialEq, Eq, Structural)]
pub enum TemperatureUnit {
    Celsius,
    Fahrenheit,
}

#[derive(Clone, Copy, Debug, PartialEq, Eq, Structural)]
pub enum WindSpeedUnit {
    Kmh,
    Ms,
    Mph,
    Kn,
}

#[derive(Clone, Copy, Debug, PartialEq, Eq, Structural)]
pub enum PrecipitationUnit {
    Mm,
    Inch,
}

/// The units the display reports measurements in.
#[derive(Clone, Copy, Debug, PartialEq, Eq, Structural)]
pub struct WeatherUnits {
    pub temperature: TemperatureUnit,
    pub wind_speed: WindSpeedUnit,
    pub precipitation: PrecipitationUnit,
}

impl Default for WeatherUnits {
    /// Metric units: Celsius, km/h and millimetres.
    fn default() -> (u: WeatherUnits)
        ensures
            u == (WeatherUnits {
                temperature: TemperatureUnit::Celsius,
                wind_speed: WindSpeedUnit::Kmh,
                precipitation: PrecipitationUnit::Mm,
            }),
    {
        WeatherUnits {
            temperature: TemperatureUnit::Celsius,
            wind_speed: WindSpeedUnit::Kmh,
            precipitation: PrecipitationUnit::Mm,
        }
    }
}

/// The display name of a condition.
pub fn condition_text(c: WeatherCondition) -> (r: &'static str)
    ensures
        r@ == (match c {
            WeatherCondition::Clear => "Clear"@,
            WeatherCondition::PartlyCloudy => "Partly Cloudy"@,
            WeatherCondition::Cloudy => "Cloudy"@,
            WeatherCondition::Overcast => "Overcast"@,
            WeatherCondition::Fog => "Fog"@,
            WeatherCondition::Drizzle => "Drizzle"@,
            WeatherCondition::Rain => "Rain"@,
            WeatherCondition::FreezingRain => "Freezing Rain"@,
            WeatherCondition::Snow => "Snow"@,
            WeatherCondition::SnowGrains => "Snow Grains"@,
            WeatherCondition::RainShowers => "Rain Showers"@,
            WeatherCondition::SnowShowers => "Snow Showers"@,
            WeatherCondition::Thunderstorm => "Thunderstorm"@,
            WeatherCondition::ThunderstormHail => "Thunderstorm with Hail"@,
        }),
{
    match c {
        WeatherCondition::Clear => "Clear",
        WeatherCondition::PartlyCloudy => "Partly Cloudy",
        WeatherCondition::Cloudy => "Cloudy",
        WeatherCondition::Overcast => "Overcast",
        WeatherCondition::Fog => "Fog",
        WeatherCondition::Drizzle => "Drizzle",
        WeatherCondition::Rain => "Rain",
        WeatherCondition::FreezingRain => "Freezing Rain",
        WeatherCondition::Snow => "Snow",
        WeatherCondition::SnowGrains => "Snow Grains",
        WeatherCondition::RainShowers => "Rain Showers",
        WeatherCondition::SnowShowers => "Snow Showers",
        WeatherCondition::Thunderstorm => "Thunderstorm",
        WeatherCondition::ThunderstormHail => "Thunderstorm with Hail",
    }
}

/// The standard weather-code group a provider-specific code belongs to,
/// for a provider that reports codes in the style of the common
/// city-weather services: the match below is the mapping table.
pub open spec fn owm_wmo_spec(id: int, cloud_cover: int) -> int {
    if id == 800 {
        if cloud_cover < 10 {
            0
        } else {
            1
        }
    } else if id == 801 {
        1
    } else if id == 802 || id == 803 {
        2
    } else if id == 804 {
        3
    } else if id == 701 || id == 721 || id == 741 {
        45
    } else if 300 <= id && id <= 321 {
        51
    } else if id == 500 || id == 501 {
        61
    } else if 502 <= id && id <= 504 {
        65
    } else if id == 511 {
        66
    } else if id == 520 {
        80
    } else if id == 521 || id == 531 {
        81
    } else if id == 522 {
        82
    } else if id == 600 {
        71
    } else if id == 601 {
        73
    } else if id == 602 {
        75
    } else if id == 611 || id == 612 || id == 613 {
        77
    } else if id == 615 || id == 616 || id == 620 || id == 621 {
        85
    } else if id == 622 {
        86
    } else if (200 <= id && id <= 202) || (210 <= id && id <= 221) || (230 <= id && id <= 232) {
        95
    } else {
        0
    }
}

/// Maps a city-weather-service condition id, together with the cloud cover
/// in percent, to the standard weather-code family that the rest of the
/// display works with.
pub fn openweathermap_id_to_wmo_code(id: i32, cloud_cover: i32) -> (r: i32)
    ensures
        r == owm_wmo_spec(id as int, cloud_cover as int),
{
    match id {
        800 => {
            if cloud_cover < 10 {
                0
            } else {
                1
            }
        },
        801 => 1,
        802 | 803 => 2,
        804 => 3,
        701 | 721 | 741 => 45,
        300..=321 => 51,
        500 | 501 => 61,
        502..=504 => 65,
        511 => 66,
        520 => 80,
        521 | 531 => 81,
        522 => 82,
        600 => 71,
        601 => 73,
        602 => 75,
        611 | 612 | 613 => 77,
        615 | 616 | 620 | 621 => 85,
        622 => 86,
        200..=202 | 210..=221 | 230..=232 => 95,
        _ => 0,
    }
}

/// The standard weather-code group of a condition code in the style of the
/// commercial weather-API service: the match below is the mapping table.
pub open spec fn wapi_wmo_spec(code: int) -> int {
    if code == 1000 {
        0
    } else if code == 1003 {
        1
    } else if code == 1006 {
        2
    } else if code == 1009 {
        3
    } else if code == 1030 || code == 1135 || code == 1147 {
        45
    } else if code == 1063 || code == 1150 || code == 1153 || code == 1168 || code == 1171 {
        51
    } else if code == 1180 || code == 1183 || code == 1186 {
        61
    } else if code == 1189 || code == 1192 || code == 1195 {
        63
    } else if code == 1198 || code == 1201 || code == 1204 || code == 1207 || code == 1237
        || code == 1261 {
        66
    } else if code == 1066 || code == 1210 || code == 1213 || code == 1216 || code == 1255 {
        71
    } else if code == 1219 || code == 1222 || code == 1258 {
        73
    } else if code == 1225 || code == 1282 {
        75
    } else if code == 1069 || code == 1072 || code == 1114 || code == 1117 || code == 1249
        || code == 1252 {
        77
    } else if code == 1240 || code == 1243 || code == 1246 {
        80
    } else if code == 1279 {
        85
    } else if code == 1087 || code == 1273 {
        95
    } else if code == 1264 || code == 1276 {
        99
    } else {
        0
    }
}

/// Maps a commercial weather-API condition code to the standard
/// weather-code family.
pub fn weatherapi_code_to_wmo_code(code: i32) -> (r: i32)
    ensures
        r == wapi_wmo_spec(code as int),
{
    match code {
        1000 => 0,
        1003 => 1,
        1006 => 2,
        1009 => 3,
        1030 | 1135 | 1147 => 45,
        1063 | 1150 | 1153 | 1168 | 1171 => 51,
        1180 | 1183 | 1186 => 61,
        1189 | 1192 | 1195 => 63,
        1198 | 1201 | 1204 | 1207 | 1237 | 1261 => 66,
        1066 | 1210 | 1213 | 1216 | 1255 => 71,
        1219 | 1222 | 1258 => 73,
        1225 | 1282 => 75,
        1069 | 1072 | 1114 | 1117 | 1249 | 1252 => 77,
        1240 | 1243 | 1246 => 80,
        1279 => 85,
        1087 | 1273 => 95,
        1264 | 1276 => 99,
        _ => 0,
    }
}

/// Whether a moment falls in the daytime: at or after sunrise and strictly
/// before sunset; reported as 1 or 0, the way the providers encode it.
pub fn is_day(current_time: i64, sunrise: i64, sunset: i64) -> (r: i32)
    ensures
        r == (if sunrise <= current_time && current_time < sunset {
            1int
        } else {
            0int
        }),
{
    if current_time >= sunrise && current_time < sunset {
        1
    } else {
        0
    }
}

/// The request-parameter value naming a temperature unit in the forecast
/// service's API.
pub fn temperature_unit_param(unit: &TemperatureUnit) -> (r: &'static str)
    ensures
        r@ == (match *unit {
            TemperatureUnit::Celsius => "celsius"@,
            TemperatureUnit::Fahrenheit => "fahrenheit"@,
        }),
{
    match unit {
        TemperatureUnit::Celsius => "celsius",
        TemperatureUnit::Fahrenheit => "fahrenheit",
    }
}

/// The request-parameter value naming a wind-speed unit in the forecast
/// service's API.
pub fn wind_speed_unit_param(unit: &WindSpeedUnit) -> (r: &'static str)
    ensures
        r@ == (match *unit {
            WindSpeedUnit::Kmh => "kmh"@,
            WindSpeedUnit::Ms => "ms"@,
            WindSpeedUnit::Mph => "mph"@,
            WindSpeedUnit::Kn => "kn"@,
        }),
{
    match unit {
        WindSpeedUnit::Kmh => "kmh",
        WindSpeedUnit::Ms => "ms",
        WindSpeedUnit::Mph => "mph",
        WindSpeedUnit::Kn => "kn",
    }
}

/// The request-parameter value naming a precipitation unit in the forecast
/// service's API.
pub fn precipitation_unit_param(unit: &PrecipitationUnit) -> (r: &'static str)
    ensures
        r@ == (match *unit {
            PrecipitationUnit::Mm => "mm"@,
            PrecipitationUnit::Inch => "inch"@,
        }),
{
    match unit {
        PrecipitationUnit::Mm => "mm",
        PrecipitationUnit::Inch => "inch",
    }
}

/// The request-parameter value selecting a unit system in the
/// city-weather service's API.
pub fn openweathermap_units_param(unit: &TemperatureUnit) -> (r: &'static str)
    ensures
        r@ == (match *unit {
            TemperatureUnit::Celsius => "metric"@,
            TemperatureUnit::Fahrenheit => "imperial"@,
        }),
{
    match unit {
        TemperatureUnit::Celsius => "metric",
        TemperatureUnit::Fahrenheit => "imperial",
    }
}

/// ASCII lower-casing of one character: A-Z map to a-z, everything else
/// stays.
pub open spec fn lower_char(c: char) -> char {
    if 0x41 <= c as u32 <= 0x5a {
        (((c as u32) + 0x20) as u8) as char
    } else {
        c
    }
}

/// ASCII lower-casing of a character sequence.
pub open spec fn lower_chars(s: Seq<char>) -> Seq<char> {
    s.map_values(|c: char| lower_char(c))
}

fn lower_char_exec(c: char) -> (r: char)
    ensures
        r == lower_char(c),
{
    let u: u32 = c as u32;
    if 0x41 <= u && u <= 0x5a {
        ((u + 0x20) as u8) as char
    } else {
        c
    }
}

/// The characters of `s`, lower-cased in the ASCII range.
fn lower_vec(s: &str) -> (r: Vec<char>)
    ensures
        r@ == lower_chars(s@),
{
    let n: usize = s.unicode_len();
    let mut r: Vec<char> = Vec::new();
    let mut i: usize = 0;
    while i < n
        invariant
            i <= n,
            n == s@.len(),
            r@.len() == i,
            forall|j: int| 0 <= j < i ==> r@[j] == lower_char(s@[j]),
        decreases n - i,
    {
        let c = s.get_char(i);
        r.push(lower_char_exec(c));
        i = i + 1;
    }
    proof {
        assert(r@ =~= lower_chars(s@));
    }
    r
}

/// Whether the collected characters spell exactly the given text.
fn chars_eq(cs: &Vec<char>, lit: &str) -> (r: bool)
    ensures
        r == (cs@ == lit@),
{
    let n: usize = lit.unicode_len();
    if cs.len() != n {
        proof {
            assert(cs@ != lit@);
        }
        return false;
    }
    let mut i: usize = 0;
    while i < n
        invariant
            i <= n,
            n == lit@.len(),
            cs@.len() == n,
            forall|j: int| 0 <= j < i ==> cs@[j] == lit@[j],
        decreases n - i,
    {
        if cs[i] != lit.get_char(i) {
            proof {
                assert(cs@ != lit@);
            }
            return false;
        }
        i = i + 1;
    }
    proof {
        assert(cs@ =~= lit@);
    }
    true
}

proof fn lemma_provider_names_distinct()
    ensures
        "open_meteo"@ != "openweathermap"@,
        "open_meteo"@ != "open_weather_map"@,
        "open_meteo"@ != "weatherapi"@,
        "open_meteo"@ != "weather_api"@,
        "openmeteo"@ != "openweathermap"@,
        "openmeteo"@ != "open_weather_map"@,
        "openmeteo"@ != "weatherapi"@,
        "openmeteo"@ != "weather_api"@,
        "openweathermap"@ != "weatherapi"@,
        "openweathermap"@ != "weather_api"@,
        "open_weather_map"@ != "weatherapi"@,
        "open_weather_map"@ != "weather_api"@,
{
    assert("open_meteo"@ != "openweathermap"@) by {
        reveal_strlit("open_meteo");
        reveal_strlit("openweathermap");
        assert("open_meteo"@.len() == 10);
        assert("openweathermap"@.len() == 14);
    }
    assert("open_meteo"@ != "open_weather_map"@) by {
        reveal_strlit("open_meteo");
        reveal_strlit("open_weather_map");
        assert("open_meteo"@.len() == 10);
        assert("open_weather_map"@.len() == 16);
    }
    assert("open_meteo"@ != "weatherapi"@) by {
        reveal_strlit("open_meteo");
        reveal_strlit("weatherapi");
        assert("open_meteo"@[0] == 'o');
        assert("weatherapi"@[0] == 'w');
    }
    assert("open_meteo"@ != "weather_api"@) by {
        reveal_strlit("open_meteo");
        reveal_strlit("weather_api");
        assert("open_meteo"@.len() == 10);
        assert("weather_api"@.len() == 11);
    }
    assert("openmeteo"@ != "openweathermap"@) by {
        reveal_strlit("openmeteo");
        reveal_strlit("openweathermap");
        assert("openmeteo"@.len() == 9);
        assert("openweathermap"@.len() == 14);
    }
    assert("openmeteo"@ != "open_weather_map"@) by {
        reveal_strlit("openmeteo");
        reveal_strlit("open_weather_map");
        assert("openmeteo"@.len() == 9);
        assert("open_weather_map"@.len() == 16);
    }
    assert("openmeteo"@ != "weatherapi"@) by {
        reveal_strlit("openmeteo");
        reveal_strlit("weatherapi");
        assert("openmeteo"@.len() == 9);
        assert("weatherapi"@.len() == 10);
    }
    assert("openmeteo"@ != "weather_api"@) by {
        reveal_strlit("openmeteo");
        reveal_strlit("weather_api");
        assert("openmeteo"@.len() == 9);
        assert("weather_api"@.len() == 11);
    }
    assert("openweathermap"@ != "weatherapi"@) by {
        reveal_strlit("openweathermap");
        reveal_strlit("weatherapi");
        assert("openweathermap"@.len() == 14);
        assert("weatherapi"@.len() == 10);
    }
    assert("openweathermap"@ != "weather_api"@) by {
        reveal_strlit("openweathermap");
        reveal_strlit("weather_api");
        assert("openweathermap"@.len() == 14);
        assert("weather_api"@.len() == 11);
    }
    assert("open_weather_map"@ != "weatherapi"@) by {
        reveal_strlit("open_weather_map");
        reveal_strlit("weatherapi");
        assert("open_weather_map"@.len() == 16);
        assert("weatherapi"@.len() == 10);
    }
    assert("open_weather_map"@ != "weather_api"@) by {
        reveal_strlit("open_weather_map");
        reveal_strlit("weather_api");
        assert("open_weather_map"@.len() == 16);
        assert("weather_api"@.len() == 11);
    }
}

/// How the provider may be spelled in the configuration.
pub open spec fn names_open_meteo(p: Seq<char>) -> bool {
    p == "open_meteo"@ || p == "openmeteo"@
}

pub open spec fn names_openweathermap(p: Seq<char>) -> bool {
    p == "openweathermap"@ || p == "open_weather_map"@
}

pub open spec fn names_weatherapi(p: Seq<char>) -> bool {
    p == "weatherapi"@ || p == "weather_api"@
}

/// The weather section of the configuration: which provider to use, and
/// the key for the services that need one.
pub struct WeatherConfig {
    pub provider: String,
    pub api_key: Option<String>,
}

/// Why the weather side failed.
pub enum WeatherError {
    /// The configuration does not select a usable provider.
    Configuration(String),
    /// The network request could not be completed.
    Network(String),
}

impl WeatherError {
    /// The human-readable text of the error.
    pub fn message(&self) -> (r: &str)
        ensures
            r@ == (match self {
                WeatherError::Configuration(m) => m@,
                WeatherError::Network(m) => m@,
            }),
    {
        match self {
            WeatherError::Configuration(m) => m.as_str(),
            WeatherError::Network(m) => m.as_str(),
        }
    }
}

/// The provider the configuration selects, together with what the caller
/// needs to drive it.
#[derive(Debug)]
pub enum ProviderChoice {
    OpenMeteo,
    OpenWeatherMap { api_key: String },
    WeatherApi { api_key: String },
}

/// Selects the weather provider that the configuration names, case-
/// insensitively. The free forecast service needs no key; the two keyed
/// services are refused without one; an unrecognized name is refused with
/// a message that repeats it.
pub fn create_provider(config: &WeatherConfig) -> (r: Result<ProviderChoice, WeatherError>)
    ensures
        r is Ok <==> (names_open_meteo(lower_chars(config.provider@)) || ((names_openweathermap(
            lower_chars(config.provider@),
        ) || names_weatherapi(lower_chars(config.provider@))) && config.api_key is Some)),
        names_open_meteo(lower_chars(config.provider@)) ==> (r matches Ok(
            ProviderChoice::OpenMeteo,
        )),
        (names_openweathermap(lower_chars(config.provider@)) && config.api_key is Some) ==> r
            == Ok::<ProviderChoice, WeatherError>(
            ProviderChoice::OpenWeatherMap { api_key: config.api_key.unwrap() },
        ),
        (names_weatherapi(lower_chars(config.provider@)) && config.api_key is Some) ==> r == Ok::<
            ProviderChoice,
            WeatherError,
        >(ProviderChoice::WeatherApi { api_key: config.api_key.unwrap() }),
        r is Err ==> (r matches Err(WeatherError::Configuration(_))),
        (!names_open_meteo(lower_chars(config.provider@)) && !names_openweathermap(
            lower_chars(config.provider@),
        ) && !names_weatherapi(lower_chars(config.provider@))) ==> ({
            &&& r matches Err(WeatherError::Configuration(m))
            &&& m@ == "Unknown weather provider: '"@ + config.provider@
                + "'. Valid options: open_meteo, openweathermap, weatherapi"@
        }),
{
    proof {
        lemma_provider_names_distinct();
    }
    let p = lower_vec(config.provider.as_str());
    proof {
        assert(p@ == lower_chars(config.provider@));
    }
    if chars_eq(&p, "open_meteo") || chars_eq(&p, "openmeteo") {
        Ok(ProviderChoice::OpenMeteo)
    } else if chars_eq(&p, "openweathermap") || chars_eq(&p, "open_weather_map") {
        match &config.api_key {
            Some(key) => {
                let c = ProviderChoice::OpenWeatherMap { api_key: key.clone() };
                proof {
                    assert(names_openweathermap(lower_chars(config.provider@)));
                    assert(key == config.api_key.unwrap());
                    assert(c == (ProviderChoice::OpenWeatherMap {
                        api_key: config.api_key.unwrap(),
                    }));
                }
                Ok(c)
            },
            None => Err(
                WeatherError::Configuration(
                    String::from_str(
                        "OpenWeatherMap requires an API key. Add 'api_key' to the [weather] section in your config.toml",
                    ),
                ),
            ),
        }
    } else if chars_eq(&p, "weatherapi") || chars_eq(&p, "weather_api") {
        match &config.api_key {
            Some(key) => {
                let c = ProviderChoice::WeatherApi { api_key: key.clone() };
                proof {
                    assert(names_weatherapi(lower_chars(config.provider@)));
                    assert(c == (ProviderChoice::WeatherApi {
                        api_key: config.api_key.unwrap(),
                    }));
                }
                Ok(c)
            },
            None => Err(
                WeatherError::Configuration(
                    String::from_str(
                        "WeatherAPI requires an API key. Add 'api_key' to the [weather] section in your config.toml",
                    ),
                ),
            ),
        }
    } else {
        let mut m = String::from_str("Unknown weather provider: '");
        m.append(config.provider.as_str());
        m.append("'. Valid options: open_meteo, openweathermap, weatherapi");
        proof {
            assert(m@ =~= "Unknown weather provider: '"@ + config.provider@
                + "'. Valid options: open_meteo, openweathermap, weatherapi"@);
        }
        Err(WeatherError::Configuration(m))
    }
}

/// The condition a configuration or command-line word names, compared
/// case-insensitively; an unrecognized word falls back to clear sky.
pub open spec fn parsed_condition(p: Seq<char>) -> WeatherCondition {
    if p == "clear"@ || p == "sunny"@ {
        WeatherCondition::Clear
    } else if p == "partly-cloudy"@ || p == "partly_cloudy"@ || p == "partlycloudy"@ {
        WeatherCondition::PartlyCloudy
    } else if p == "cloudy"@ {
        WeatherCondition::Cloudy
    } else if p == "overcast"@ {
        WeatherCondition::Overcast
    } else if p == "fog"@ || p == "foggy"@ {
        WeatherCondition::Fog
    } else if p == "drizzle"@ {
        WeatherCondition::Drizzle
    } else if p == "rain"@ || p == "rainy"@ {
        WeatherCondition::Rain
    } else if p == "freezing-rain"@ || p == "freezing_rain"@ || p == "freezingrain"@ {
        WeatherCondition::FreezingRain
    } else if p == "snow"@ || p == "snowy"@ {
        WeatherCondition::Snow
    } else if p == "snow-grains"@ || p == "snow_grains"@ || p == "snowgrains"@ {
        WeatherCondition::SnowGrains
    } else if p == "rain-showers"@ || p == "rain_showers"@ || p == "rainshowers"@ || p
        == "showers"@ {
        WeatherCondition::RainShowers
    } else if p == "snow-showers"@ || p == "snow_showers"@ || p == "snowshowers"@ {
        WeatherCondition::SnowShowers
    } else if p == "thunderstorm"@ || p == "thunder"@ {
        WeatherCondition::Thunderstorm
    } else if p == "thunderstorm-hail"@ || p == "thunderstorm_hail"@ || p == "hail"@ {
        WeatherCondition::ThunderstormHail
    } else {
        WeatherCondition::Clear
    }
}

/// Reads a weather-condition word the way the command line spells it.
pub fn parse_weather_condition(input: &str) -> (r: WeatherCondition)
    ensures
        r == parsed_condition(lower_chars(input@)),
{
    let p = lower_vec(input);
    if chars_eq(&p, "clear") || chars_eq(&p, "sunny") {
        WeatherCondition::Clear
    } else if chars_eq(&p, "partly-cloudy") || chars_eq(&p, "partly_cloudy") || chars_eq(
        &p,
        "partlycloudy",
    ) {
        WeatherCondition::PartlyCloudy
    } else if chars_eq(&p, "cloudy") {
        WeatherCondition::Cloudy
    } else if chars_eq(&p, "overcast") {
        WeatherCondition::Overcast
    } else if chars_eq(&p, "fog") || chars_eq(&p, "foggy") {
        WeatherCondition::Fog
    } else if chars_eq(&p, "drizzle") {
        WeatherCondition::Drizzle
    } else if chars_eq(&p, "rain") || chars_eq(&p, "rainy") {
        WeatherCondition::Rain
    } else if chars_eq(&p, "freezing-rain") || chars_eq(&p, "freezing_rain") || chars_eq(
        &p,
        "freezingrain",
    ) {
        WeatherCondition::FreezingRain
    } else if chars_eq(&p, "snow") || chars_eq(&p, "snowy") {
        WeatherCondition::Snow
    } else if chars_eq(&p, "snow-grains") || chars_eq(&p, "snow_grains") || chars_eq(
        &p,
        "snowgrains",
    ) {
        WeatherCondition::SnowGrains
    } else if chars_eq(&p, "rain-showers") || chars_eq(&p, "rain_showers") || chars_eq(
        &p,
        "rainshowers",
    ) || chars_eq(&p, "showers") {
        WeatherCondition::RainShowers
    } else if chars_eq(&p, "snow-showers") || chars_eq(&p, "snow_showers") || chars_eq(
        &p,
        "snowshowers",
    ) {
        WeatherCondition::SnowShowers
    } else if chars_eq(&p, "thunderstorm") || chars_eq(&p, "thunder") {
        WeatherCondition::Thunderstorm
    } else if chars_eq(&p, "thunderstorm-hail") || chars_eq(&p, "thunderstorm_hail") || chars_eq(
        &p,
        "hail",
    ) {
        WeatherCondition::ThunderstormHail
    } else {
        WeatherCondition::Clear
    }
}


/// The condition a standard weather-code stands for.
pub open spec fn wmo_condition_spec(code: int) -> WeatherCondition {
    if code == 0 {
        WeatherCondition::Clear
    } else if code == 1 || code == 2 {
        WeatherCondition::PartlyCloudy
    } else if code == 3 {
        WeatherCondition::Overcast
    } else if code == 45 || code == 48 {
        WeatherCondition::Fog
    } else if 51 <= code && code <= 57 {
        WeatherCondition::Drizzle
    } else if code == 61 || code == 63 || code == 65 {
        WeatherCondition::Rain
    } else if code == 66 || code == 67 {
        WeatherCondition::FreezingRain
    } else if code == 71 || code == 73 || code == 75 {
        WeatherCondition::Snow
    } else if code == 77 {
        WeatherCondition::SnowGrains
    } else if 80 <= code && code <= 82 {
        WeatherCondition::RainShowers
    } else if code == 85 || code == 86 {
        WeatherCondition::SnowShowers
    } else if code == 95 {
        WeatherCondition::Thunderstorm
    } else if code == 96 || code == 99 {
        WeatherCondition::ThunderstormHail
    } else {
        WeatherCondition::Clear
    }
}

/// Reads a standard weather code into the condition it names; anything
/// unknown counts as clear sky.
pub fn wmo_code_to_condition(code: i32) -> (r: WeatherCondition)
    ensures
        r == wmo_condition_spec(code as int),
{
    match code {
        0 => WeatherCondition::Clear,
        1 | 2 => WeatherCondition::PartlyCloudy,
        3 => WeatherCondition::Overcast,
        45 | 48 => WeatherCondition::Fog,
        51..=57 => WeatherCondition::Drizzle,
        61 | 63 | 65 => WeatherCondition::Rain,
        66 | 67 => WeatherCondition::FreezingRain,
        71 | 73 | 75 => WeatherCondition::Snow,
        77 => WeatherCondition::SnowGrains,
        80..=82 => WeatherCondition::RainShowers,
        85 | 86 => WeatherCondition::SnowShowers,
        95 => WeatherCondition::Thunderstorm,
        96 | 99 => WeatherCondition::ThunderstormHail,
        _ => WeatherCondition::Clear,
    }
}

} // verus!
