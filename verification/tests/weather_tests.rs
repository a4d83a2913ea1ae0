use weathr::{
    condition_text, create_provider, is_day, openweathermap_id_to_wmo_code,
    openweathermap_units_param, parse_weather_condition, precipitation_unit_param,
    temperature_unit_param, weatherapi_code_to_wmo_code, wind_speed_unit_param,
    PrecipitationUnit, ProviderChoice, RainIntensity, SnowIntensity, TemperatureUnit,
    WeatherCondition, WeatherConfig, WeatherError, WeatherUnits, WindSpeedUnit,
};

#[test]
fn test_create_open_meteo_provider() {
    let config = WeatherConfig {
        provider: "open_meteo".to_string(),
        api_key: None,
    };
    let result = create_provider(&config);
    assert!(result.is_ok());
}

#[test]
fn test_create_openweathermap_provider_without_key() {
    let config = WeatherConfig {
        provider: "openweathermap".to_string(),
        api_key: None,
    };
    let result = create_provider(&config);
    assert!(result.is_err());
}

#[test]
fn test_create_openweathermap_provider_with_key() {
    let config = WeatherConfig {
        provider: "openweathermap".to_string(),
        api_key: Some("test_key".to_string()),
    };
    let result = create_provider(&config);
    assert!(result.is_ok());
}

#[test]
fn test_create_weatherapi_provider_without_key() {
    let config = WeatherConfig {
        provider: "weatherapi".to_string(),
        api_key: None,
    };
    let result = create_provider(&config);
    assert!(result.is_err());
}

#[test]
fn test_create_weatherapi_provider_with_key() {
    let config = WeatherConfig {
        provider: "weatherapi".to_string(),
        api_key: Some("test_key".to_string()),
    };
    let result = create_provider(&config);
    assert!(result.is_ok());
}

#[test]
fn test_unknown_provider() {
    let config = WeatherConfig {
        provider: "unknown_provider".to_string(),
        api_key: None,
    };
    let result = create_provider(&config);
    assert!(result.is_err());
}

#[test]
fn test_provider_choice_carries_key() {
    let config = WeatherConfig {
        provider: "Weather_API".to_string(),
        api_key: Some("k123".to_string()),
    };
    match create_provider(&config) {
        Ok(ProviderChoice::WeatherApi { api_key }) => assert_eq!(api_key, "k123"),
        other => panic!("unexpected choice: {:?}", other.is_ok()),
    }
}

#[test]
fn test_unknown_provider_message_names_it() {
    let config = WeatherConfig {
        provider: "guessing".to_string(),
        api_key: None,
    };
    match create_provider(&config) {
        Err(e) => assert_eq!(
            e.message(),
            "Unknown weather provider: 'guessing'. Valid options: open_meteo, openweathermap, weatherapi"
        ),
        Ok(_) => panic!("expected an error"),
    }
}

#[test]
fn test_missing_key_message() {
    let config = WeatherConfig {
        provider: "openweathermap".to_string(),
        api_key: None,
    };
    match create_provider(&config) {
        Err(WeatherError::Configuration(m)) => {
            assert!(m.contains("OpenWeatherMap requires an API key"))
        }
        _ => panic!("expected a configuration error"),
    }
}

#[test]
fn test_openweathermap_to_wmo_mapping() {
    assert_eq!(openweathermap_id_to_wmo_code(800, 5), 0);
    assert_eq!(openweathermap_id_to_wmo_code(800, 15), 1);
    assert_eq!(openweathermap_id_to_wmo_code(801, 0), 1);
    assert_eq!(openweathermap_id_to_wmo_code(802, 0), 2);
    assert_eq!(openweathermap_id_to_wmo_code(804, 0), 3);
    assert_eq!(openweathermap_id_to_wmo_code(741, 0), 45);
    assert_eq!(openweathermap_id_to_wmo_code(300, 0), 51);
    assert_eq!(openweathermap_id_to_wmo_code(500, 0), 61);
    assert_eq!(openweathermap_id_to_wmo_code(600, 0), 71);
    assert_eq!(openweathermap_id_to_wmo_code(200, 0), 95);
}

#[test]
fn test_is_day() {
    assert_eq!(is_day(1000, 900, 1800), 1);
    assert_eq!(is_day(500, 900, 1800), 0);
    assert_eq!(is_day(2000, 900, 1800), 0);
}

#[test]
fn test_weatherapi_to_wmo_mapping() {
    assert_eq!(weatherapi_code_to_wmo_code(1000), 0);
    assert_eq!(weatherapi_code_to_wmo_code(1003), 1);
    assert_eq!(weatherapi_code_to_wmo_code(1006), 2);
    assert_eq!(weatherapi_code_to_wmo_code(1009), 3);
    assert_eq!(weatherapi_code_to_wmo_code(1030), 45);
    assert_eq!(weatherapi_code_to_wmo_code(1150), 51);
    assert_eq!(weatherapi_code_to_wmo_code(1180), 61);
    assert_eq!(weatherapi_code_to_wmo_code(1210), 71);
    assert_eq!(weatherapi_code_to_wmo_code(1087), 95);
}

#[test]
fn test_unit_conversion_params() {
    assert_eq!(temperature_unit_param(&TemperatureUnit::Celsius), "celsius");
    assert_eq!(temperature_unit_param(&TemperatureUnit::Fahrenheit), "fahrenheit");
    assert_eq!(wind_speed_unit_param(&WindSpeedUnit::Kmh), "kmh");
    assert_eq!(wind_speed_unit_param(&WindSpeedUnit::Ms), "ms");
    assert_eq!(precipitation_unit_param(&PrecipitationUnit::Mm), "mm");
}

#[test]
fn test_openweathermap_units_param() {
    assert_eq!(openweathermap_units_param(&TemperatureUnit::Celsius), "metric");
    assert_eq!(openweathermap_units_param(&TemperatureUnit::Fahrenheit), "imperial");
}

#[test]
fn test_condition_predicates() {
    assert!(WeatherCondition::Rain.is_raining());
    assert!(WeatherCondition::Thunderstorm.is_raining());
    assert!(!WeatherCondition::Snow.is_raining());
    assert!(WeatherCondition::Snow.is_snowing());
    assert!(WeatherCondition::SnowShowers.is_snowing());
    assert!(!WeatherCondition::Rain.is_snowing());
    assert!(WeatherCondition::ThunderstormHail.is_thunderstorm());
    assert!(!WeatherCondition::Rain.is_thunderstorm());
    assert!(WeatherCondition::Overcast.is_cloudy());
    assert!(!WeatherCondition::Clear.is_cloudy());
}

#[test]
fn test_condition_intensities() {
    assert_eq!(WeatherCondition::Drizzle.rain_intensity(), RainIntensity::Drizzle);
    assert_eq!(WeatherCondition::Rain.rain_intensity(), RainIntensity::Light);
    assert_eq!(WeatherCondition::FreezingRain.rain_intensity(), RainIntensity::Heavy);
    assert_eq!(WeatherCondition::ThunderstormHail.rain_intensity(), RainIntensity::Storm);
    assert_eq!(WeatherCondition::SnowGrains.snow_intensity(), SnowIntensity::Light);
    assert_eq!(WeatherCondition::SnowShowers.snow_intensity(), SnowIntensity::Medium);
    assert_eq!(WeatherCondition::Snow.snow_intensity(), SnowIntensity::Heavy);
}

#[test]
fn test_default_units_are_metric() {
    let u = WeatherUnits::default();
    assert_eq!(u.temperature, TemperatureUnit::Celsius);
    assert_eq!(u.wind_speed, WindSpeedUnit::Kmh);
    assert_eq!(u.precipitation, PrecipitationUnit::Mm);
}

#[test]
fn test_parse_weather_condition_words() {
    assert_eq!(parse_weather_condition("clear"), WeatherCondition::Clear);
    assert_eq!(parse_weather_condition("RAIN"), WeatherCondition::Rain);
    assert_eq!(parse_weather_condition("partly_cloudy"), WeatherCondition::PartlyCloudy);
    assert_eq!(parse_weather_condition("snow-showers"), WeatherCondition::SnowShowers);
    assert_eq!(parse_weather_condition("Thunder"), WeatherCondition::Thunderstorm);
    assert_eq!(parse_weather_condition("hail"), WeatherCondition::ThunderstormHail);
    assert_eq!(parse_weather_condition("nonsense"), WeatherCondition::Clear);
}

#[test]
fn test_condition_text_names() {
    assert_eq!(condition_text(WeatherCondition::Clear), "Clear");
    assert_eq!(condition_text(WeatherCondition::PartlyCloudy), "Partly Cloudy");
    assert_eq!(condition_text(WeatherCondition::ThunderstormHail), "Thunderstorm with Hail");
}
