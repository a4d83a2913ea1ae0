//! A terminal-rendering core: a diff-based screen buffer, a VT100/ANSI
//! escape-sequence interpreter for hosting a shell as an overlay, and a
//! key-press encoder, all with verified contracts.
mod animation;
mod color;
mod input;
mod overlay;
mod screen;
mod vt;
mod weather;

pub use animation::{sunny_frame, Animation, AnimationController, LoadingState, SunnyAnimation};
pub use color::Color;
pub use input::{key_bytes, key_event_to_bytes, KeyCode, KeyEvent, KeyModifiers};
pub use vt::{tok_step, tok_wf, TokMode, TokView, Tokenizer, VtEvent, VtEventS};
pub use overlay::{
    apply_control, apply_csi, apply_event_spec, apply_print, blank_row, clear_line,
    clear_line_to_end, clear_to_end, cleared_grid, erase_row_from, fresh_view, lemma_apply_event_wf,
    lemma_clear_then_home, lemma_crlf, lemma_scroll_discipline, lemma_vt_process_wf, line_feed, low8, param_or, scrolled,
    sgr_colors, tab_stop, view_wf, vt_process, OverlayView,
};
pub use overlay::{composed_cell, composed_upto, is_opaque, resized_view, ShellOverlay};
pub use screen::{Cell, DrawOp, ScreenBuffer};
pub use screen::{centered_col, max_line_len, written_block_cell, written_line_cell};
pub use screen::{flush_ops, flush_ops_from, lemma_flush_idempotent};
pub use weather::{
    condition_text, create_provider, is_day, lower_char, lower_chars, names_open_meteo,
    names_openweathermap, names_weatherapi, openweathermap_id_to_wmo_code,
    openweathermap_units_param, owm_wmo_spec, parse_weather_condition, parsed_condition,
    precipitation_unit_param, temperature_unit_param, wapi_wmo_spec, weatherapi_code_to_wmo_code,
    wind_speed_unit_param, wmo_code_to_condition, wmo_condition_spec, PrecipitationUnit,
    ProviderChoice, RainIntensity, SnowIntensity, TemperatureUnit, WeatherCondition, WeatherConfig,
    WeatherError, WeatherUnits, WindSpeedUnit,
};
