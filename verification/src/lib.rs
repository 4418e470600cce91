//! A weather card for a city, in one step.
//!
//! A caller names a city. The tool searches for the place, fetches its weather, and answers
//! with a message whose metadata holds the state of a card that capable clients draw, and whose
//! text serves the others. What the card shows comes from the weather service alone.
//!
//! The decisions are made here, on plain values; requests and messages are made by the program
//! around this crate. [`ShowWeatherCardTool`] begins a run, and [`run`] says what follows each
//! reply.

pub mod clock;
pub mod condition;
pub mod decimal;
pub mod forecast;
pub mod geocode;
pub mod json;
pub mod language;
pub mod laws;
pub mod message;
pub mod periods;
pub mod reading;
pub mod run;
pub mod state;
pub mod text;
pub mod tool;
pub mod url;

pub use condition::{condition_fallback_text, weather_code_to_condition};
pub use forecast::parse_local_hour;
pub use language::normalize_language_code;
pub use tool::ShowWeatherCardTool;
pub use url::percent_encode;
