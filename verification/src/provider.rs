//! The weather providers, one module each.

pub mod accuweather;
pub mod aerisweather;
pub mod openweather;
pub mod weatherapi;
