//! Computed CSS styles for the elements of a page, obtained from a Servo
//! browser run headless: the pages and scripts that ask Servo, the reading of
//! its answers, a simulated engine for use without Servo, and a small document
//! tree in the shape that a style engine walks.
pub mod error;
pub mod json;
pub mod query;
pub mod servo_style_engine;
pub mod servo_style_engine_optimized;
pub mod servo_style_engine_real;
pub mod style_map;
pub mod stylo_element;
pub mod template;
pub mod text;

pub use servo_style_engine_optimized::ServoStyleEngineOptimized;
pub use servo_style_engine_real::{ServoStyleEngineReal, ServoStyleError};
