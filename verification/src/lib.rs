//! Rule-based engine for estimating student outcomes from weekly study hours
//! and class attendance, with study-plan synthesis, trend analysis and a
//! gamification layer (points, badges, achievements, streaks).
//!
//! All quantities are fixed-point integers: hours and attendance percentages
//! are held in tenths (8.0 hours is 80), scores and confidences in hundredths
//! (a confidence of 0.93 is 93), and rates in thousandths (a pass rate of
//! 0.72 is 720). This keeps every rule exact and lets each function carry a
//! precise contract.

pub mod analytics;
pub mod gamification;
pub mod model;
pub mod plan;
pub mod rng;
