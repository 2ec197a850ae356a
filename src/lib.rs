//! Preparation and validation logic of a Whittaker–Eilers smoother, plus
//! well-known-text assembly for trajectories.
//!
//! Real-valued samples are carried as IEEE-754 binary64 bit patterns (`u64`),
//! so that the decisions the smoother makes about them (missing or not,
//! ordered or not) can be stated and proved exactly.
mod error;
mod ieee;
mod laws;
mod smoother;
mod validate;
mod weights;
mod wkt;

pub use error::SmoothError;
pub use ieee::{float_lt, is_missing, nan, precedes, PLACEHOLDER_BITS};
pub use laws::{
    law_missing_sample_is_unweighted, law_positions_keep_system, law_system_has_sample_length,
    law_unpenalized_reproduces_input,
};
pub use smoother::{
    outcome, positions_ok, positions_view, prepare, problem_view, singular, SmoothingProblem,
};
pub use validate::{check_order, check_positions, strictly_increasing};
pub use weights::{
    count_observed, impute, imputed_of, observation_weights, observed_count, weight_of,
};
pub use wkt::{
    linestring_text, point_text, points_text, segment_text, to_linestring, to_linestrings,
};
