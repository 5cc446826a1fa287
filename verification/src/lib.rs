//! CVSS vector parsing and scoring.
//!
//! The crate models CVSS metrics as closed enumerations carrying wire
//! tokens, parses v2 and v4.0 vector strings into typed metric sets, and
//! scores v4.0 vectors: the engine resolves the metric set, classifies it
//! into a macrovector by equivalence-class partitioning, looks the published
//! base severity value up and interpolates by ordinal severity distance.
//! Scores are held in tenths of a point, so all scoring arithmetic is exact
//! integer arithmetic.  The v3 metric types are shared with v4.0 where the
//! concepts coincide.

pub mod common;
pub mod v2;
pub mod v3;
pub mod v4;

pub use common::CvssMetric;
pub use common::Optional;
pub use common::ParseError;
pub use common::Score;
pub use common::Severity;
pub use common::append_metric;
pub use common::append_metric_optional;
pub use common::parse_metrics;
pub use v2::V2Vector;
pub use v4::V4Vector;
