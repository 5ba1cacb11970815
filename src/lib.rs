//! Pursuit-evasion engagements between an interceptor and a target: the
//! catalogue of guidance laws, scenario validation, the step driver that
//! bounds every run, and the naming rules of a run's outputs.

pub mod export;
pub mod guidance;
pub mod metrics;
pub mod render;
pub mod run;
pub mod scenario;
