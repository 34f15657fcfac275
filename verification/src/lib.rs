//! A verified bridge between a guest telemetry schema and the host
//! telemetry SDK's data model: an identifier codec, a scalar value
//! converter, resource/scope converters, a trace converter and a metric
//! converter, all stated as contracts and proved.

pub mod guest;
pub mod host;
pub mod ids;
pub mod values;
pub mod scope;
pub mod trace;
pub mod metrics;
