//! Adapter layer between a permissive caller and a strict declarative rules
//! engine that evaluates leave-of-absence subsidy scenarios.
//!
//! The library holds the pure, verified core: tolerant decoding of
//! loosely-typed caller input, shaping it into the engine's nested request,
//! reshaping the engine's success payload, and salvaging structured
//! field-level validation issues out of the engine's diagnostic text.

mod decoder;
mod envelope;
mod model;
mod report;
mod salvage;
mod shaper;
mod textscan;

pub use decoder::RawValue;
pub use decoder::decode_direct_params;
pub use decoder::decode_flag;
pub use decoder::decode_numeric;
pub use decoder::decode_text;
pub use envelope::decode_envelope;
pub use model::DecodeError;
pub use model::ExcedenciaDirectParams;
pub use model::ExcedenciaError;
pub use model::ExcedenciaInput;
pub use model::ExcedenciaOutput;
pub use model::ExcedenciaOutputForSchema;
pub use model::ExcedenciaRequest;
pub use model::ExcedenciaResponse;
pub use model::NumericValue;
pub use model::ValidationError;
pub use model::ValidationErrorDetails;
pub use model::ValidationErrorSource;
pub use model::reshape_output;
pub use model::salvage_outcome;
pub use report::render_validation_report;
pub use salvage::ExcedenciaDecisionEngine;
pub use shaper::echo_input;
pub use shaper::shape_request;
