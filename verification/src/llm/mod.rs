pub mod standards;
pub mod clarification;
pub mod pipeline;
pub mod draft;
pub mod interpret;
pub mod respond;
pub mod steps;
pub mod preflight;
pub mod call_record;
