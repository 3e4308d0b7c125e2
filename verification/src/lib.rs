pub mod combining;
pub mod errors;
pub mod expression;
pub mod functions;
pub mod identifiers;
pub mod laws;
pub mod meta;
pub mod pdp;
pub mod policy;
pub mod request;
pub mod response;
pub mod rule;
pub mod target;
pub mod values;
