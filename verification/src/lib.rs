pub mod bootstrap;
pub mod clock;
pub mod errors;
pub mod logfmt;
pub mod logpolicy;
pub mod report;
pub mod text;
