/// Outputs: writing containers.
pub mod output;

pub use output::{Output, OutputOptions};
