pub mod context;
pub mod execution_suffix;
