pub mod config;
pub mod laws;
pub mod numbering;
pub mod pipeline;
pub mod strbuild;
pub mod transform;
