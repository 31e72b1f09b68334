//! A line processor: each line of an input text is turned into a structured
//! status record, and a running count of processed items is kept alongside.

pub mod message;
pub mod processor;
pub mod runner;
pub mod text;

pub use message::message_string;
pub use processor::BulletProofProcessor;
pub use processor::ProcessData;
pub use processor::ProcessResult;
pub use processor::Stats;
pub use runner::default_input;
pub use runner::process_items;
pub use runner::process_text;
pub use text::split_lines;
