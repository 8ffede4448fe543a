//! Cleanup of transcriptions by a language model.

pub mod cleaner;
pub mod prompt;
pub mod prompt_laws;
pub mod response;
pub mod wording;

pub use cleaner::{CleanupRequest, TextCleaner};
pub use prompt::build_prompt;
pub use response::{parse_response, strip_model_artifacts};
