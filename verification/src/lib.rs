//! Building blocks of an AI story generator: the prompts sent to the
//! language model, the random choice of story ingredients, the request
//! bodies of the OpenAI endpoints, and the step-by-step plans that drive a
//! new story or a sequel from one reply to the next.

pub mod prompt;
pub mod text;
pub mod random;
pub mod config;
pub mod openai;
pub mod plan;
pub mod laws;
