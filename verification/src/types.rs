//! The request and response shapes of the API's operations.

pub mod common;
pub mod count_tokens;
pub mod error;
pub mod generate_content;
pub mod predict_image;
pub mod text_embeddings;
