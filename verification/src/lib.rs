pub mod b64;
pub mod compose;
pub mod errors;
pub mod health;
pub mod image_processor;
pub mod ingest;
pub mod models;
pub mod pipeline;
pub mod video_processor;
