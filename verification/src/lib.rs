pub mod address;
pub mod amm;
pub mod decode;
pub mod engine;
pub mod errors;
pub mod executor;
pub mod pipeline;
pub mod words;
