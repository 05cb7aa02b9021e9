//! Training a sliding-window object detector from gradient-histogram features
//! and a linear margin classifier: the verified decisions of the pipeline.
pub mod error;
pub mod matrix;
pub mod training;
pub mod geometry;
pub mod detector;
pub mod samples;
pub mod results;
pub mod config;
