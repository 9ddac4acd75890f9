//! Glue around the Windows machine-learning and OCR runtimes: a model session
//! wrapper, and the text reports printed about models and recognized pages.
pub mod device;
pub mod error;
pub mod ocr;
pub mod onnx;
pub mod platform;
pub mod report;
