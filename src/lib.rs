//! Read-only access to the metadata and the input / output tensor shapes of a
//! decoded ONNX model.

pub mod helper;
pub mod lemmas;
pub mod onnx;

pub use helper::{InputInfo, OnnxHelper, OutputInfo};
