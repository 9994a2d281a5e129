//! Verified core of a small ONNX Runtime front end for the Silero voice
//! activity detector: tensor element types, model input descriptions and
//! the tensor layouts that one inference step hands to the runtime.

pub mod api;
