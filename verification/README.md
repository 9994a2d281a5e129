# inference

A small front end for running the Silero voice activity detector through
ONNX Runtime.

- `src/` is the verified library (Verus): tensor element types and their
  runtime codes (`api::element_type`), model input descriptions
  (`api::session_info`), tensor sizes (`api::tensor`) and the tensors one
  detector step hands to the runtime (`api::session`).
- `app/` is ordinary Rust around it: the C API table of ONNX Runtime, the
  environment, session and detector objects that call through it, and the
  floating-point scaling of audio samples.
- `tests/` runs the library on concrete values.
