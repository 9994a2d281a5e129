pub mod element_type;
pub mod session;
pub mod session_info;
pub mod tensor;

pub use element_type::ElementType;
pub use session::{aux_dims, aux_len, frame_dims, input_specs, TensorSpec, OUTPUT_COUNT, SAMPLE_RATE};
pub use session_info::{ModelNode, SessionInfo};
