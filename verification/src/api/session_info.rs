//! What a loaded model tells about its inputs.

use vstd::prelude::*;

use super::element_type::{element_type_of_code, ElementType};

verus! {

/// The inputs of a loaded model, in the order the runtime numbers them.
#[derive(Debug)]
pub struct SessionInfo {
    pub input_nodes: Vec<ModelNode>,
}

/// One input of a model: its name, its element type and its dimensions
/// (a dimension the model leaves open is reported as a negative number).
#[derive(Debug)]
pub struct ModelNode {
    pub name: String,
    pub element_type: ElementType,
    pub dims: Vec<i64>,
}

impl ModelNode {
    /// Describes an input from what the runtime reports of it: its name,
    /// its element-type code and its dimensions.
    pub fn new(name: String, element_type_code: u32, dims: Vec<i64>) -> (node: ModelNode)
        ensures
            node.name@ == name@,
            node.element_type == element_type_of_code(element_type_code),
            node.dims@ == dims@,
    {
        ModelNode { name, element_type: ElementType::from(element_type_code), dims }
    }
}

} // verus!
