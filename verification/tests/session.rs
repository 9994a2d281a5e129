use inference::api::{
    aux_dims, aux_len, frame_dims, input_specs, ElementType, ModelNode, SessionInfo,
    OUTPUT_COUNT, SAMPLE_RATE,
};
use inference::api::tensor::element_count;

#[test]
fn state_tensors_have_two_layers_of_sixty_four_units() {
    assert_eq!(aux_dims(), vec![2, 1, 64]);
    assert_eq!(aux_len(), 128);
    assert_eq!(element_count(&aux_dims()), aux_len());
}

#[test]
fn frame_tensor_is_one_batch_of_the_frame() {
    assert_eq!(frame_dims(160), vec![1, 160]);
    assert_eq!(frame_dims(0), vec![1, 0]);
    assert_eq!(element_count(&frame_dims(512)), 512);
}

#[test]
fn detector_constants() {
    assert_eq!(SAMPLE_RATE, 8000);
    assert_eq!(OUTPUT_COUNT, 3);
}

#[test]
fn input_specs_for_a_frame() {
    let specs = input_specs(160);
    assert_eq!(specs.len(), 4);
    assert_eq!(specs[0].dims, vec![1, 160]);
    assert_eq!(specs[0].element_type, ElementType::Float);
    assert_eq!(specs[1].dims, vec![1]);
    assert_eq!(specs[1].element_type, ElementType::Int64);
    assert_eq!(specs[2].dims, vec![2, 1, 64]);
    assert_eq!(specs[2].element_type, ElementType::Float);
    assert_eq!(specs[3].dims, vec![2, 1, 64]);
    assert_eq!(specs[3].element_type, ElementType::Float);
}

#[test]
fn model_node_reads_the_element_type_code() {
    let node = ModelNode::new(String::from("input"), 1, vec![-1, -1]);
    assert_eq!(node.name, "input");
    assert_eq!(node.element_type, ElementType::Float);
    assert_eq!(node.dims, vec![-1, -1]);

    let sr = ModelNode::new(String::from("sr"), 7, vec![1]);
    assert_eq!(sr.element_type, ElementType::Int64);

    let odd = ModelNode::new(String::from("odd"), 42, Vec::new());
    assert_eq!(odd.element_type, ElementType::Undefined);
    assert!(odd.dims.is_empty());
}

#[test]
fn session_info_lists_the_inputs_in_order() {
    let info = SessionInfo {
        input_nodes: vec![
            ModelNode::new(String::from("input"), 1, vec![-1, -1]),
            ModelNode::new(String::from("sr"), 7, vec![1]),
        ],
    };
    assert_eq!(info.input_nodes.len(), 2);
    assert_eq!(info.input_nodes[0].name, "input");
    assert_eq!(info.input_nodes[1].element_type, ElementType::Int64);
}
