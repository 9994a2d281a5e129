//! The tensors that one step of the Silero voice activity detector hands to
//! the runtime: the audio frame, the sample rate and the two recurrent state
//! tensors.

use vstd::prelude::*;

use super::element_type::ElementType;
use super::tensor::{
    countable_dims, element_count, lemma_unsigned_shape_size, shape_size, unsigned_shape_size,
};

verus! {

/// The sample rate, in hertz, that the detector is told the audio has.
pub const SAMPLE_RATE: i64 = 8000;

/// The number of tensors the detector returns from one step.
pub const OUTPUT_COUNT: usize = 3;

/// The dimensions of each recurrent state tensor: two layers, a batch of
/// one, sixty-four units.
pub open spec fn spec_aux_dims() -> Seq<i64> {
    seq![2, 1, 64]
}

/// The dimensions of the tensor that carries an audio frame of `frame_len`
/// samples: a batch of one frame.
pub open spec fn spec_frame_dims(frame_len: int) -> Seq<i64> {
    seq![1, frame_len as i64]
}

/// The dimensions of the tensor that carries the sample rate: one value.
pub open spec fn spec_sample_rate_dims() -> Seq<i64> {
    seq![1]
}

/// The shape and element type of one tensor handed to the runtime.
#[derive(Debug)]
pub struct TensorSpec {
    pub dims: Vec<i64>,
    pub element_type: ElementType,
}

/// The dimensions of each recurrent state tensor.
pub fn aux_dims() -> (dims: Vec<i64>)
    ensures
        dims@ == spec_aux_dims(),
        dims@ == seq![2i64, 1, 64],
{
    let mut dims: Vec<i64> = Vec::new();
    dims.push(2);
    dims.push(1);
    dims.push(64);
    assert(dims@ =~= spec_aux_dims());
    dims
}

/// The number of values each recurrent state buffer holds: the element
/// count of the state tensor's dimensions.
pub fn aux_len() -> (len: usize)
    ensures
        len == shape_size(spec_aux_dims()),
        len == unsigned_shape_size(spec_aux_dims()),
        len == 128,
{
    let dims = aux_dims();
    proof {
        lemma_aux_dims_countable();
    }
    element_count(dims.as_slice())
}

/// The dimensions of the tensor that carries an audio frame.
pub fn frame_dims(frame_len: usize) -> (dims: Vec<i64>)
    requires
        frame_len <= i64::MAX,
    ensures
        dims@ == spec_frame_dims(frame_len as int),
        dims@ == seq![1i64, frame_len as i64],
        dims@.len() == 2,
        dims@[0] == 1,
        dims@[1] == frame_len,
{
    let mut dims: Vec<i64> = Vec::new();
    dims.push(1);
    dims.push(frame_len as i64);
    assert(dims@ =~= spec_frame_dims(frame_len as int));
    dims
}

/// The inputs of one detector step for a frame of `frame_len` samples, in
/// the order the model takes them: the frame (`Float`, `[1, frame_len]`),
/// the sample rate (`Int64`, `[1]`), then the two recurrent states
/// (`Float`, `[2, 1, 64]` each).
pub fn input_specs(frame_len: usize) -> (specs: Vec<TensorSpec>)
    requires
        frame_len <= i64::MAX,
    ensures
        specs.len() == 4,
        specs[0].dims@ == seq![1i64, frame_len as i64],
        specs[0].dims@[1] == frame_len,
        specs[1].dims@ == seq![1i64],
        specs[2].dims@ == seq![2i64, 1, 64],
        specs[3].dims@ == seq![2i64, 1, 64],
        specs[0].dims@ == spec_frame_dims(frame_len as int),
        specs[0].element_type == ElementType::Float,
        specs[1].dims@ == spec_sample_rate_dims(),
        specs[1].element_type == ElementType::Int64,
        specs[2].dims@ == spec_aux_dims(),
        specs[2].element_type == ElementType::Float,
        specs[3].dims@ == spec_aux_dims(),
        specs[3].element_type == ElementType::Float,
        forall|i: int| 0 <= i < specs.len() ==> countable_dims(#[trigger] specs[i].dims@),
        shape_size(specs[0].dims@) == frame_len,
        shape_size(specs[1].dims@) == 1,
        shape_size(specs[2].dims@) == 128,
        shape_size(specs[3].dims@) == 128,
        forall|i: int|
            0 <= i < specs.len() ==> unsigned_shape_size(#[trigger] specs[i].dims@) == shape_size(
                specs[i].dims@,
            ),
{
    proof {
        lemma_frame_tensor_len(frame_len as int);
        lemma_sample_rate_tensor_len();
        lemma_aux_dims_countable();
    }
    let mut specs: Vec<TensorSpec> = Vec::new();
    specs.push(TensorSpec { dims: frame_dims(frame_len), element_type: ElementType::Float });
    let mut sample_rate_dims: Vec<i64> = Vec::new();
    sample_rate_dims.push(1);
    assert(sample_rate_dims@ =~= spec_sample_rate_dims());
    specs.push(TensorSpec { dims: sample_rate_dims, element_type: ElementType::Int64 });
    specs.push(TensorSpec { dims: aux_dims(), element_type: ElementType::Float });
    specs.push(TensorSpec { dims: aux_dims(), element_type: ElementType::Float });
    specs
}

/// The state tensor's dimensions can be counted, and describe 128 values
/// however they are read.
pub proof fn lemma_aux_dims_countable()
    ensures
        countable_dims(spec_aux_dims()),
        shape_size(spec_aux_dims()) == 128,
        unsigned_shape_size(spec_aux_dims()) == 128,
{
    let d = spec_aux_dims();
    reveal_with_fuel(shape_size, 4);
    assert(d.take(0) =~= Seq::<i64>::empty());
    assert(d.take(1) =~= seq![2i64]);
    assert(d.take(2) =~= seq![2i64, 1]);
    assert(d.take(3) =~= d);
    assert(seq![2i64, 1].drop_last() =~= seq![2i64]);
    assert(seq![2i64].drop_last() =~= Seq::<i64>::empty());
    assert(d.drop_last() =~= seq![2i64, 1]);
    assert(shape_size(seq![2i64]) == 2);
    assert(shape_size(seq![2i64, 1]) == 2);
    assert(shape_size(d) == 128);
    assert forall|k: int| 0 <= k <= d.len() implies i64::MIN <= #[trigger] shape_size(d.take(k))
        <= i64::MAX by {
        assert(k == 0 || k == 1 || k == 2 || k == 3);
    }
    lemma_unsigned_shape_size(d);
}

/// The frame tensor describes exactly as many values as the frame has
/// samples, however its dimensions are read, and its dimensions can be
/// counted: reading the tensor back gives a slice of the frame's length.
pub proof fn lemma_frame_tensor_len(frame_len: int)
    requires
        0 <= frame_len <= i64::MAX,
        frame_len <= usize::MAX,
    ensures
        countable_dims(spec_frame_dims(frame_len)),
        shape_size(spec_frame_dims(frame_len)) == frame_len,
        unsigned_shape_size(spec_frame_dims(frame_len)) == frame_len,
{
    let d = spec_frame_dims(frame_len);
    reveal_with_fuel(shape_size, 3);
    assert(d.take(0) =~= Seq::<i64>::empty());
    assert(d.take(1) =~= seq![1i64]);
    assert(d.take(2) =~= d);
    assert(seq![1i64].drop_last() =~= Seq::<i64>::empty());
    assert(d.drop_last() =~= seq![1i64]);
    assert(shape_size(seq![1i64]) == 1);
    assert(d.last() == frame_len);
    assert(shape_size(d) == frame_len);
    assert forall|k: int| 0 <= k <= d.len() implies i64::MIN <= #[trigger] shape_size(d.take(k))
        <= i64::MAX by {
        assert(k == 0 || k == 1 || k == 2);
    }
    lemma_unsigned_shape_size(d);
}

/// The sample-rate tensor describes one value, however its dimensions are
/// read.
pub proof fn lemma_sample_rate_tensor_len()
    ensures
        countable_dims(spec_sample_rate_dims()),
        shape_size(spec_sample_rate_dims()) == 1,
        unsigned_shape_size(spec_sample_rate_dims()) == 1,
{
    let d = spec_sample_rate_dims();
    reveal_with_fuel(shape_size, 2);
    assert(d.take(0) =~= Seq::<i64>::empty());
    assert(d.take(1) =~= d);
    assert(d.drop_last() =~= Seq::<i64>::empty());
    assert(shape_size(d) == 1);
    assert forall|k: int| 0 <= k <= d.len() implies i64::MIN <= #[trigger] shape_size(d.take(k))
        <= i64::MAX by {
        assert(k == 0 || k == 1);
    }
    lemma_unsigned_shape_size(d);
}

} // verus!
