//! Sizes of dense tensors, as computed when a tensor is handed to the
//! runtime (a byte length, from the dimensions read as `usize`) and when it
//! is read back (an element count, from the dimensions multiplied as `i64`).

use vstd::prelude::*;

verus! {

/// The product of the dimensions as integers, taken from the first to the
/// last (the empty product is 1).
pub open spec fn shape_size(dims: Seq<i64>) -> int
    decreases dims.len(),
{
    if dims.len() == 0 {
        1
    } else {
        shape_size(dims.drop_last()) * dims.last()
    }
}

/// The product of the dimensions each read as a `usize` (a negative
/// dimension wraps around, as an `as` conversion does), taken from the first
/// to the last.
pub open spec fn unsigned_shape_size(dims: Seq<i64>) -> int
    decreases dims.len(),
{
    if dims.len() == 0 {
        1
    } else {
        unsigned_shape_size(dims.drop_last()) * (dims.last() as usize)
    }
}

/// The dimensions can be multiplied in `i64`: no partial product taken from
/// the front leaves the range of an `i64`.
pub open spec fn countable_dims(dims: Seq<i64>) -> bool {
    forall|k: int|
        0 <= k <= dims.len() ==> i64::MIN <= #[trigger] shape_size(dims.take(k)) <= i64::MAX
}

/// The dimensions, each read as a `usize`, can be multiplied in `usize`, and
/// so can their product and `element_size`.
pub open spec fn sizable_dims(dims: Seq<i64>, element_size: usize) -> bool {
    &&& forall|k: int|
        0 <= k <= dims.len() ==> #[trigger] unsigned_shape_size(dims.take(k)) <= usize::MAX
    &&& unsigned_shape_size(dims) * element_size <= usize::MAX
}

/// The number of elements of a tensor read back from the runtime: the
/// product of its dimensions in `i64`, converted to a `usize`.
pub fn element_count(dims: &[i64]) -> (count: usize)
    requires
        countable_dims(dims@),
    ensures
        count == shape_size(dims@) as usize,
{
    let mut product: i64 = 1;
    let mut i: usize = 0;
    assert(dims@.take(0) =~= Seq::<i64>::empty());
    while i < dims.len()
        invariant
            i <= dims.len(),
            countable_dims(dims@),
            product == shape_size(dims@.take(i as int)),
        decreases dims.len() - i,
    {
        let d = dims[i];
        assert(dims@.take(i + 1).drop_last() =~= dims@.take(i as int));
        assert(dims@.take(i + 1).last() == d);
        assert(shape_size(dims@.take(i + 1)) == product * d);
        assert(i64::MIN <= shape_size(dims@.take(i + 1)) <= i64::MAX);
        product = product * d;
        i = i + 1;
    }
    assert(dims@.take(dims.len() as int) =~= dims@);
    product as usize
}

/// The number of elements of a tensor read back from the runtime, or
/// `None` where a partial product of its dimensions overflows an `i64`.
pub fn checked_element_count(dims: &[i64]) -> (count: Option<usize>)
    ensures
        count is Some <==> countable_dims(dims@),
        count matches Some(n) ==> n == shape_size(dims@) as usize,
        (forall|i: int| 0 <= i < dims.len() ==> #[trigger] dims@[i] >= 1) && shape_size(dims@)
            <= i64::MAX ==> count is Some,
{
    proof {
        if (forall|i: int| 0 <= i < dims.len() ==> #[trigger] dims@[i] >= 1) && shape_size(dims@)
            <= i64::MAX {
            lemma_countable_when_positive(dims@);
        }
    }
    let mut product: i64 = 1;
    let mut i: usize = 0;
    assert(dims@.take(0) =~= Seq::<i64>::empty());
    while i < dims.len()
        invariant
            i <= dims.len(),
            forall|k: int|
                0 <= k <= i ==> i64::MIN <= #[trigger] shape_size(dims@.take(k)) <= i64::MAX,
            product == shape_size(dims@.take(i as int)),
            (forall|j: int| 0 <= j < dims.len() ==> #[trigger] dims@[j] >= 1) && shape_size(dims@)
                <= i64::MAX ==> countable_dims(dims@),
        decreases dims.len() - i,
    {
        let d = dims[i];
        assert(dims@.take(i + 1).drop_last() =~= dims@.take(i as int));
        assert(dims@.take(i + 1).last() == d);
        assert(shape_size(dims@.take(i + 1)) == product * d);
        match product.checked_mul(d) {
            Some(next) => {
                product = next;
            },
            None => {
                return None;
            },
        }
        assert forall|k: int| 0 <= k <= i + 1 implies i64::MIN <= #[trigger] shape_size(
            dims@.take(k),
        ) <= i64::MAX by {
            assert(k <= i || k == i + 1);
        }
        i = i + 1;
    }
    assert(dims@.take(dims.len() as int) =~= dims@);
    Some(product as usize)
}

/// The number of bytes of a tensor handed to the runtime: the product of its
/// dimensions, each read as a `usize`, times `element_size`.
pub fn byte_len(dims: &[i64], element_size: usize) -> (len: usize)
    requires
        sizable_dims(dims@, element_size),
    ensures
        len == unsigned_shape_size(dims@) * element_size,
        (forall|i: int| 0 <= i < dims.len() ==> 0 <= #[trigger] dims@[i] <= usize::MAX) ==> len
            == shape_size(dims@) * element_size,
{
    proof {
        if forall|i: int| 0 <= i < dims.len() ==> 0 <= #[trigger] dims@[i] <= usize::MAX {
            lemma_unsigned_shape_size(dims@);
        }
    }
    let mut count: usize = 1;
    let mut i: usize = 0;
    assert(dims@.take(0) =~= Seq::<i64>::empty());
    while i < dims.len()
        invariant
            i <= dims.len(),
            sizable_dims(dims@, element_size),
            count == unsigned_shape_size(dims@.take(i as int)),
        decreases dims.len() - i,
    {
        let d = dims[i] as usize;
        assert(dims@.take(i + 1).drop_last() =~= dims@.take(i as int));
        assert(dims@.take(i + 1).last() == dims@[i as int]);
        assert(unsigned_shape_size(dims@.take(i + 1)) == count * d);
        assert(unsigned_shape_size(dims@.take(i + 1)) <= usize::MAX);
        count = count * d;
        i = i + 1;
    }
    assert(dims@.take(dims.len() as int) =~= dims@);
    count * element_size
}

/// The number of bytes of a tensor handed to the runtime, or `None` where a
/// partial product of its dimensions (each read as a `usize`) or the byte
/// count overflows a `usize`.
pub fn checked_byte_len(dims: &[i64], element_size: usize) -> (len: Option<usize>)
    ensures
        len is Some <==> sizable_dims(dims@, element_size),
        len matches Some(n) ==> n == unsigned_shape_size(dims@) * element_size,
        (forall|i: int| 0 <= i < dims.len() ==> 1 <= #[trigger] dims@[i] <= usize::MAX)
            && shape_size(dims@) <= usize::MAX && shape_size(dims@) * element_size <= usize::MAX
            ==> len == Some((shape_size(dims@) * element_size) as usize),
{
    proof {
        if (forall|i: int| 0 <= i < dims.len() ==> 1 <= #[trigger] dims@[i] <= usize::MAX)
            && shape_size(dims@) <= usize::MAX && shape_size(dims@) * element_size <= usize::MAX {
            lemma_sizable_when_positive(dims@, element_size);
        }
    }
    let mut count: usize = 1;
    let mut i: usize = 0;
    assert(dims@.take(0) =~= Seq::<i64>::empty());
    while i < dims.len()
        invariant
            i <= dims.len(),
            forall|k: int| 0 <= k <= i ==> #[trigger] unsigned_shape_size(dims@.take(k)) <= usize::MAX,
            count == unsigned_shape_size(dims@.take(i as int)),
            (forall|j: int| 0 <= j < dims.len() ==> 1 <= #[trigger] dims@[j] <= usize::MAX)
                && shape_size(dims@) <= usize::MAX && shape_size(dims@) * element_size
                <= usize::MAX ==> sizable_dims(dims@, element_size) && unsigned_shape_size(dims@)
                == shape_size(dims@),
        decreases dims.len() - i,
    {
        let d = dims[i] as usize;
        assert(dims@.take(i + 1).drop_last() =~= dims@.take(i as int));
        assert(dims@.take(i + 1).last() == dims@[i as int]);
        assert(unsigned_shape_size(dims@.take(i + 1)) == count * d);
        match count.checked_mul(d) {
            Some(next) => {
                count = next;
            },
            None => {
                return None;
            },
        }
        assert forall|k: int| 0 <= k <= i + 1 implies #[trigger] unsigned_shape_size(
            dims@.take(k),
        ) <= usize::MAX by {
            assert(k <= i || k == i + 1);
        }
        i = i + 1;
    }
    assert(dims@.take(dims.len() as int) =~= dims@);
    count.checked_mul(element_size)
}

/// Where no dimension is negative or larger than a `usize`, reading the
/// dimensions as `usize` does not change their product.
pub proof fn lemma_unsigned_shape_size(dims: Seq<i64>)
    requires
        forall|i: int| 0 <= i < dims.len() ==> 0 <= #[trigger] dims[i] <= usize::MAX,
    ensures
        unsigned_shape_size(dims) == shape_size(dims),
    decreases dims.len(),
{
    if dims.len() > 0 {
        lemma_unsigned_shape_size(dims.drop_last());
        assert(dims.last() == dims[dims.len() - 1]);
    }
}

/// The element count of no dimensions is 1, and adding a dimension `x` at
/// the end multiplies the element count by `x`, whatever the number of
/// dimensions before it.
pub proof fn lemma_shape_size_push(dims: Seq<i64>, x: i64)
    ensures
        shape_size(Seq::<i64>::empty()) == 1,
        shape_size(dims.push(x)) == shape_size(dims) * x,
{
    assert(dims.push(x).drop_last() =~= dims);
    assert(dims.push(x).last() == x);
}

/// The element count of two lists of dimensions one after the other is the
/// product of their element counts.
pub proof fn lemma_shape_size_append(a: Seq<i64>, b: Seq<i64>)
    ensures
        shape_size(a + b) == shape_size(a) * shape_size(b),
    decreases b.len(),
{
    if b.len() == 0 {
        assert(a + b =~= a);
    } else {
        let c = b.drop_last();
        let x = b.last();
        assert(b =~= c.push(x));
        assert(a + b =~= (a + c).push(x));
        lemma_shape_size_push(a + c, x);
        lemma_shape_size_push(c, x);
        lemma_shape_size_append(a, c);
        let p = shape_size(a);
        let q = shape_size(c);
        assert(p * q * x == p * (q * x)) by (nonlinear_arith);
    }
}

/// The byte-length product of no dimensions is 1, and adding a dimension `x`
/// at the end multiplies it by `x` read as a `usize`, whatever the number of
/// dimensions before it.
pub proof fn lemma_unsigned_shape_size_push(dims: Seq<i64>, x: i64)
    ensures
        unsigned_shape_size(Seq::<i64>::empty()) == 1,
        unsigned_shape_size(dims.push(x)) == unsigned_shape_size(dims) * (x as usize),
{
    assert(dims.push(x).drop_last() =~= dims);
    assert(dims.push(x).last() == x);
}

/// The byte-length product of two lists of dimensions one after the other is
/// the product of their byte-length products.
pub proof fn lemma_unsigned_shape_size_append(a: Seq<i64>, b: Seq<i64>)
    ensures
        unsigned_shape_size(a + b) == unsigned_shape_size(a) * unsigned_shape_size(b),
    decreases b.len(),
{
    if b.len() == 0 {
        assert(a + b =~= a);
    } else {
        let c = b.drop_last();
        let x = b.last();
        assert(b =~= c.push(x));
        assert(a + b =~= (a + c).push(x));
        lemma_unsigned_shape_size_push(a + c, x);
        lemma_unsigned_shape_size_push(c, x);
        lemma_unsigned_shape_size_append(a, c);
        let p = unsigned_shape_size(a);
        let q = unsigned_shape_size(c);
        let y = (x as usize) as int;
        assert(p * q * y == p * (q * y)) by (nonlinear_arith);
    }
}

/// Where every dimension is at least 1, every partial product taken from the
/// front lies between 1 and the whole product.
pub proof fn lemma_positive_prefixes(dims: Seq<i64>)
    requires
        forall|i: int| 0 <= i < dims.len() ==> #[trigger] dims[i] >= 1,
    ensures
        forall|k: int|
            0 <= k <= dims.len() ==> 1 <= #[trigger] shape_size(dims.take(k)) <= shape_size(dims),
    decreases dims.len(),
{
    if dims.len() > 0 {
        let c = dims.drop_last();
        let x = dims.last();
        assert(x == dims[dims.len() - 1]);
        assert forall|i: int| 0 <= i < c.len() implies #[trigger] c[i] >= 1 by {
            assert(c[i] == dims[i]);
        }
        lemma_positive_prefixes(c);
        assert(c.take(c.len() as int) =~= c);
        let q = shape_size(c);
        assert(shape_size(dims) == q * x);
        assert(q <= q * x) by (nonlinear_arith)
            requires
                q >= 1,
                x >= 1,
        ;
        assert forall|k: int| 0 <= k <= dims.len() implies 1 <= #[trigger] shape_size(dims.take(k))
            <= shape_size(dims) by {
            if k < dims.len() {
                assert(dims.take(k) =~= c.take(k));
            } else {
                assert(dims.take(k) =~= dims);
            }
        }
    } else {
        assert(dims.take(0) =~= dims);
    }
}

/// Dimensions that are all at least 1 and whose product fits in an `i64`
/// can be multiplied in `i64`, whatever their number.
pub proof fn lemma_countable_when_positive(dims: Seq<i64>)
    requires
        forall|i: int| 0 <= i < dims.len() ==> #[trigger] dims[i] >= 1,
        shape_size(dims) <= i64::MAX,
    ensures
        countable_dims(dims),
{
    lemma_positive_prefixes(dims);
}

/// Dimensions that are all between 1 and `usize::MAX`, whose product fits in
/// a `usize` and whose product times `element_size` does too, give a byte
/// length, whatever their number; it is their product times `element_size`.
pub proof fn lemma_sizable_when_positive(dims: Seq<i64>, element_size: usize)
    requires
        forall|i: int| 0 <= i < dims.len() ==> 1 <= #[trigger] dims[i] <= usize::MAX,
        shape_size(dims) <= usize::MAX,
        shape_size(dims) * element_size <= usize::MAX,
    ensures
        sizable_dims(dims, element_size),
        unsigned_shape_size(dims) == shape_size(dims),
{
    lemma_unsigned_shape_size(dims);
    lemma_positive_prefixes(dims);
    assert forall|k: int| 0 <= k <= dims.len() implies #[trigger] unsigned_shape_size(dims.take(k))
        <= usize::MAX by {
        let t = dims.take(k);
        assert forall|i: int| 0 <= i < t.len() implies 0 <= #[trigger] t[i] <= usize::MAX by {
            assert(t[i] == dims[i]);
        }
        lemma_unsigned_shape_size(t);
        assert(shape_size(t) <= shape_size(dims));
    }
}

} // verus!
