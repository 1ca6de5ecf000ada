use vstd::prelude::*;

use crate::errors::ChurOnError;
use crate::text::{dec_digits, usize_to_string};

verus! {

/// Metadata about one model input or output tensor.
#[derive(Debug, Clone)]
pub struct TensorInfo {
    /// Name of the tensor
    pub name: String,
    /// Shape of the tensor: one signed entry per dimension, with -1 marking
    /// a dynamic dimension whose size is only known at inference time
    pub shape: Vec<i32>,
    /// Data type of the tensor, as a descriptive tag
    pub data_type: String,
}

impl TensorInfo {
    /// Create a new TensorInfo instance.
    pub fn new(name: String, shape: Vec<i32>, data_type: String) -> (r: Self)
        ensures
            r.name@ == name@,
            r.shape@ == shape@,
            r.data_type@ == data_type@,
    {
        TensorInfo { name, shape, data_type }
    }

    /// Get the tensor name.
    pub fn get_name(&self) -> (r: String)
        ensures
            r@ == self.name@,
    {
        self.name.clone()
    }

    /// Get the tensor shape.
    pub fn get_shape(&self) -> (r: Vec<i32>)
        ensures
            r@ == self.shape@,
    {
        self.shape.clone()
    }

    /// Get the tensor data type.
    pub fn get_data_type(&self) -> (r: String)
        ensures
            r@ == self.data_type@,
    {
        self.data_type.clone()
    }
}

/// The product of the dimensions, folded left to right, cut off at the
/// machine limit: `None` as soon as a partial product would not fit.
pub open spec fn checked_prefix_product(s: Seq<usize>, acc: nat) -> Option<nat>
    decreases s.len(),
{
    if s.len() == 0 {
        Some(acc)
    } else if acc * s[0] > usize::MAX {
        None
    } else {
        checked_prefix_product(s.drop_first(), (acc * s[0]) as nat)
    }
}

/// The number of elements a shape describes, when it fits the machine:
/// the product of the dimensions (one for the empty shape).
pub open spec fn checked_product(s: Seq<usize>) -> Option<nat> {
    checked_prefix_product(s, 1)
}

/// Compute the element count of a shape; `None` when a partial product
/// overflows (such a shape can never match any actual buffer).
pub fn shape_element_count(shape: &Vec<usize>) -> (r: Option<usize>)
    ensures
        match r {
            Some(p) => checked_product(shape@) == Some(p as nat),
            None => checked_product(shape@) is None,
        },
{
    let mut acc: usize = 1;
    let mut i: usize = 0;
    proof {
        assert(shape@.skip(0) =~= shape@);
    }
    while i < shape.len()
        invariant
            0 <= i <= shape.len(),
            checked_product(shape@) == checked_prefix_product(shape@.skip(i as int), acc as nat),
        decreases shape.len() - i,
    {
        proof {
            assert(shape@.skip(i as int)[0] == shape@[i as int]);
            assert(shape@.skip(i as int).drop_first() =~= shape@.skip(i as int + 1));
        }
        match acc.checked_mul(shape[i]) {
            Some(next) => {
                acc = next;
            },
            None => {
                return None;
            },
        }
        i = i + 1;
    }
    proof {
        assert(shape@.skip(shape@.len() as int) =~= Seq::<usize>::empty());
    }
    Some(acc)
}

/// A declared dimension that does not pin a size: zero, or the dynamic
/// sentinel (any non-positive entry).
pub open spec fn free_dim(d: i64) -> bool {
    d <= 0
}

/// Whether the declared shape leaves some dimension unpinned, so that the
/// shape reported by the caller's value must be used instead.
pub open spec fn has_free_dim(declared: Seq<i64>) -> bool {
    exists|i: int| 0 <= i < declared.len() && free_dim(declared[i])
}

/// The declared shape taken literally, with a dynamic sentinel coerced to
/// one element.
pub open spec fn widen_declared(declared: Seq<i64>) -> Seq<usize> {
    declared.map_values(
        |d: i64|
            if d == -1 {
                1usize
            } else {
                d as usize
            },
    )
}

/// The shape actually used to interpret a flat buffer during encoding:
/// the caller's own shape when the declared one leaves a dimension
/// unpinned, the declared shape otherwise.
pub open spec fn effective_shape(declared: Seq<i64>, actual: Seq<usize>) -> Seq<usize> {
    if has_free_dim(declared) {
        actual
    } else {
        widen_declared(declared)
    }
}

/// The outcome of encoding a numeric value: the effective shape when its
/// element count matches the buffer length, `None` otherwise.
pub open spec fn encode_numeric_spec(declared: Seq<i64>, actual: Seq<usize>, len: nat) -> Option<
    Seq<usize>,
> {
    let eff = effective_shape(declared, actual);
    if checked_product(eff) == Some(len) {
        Some(eff)
    } else {
        None
    }
}

/// Round trip: a numeric buffer whose length equals its
/// shape's element count encodes successfully against any declared shape
/// that either leaves a dimension unpinned or agrees with it, and the
/// encoded tensor carries exactly that shape; since decoding hands the
/// engine-reported shape and buffer through unchanged, shape and element
/// bits survive the trip (the narrowing to the canonical wire type and
/// back is the only loss, and happens outside this library).
pub proof fn lemma_numeric_round_trip(declared: Seq<i64>, shape: Seq<usize>, len: nat)
    requires
        checked_product(shape) == Some(len),
        has_free_dim(declared) || widen_declared(declared) == shape,
    ensures
        encode_numeric_spec(declared, shape, len) == Some(shape),
{
}

/// Every numeric tensor that passes encoding satisfies the buffer
/// invariant: its flat buffer length equals its shape's element count.
pub proof fn lemma_encoded_count(declared: Seq<i64>, actual: Seq<usize>, len: nat)
    ensures
        encode_numeric_spec(declared, actual, len) matches Some(eff) ==> checked_product(eff)
            == Some(len),
{
}

/// A generic caller-side value crossing the marshalling boundary: a tagged
/// union decided once at the boundary and not re-inspected downstream.
#[derive(Debug, Clone)]
pub enum TensorValue {
    /// A numeric array: a flat row-major buffer of element values, each
    /// held as the bit pattern of an IEEE-754 binary64 number, together
    /// with its shape. The buffer length always equals the shape's element
    /// count once the value has passed encoding.
    Numeric { shape: Vec<usize>, bits: Vec<u64> },
    /// A text array: an ordered sequence of strings.
    Text { values: Vec<String> },
}

/// A value marshalled for the engine: like `TensorValue`, but with the
/// effective shape resolved, so text tensors carry their shape too.
#[derive(Debug, Clone)]
pub enum EncodedTensor {
    /// A numeric tensor, shaped by the effective shape.
    Numeric { shape: Vec<usize>, bits: Vec<u64> },
    /// A text tensor of shape `[count]`.
    Text { shape: Vec<usize>, values: Vec<String> },
}

/// What the engine reported for one named output: a numeric tensor already
/// widened to binary64 bit patterns, or a tensor of neither supported
/// floating-point type.
#[derive(Debug, Clone)]
pub enum FetchedTensor {
    /// A numeric tensor in the engine's runtime-reported shape.
    Numeric { shape: Vec<usize>, bits: Vec<u64> },
    /// The output tensor is neither of the two supported floating-point
    /// types.
    Unsupported,
}

/// The message reported when a buffer length does not match the element
/// count of the effective shape.
pub open spec fn count_mismatch_msg(len: nat, expected: nat) -> Seq<char> {
    "Data length "@ + dec_digits(len) + " doesn't match shape (expected "@ + dec_digits(expected)
        + ")"@
}

/// The message reported when the effective shape's element count overflows
/// the machine limit.
pub open spec fn count_overflow_msg() -> Seq<char> {
    "Shape element count overflows"@
}

/// Encode one caller value against the declared shape of the input it is
/// bound for. A text value becomes a text tensor of shape `[count]`; a
/// numeric value is checked against the effective shape and fails with a
/// data-conversion error when its buffer length does not match.
pub fn encode_input(declared: &Vec<i64>, value: &TensorValue) -> (r: Result<
    EncodedTensor,
    ChurOnError,
>)
    ensures
        match value {
            TensorValue::Text { values } => {
                &&& r matches Ok(EncodedTensor::Text { shape, values: vs })
                &&& shape@ == seq![values@.len() as usize]
                &&& vs@ == values@
            },
            TensorValue::Numeric { shape, bits } => match encode_numeric_spec(
                declared@,
                shape@,
                bits@.len(),
            ) {
                Some(eff) => {
                    &&& r matches Ok(EncodedTensor::Numeric { shape: s, bits: b })
                    &&& s@ == eff
                    &&& b@ == bits@
                },
                None => {
                    &&& r matches Err(ChurOnError::DataConversion(m))
                    &&& m@ == (if checked_product(effective_shape(declared@, shape@)) is None {
                        count_overflow_msg()
                    } else {
                        count_mismatch_msg(
                            bits@.len(),
                            checked_product(effective_shape(declared@, shape@)).unwrap(),
                        )
                    })
                },
            },
        },
{
    match value {
        TensorValue::Text { values } => {
            let mut shape: Vec<usize> = Vec::new();
            shape.push(values.len());
            proof {
                assert(shape@ =~= seq![values@.len() as usize]);
            }
            Ok(EncodedTensor::Text { shape, values: values.clone() })
        },
        TensorValue::Numeric { shape, bits } => {
            let eff = resolve_effective_shape(declared, shape);
            match shape_element_count(&eff) {
                Some(expected) => {
                    if expected == bits.len() {
                        Ok(EncodedTensor::Numeric { shape: eff, bits: bits.clone() })
                    } else {
                        let msg = String::from_str("Data length ").concat(
                            usize_to_string(bits.len()).as_str(),
                        ).concat(" doesn't match shape (expected ").concat(
                            usize_to_string(expected).as_str(),
                        ).concat(")");
                        Err(ChurOnError::DataConversion(msg))
                    }
                },
                None => {
                    Err(ChurOnError::DataConversion(String::from_str(
                        "Shape element count overflows",
                    )))
                },
            }
        },
    }
}

/// Resolve the effective shape for a numeric value: the caller's own shape
/// when the declared one leaves a dimension unpinned, otherwise the
/// declared shape with the dynamic sentinel coerced to one element.
pub fn resolve_effective_shape(declared: &Vec<i64>, actual: &Vec<usize>) -> (r: Vec<usize>)
    ensures
        r@ == effective_shape(declared@, actual@),
{
    let mut any_free = false;
    let mut i: usize = 0;
    while i < declared.len()
        invariant
            0 <= i <= declared.len(),
            any_free == exists|j: int| 0 <= j < i && free_dim(declared@[j]),
        decreases declared.len() - i,
    {
        if declared[i] <= 0 {
            any_free = true;
        }
        i = i + 1;
    }
    if any_free {
        actual.clone()
    } else {
        let mut out: Vec<usize> = Vec::new();
        let mut k: usize = 0;
        while k < declared.len()
            invariant
                0 <= k <= declared.len(),
                out@.len() == k,
                forall|j: int|
                    0 <= j < k ==> out@[j] == (if declared@[j] == -1 {
                        1usize
                    } else {
                        declared@[j] as usize
                    }),
            decreases declared.len() - k,
        {
            let d = declared[k];
            if d == -1 {
                out.push(1);
            } else {
                out.push(#[verifier::truncate] (d as usize));
            }
            k = k + 1;
        }
        proof {
            assert(out@ =~= widen_declared(declared@));
        }
        out
    }
}

} // verus!
