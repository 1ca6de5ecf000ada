use vstd::prelude::*;

use crate::errors::ChurOnError;
use crate::tensor::{checked_product, count_mismatch_msg, count_overflow_msg, shape_element_count,
    TensorInfo};
use crate::text::{dec_digits, usize_to_string};

verus! {

/// A dynamic-dimensional array of 32-bit integers, held by the inference
/// engine's array crate. The value is opaque here; what it holds is spoken
/// of through `nd_data_i32` and `nd_shape_i32`.
#[verifier::external_body]
pub struct NdArrayI32 {
    inner: ndarray::ArrayD<i32>,
}

/// A dynamic-dimensional array of 64-bit integers, held by the inference
/// engine's array crate, opaque here like its 32-bit counterpart.
#[verifier::external_body]
pub struct NdArrayI64 {
    inner: ndarray::ArrayD<i64>,
}

/// The elements a dynamic-dimensional array of 32-bit integers holds, in
/// logical row-major order.
pub uninterp spec fn nd_data_i32(a: NdArrayI32) -> Seq<i32>;

/// The shape of a dynamic-dimensional array of 32-bit integers.
pub uninterp spec fn nd_shape_i32(a: NdArrayI32) -> Seq<usize>;

/// The elements a dynamic-dimensional array of 64-bit integers holds, in
/// logical row-major order.
pub uninterp spec fn nd_data_i64(a: NdArrayI64) -> Seq<i64>;

/// The shape of a dynamic-dimensional array of 64-bit integers.
pub uninterp spec fn nd_shape_i64(a: NdArrayI64) -> Seq<usize>;

/// Relies on ndarray::ArrayBase::from_shape_vec: with a plain (row-major)
/// shape it uses the vector as the array's elements in logical order, errs
/// when the shape does not correspond to the vector's length or would
/// overflow isize when laid out, and succeeds whenever every dimension is
/// positive (the element count then equals the vector's length, which fits).
#[verifier::external_body]
fn nd_from_vec_i32(shape: &Vec<usize>, data: Vec<i32>) -> (r: Result<NdArrayI32, String>)
    requires
        checked_product(shape@) == Some(data@.len() as nat),
    ensures
        r matches Ok(a) ==> nd_data_i32(a) == data@ && nd_shape_i32(a) == shape@,
        (forall|i: int| 0 <= i < shape@.len() ==> shape@[i] > 0) ==> r is Ok,
{
    match ndarray::ArrayD::from_shape_vec(ndarray::IxDyn(shape.as_slice()), data) {
        Ok(a) => Ok(NdArrayI32 { inner: a }),
        Err(e) => Err(e.to_string()),
    }
}

/// Relies on ndarray::ArrayBase::from_shape_vec, as for the 32-bit case.
#[verifier::external_body]
fn nd_from_vec_i64(shape: &Vec<usize>, data: Vec<i64>) -> (r: Result<NdArrayI64, String>)
    requires
        checked_product(shape@) == Some(data@.len() as nat),
    ensures
        r matches Ok(a) ==> nd_data_i64(a) == data@ && nd_shape_i64(a) == shape@,
        (forall|i: int| 0 <= i < shape@.len() ==> shape@[i] > 0) ==> r is Ok,
{
    match ndarray::ArrayD::from_shape_vec(ndarray::IxDyn(shape.as_slice()), data) {
        Ok(a) => Ok(NdArrayI64 { inner: a }),
        Err(e) => Err(e.to_string()),
    }
}

/// Relies on ndarray::ArrayBase::iter: it yields the elements in logical
/// row-major order.
#[verifier::external_body]
fn nd_to_vec_i32(a: &NdArrayI32) -> (r: Vec<i32>)
    ensures
        r@ == nd_data_i32(*a),
{
    a.inner.iter().cloned().collect()
}

/// Relies on ndarray::ArrayBase::iter, as for the 32-bit case.
#[verifier::external_body]
fn nd_to_vec_i64(a: &NdArrayI64) -> (r: Vec<i64>)
    ensures
        r@ == nd_data_i64(*a),
{
    a.inner.iter().cloned().collect()
}

/// Relies on ndarray::ArrayBase::shape: it returns the array's dimensions.
#[verifier::external_body]
fn nd_shape_vec_i32(a: &NdArrayI32) -> (r: Vec<usize>)
    ensures
        r@ == nd_shape_i32(*a),
{
    a.inner.shape().to_vec()
}

/// Relies on ndarray::ArrayBase::shape, as for the 32-bit case.
#[verifier::external_body]
fn nd_shape_vec_i64(a: &NdArrayI64) -> (r: Vec<usize>)
    ensures
        r@ == nd_shape_i64(*a),
{
    a.inner.shape().to_vec()
}

/// Data conversion utilities between host values and the engine-side
/// array representation.
pub struct DataConverter;

impl DataConverter {
    /// Convert a host integer vector into a 32-bit integer array of the
    /// given shape; the flat length must equal the shape's element count.
    pub fn r_to_ndarray_i32(r_data: Vec<i32>, shape: &Vec<usize>) -> (r: Result<
        NdArrayI32,
        ChurOnError,
    >)
        ensures
            match r {
                Ok(a) => {
                    &&& checked_product(shape@) == Some(r_data@.len() as nat)
                    &&& nd_data_i32(a) == r_data@
                    &&& nd_shape_i32(a) == shape@
                },
                Err(e) => e matches ChurOnError::DataConversion(_),
            },
            checked_product(shape@) is None ==> (r matches Err(ChurOnError::DataConversion(m))
                && m@ == count_overflow_msg()),
            forall|p: nat|
                checked_product(shape@) == Some(p) && p != r_data@.len() ==> (r matches Err(
                    ChurOnError::DataConversion(m),
                ) && m@ == count_mismatch_msg(r_data@.len(), p)),
            checked_product(shape@) == Some(r_data@.len() as nat) && (forall|i: int|
                0 <= i < shape@.len() ==> shape@[i] > 0) ==> r is Ok,
    {
        match shape_element_count(shape) {
            None => Err(
                ChurOnError::DataConversion(String::from_str("Shape element count overflows")),
            ),
            Some(expected) => {
                if expected != r_data.len() {
                    let msg = String::from_str("Data length ").concat(
                        usize_to_string(r_data.len()).as_str(),
                    ).concat(" doesn't match shape (expected ").concat(
                        usize_to_string(expected).as_str(),
                    ).concat(")");
                    Err(ChurOnError::DataConversion(msg))
                } else {
                    match nd_from_vec_i32(shape, r_data) {
                        Ok(a) => Ok(a),
                        Err(e) => Err(
                            ChurOnError::DataConversion(
                                String::from_str("Failed to create ndarray: ").concat(e.as_str()),
                            ),
                        ),
                    }
                }
            },
        }
    }

    /// Convert a host integer vector into a 64-bit integer array of the
    /// given shape; the flat length must equal the shape's element count.
    pub fn r_to_ndarray_i64(r_data: Vec<i64>, shape: &Vec<usize>) -> (r: Result<
        NdArrayI64,
        ChurOnError,
    >)
        ensures
            match r {
                Ok(a) => {
                    &&& checked_product(shape@) == Some(r_data@.len() as nat)
                    &&& nd_data_i64(a) == r_data@
                    &&& nd_shape_i64(a) == shape@
                },
                Err(e) => e matches ChurOnError::DataConversion(_),
            },
            checked_product(shape@) is None ==> (r matches Err(ChurOnError::DataConversion(m))
                && m@ == count_overflow_msg()),
            forall|p: nat|
                checked_product(shape@) == Some(p) && p != r_data@.len() ==> (r matches Err(
                    ChurOnError::DataConversion(m),
                ) && m@ == count_mismatch_msg(r_data@.len(), p)),
            checked_product(shape@) == Some(r_data@.len() as nat) && (forall|i: int|
                0 <= i < shape@.len() ==> shape@[i] > 0) ==> r is Ok,
    {
        match shape_element_count(shape) {
            None => Err(
                ChurOnError::DataConversion(String::from_str("Shape element count overflows")),
            ),
            Some(expected) => {
                if expected != r_data.len() {
                    let msg = String::from_str("Data length ").concat(
                        usize_to_string(r_data.len()).as_str(),
                    ).concat(" doesn't match shape (expected ").concat(
                        usize_to_string(expected).as_str(),
                    ).concat(")");
                    Err(ChurOnError::DataConversion(msg))
                } else {
                    match nd_from_vec_i64(shape, r_data) {
                        Ok(a) => Ok(a),
                        Err(e) => Err(
                            ChurOnError::DataConversion(
                                String::from_str("Failed to create ndarray: ").concat(e.as_str()),
                            ),
                        ),
                    }
                }
            },
        }
    }

    /// Convert a 32-bit integer array back to a flat host integer vector,
    /// in logical row-major order.
    pub fn ndarray_i32_to_r(array: NdArrayI32) -> (r: Result<Vec<i32>, ChurOnError>)
        ensures
            r matches Ok(v) && v@ == nd_data_i32(array),
    {
        Ok(nd_to_vec_i32(&array))
    }

    /// Convert a 64-bit integer array back to a flat host integer vector,
    /// narrowing each element to 32 bits by truncation.
    pub fn ndarray_i64_to_r(array: NdArrayI64) -> (r: Result<Vec<i32>, ChurOnError>)
        ensures
            r matches Ok(v) && v@.len() == nd_data_i64(array).len() && (forall|i: int|
                0 <= i < v@.len() ==> v@[i] == nd_data_i64(array)[i] as i32),
    {
        let wide = nd_to_vec_i64(&array);
        let mut out: Vec<i32> = Vec::new();
        let mut i: usize = 0;
        while i < wide.len()
            invariant
                0 <= i <= wide@.len(),
                wide@ == nd_data_i64(array),
                out@.len() == i,
                forall|j: int| 0 <= j < i ==> out@[j] == wide@[j] as i32,
            decreases wide.len() - i,
        {
            out.push(#[verifier::truncate] (wide[i] as i32));
            i = i + 1;
        }
        Ok(out)
    }

    /// The shape of a 32-bit integer array, as a vector.
    pub fn shape_of_i32(array: &NdArrayI32) -> (r: Vec<usize>)
        ensures
            r@ == nd_shape_i32(*array),
    {
        nd_shape_vec_i32(array)
    }

    /// The shape of a 64-bit integer array, as a vector.
    pub fn shape_of_i64(array: &NdArrayI64) -> (r: Vec<usize>)
        ensures
            r@ == nd_shape_i64(*array),
    {
        nd_shape_vec_i64(array)
    }
}

/// A declared shape's dimensions as unsigned sizes, with the dynamic
/// sentinel mapped to zero, which any actual size satisfies.
pub open spec fn expected_dims(shape: Seq<i32>) -> Seq<usize> {
    shape.map_values(
        |x: i32|
            if x == -1 {
                0usize
            } else {
                x as usize
            },
    )
}

/// A dimension check passes when the expectation is the wildcard zero or
/// the sizes agree.
pub open spec fn dim_ok(actual: usize, expected: usize) -> bool {
    expected == 0 || actual == expected
}

/// The first dimension at or after `i` where the actual size fails its
/// expectation; the length when every dimension passes.
pub open spec fn first_dim_mismatch(data: Seq<usize>, exp: Seq<usize>, i: int) -> int
    decreases data.len() - i when 0 <= i <= data.len() && data.len() == exp.len()
{
    if i >= data.len() {
        data.len() as int
    } else if !dim_ok(data[i], exp[i]) {
        i
    } else {
        first_dim_mismatch(data, exp, i + 1)
    }
}

/// The message reported when the dimension counts differ.
pub open spec fn msg_dim_count(got: nat, expected: nat) -> Seq<char> {
    "Shape dimension mismatch: got "@ + dec_digits(got) + " dimensions, expected "@ + dec_digits(
        expected,
    )
}

/// The message reported for the first dimension whose size fails.
pub open spec fn msg_dim_size(i: nat, got: nat, expected: nat) -> Seq<char> {
    "Shape mismatch at dimension "@ + dec_digits(i) + ": got "@ + dec_digits(got) + ", expected "@
        + dec_digits(expected)
}

impl DataConverter {
    /// Validate an actual data shape against a declared tensor's metadata:
    /// the dimension counts must agree, and each declared dimension must
    /// match exactly unless it is dynamic (-1, a wildcard).
    pub fn validate_input_data(data_shape: &Vec<usize>, expected_info: &TensorInfo) -> (r: Result<
        (),
        ChurOnError,
    >)
        ensures
            ({
                let exp = expected_dims(expected_info.shape@);
                if data_shape@.len() != exp.len() {
                    r matches Err(ChurOnError::Validation(m)) && m@ == msg_dim_count(
                        data_shape@.len(),
                        exp.len(),
                    )
                } else {
                    let k = first_dim_mismatch(data_shape@, exp, 0);
                    if k == data_shape@.len() {
                        r is Ok
                    } else {
                        r matches Err(ChurOnError::Validation(m)) && m@ == msg_dim_size(
                            k as nat,
                            data_shape@[k] as nat,
                            exp[k] as nat,
                        )
                    }
                }
            }),
    {
        let ghost exp = expected_dims(expected_info.shape@);
        if data_shape.len() != expected_info.shape.len() {
            let msg = String::from_str("Shape dimension mismatch: got ").concat(
                usize_to_string(data_shape.len()).as_str(),
            ).concat(" dimensions, expected ").concat(
                usize_to_string(expected_info.shape.len()).as_str(),
            );
            return Err(ChurOnError::Validation(msg));
        }
        let mut i: usize = 0;
        while i < data_shape.len()
            invariant
                0 <= i <= data_shape@.len(),
                exp == expected_dims(expected_info.shape@),
                data_shape@.len() == exp.len(),
                first_dim_mismatch(data_shape@, exp, 0) == first_dim_mismatch(
                    data_shape@,
                    exp,
                    i as int,
                ),
            decreases data_shape.len() - i,
        {
            let declared = expected_info.shape[i];
            let expected: usize = if declared == -1 {
                0
            } else {
                #[verifier::truncate] (declared as usize)
            };
            proof {
                assert(exp[i as int] == expected);
            }
            let actual = data_shape[i];
            if expected != 0 && actual != expected {
                proof {
                    assert(first_dim_mismatch(data_shape@, exp, i as int) == i as int);
                }
                let msg = String::from_str("Shape mismatch at dimension ").concat(
                    usize_to_string(i).as_str(),
                ).concat(": got ").concat(usize_to_string(actual).as_str()).concat(
                    ", expected ",
                ).concat(usize_to_string(expected).as_str());
                return Err(ChurOnError::Validation(msg));
            }
            proof {
                assert(dim_ok(data_shape@[i as int], exp[i as int]));
                assert(first_dim_mismatch(data_shape@, exp, i as int) == first_dim_mismatch(
                    data_shape@,
                    exp,
                    i as int + 1,
                ));
            }
            i = i + 1;
        }
        Ok(())
    }
}

} // verus!
