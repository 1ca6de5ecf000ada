use vstd::prelude::*;

use crate::errors::ChurOnError;
use crate::session::{name_views, shape_at, RSession};
use crate::tensor::{
    checked_product, count_mismatch_msg, count_overflow_msg, effective_shape, encode_input,
    encode_numeric_spec, EncodedTensor, FetchedTensor, TensorValue,
};

verus! {

/// A named bag of caller values bound for an inference call. A well-formed
/// bag pairs each value with a name; a bag whose values carry no names
/// (positional data) is represented with an empty name list and is
/// rejected by validation.
#[derive(Debug, Clone)]
pub struct InputBag {
    /// The names of the values, in the caller's order; empty when the bag
    /// is unnamed.
    pub names: Vec<String>,
    /// The values, in the caller's order.
    pub values: Vec<TensorValue>,
}

/// The first index at or after `i` whose entry of `xs` does not occur in
/// `ys`; the length of `xs` when every entry occurs.
pub open spec fn first_not_in(xs: Seq<Seq<char>>, ys: Seq<Seq<char>>, i: int) -> int
    decreases xs.len() - i when 0 <= i <= xs.len()
{
    if i >= xs.len() {
        xs.len() as int
    } else if !ys.contains(xs[i]) {
        i
    } else {
        first_not_in(xs, ys, i + 1)
    }
}

/// The first index at or after `i` where `xs` holds `x`; the length of
/// `xs` when it is absent.
pub open spec fn first_index_of(xs: Seq<Seq<char>>, x: Seq<char>, i: int) -> int
    decreases xs.len() - i when 0 <= i <= xs.len()
{
    if i >= xs.len() {
        xs.len() as int
    } else if xs[i] == x {
        i
    } else {
        first_index_of(xs, x, i + 1)
    }
}

/// The verdict of checking a caller's bag against the declared inputs:
/// exact-match, closed-world, with the checks applied in a fixed order.
pub enum InputCheck {
    /// The bag passes every check.
    Accepted,
    /// The bag holds no values at all.
    EmptyBag,
    /// The bag's values carry no (or mismatched) names.
    Unnamed,
    /// The declared input at this index is not provided.
    MissingRequired(int),
    /// The provided name at this index is not declared.
    Unexpected(int),
}

/// Check a provided name list against the declared input names: the bag
/// must be non-empty and named, every declared input must be provided, and
/// every provided name must be declared.
pub open spec fn check_inputs(
    declared: Seq<Seq<char>>,
    provided: Seq<Seq<char>>,
    n_values: nat,
) -> InputCheck {
    if n_values == 0 {
        InputCheck::EmptyBag
    } else if provided.len() != n_values {
        InputCheck::Unnamed
    } else if first_not_in(declared, provided, 0) < declared.len() {
        InputCheck::MissingRequired(first_not_in(declared, provided, 0))
    } else if first_not_in(provided, declared, 0) < provided.len() {
        InputCheck::Unexpected(first_not_in(provided, declared, 0))
    } else {
        InputCheck::Accepted
    }
}

/// The message reported for a bag with no values.
pub open spec fn msg_no_input() -> Seq<char> {
    "No input data provided"@
}

/// The message reported for an unnamed bag.
pub open spec fn msg_unnamed() -> Seq<char> {
    "Input data must be a named list"@
}

/// The message reported when a declared input is not provided.
pub open spec fn msg_missing_required(name: Seq<char>) -> Seq<char> {
    "Required input '"@ + name + "' not provided"@
}

/// The message reported when a provided name is not declared.
pub open spec fn msg_unexpected(name: Seq<char>) -> Seq<char> {
    "Unexpected input '"@ + name + "' provided"@
}

/// The message reported when a provided name cannot be resolved while
/// preparing tensors.
pub open spec fn msg_unknown_input(name: Seq<char>) -> Seq<char> {
    "Unknown input name: "@ + name
}

/// The message reported when a declared output is absent from the
/// engine's results.
pub open spec fn msg_missing_output(name: Seq<char>) -> Seq<char> {
    "Output '"@ + name + "' not found in inference results"@
}

/// The message reported when a declared output has a tensor of neither
/// supported floating-point type.
pub open spec fn msg_unsupported_output(name: Seq<char>) -> Seq<char> {
    "Unsupported output data type for '"@ + name + "'"@
}

/// Why one entry of the bag fails tensor preparation.
pub enum EntryFault {
    /// The entry's name is not among the declared inputs.
    UnknownName,
    /// The entry's effective shape has an element count beyond the
    /// machine limit.
    CountOverflow,
    /// The entry's buffer length does not match its effective shape.
    CountMismatch,
}

/// The fault of the bag entry at `i`, if any: its name must resolve to a
/// declared input, and a numeric value must fit its effective shape.
pub open spec fn entry_fault(sess: RSession, bag: InputBag, i: int) -> Option<EntryFault> {
    let name = bag.names@[i]@;
    let k = first_index_of(name_views(sess.input_names@), name, 0);
    if k == sess.input_names@.len() {
        Some(EntryFault::UnknownName)
    } else {
        match bag.values@[i] {
            TensorValue::Text { .. } => None,
            TensorValue::Numeric { shape, bits } => {
                let declared = shape_at(sess.input_shapes@, k);
                if encode_numeric_spec(declared, shape@, bits@.len()) is Some {
                    None
                } else if checked_product(effective_shape(declared, shape@)) is None {
                    Some(EntryFault::CountOverflow)
                } else {
                    Some(EntryFault::CountMismatch)
                }
            },
        }
    }
}

/// The first faulty entry of the bag at or after `i`; the bag's length
/// when every entry prepares cleanly.
pub open spec fn first_faulty(sess: RSession, bag: InputBag, i: int) -> int
    decreases bag.values@.len() - i when 0 <= i <= bag.values@.len()
{
    if i >= bag.values@.len() {
        bag.values@.len() as int
    } else if entry_fault(sess, bag, i) is Some {
        i
    } else {
        first_faulty(sess, bag, i + 1)
    }
}

/// One prepared tensor agrees with the bag entry at `i`: same name, and
/// the value encoded against the declared shape its name resolves to.
pub open spec fn entry_good(
    sess: RSession,
    bag: InputBag,
    e: (String, EncodedTensor),
    i: int,
) -> bool {
    &&& e.0@ == bag.names@[i]@
    &&& match bag.values@[i] {
        TensorValue::Text { values } => {
            &&& e.1 matches EncodedTensor::Text { shape, values: vs }
            &&& shape@ == seq![values@.len() as usize]
            &&& vs@ == values@
        },
        TensorValue::Numeric { shape, bits } => {
            let declared = shape_at(
                sess.input_shapes@,
                first_index_of(name_views(sess.input_names@), bag.names@[i]@, 0),
            );
            &&& e.1 matches EncodedTensor::Numeric { shape: s, bits: b }
            &&& encode_numeric_spec(declared, shape@, bits@.len()) == Some(s@)
            &&& b@ == bits@
        },
    }
}

/// The error reported for the faulty bag entry at `i` carries the kind and
/// message its fault calls for.
pub open spec fn fault_error_matches(
    sess: RSession,
    bag: InputBag,
    i: int,
    e: ChurOnError,
) -> bool {
    match entry_fault(sess, bag, i) {
        Some(EntryFault::UnknownName) => e matches ChurOnError::Validation(m) && m@
            == msg_unknown_input(bag.names@[i]@),
        Some(EntryFault::CountOverflow) => e matches ChurOnError::DataConversion(m) && m@
            == count_overflow_msg(),
        Some(EntryFault::CountMismatch) => match bag.values@[i] {
            TensorValue::Numeric { shape, bits } => {
                let declared = shape_at(
                    sess.input_shapes@,
                    first_index_of(name_views(sess.input_names@), bag.names@[i]@, 0),
                );
                e matches ChurOnError::DataConversion(m) && m@ == count_mismatch_msg(
                    bits@.len(),
                    checked_product(effective_shape(declared, shape@)).unwrap(),
                )
            },
            _ => false,
        },
        None => false,
    }
}

/// Why one declared output cannot be decoded from the engine's results.
pub enum OutputFault {
    /// The declared output's name is absent from the results.
    MissingOutput,
    /// The tensor found is of neither supported floating-point type.
    UnsupportedOutput,
}

/// The names the engine's results carry, in the engine's return order.
pub open spec fn result_names(results: Seq<(String, FetchedTensor)>) -> Seq<Seq<char>> {
    results.map_values(|e: (String, FetchedTensor)| e.0@)
}

/// The fault of the declared output at `i`, if any: its name must occur in
/// the results and carry a supported tensor.
pub open spec fn output_fault(
    sess: RSession,
    results: Seq<(String, FetchedTensor)>,
    i: int,
) -> Option<OutputFault> {
    let k = first_index_of(result_names(results), sess.output_names@[i]@, 0);
    if k == results.len() {
        Some(OutputFault::MissingOutput)
    } else if results[k].1 is Unsupported {
        Some(OutputFault::UnsupportedOutput)
    } else {
        None
    }
}

/// The first declared output at or after `i` that cannot be decoded; the
/// number of declared outputs when all can.
pub open spec fn first_bad_output(
    sess: RSession,
    results: Seq<(String, FetchedTensor)>,
    i: int,
) -> int
    decreases sess.output_names@.len() - i when 0 <= i <= sess.output_names@.len()
{
    if i >= sess.output_names@.len() {
        sess.output_names@.len() as int
    } else if output_fault(sess, results, i) is Some {
        i
    } else {
        first_bad_output(sess, results, i + 1)
    }
}

/// One decoded output agrees with the declared output at `i`: the declared
/// name, and the shape and buffer of the first result carrying that name.
pub open spec fn output_good(
    sess: RSession,
    results: Seq<(String, FetchedTensor)>,
    e: (String, TensorValue),
    i: int,
) -> bool {
    let k = first_index_of(result_names(results), sess.output_names@[i]@, 0);
    &&& e.0@ == sess.output_names@[i]@
    &&& results[k].1 matches FetchedTensor::Numeric { shape, bits }
    &&& e.1 matches TensorValue::Numeric { shape: s, bits: b }
    &&& s@ == shape@
    &&& b@ == bits@
}

/// The error reported for the undecodable declared output at `i` carries
/// the kind and message its fault calls for.
pub open spec fn output_error_matches(
    sess: RSession,
    results: Seq<(String, FetchedTensor)>,
    i: int,
    e: ChurOnError,
) -> bool {
    match output_fault(sess, results, i) {
        Some(OutputFault::MissingOutput) => e matches ChurOnError::Inference(m) && m@
            == msg_missing_output(sess.output_names@[i]@),
        Some(OutputFault::UnsupportedOutput) => e matches ChurOnError::DataConversion(m) && m@
            == msg_unsupported_output(sess.output_names@[i]@),
        None => false,
    }
}

/// The first index of the results whose name's characters equal the given
/// string's; the results' length when there is none.
pub fn find_result_index(results: &Vec<(String, FetchedTensor)>, s: &String) -> (r: usize)
    ensures
        r as int == first_index_of(result_names(results@), s@, 0),
        r <= results@.len(),
{
    let ghost rn = result_names(results@);
    let mut i: usize = 0;
    while i < results.len()
        invariant
            0 <= i <= results@.len(),
            rn == result_names(results@),
            first_index_of(rn, s@, 0) == first_index_of(rn, s@, i as int),
        decreases results.len() - i,
    {
        if results[i].0 == *s {
            proof {
                assert(rn[i as int] == results@[i as int].0@);
            }
            return i;
        }
        proof {
            assert(rn[i as int] == results@[i as int].0@);
            assert(first_index_of(rn, s@, i as int) == first_index_of(rn, s@, i as int + 1));
        }
        i = i + 1;
    }
    results.len()
}

/// Whether the list of strings holds one whose characters equal the given
/// string's.
pub fn contains_name(v: &Vec<String>, s: &String) -> (r: bool)
    ensures
        r == name_views(v@).contains(s@),
{
    let mut i: usize = 0;
    while i < v.len()
        invariant
            0 <= i <= v@.len(),
            forall|j: int| 0 <= j < i ==> v@[j]@ != s@,
        decreases v.len() - i,
    {
        if v[i] == *s {
            proof {
                assert(name_views(v@)[i as int] == s@);
            }
            return true;
        }
        i = i + 1;
    }
    proof {
        assert(!name_views(v@).contains(s@)) by {
            if name_views(v@).contains(s@) {
                let k = choose|k: int|
                    0 <= k < name_views(v@).len() && name_views(v@)[k] == s@;
                assert(v@[k]@ == s@);
            }
        }
    }
    false
}

/// The first index of the list whose string's characters equal the given
/// string's; the list's length when there is none.
pub fn index_of_name(v: &Vec<String>, s: &String) -> (r: usize)
    ensures
        r as int == first_index_of(name_views(v@), s@, 0),
        r <= v@.len(),
{
    let ghost nv = name_views(v@);
    let mut i: usize = 0;
    while i < v.len()
        invariant
            0 <= i <= v@.len(),
            nv == name_views(v@),
            first_index_of(nv, s@, 0) == first_index_of(nv, s@, i as int),
        decreases v.len() - i,
    {
        if v[i] == *s {
            proof {
                assert(nv[i as int] == v@[i as int]@);
            }
            return i;
        }
        proof {
            assert(nv[i as int] == v@[i as int]@);
            assert(first_index_of(nv, s@, i as int) == first_index_of(nv, s@, i as int + 1));
        }
        i = i + 1;
    }
    v.len()
}

impl RSession {
    /// Validate the caller's bag against the declared inputs: it must be
    /// non-empty and named, every declared input must be provided, and
    /// every provided name must be declared: a closed-world exact match.
    pub fn validate_inputs(&self, bag: &InputBag) -> (r: Result<(), ChurOnError>)
        ensures
            match check_inputs(
                name_views(self.input_names@),
                name_views(bag.names@),
                bag.values@.len(),
            ) {
                InputCheck::Accepted => r is Ok,
                InputCheck::EmptyBag => r matches Err(ChurOnError::Validation(m)) && m@
                    == msg_no_input(),
                InputCheck::Unnamed => r matches Err(ChurOnError::Validation(m)) && m@
                    == msg_unnamed(),
                InputCheck::MissingRequired(i) => r matches Err(ChurOnError::Validation(m)) && m@
                    == msg_missing_required(name_views(self.input_names@)[i]),
                InputCheck::Unexpected(i) => r matches Err(ChurOnError::Validation(m)) && m@
                    == msg_unexpected(name_views(bag.names@)[i]),
            },
    {
        let ghost decl = name_views(self.input_names@);
        let ghost prov = name_views(bag.names@);
        if bag.values.len() == 0 {
            return Err(ChurOnError::Validation(String::from_str("No input data provided")));
        }
        if bag.names.len() != bag.values.len() {
            return Err(ChurOnError::Validation(String::from_str("Input data must be a named list")));
        }
        let mut i: usize = 0;
        while i < self.input_names.len()
            invariant
                0 <= i <= decl.len(),
                decl == name_views(self.input_names@),
                prov == name_views(bag.names@),
                bag.names@.len() == bag.values@.len(),
                bag.values@.len() > 0,
                first_not_in(decl, prov, 0) == first_not_in(decl, prov, i as int),
            decreases self.input_names.len() - i,
        {
            let required = &self.input_names[i];
            proof {
                assert(decl[i as int] == self.input_names@[i as int]@);
            }
            if !contains_name(&bag.names, required) {
                proof {
                    assert(first_not_in(decl, prov, i as int) == i as int);
                }
                let msg = String::from_str("Required input '").concat(required.as_str()).concat(
                    "' not provided",
                );
                return Err(ChurOnError::Validation(msg));
            }
            proof {
                assert(first_not_in(decl, prov, i as int) == first_not_in(
                    decl,
                    prov,
                    i as int + 1,
                ));
            }
            i = i + 1;
        }
        let mut p: usize = 0;
        while p < bag.names.len()
            invariant
                0 <= p <= prov.len(),
                decl == name_views(self.input_names@),
                prov == name_views(bag.names@),
                first_not_in(decl, prov, 0) == decl.len(),
                bag.names@.len() == bag.values@.len(),
                bag.values@.len() > 0,
                first_not_in(prov, decl, 0) == first_not_in(prov, decl, p as int),
            decreases bag.names.len() - p,
        {
            let provided = &bag.names[p];
            proof {
                assert(prov[p as int] == bag.names@[p as int]@);
            }
            if !contains_name(&self.input_names, provided) {
                let msg = String::from_str("Unexpected input '").concat(provided.as_str()).concat(
                    "' provided",
                );
                return Err(ChurOnError::Validation(msg));
            }
            proof {
                assert(first_not_in(prov, decl, p as int) == first_not_in(
                    prov,
                    decl,
                    p as int + 1,
                ));
            }
            p = p + 1;
        }
        Ok(())
    }

    /// Prepare the bag for the engine: resolve each name to its declared
    /// input, encode each value against that input's declared shape, and
    /// stop at the first entry that fails.
    pub fn prepare_input_tensors(&self, bag: &InputBag) -> (r: Result<
        Vec<(String, EncodedTensor)>,
        ChurOnError,
    >)
        requires
            bag.names@.len() == bag.values@.len(),
        ensures
            ({
                let nb = first_faulty(*self, *bag, 0);
                if nb == bag.values@.len() {
                    r matches Ok(out) && out@.len() == bag.values@.len() && forall|j: int|
                        0 <= j < out@.len() ==> #[trigger] entry_good(*self, *bag, out@[j], j)
                } else {
                    r matches Err(e) && fault_error_matches(*self, *bag, nb, e)
                }
            }),
    {
        let empty_shape: Vec<i64> = Vec::new();
        let mut out: Vec<(String, EncodedTensor)> = Vec::new();
        let mut i: usize = 0;
        while i < bag.values.len()
            invariant
                0 <= i <= bag.values@.len(),
                bag.names@.len() == bag.values@.len(),
                empty_shape@ == Seq::<i64>::empty(),
                out@.len() == i,
                forall|j: int| 0 <= j < i ==> entry_fault(*self, *bag, j) is None,
                forall|j: int| 0 <= j < i ==> #[trigger] entry_good(*self, *bag, out@[j], j),
                first_faulty(*self, *bag, 0) == first_faulty(*self, *bag, i as int),
            decreases bag.values.len() - i,
        {
            let name = &bag.names[i];
            let k = index_of_name(&self.input_names, name);
            if k == self.input_names.len() {
                proof {
                    assert(entry_fault(*self, *bag, i as int) == Some(EntryFault::UnknownName));
                    assert(first_faulty(*self, *bag, i as int) == i as int);
                }
                let msg = String::from_str("Unknown input name: ").concat(name.as_str());
                return Err(ChurOnError::Validation(msg));
            }
            let declared: &Vec<i64> = if k < self.input_shapes.len() {
                &self.input_shapes[k]
            } else {
                &empty_shape
            };
            proof {
                assert(declared@ == shape_at(
                    self.input_shapes@,
                    first_index_of(name_views(self.input_names@), bag.names@[i as int]@, 0),
                ));
            }
            match encode_input(declared, &bag.values[i]) {
                Ok(t) => {
                    proof {
                        assert(entry_fault(*self, *bag, i as int) is None);
                        assert(first_faulty(*self, *bag, i as int) == first_faulty(
                            *self,
                            *bag,
                            i as int + 1,
                        ));
                    }
                    let entry = (name.clone(), t);
                    let ghost pre = out@;
                    out.push(entry);
                    proof {
                        assert(entry_good(*self, *bag, entry, i as int));
                        assert forall|j: int| 0 <= j < i + 1 implies #[trigger] entry_good(
                            *self,
                            *bag,
                            out@[j],
                            j,
                        ) by {
                            if j < i {
                                assert(out@[j] == pre[j]);
                            } else {
                                assert(out@[j] == entry);
                            }
                        }
                    }
                },
                Err(e) => {
                    proof {
                        assert(entry_fault(*self, *bag, i as int) is Some);
                        assert(first_faulty(*self, *bag, i as int) == i as int);
                        assert(fault_error_matches(*self, *bag, i as int, e));
                    }
                    return Err(e);
                },
            }
            i = i + 1;
        }
        proof {
            assert(first_faulty(*self, *bag, i as int) == bag.values@.len());
        }
        Ok(out)
    }

    /// The full pre-engine pipeline of an inference call, in order: check
    /// the session record itself, validate the bag against the declared
    /// inputs, and prepare the tensors; any step's failure aborts the
    /// later steps.
    pub fn plan_run(&self, bag: &InputBag) -> (r: Result<
        Vec<(String, EncodedTensor)>,
        ChurOnError,
    >)
        ensures
            match self.session_flaw() {
                Some(msg) => r matches Err(ChurOnError::Validation(m)) && m@ == msg,
                None => match check_inputs(
                    name_views(self.input_names@),
                    name_views(bag.names@),
                    bag.values@.len(),
                ) {
                    InputCheck::EmptyBag => r matches Err(ChurOnError::Validation(m)) && m@
                        == msg_no_input(),
                    InputCheck::Unnamed => r matches Err(ChurOnError::Validation(m)) && m@
                        == msg_unnamed(),
                    InputCheck::MissingRequired(i) => r matches Err(ChurOnError::Validation(m))
                        && m@ == msg_missing_required(name_views(self.input_names@)[i]),
                    InputCheck::Unexpected(i) => r matches Err(ChurOnError::Validation(m)) && m@
                        == msg_unexpected(name_views(bag.names@)[i]),
                    InputCheck::Accepted => ({
                        let nb = first_faulty(*self, *bag, 0);
                        if nb == bag.values@.len() {
                            r matches Ok(out) && out@.len() == bag.values@.len() && forall|j: int|
                                0 <= j < out@.len() ==> #[trigger] entry_good(
                                    *self,
                                    *bag,
                                    out@[j],
                                    j,
                                )
                        } else {
                            r matches Err(e) && fault_error_matches(*self, *bag, nb, e)
                        }
                    }),
                },
            },
    {
        match self.validate_session() {
            Err(e) => {
                return Err(e);
            },
            Ok(_) => {},
        }
        match self.validate_inputs(bag) {
            Err(e) => {
                return Err(e);
            },
            Ok(_) => {},
        }
        self.prepare_input_tensors(bag)
    }

    /// Decode the engine's results into the caller's values, in the order
    /// of the session's declared output names (not the engine's return
    /// order): a declared name absent from the results is an inference
    /// error, a tensor of neither supported floating-point type is a
    /// data-conversion error, and the first such fault aborts the rest.
    pub fn collect_outputs(&self, results: &Vec<(String, FetchedTensor)>) -> (r: Result<
        Vec<(String, TensorValue)>,
        ChurOnError,
    >)
        ensures
            ({
                let nb = first_bad_output(*self, results@, 0);
                if nb == self.output_names@.len() {
                    r matches Ok(out) && out@.len() == self.output_names@.len() && forall|j: int|
                        0 <= j < out@.len() ==> #[trigger] output_good(*self, results@, out@[j], j)
                } else {
                    r matches Err(e) && output_error_matches(*self, results@, nb, e)
                }
            }),
    {
        let mut out: Vec<(String, TensorValue)> = Vec::new();
        let mut i: usize = 0;
        while i < self.output_names.len()
            invariant
                0 <= i <= self.output_names@.len(),
                out@.len() == i,
                forall|j: int| 0 <= j < i ==> output_fault(*self, results@, j) is None,
                forall|j: int|
                    0 <= j < i ==> #[trigger] output_good(*self, results@, out@[j], j),
                first_bad_output(*self, results@, 0) == first_bad_output(
                    *self,
                    results@,
                    i as int,
                ),
            decreases self.output_names.len() - i,
        {
            let name = &self.output_names[i];
            let k = find_result_index(results, name);
            if k == results.len() {
                proof {
                    assert(output_fault(*self, results@, i as int) == Some(
                        OutputFault::MissingOutput,
                    ));
                    assert(first_bad_output(*self, results@, i as int) == i as int);
                }
                let msg = String::from_str("Output '").concat(name.as_str()).concat(
                    "' not found in inference results",
                );
                return Err(ChurOnError::Inference(msg));
            }
            match &results[k].1 {
                FetchedTensor::Unsupported => {
                    proof {
                        assert(output_fault(*self, results@, i as int) == Some(
                            OutputFault::UnsupportedOutput,
                        ));
                        assert(first_bad_output(*self, results@, i as int) == i as int);
                    }
                    let msg = String::from_str("Unsupported output data type for '").concat(
                        name.as_str(),
                    ).concat("'");
                    return Err(ChurOnError::DataConversion(msg));
                },
                FetchedTensor::Numeric { shape, bits } => {
                    proof {
                        assert(output_fault(*self, results@, i as int) is None);
                        assert(first_bad_output(*self, results@, i as int) == first_bad_output(
                            *self,
                            results@,
                            i as int + 1,
                        ));
                    }
                    let entry = (
                        name.clone(),
                        TensorValue::Numeric { shape: shape.clone(), bits: bits.clone() },
                    );
                    let ghost pre = out@;
                    out.push(entry);
                    proof {
                        assert(output_good(*self, results@, entry, i as int));
                        assert forall|j: int| 0 <= j < i + 1 implies #[trigger] output_good(
                            *self,
                            results@,
                            out@[j],
                            j,
                        ) by {
                            if j < i {
                                assert(out@[j] == pre[j]);
                            } else {
                                assert(out@[j] == entry);
                            }
                        }
                    }
                },
            }
            i = i + 1;
        }
        proof {
            assert(first_bad_output(*self, results@, i as int) == self.output_names@.len());
        }
        Ok(out)
    }
}

} // verus!
