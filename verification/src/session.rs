use vstd::prelude::*;

use crate::errors::ChurOnError;
use crate::provider::{
    default_provider_seq, default_providers, resolve_providers, resolved_list,
    unknown_provider_msg, ProviderSpec,
};
use crate::tensor::TensorInfo;

verus! {

/// The view of a list of strings, character sequence by character sequence.
pub open spec fn name_views(v: Seq<String>) -> Seq<Seq<char>> {
    v.map_values(|s: String| s@)
}

/// A loaded inference session's declared interface: the input and output
/// tensor names in engine-declared order, their best-effort shapes (with -1
/// marking a dynamic or unreported dimension) and type tags, the resolved
/// provider list (informational only), and the originating file path. All
/// of it is fixed when the session is created and defines the contract for
/// every later inference call; the engine handle itself lives with the
/// caller that loaded the model.
pub struct RSession {
    /// Declared input tensor names, in engine order.
    pub input_names: Vec<String>,
    /// Declared output tensor names, in engine order.
    pub output_names: Vec<String>,
    /// Declared input shapes, aligned with `input_names`.
    pub input_shapes: Vec<Vec<i64>>,
    /// Declared output shapes, aligned with `output_names`.
    pub output_shapes: Vec<Vec<i64>>,
    /// Input type tags, aligned with `input_names`.
    pub input_types: Vec<String>,
    /// Output type tags, aligned with `output_names`.
    pub output_types: Vec<String>,
    /// The providers reported in use for the session.
    pub providers: Vec<String>,
    /// The path the model was loaded from.
    pub model_path: String,
    /// Per-input metadata records, computed once when the session is
    /// assembled; the metadata never changes after load, so the records
    /// are precomputed eagerly rather than memoized lazily.
    pub input_info_cache: Vec<TensorInfo>,
    /// Per-output metadata records, computed once at assembly.
    pub output_info_cache: Vec<TensorInfo>,
}

impl RSession {
    /// Assemble a session record from the metadata of a successfully loaded
    /// model. Either a fully populated record exists or none does: there is
    /// no partially constructed state.
    pub fn from_metadata(
        model_path: String,
        input_names: Vec<String>,
        input_shapes: Vec<Vec<i64>>,
        input_types: Vec<String>,
        output_names: Vec<String>,
        output_shapes: Vec<Vec<i64>>,
        output_types: Vec<String>,
        providers: Vec<String>,
    ) -> (r: Self)
        ensures
            r.model_path == model_path,
            r.input_names == input_names,
            r.input_shapes == input_shapes,
            r.input_types == input_types,
            r.output_names == output_names,
            r.output_shapes == output_shapes,
            r.output_types == output_types,
            r.providers == providers,
            r.input_info_cache@.len() == input_names@.len(),
            forall|i: int|
                0 <= i < input_names@.len() ==> #[trigger] info_matches(
                    r.input_info_cache@[i],
                    input_names@,
                    input_shapes@,
                    input_types@,
                    i,
                ),
            r.output_info_cache@.len() == output_names@.len(),
            forall|i: int|
                0 <= i < output_names@.len() ==> #[trigger] info_matches(
                    r.output_info_cache@[i],
                    output_names@,
                    output_shapes@,
                    output_types@,
                    i,
                ),
    {
        let input_info_cache = build_tensor_infos(&input_names, &input_shapes, &input_types);
        let output_info_cache = build_tensor_infos(&output_names, &output_shapes, &output_types);
        RSession {
            input_names,
            output_names,
            input_shapes,
            output_shapes,
            input_types,
            output_types,
            providers,
            model_path,
            input_info_cache,
            output_info_cache,
        }
    }

    /// Get current execution providers.
    pub fn get_providers(&self) -> (r: Vec<String>)
        ensures
            r@.len() == self.providers@.len(),
            forall|i: int| 0 <= i < r@.len() ==> r@[i]@ == self.providers@[i]@,
    {
        let mut out: Vec<String> = Vec::new();
        let mut i: usize = 0;
        while i < self.providers.len()
            invariant
                0 <= i <= self.providers.len(),
                out@.len() == i,
                forall|j: int| 0 <= j < i ==> out@[j]@ == self.providers@[j]@,
            decreases self.providers.len() - i,
        {
            out.push(self.providers[i].clone());
            i = i + 1;
        }
        out
    }

    /// Get model path.
    pub fn get_model_path(&self) -> (r: String)
        ensures
            r@ == self.model_path@,
    {
        self.model_path.clone()
    }

    /// Validate the session record itself before an operation: it must
    /// declare at least one input, at least one output, and a model path.
    pub fn validate_session(&self) -> (r: Result<(), ChurOnError>)
        ensures
            match self.session_flaw() {
                Some(msg) => r matches Err(ChurOnError::Validation(m)) && m@ == msg,
                None => r is Ok,
            },
    {
        if self.input_names.len() == 0 {
            return Err(
                ChurOnError::Validation(String::from_str("Session has no input tensors defined")),
            );
        }
        if self.output_names.len() == 0 {
            return Err(
                ChurOnError::Validation(String::from_str("Session has no output tensors defined")),
            );
        }
        if self.model_path.as_str().is_empty() {
            return Err(
                ChurOnError::Validation(String::from_str("Session has no model path defined")),
            );
        }
        Ok(())
    }

    /// The first reason the session record itself is rejected, if any.
    pub open spec fn session_flaw(&self) -> Option<Seq<char>> {
        if self.input_names@.len() == 0 {
            Some("Session has no input tensors defined"@)
        } else if self.output_names@.len() == 0 {
            Some("Session has no output tensors defined"@)
        } else if self.model_path@.len() == 0 {
            Some("Session has no model path defined"@)
        } else {
            None
        }
    }

    /// Determine execution providers to use based on the request or the
    /// default ordering: an explicit request is resolved name by name
    /// (case-insensitively, deduplicated, CPU appended when absent, an
    /// unknown name failing the whole resolution), while no request yields
    /// the full default catalog ending in CPU.
    pub fn get_execution_providers(providers: Option<Vec<String>>) -> (r: Result<
        Vec<ProviderSpec>,
        ChurOnError,
    >)
        ensures
            match providers {
                None => r matches Ok(v) && v@ == default_provider_seq(),
                Some(names) => match r {
                    Ok(v) => resolved_list(name_views(names@)) matches Ok(l) && v@ == l,
                    Err(e) => {
                        &&& resolved_list(name_views(names@)) matches Err(n) && e matches
                            ChurOnError::Provider(m) && m@ == unknown_provider_msg(n)
                    },
                },
            },
    {
        match providers {
            Some(names) => resolve_providers(&names),
            None => Ok(default_providers()),
        }
    }

    /// The providers a session reports in use. The engine is not queried
    /// for its actual choice; the guaranteed CPU fallback is reported.
    pub fn extract_used_providers() -> (r: Vec<String>)
        ensures
            r@.len() == 1,
            r@[0]@ == "CPU"@,
    {
        let mut v: Vec<String> = Vec::new();
        v.push(String::from_str("CPU"));
        v
    }

    /// Get input tensor information: the precomputed records, one per
    /// declared input, with the shape narrowed to the metadata's signed
    /// 32-bit dimensions.
    pub fn get_input_info(&self) -> (r: Vec<TensorInfo>)
        ensures
            r@.len() == self.input_info_cache@.len(),
            forall|i: int|
                0 <= i < r@.len() ==> #[trigger] info_views_eq(
                    r@[i],
                    self.input_info_cache@[i],
                ),
    {
        copy_tensor_infos(&self.input_info_cache)
    }

    /// Get output tensor information: the precomputed records, one per
    /// declared output.
    pub fn get_output_info(&self) -> (r: Vec<TensorInfo>)
        ensures
            r@.len() == self.output_info_cache@.len(),
            forall|i: int|
                0 <= i < r@.len() ==> #[trigger] info_views_eq(
                    r@[i],
                    self.output_info_cache@[i],
                ),
    {
        copy_tensor_infos(&self.output_info_cache)
    }
}

/// The shape recorded at an index, or the empty shape where none is.
pub open spec fn shape_at(shapes: Seq<Vec<i64>>, i: int) -> Seq<i64> {
    if 0 <= i < shapes.len() {
        shapes[i]@
    } else {
        Seq::empty()
    }
}

/// The type tag recorded at an index, or the empty tag where none is.
pub open spec fn tag_at(types: Seq<String>, i: int) -> Seq<char> {
    if 0 <= i < types.len() {
        types[i]@
    } else {
        Seq::empty()
    }
}

/// One metadata record agrees with the session's name, shape and type tag
/// at the given index.
pub open spec fn info_matches(
    info: TensorInfo,
    names: Seq<String>,
    shapes: Seq<Vec<i64>>,
    types: Seq<String>,
    i: int,
) -> bool {
    &&& info.name@ == names[i]@
    &&& info.shape@ == narrow_dims(shape_at(shapes, i))
    &&& info.data_type@ == tag_at(types, i)
}

/// Two metadata records carry the same name, shape and type tag.
pub open spec fn info_views_eq(a: TensorInfo, b: TensorInfo) -> bool {
    &&& a.name@ == b.name@
    &&& a.shape@ == b.shape@
    &&& a.data_type@ == b.data_type@
}

/// Copy a list of metadata records, record by record.
fn copy_tensor_infos(infos: &Vec<TensorInfo>) -> (r: Vec<TensorInfo>)
    ensures
        r@.len() == infos@.len(),
        forall|i: int| 0 <= i < r@.len() ==> #[trigger] info_views_eq(r@[i], infos@[i]),
{
    let mut out: Vec<TensorInfo> = Vec::new();
    let mut i: usize = 0;
    while i < infos.len()
        invariant
            0 <= i <= infos@.len(),
            out@.len() == i,
            forall|j: int| 0 <= j < i ==> #[trigger] info_views_eq(out@[j], infos@[j]),
        decreases infos.len() - i,
    {
        let src = &infos[i];
        let copy = TensorInfo::new(src.name.clone(), src.shape.clone(), src.data_type.clone());
        let ghost pre = out@;
        out.push(copy);
        proof {
            assert forall|j: int| 0 <= j < i + 1 implies #[trigger] info_views_eq(
                out@[j],
                infos@[j],
            ) by {
                if j < i {
                    assert(out@[j] == pre[j]);
                } else {
                    assert(out@[j] == copy);
                }
            }
        }
        i = i + 1;
    }
    out
}

/// Build one metadata record per name, narrowing each recorded shape and
/// falling back to an empty shape or tag where the lists run short.
fn build_tensor_infos(names: &Vec<String>, shapes: &Vec<Vec<i64>>, types: &Vec<String>) -> (r: Vec<
    TensorInfo,
>)
    ensures
        r@.len() == names@.len(),
        forall|i: int|
            0 <= i < r@.len() ==> #[trigger] info_matches(r@[i], names@, shapes@, types@, i),
{
    let mut out: Vec<TensorInfo> = Vec::new();
    let mut i: usize = 0;
    while i < names.len()
        invariant
            0 <= i <= names@.len(),
            out@.len() == i,
            forall|j: int|
                0 <= j < i ==> #[trigger] info_matches(out@[j], names@, shapes@, types@, j),
        decreases names.len() - i,
    {
        let shape_i32 = if i < shapes.len() {
            narrow_shape(&shapes[i])
        } else {
            proof {
                assert(narrow_dims(Seq::<i64>::empty()) =~= Seq::<i32>::empty());
            }
            Vec::new()
        };
        let data_type = if i < types.len() {
            types[i].clone()
        } else {
            String::new()
        };
        let info = TensorInfo::new(names[i].clone(), shape_i32, data_type);
        let ghost pre = out@;
        out.push(info);
        proof {
            assert(info_matches(info, names@, shapes@, types@, i as int));
            assert forall|j: int| 0 <= j < i + 1 implies #[trigger] info_matches(
                out@[j],
                names@,
                shapes@,
                types@,
                j,
            ) by {
                if j < i {
                    assert(out@[j] == pre[j]);
                } else {
                    assert(out@[j] == info);
                }
            }
        }
        i = i + 1;
    }
    out
}

/// Shape dimensions narrowed to 32 bits, by truncation, as the metadata
/// records report them.
pub open spec fn narrow_dims(s: Seq<i64>) -> Seq<i32> {
    s.map_values(|d: i64| d as i32)
}

/// Narrow a shape's dimensions to 32 bits, by truncation.
pub fn narrow_shape(shape: &Vec<i64>) -> (r: Vec<i32>)
    ensures
        r@ == narrow_dims(shape@),
{
    let mut out: Vec<i32> = Vec::new();
    let mut i: usize = 0;
    while i < shape.len()
        invariant
            0 <= i <= shape@.len(),
            out@.len() == i,
            forall|j: int| 0 <= j < i ==> out@[j] == shape@[j] as i32,
        decreases shape.len() - i,
    {
        out.push(#[verifier::truncate] (shape[i] as i32));
        i = i + 1;
    }
    proof {
        assert(out@ =~= narrow_dims(shape@));
    }
    out
}

} // verus!
