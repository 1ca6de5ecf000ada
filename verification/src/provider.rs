use vstd::prelude::*;

use crate::errors::ChurOnError;
use crate::text::{eq_ignore_case, str_eq_ignore_case};

verus! {

/// An execution backend for the inference engine. The set of backends is
/// closed and known at design time; each tag stands for the backend together
/// with its default configuration.
#[derive(Debug, Clone, Copy, PartialEq, Eq, Structural)]
pub enum ProviderSpec {
    /// Plain CPU execution, the guaranteed-available fallback.
    Cpu,
    /// NVIDIA CUDA.
    Cuda,
    /// NVIDIA TensorRT.
    TensorRt,
    /// DirectML.
    DirectMl,
    /// oneDNN.
    OneDnn,
    /// Apple CoreML.
    CoreMl,
}

/// The backend a provider name denotes, compared case-insensitively;
/// `None` for an unrecognized name.
pub open spec fn parse_provider_spec(name: Seq<char>) -> Option<ProviderSpec> {
    if eq_ignore_case(name, "cuda"@) {
        Some(ProviderSpec::Cuda)
    } else if eq_ignore_case(name, "tensorrt"@) {
        Some(ProviderSpec::TensorRt)
    } else if eq_ignore_case(name, "directml"@) {
        Some(ProviderSpec::DirectMl)
    } else if eq_ignore_case(name, "onednn"@) {
        Some(ProviderSpec::OneDnn)
    } else if eq_ignore_case(name, "coreml"@) {
        Some(ProviderSpec::CoreMl)
    } else if eq_ignore_case(name, "cpu"@) {
        Some(ProviderSpec::Cpu)
    } else {
        None
    }
}

/// Map one provider name to its backend, case-insensitively.
pub fn parse_provider(name: &str) -> (r: Option<ProviderSpec>)
    ensures
        r == parse_provider_spec(name@),
{
    if str_eq_ignore_case(name, "cuda") {
        Some(ProviderSpec::Cuda)
    } else if str_eq_ignore_case(name, "tensorrt") {
        Some(ProviderSpec::TensorRt)
    } else if str_eq_ignore_case(name, "directml") {
        Some(ProviderSpec::DirectMl)
    } else if str_eq_ignore_case(name, "onednn") {
        Some(ProviderSpec::OneDnn)
    } else if str_eq_ignore_case(name, "coreml") {
        Some(ProviderSpec::CoreMl)
    } else if str_eq_ignore_case(name, "cpu") {
        Some(ProviderSpec::Cpu)
    } else {
        None
    }
}

/// The default backend ordering offered when the caller requests nothing:
/// the full catalog of known backends, ending in the CPU fallback, so the
/// engine can select among them with its own heuristics.
pub open spec fn default_provider_seq() -> Seq<ProviderSpec> {
    seq![
        ProviderSpec::Cuda,
        ProviderSpec::TensorRt,
        ProviderSpec::DirectMl,
        ProviderSpec::OneDnn,
        ProviderSpec::CoreMl,
        ProviderSpec::Cpu,
    ]
}

/// The default backend ordering, as a vector.
pub fn default_providers() -> (r: Vec<ProviderSpec>)
    ensures
        r@ == default_provider_seq(),
{
    let mut v: Vec<ProviderSpec> = Vec::new();
    v.push(ProviderSpec::Cuda);
    v.push(ProviderSpec::TensorRt);
    v.push(ProviderSpec::DirectMl);
    v.push(ProviderSpec::OneDnn);
    v.push(ProviderSpec::CoreMl);
    v.push(ProviderSpec::Cpu);
    proof {
        assert(v@ =~= default_provider_seq());
    }
    v
}

/// Append a backend unless it is already present: requesting a name twice
/// yields its backend once, in first-seen order.
pub open spec fn resolve_step(acc: Seq<ProviderSpec>, p: ProviderSpec) -> Seq<ProviderSpec> {
    if acc.contains(p) {
        acc
    } else {
        acc.push(p)
    }
}

/// Fold the requested names onto an accumulated backend list; the first
/// unrecognized name fails the whole resolution and is reported.
pub open spec fn resolve_requested(names: Seq<Seq<char>>, acc: Seq<ProviderSpec>) -> Result<
    Seq<ProviderSpec>,
    Seq<char>,
>
    decreases names.len(),
{
    if names.len() == 0 {
        Ok(acc)
    } else {
        match parse_provider_spec(names[0]) {
            Some(p) => resolve_requested(names.drop_first(), resolve_step(acc, p)),
            None => Err(names[0]),
        }
    }
}

/// The resolved backend list for an explicit request: the requested backends
/// in first-seen order, with the CPU fallback appended when it was not
/// requested itself.
pub open spec fn resolved_list(names: Seq<Seq<char>>) -> Result<Seq<ProviderSpec>, Seq<char>> {
    match resolve_requested(names, Seq::empty()) {
        Ok(l) => Ok(
            if l.contains(ProviderSpec::Cpu) {
                l
            } else {
                l.push(ProviderSpec::Cpu)
            },
        ),
        Err(n) => Err(n),
    }
}

/// No backend occurs twice in the list.
pub open spec fn no_duplicates(l: Seq<ProviderSpec>) -> bool {
    forall|i: int, j: int| 0 <= i < j < l.len() ==> l[i] != l[j]
}

/// The message reported for an unrecognized provider name.
pub open spec fn unknown_provider_msg(name: Seq<char>) -> Seq<char> {
    "Unknown execution provider: "@ + name
}

/// Folding requested names keeps the accumulated list duplicate-free and
/// never drops a backend that was already chosen.
proof fn lemma_resolve_requested_preserves(names: Seq<Seq<char>>, acc: Seq<ProviderSpec>)
    requires
        no_duplicates(acc),
    ensures
        resolve_requested(names, acc) matches Ok(l) ==> no_duplicates(l) && (forall|p: ProviderSpec|
            acc.contains(p) ==> l.contains(p)),
    decreases names.len(),
{
    if names.len() == 0 {
    } else {
        match parse_provider_spec(names[0]) {
            Some(p) => {
                let next = resolve_step(acc, p);
                assert(no_duplicates(next)) by {
                    if !acc.contains(p) {
                        assert(forall|i: int|
                            0 <= i < acc.len() ==> #[trigger] next[i] == acc[i]);
                    }
                }
                assert forall|q: ProviderSpec| acc.contains(q) implies next.contains(q) by {
                    if !acc.contains(p) {
                        let i = choose|i: int| 0 <= i < acc.len() && acc[i] == q;
                        assert(next[i] == q);
                    }
                }
                lemma_resolve_requested_preserves(names.drop_first(), next);
            },
            None => {},
        }
    }
}

/// A successfully resolved backend list is never empty, contains the CPU
/// fallback exactly once, and holds no backend twice.
pub proof fn lemma_resolved_list_cpu(names: Seq<Seq<char>>)
    ensures
        resolved_list(names) matches Ok(l) ==> l.len() > 0 && l.contains(ProviderSpec::Cpu)
            && no_duplicates(l),
{
    lemma_resolve_requested_preserves(names, Seq::empty());
    match resolve_requested(names, Seq::empty()) {
        Ok(l0) => {
            if !l0.contains(ProviderSpec::Cpu) {
                let l = l0.push(ProviderSpec::Cpu);
                assert(l[l.len() - 1] == ProviderSpec::Cpu);
                assert(l.contains(ProviderSpec::Cpu));
                assert(no_duplicates(l)) by {
                    assert(forall|i: int| 0 <= i < l0.len() ==> #[trigger] l[i] == l0[i]);
                }
            } else {
                let i = choose|i: int| 0 <= i < l0.len() && l0[i] == ProviderSpec::Cpu;
                assert(l0.len() > 0);
            }
        },
        Err(_) => {},
    }
}

/// When nothing is requested, the default ordering is offered: it is
/// non-empty and its last element is the CPU fallback.
pub proof fn lemma_default_ends_in_cpu()
    ensures
        default_provider_seq().len() > 0,
        default_provider_seq().last() == ProviderSpec::Cpu,
{
}

/// Resolve an explicit list of requested provider names into an ordered,
/// deduplicated backend list that always contains the CPU fallback; the
/// first unrecognized name fails the whole resolution.
pub fn resolve_providers(names: &Vec<String>) -> (r: Result<Vec<ProviderSpec>, ChurOnError>)
    ensures
        match r {
            Ok(v) => resolved_list(names@.map_values(|s: String| s@)) matches Ok(l) && v@ == l,
            Err(e) => {
                &&& resolved_list(names@.map_values(|s: String| s@)) matches Err(n) && e matches
                    ChurOnError::Provider(m) && m@ == unknown_provider_msg(n)
            },
        },
{
    let ghost req = names@.map_values(|s: String| s@);
    let mut acc: Vec<ProviderSpec> = Vec::new();
    let mut i: usize = 0;
    proof {
        assert(req.skip(0) =~= req);
    }
    while i < names.len()
        invariant
            0 <= i <= names.len(),
            req == names@.map_values(|s: String| s@),
            req.len() == names@.len(),
            resolve_requested(req, Seq::empty()) == resolve_requested(req.skip(i as int), acc@),
        decreases names.len() - i,
    {
        let name = &names[i];
        match parse_provider(name.as_str()) {
            Some(p) => {
                proof {
                    assert(req.skip(i as int)[0] == req[i as int]);
                    assert(req[i as int] == name@);
                    assert(req.skip(i as int).drop_first() =~= req.skip(i as int + 1));
                }
                if !contains_provider(&acc, p) {
                    acc.push(p);
                }
            },
            None => {
                proof {
                    assert(req.skip(i as int)[0] == req[i as int]);
                    assert(req[i as int] == name@);
                }
                let msg = String::from_str("Unknown execution provider: ").concat(name.as_str());
                return Err(ChurOnError::Provider(msg));
            },
        }
        i = i + 1;
    }
    proof {
        assert(req.skip(names@.len() as int) =~= Seq::<Seq<char>>::empty());
    }
    if !contains_provider(&acc, ProviderSpec::Cpu) {
        acc.push(ProviderSpec::Cpu);
    }
    Ok(acc)
}

/// Whether the backend list already holds the given backend.
pub fn contains_provider(v: &Vec<ProviderSpec>, p: ProviderSpec) -> (r: bool)
    ensures
        r == v@.contains(p),
{
    let mut i: usize = 0;
    while i < v.len()
        invariant
            0 <= i <= v.len(),
            forall|j: int| 0 <= j < i ==> v@[j] != p,
        decreases v.len() - i,
    {
        if v[i] == p {
            return true;
        }
        i = i + 1;
    }
    false
}

} // verus!
