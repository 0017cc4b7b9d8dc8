//! Fast multi-op kernels: attention mask modes and custom Metal kernels.
//!
//! A [`MetalKernel`] is described by its name, the names of its inputs and
//! outputs, and its source; every one of these strings must be free of NUL
//! bytes to cross into the backend. A [`MetalKernelDispatch`] collects the
//! inputs, declared outputs, grid, thread group, template parameters and
//! options of one dispatch; [`MetalKernelDispatch::config_steps`] lists, in
//! order, the configuration calls a dispatch makes before the kernel runs.
use vstd::prelude::*;
use vstd::string::StringSliceAdditionalSpecFns;
use vstd::std_specs::convert::FromSpecImpl;
use crate::dtype::Dtype;
use crate::error::Exception;
use crate::text::{check_c_string, first_nul, nul_message};

verus! {

/// Status code the backend returns on success.
pub const SUCCESS: i32 = 0;

/// Mask modes for scaled dot product attention, over mask arrays of type `M`.
#[derive(Debug)]
pub enum ScaledDotProductAttentionMask<M> {
    /// A single mask array.
    Array(M),
    /// Causal masking (no explicit mask array needed).
    Causal,
}

impl<M> ScaledDotProductAttentionMask<M> {
    /// The mode string handed to the backend: empty for an explicit mask,
    /// `causal` for causal masking.
    pub fn mode(&self) -> (s: &'static str)
        ensures
            self is Array ==> s@ == ""@,
            self is Causal ==> s@ == "causal"@,
    {
        match self {
            ScaledDotProductAttentionMask::Array(_) => "",
            ScaledDotProductAttentionMask::Causal => "causal",
        }
    }

    /// The explicit mask array, if any.
    pub fn mask(&self) -> (m: Option<&M>)
        ensures
            self is Array ==> m == Some(&self->0),
            self is Causal ==> m is None,
    {
        match self {
            ScaledDotProductAttentionMask::Array(a) => Some(a),
            ScaledDotProductAttentionMask::Causal => None,
        }
    }
}

impl<M> From<M> for ScaledDotProductAttentionMask<M> {
    fn from(mask: M) -> (m: ScaledDotProductAttentionMask<M>)
        ensures
            m == ScaledDotProductAttentionMask::Array(mask),
    {
        ScaledDotProductAttentionMask::Array(mask)
    }
}

impl<M> FromSpecImpl<M> for ScaledDotProductAttentionMask<M> {
    open spec fn obeys_from_spec() -> bool {
        true
    }

    open spec fn from_spec(v: M) -> ScaledDotProductAttentionMask<M> {
        ScaledDotProductAttentionMask::Array(v)
    }
}

/// The mask mode of an attention call given an optional mask: no mask uses
/// the default (empty) mode.
pub fn attention_mask_mode<M>(mask: &Option<ScaledDotProductAttentionMask<M>>) -> (s: &'static str)
    ensures
        mask matches Some(ScaledDotProductAttentionMask::Causal) ==> s@ == "causal"@,
        !(mask matches Some(ScaledDotProductAttentionMask::Causal)) ==> s@ == ""@,
{
    match mask {
        Some(m) => m.mode(),
        None => "",
    }
}

/// A template parameter for a JIT-compiled [`MetalKernel`].
#[derive(Debug, Clone, Copy, PartialEq, Eq, Structural)]
pub enum TemplateArg {
    /// A `dtype` template parameter (e.g. `T = float16`).
    Dtype(Dtype),
    /// An integer template parameter.
    Int(i32),
    /// A boolean template parameter.
    Bool(bool),
}

impl From<Dtype> for TemplateArg {
    fn from(value: Dtype) -> (t: TemplateArg)
        ensures
            t == TemplateArg::Dtype(value),
    {
        TemplateArg::Dtype(value)
    }
}

impl FromSpecImpl<Dtype> for TemplateArg {
    open spec fn obeys_from_spec() -> bool {
        true
    }

    open spec fn from_spec(v: Dtype) -> TemplateArg {
        TemplateArg::Dtype(v)
    }
}

impl From<i32> for TemplateArg {
    fn from(value: i32) -> (t: TemplateArg)
        ensures
            t == TemplateArg::Int(value),
    {
        TemplateArg::Int(value)
    }
}

impl FromSpecImpl<i32> for TemplateArg {
    open spec fn obeys_from_spec() -> bool {
        true
    }

    open spec fn from_spec(v: i32) -> TemplateArg {
        TemplateArg::Int(v)
    }
}

impl From<bool> for TemplateArg {
    fn from(value: bool) -> (t: TemplateArg)
        ensures
            t == TemplateArg::Bool(value),
    {
        TemplateArg::Bool(value)
    }
}

impl FromSpecImpl<bool> for TemplateArg {
    open spec fn obeys_from_spec() -> bool {
        true
    }

    open spec fn from_spec(v: bool) -> TemplateArg {
        TemplateArg::Bool(v)
    }
}

/// Describes a single output of a [`MetalKernel`] dispatch: its shape and dtype.
#[derive(Debug, Clone)]
pub struct OutputArg {
    /// The shape of the output array.
    pub shape: Vec<i32>,
    /// The dtype of the output array.
    pub dtype: Dtype,
}

/// Turn a result status into a `Result`, taking the message of a failure
/// from the backend's last error or, when it recorded none, from `fallback`.
fn status_result(ok: bool, last_error: Option<String>, fallback: &str) -> (r: Result<(), Exception>)
    ensures
        ok ==> r is Ok,
        !ok ==> (r matches Err(e) && e.message() == (match last_error {
            Some(m) => m@,
            None => fallback@,
        })),
{
    if ok {
        Ok(())
    } else {
        match last_error {
            Some(m) => Err(Exception::from_string(m)),
            None => Err(Exception::custom(fallback)),
        }
    }
}

/// Check the status of one kernel configuration call.
///
/// Status `SUCCESS` is success; any other status fails with the backend's last
/// error message, or `metal kernel config error` when it recorded none.
pub fn check_status(status: i32, last_error: Option<String>) -> (r: Result<(), Exception>)
    ensures
        status == SUCCESS ==> r is Ok,
        status != SUCCESS ==> (r matches Err(e) && e.message() == (match last_error {
            Some(m) => m@,
            None => "metal kernel config error"@,
        })),
{
    proof { reveal_strlit("metal kernel config error"); }
    status_result(status == SUCCESS, last_error, "metal kernel config error")
}

/// Check the outcome of creating a kernel in the backend: a null handle fails
/// with the backend's last error message, or `failed to create metal kernel`
/// when it recorded none.
pub fn check_created(handle_is_null: bool, last_error: Option<String>) -> (r: Result<(), Exception>)
    ensures
        !handle_is_null ==> r is Ok,
        handle_is_null ==> (r matches Err(e) && e.message() == (match last_error {
            Some(m) => m@,
            None => "failed to create metal kernel"@,
        })),
{
    proof { reveal_strlit("failed to create metal kernel"); }
    status_result(!handle_is_null, last_error, "failed to create metal kernel")
}

/// The bytes of each string of `names`.
pub open spec fn names_bytes(names: Seq<&str>) -> Seq<Seq<u8>> {
    names.map_values(|n: &str| n.spec_bytes())
}

/// The characters of each string of `names`.
pub open spec fn str_views(names: Seq<&str>) -> Seq<Seq<char>> {
    names.map_values(|n: &str| n@)
}

/// The characters of each string of `names`.
pub open spec fn string_views(names: Seq<String>) -> Seq<Seq<char>> {
    names.map_values(|n: String| n@)
}

/// Checking `texts` in order, the position of the first NUL byte of the first
/// text that holds one.
pub open spec fn first_refusal(texts: Seq<Seq<u8>>) -> Option<nat>
    decreases texts.len(),
{
    if texts.len() == 0 {
        None
    } else {
        match first_nul(texts[0]) {
            Some(p) => Some(p),
            None => first_refusal(texts.drop_first()),
        }
    }
}

/// Checking two lists in turn finds the refusal of the first list, if it has
/// one, and that of the second otherwise.
pub proof fn lemma_first_refusal_concat(a: Seq<Seq<u8>>, b: Seq<Seq<u8>>)
    ensures
        first_refusal(a + b) == (match first_refusal(a) {
            Some(p) => Some(p),
            None => first_refusal(b),
        }),
    decreases a.len(),
{
    if a.len() > 0 {
        assert((a + b).drop_first() =~= a.drop_first() + b);
        lemma_first_refusal_concat(a.drop_first(), b);
    } else {
        assert(a + b =~= b);
    }
}

/// A list of strings is refused exactly when one of them holds a NUL byte.
pub proof fn lemma_first_refusal_none_iff_nul_free(texts: Seq<Seq<u8>>)
    ensures
        first_refusal(texts) is None <==> (forall|i: int| 0 <= i < texts.len() ==> first_nul(#[trigger] texts[i]) is None),
    decreases texts.len(),
{
    if texts.len() > 0 {
        lemma_first_refusal_none_iff_nul_free(texts.drop_first());
        if first_refusal(texts) is None {
            assert forall|i: int| 0 <= i < texts.len() implies first_nul(#[trigger] texts[i]) is None by {
                if i > 0 {
                    assert(texts[i] == texts.drop_first()[i - 1]);
                }
            }
        } else if first_nul(texts[0]) is None {
            let j = choose|j: int| 0 <= j < texts.drop_first().len() && !(first_nul(#[trigger] texts.drop_first()[j]) is None);
            assert(texts[j + 1] == texts.drop_first()[j]);
        }
    }
}

/// The strings a kernel hands to the backend, in the order they are checked:
/// name, source, header, then every input name and every output name.
pub open spec fn kernel_texts(name: &str, input_names: Seq<&str>, output_names: Seq<&str>, source: &str, header: &str) -> Seq<Seq<u8>> {
    seq![name.spec_bytes(), source.spec_bytes(), header.spec_bytes()]
        + names_bytes(input_names) + names_bytes(output_names)
}

/// Copy `names`, checking each in order for NUL bytes.
fn copy_names(names: &[&str]) -> (r: Result<Vec<String>, Exception>)
    ensures
        r is Ok <==> first_refusal(names_bytes(names@)) is None,
        r matches Ok(v) ==> string_views(v@) == str_views(names@),
        r matches Err(e) ==> e.message() == nul_message(first_refusal(names_bytes(names@))->0),
{
    let mut out: Vec<String> = Vec::new();
    let mut i: usize = 0;
    while i < names.len()
        invariant
            i <= names@.len(),
            first_refusal(names_bytes(names@).take(i as int)) is None,
            string_views(out@) == str_views(names@.take(i as int)),
        decreases names.len() - i,
    {
        let ghost all = names_bytes(names@);
        proof {
            assert(all =~= all.take(i as int) + all.skip(i as int));
            lemma_first_refusal_concat(all.take(i as int), all.skip(i as int));
            assert(all.skip(i as int)[0] == names@[i as int].spec_bytes());
        }
        match check_c_string(names[i]) {
            Err(e) => {
                return Err(e);
            },
            Ok(()) => {
                proof {
                    let single = seq![names@[i as int].spec_bytes()];
                    assert(all.take(i + 1) =~= all.take(i as int) + single);
                    lemma_first_refusal_concat(all.take(i as int), single);
                    assert(single.drop_first() =~= Seq::<Seq<u8>>::empty());
                    assert(first_refusal(single.drop_first()) is None);
                    assert(first_nul(single[0]) is None);
                    assert(first_refusal(single) is None);
                    assert(first_refusal(all.take(i + 1)) is None);
                }
                out.push(String::from_str(names[i]));
                proof {
                    assert(str_views(names@.take(i + 1)) =~= str_views(names@.take(i as int)).push(names@[i as int]@));
                    assert(string_views(out@) =~= str_views(names@.take(i + 1)));
                }
                i = i + 1;
            },
        }
    }
    proof {
        assert(names_bytes(names@).take(names@.len() as int) =~= names_bytes(names@));
        assert(names@.take(names@.len() as int) =~= names@);
    }
    Ok(out)
}

/// A custom Metal kernel built from hand-written MSL source: the description
/// the backend JIT-compiles on first dispatch.
///
/// The backend synthesizes the function signature from the declared input and
/// output names; the source is the body of the compute function.
#[derive(Debug)]
pub struct MetalKernel {
    name: String,
    input_names: Vec<String>,
    output_names: Vec<String>,
    source: String,
    header: String,
    ensure_row_contiguous: bool,
    atomic_outputs: bool,
}

/// Whether `r` is the outcome of describing a kernel from these arguments:
/// refused with the message of the first NUL byte found (checking the name,
/// the source, the header, then the input and output names in order), or a
/// kernel holding exactly these arguments.
pub open spec fn describes(
    r: Result<MetalKernel, Exception>,
    name: &str,
    input_names: Seq<&str>,
    output_names: Seq<&str>,
    source: &str,
    header: &str,
    ensure_row_contiguous: bool,
    atomic_outputs: bool,
) -> bool {
    let texts = kernel_texts(name, input_names, output_names, source, header);
    &&& (r is Ok <==> first_refusal(texts) is None)
    &&& (r matches Err(e) ==> e.message() == nul_message(first_refusal(texts)->0))
    &&& (r matches Ok(k) ==> {
        &&& k.name_spec() == name@
        &&& k.input_names_spec() == str_views(input_names)
        &&& k.output_names_spec() == str_views(output_names)
        &&& k.source_spec() == source@
        &&& k.header_spec() == header@
        &&& k.ensures_row_contiguous() == ensure_row_contiguous
        &&& k.has_atomic_outputs() == atomic_outputs
    })
}

/// Whether every string handed to the backend for a kernel is free of NUL
/// bytes: the name, the source, the header and every input and output name.
pub open spec fn kernel_strings_nul_free(
    name: &str,
    input_names: Seq<&str>,
    output_names: Seq<&str>,
    source: &str,
    header: &str,
) -> bool {
    &&& first_nul(name.spec_bytes()) is None
    &&& first_nul(source.spec_bytes()) is None
    &&& first_nul(header.spec_bytes()) is None
    &&& forall|i: int| 0 <= i < input_names.len() ==> first_nul(#[trigger] input_names[i].spec_bytes()) is None
    &&& forall|i: int| 0 <= i < output_names.len() ==> first_nul(#[trigger] output_names[i].spec_bytes()) is None
}

/// A kernel description is created exactly when none of its strings holds a
/// NUL byte, and then it holds every argument as given: the name, the input
/// and output names in order, the source, the header, and both flags, each
/// flag independent of the other.
pub proof fn lemma_describes_arguments(
    r: Result<MetalKernel, Exception>,
    name: &str,
    input_names: Seq<&str>,
    output_names: Seq<&str>,
    source: &str,
    header: &str,
    ensure_row_contiguous: bool,
    atomic_outputs: bool,
)
    requires
        describes(r, name, input_names, output_names, source, header, ensure_row_contiguous, atomic_outputs),
    ensures
        r is Ok <==> kernel_strings_nul_free(name, input_names, output_names, source, header),
        r matches Ok(k) ==> {
            &&& k.name_spec() == name@
            &&& k.input_names_spec().len() == input_names.len()
            &&& forall|i: int| 0 <= i < input_names.len() ==> #[trigger] k.input_names_spec()[i] == input_names[i]@
            &&& k.output_names_spec().len() == output_names.len()
            &&& forall|i: int| 0 <= i < output_names.len() ==> #[trigger] k.output_names_spec()[i] == output_names[i]@
            &&& k.source_spec() == source@
            &&& k.header_spec() == header@
            &&& k.ensures_row_contiguous() == ensure_row_contiguous
            &&& k.has_atomic_outputs() == atomic_outputs
        },
{
    let texts = kernel_texts(name, input_names, output_names, source, header);
    lemma_first_refusal_none_iff_nul_free(texts);
    let n_in = input_names.len() as int;
    if kernel_strings_nul_free(name, input_names, output_names, source, header) {
        assert forall|i: int| 0 <= i < texts.len() implies first_nul(#[trigger] texts[i]) is None by {
            if i >= 3 + n_in {
                assert(texts[i] == output_names[i - 3 - n_in].spec_bytes());
            } else if i >= 3 {
                assert(texts[i] == input_names[i - 3].spec_bytes());
            }
        }
    }
    if first_refusal(texts) is None {
        assert(texts[0] == name.spec_bytes());
        assert(texts[1] == source.spec_bytes());
        assert(texts[2] == header.spec_bytes());
        assert forall|i: int| 0 <= i < input_names.len() implies first_nul(#[trigger] input_names[i].spec_bytes()) is None by {
            assert(texts[3 + i] == input_names[i].spec_bytes());
        }
        assert forall|i: int| 0 <= i < output_names.len() implies first_nul(#[trigger] output_names[i].spec_bytes()) is None by {
            assert(texts[3 + n_in + i] == output_names[i].spec_bytes());
        }
    }
}

impl MetalKernel {
    /// The kernel's name.
    pub closed spec fn name_spec(&self) -> Seq<char> {
        self.name@
    }

    /// The names of the kernel's inputs, in dispatch order.
    pub closed spec fn input_names_spec(&self) -> Seq<Seq<char>> {
        string_views(self.input_names@)
    }

    /// The names of the kernel's outputs, in dispatch order.
    pub closed spec fn output_names_spec(&self) -> Seq<Seq<char>> {
        string_views(self.output_names@)
    }

    /// The MSL body of the compute function.
    pub closed spec fn source_spec(&self) -> Seq<char> {
        self.source@
    }

    /// Source prepended verbatim before the kernel.
    pub closed spec fn header_spec(&self) -> Seq<char> {
        self.header@
    }

    /// Whether inputs are made row contiguous before the kernel runs.
    pub closed spec fn ensures_row_contiguous(&self) -> bool {
        self.ensure_row_contiguous
    }

    /// Whether output buffers are declared atomic.
    pub closed spec fn has_atomic_outputs(&self) -> bool {
        self.atomic_outputs
    }

    /// Create (but do not yet compile) a custom Metal kernel, with an empty
    /// header, row-contiguous inputs and non-atomic outputs.
    pub fn new(name: &str, input_names: &[&str], output_names: &[&str], source: &str) -> (r: Result<MetalKernel, Exception>)
        ensures
            describes(r, name, input_names@, output_names@, source, "", true, false),
            r is Ok <==> kernel_strings_nul_free(name, input_names@, output_names@, source, ""),
            r matches Ok(k) ==> k.ensures_row_contiguous() && !k.has_atomic_outputs() && k.header_spec() == ""@,
    {
        MetalKernel::with_options(name, input_names, output_names, source, "", true, false)
    }

    /// Create a custom Metal kernel with full control over the optional flags.
    pub fn with_options(
        name: &str,
        input_names: &[&str],
        output_names: &[&str],
        source: &str,
        header: &str,
        ensure_row_contiguous: bool,
        atomic_outputs: bool,
    ) -> (r: Result<MetalKernel, Exception>)
        ensures
            describes(r, name, input_names@, output_names@, source, header, ensure_row_contiguous, atomic_outputs),
            r is Ok <==> kernel_strings_nul_free(name, input_names@, output_names@, source, header),
            r matches Ok(k) ==> {
                &&& k.name_spec() == name@
                &&& k.source_spec() == source@
                &&& k.header_spec() == header@
                &&& k.ensures_row_contiguous() == ensure_row_contiguous
                &&& k.has_atomic_outputs() == atomic_outputs
            },
    {
        let r = MetalKernel::checked(name, input_names, output_names, source, header, ensure_row_contiguous, atomic_outputs);
        proof {
            lemma_describes_arguments(r, name, input_names@, output_names@, source, header,
                ensure_row_contiguous, atomic_outputs);
        }
        r
    }

    /// Check every string for NUL bytes, in order, and keep copies of them.
    fn checked(
        name: &str,
        input_names: &[&str],
        output_names: &[&str],
        source: &str,
        header: &str,
        ensure_row_contiguous: bool,
        atomic_outputs: bool,
    ) -> (r: Result<MetalKernel, Exception>)
        ensures
            describes(r, name, input_names@, output_names@, source, header, ensure_row_contiguous, atomic_outputs),
    {
        let ghost fixed = seq![name.spec_bytes(), source.spec_bytes(), header.spec_bytes()];
        let ghost ins = names_bytes(input_names@);
        let ghost outs = names_bytes(output_names@);
        proof {
            lemma_first_refusal_concat(fixed + ins, outs);
            lemma_first_refusal_concat(fixed, ins);
            assert(fixed.drop_first() =~= seq![source.spec_bytes(), header.spec_bytes()]);
            assert(fixed.drop_first().drop_first() =~= seq![header.spec_bytes()]);
            assert(fixed.drop_first().drop_first().drop_first() =~= Seq::<Seq<u8>>::empty());
            assert(first_refusal(Seq::<Seq<u8>>::empty()) is None);
        }
        let ghost rest1 = fixed.drop_first();
        let ghost rest2 = rest1.drop_first();
        proof {
            assert(fixed[0] == name.spec_bytes());
            assert(rest1[0] == source.spec_bytes());
            assert(rest2[0] == header.spec_bytes());
            assert(first_refusal(rest2) == (match first_nul(header.spec_bytes()) {
                Some(p) => Some(p),
                None => first_refusal(rest2.drop_first()),
            }));
            assert(first_refusal(rest1) == (match first_nul(source.spec_bytes()) {
                Some(p) => Some(p),
                None => first_refusal(rest2),
            }));
        }
        check_c_string(name)?;
        check_c_string(source)?;
        check_c_string(header)?;
        let inputs = copy_names(input_names)?;
        let outputs = copy_names(output_names)?;
        Ok(MetalKernel {
            name: String::from_str(name),
            input_names: inputs,
            output_names: outputs,
            source: String::from_str(source),
            header: String::from_str(header),
            ensure_row_contiguous,
            atomic_outputs,
        })
    }

    /// The kernel's name.
    pub fn name(&self) -> (s: &str)
        ensures
            s@ == self.name_spec(),
    {
        self.name.as_str()
    }

    /// The names of the kernel's inputs, in dispatch order.
    pub fn input_names(&self) -> (v: &Vec<String>)
        ensures
            string_views(v@) == self.input_names_spec(),
    {
        &self.input_names
    }

    /// The names of the kernel's outputs, in dispatch order.
    pub fn output_names(&self) -> (v: &Vec<String>)
        ensures
            string_views(v@) == self.output_names_spec(),
    {
        &self.output_names
    }

    /// The MSL body of the compute function.
    pub fn source(&self) -> (s: &str)
        ensures
            s@ == self.source_spec(),
    {
        self.source.as_str()
    }

    /// Source prepended verbatim before the kernel.
    pub fn header(&self) -> (s: &str)
        ensures
            s@ == self.header_spec(),
    {
        self.header.as_str()
    }

    /// Whether inputs are made row contiguous before the kernel runs.
    pub fn ensure_row_contiguous(&self) -> (b: bool)
        ensures
            b == self.ensures_row_contiguous(),
    {
        self.ensure_row_contiguous
    }

    /// Whether output buffers are declared atomic.
    pub fn atomic_outputs(&self) -> (b: bool)
        ensures
            b == self.has_atomic_outputs(),
    {
        self.atomic_outputs
    }
}

/// One configuration call made before a kernel dispatch runs.
#[derive(Debug, Clone, Copy, PartialEq, Eq, Structural)]
pub enum ConfigStep {
    /// Declare the output with this index.
    AddOutput(usize),
    /// Set the grid dimensions.
    SetGrid,
    /// Set the thread group dimensions.
    SetThreadGroup,
    /// Set the initial value of the outputs.
    SetInitValue,
    /// Set verbose mode.
    SetVerbose,
    /// Add the template parameter with this index.
    AddTemplateArg(usize),
}

/// The configuration calls of a dispatch, in order: every declared output,
/// the grid, the thread group, the initial value when one is set, verbose
/// mode, then every template parameter.
pub open spec fn config_plan(n_outputs: nat, has_init_value: bool, n_template_args: nat) -> Seq<ConfigStep> {
    Seq::new(n_outputs, |i: int| ConfigStep::AddOutput(i as usize))
        + seq![ConfigStep::SetGrid, ConfigStep::SetThreadGroup]
        + (if has_init_value { seq![ConfigStep::SetInitValue] } else { Seq::empty() })
        + seq![ConfigStep::SetVerbose]
        + Seq::new(n_template_args, |i: int| ConfigStep::AddTemplateArg(i as usize))
}

/// The layout of a dispatch's configuration calls: the outputs in order,
/// then the grid and the thread group, then the initial value exactly when
/// the dispatch has one, then verbose mode, then the template parameters in
/// order. The initial value is set whatever the number of outputs and
/// template parameters, and never when there is none.
pub proof fn lemma_config_plan_layout(n_outputs: nat, has_init_value: bool, n_template_args: nat)
    ensures
        ({
            let plan = config_plan(n_outputs, has_init_value, n_template_args);
            let head: int = n_outputs + if has_init_value { 4int } else { 3int };
            &&& plan.len() == head + n_template_args
            &&& forall|i: int| 0 <= i < n_outputs ==> #[trigger] plan[i] == ConfigStep::AddOutput(i as usize)
            &&& plan[n_outputs as int] == ConfigStep::SetGrid
            &&& plan[n_outputs as int + 1] == ConfigStep::SetThreadGroup
            &&& has_init_value ==> plan[n_outputs as int + 2] == ConfigStep::SetInitValue
            &&& plan[head - 1] == ConfigStep::SetVerbose
            &&& forall|j: int| 0 <= j < n_template_args ==> #[trigger] plan[head + j] == ConfigStep::AddTemplateArg(j as usize)
            &&& plan.contains(ConfigStep::SetInitValue) <==> has_init_value
        }),
{
    let outs = Seq::new(n_outputs, |i: int| ConfigStep::AddOutput(i as usize));
    let init = if has_init_value { seq![ConfigStep::SetInitValue] } else { Seq::<ConfigStep>::empty() };
    let mid = seq![ConfigStep::SetGrid, ConfigStep::SetThreadGroup] + init + seq![ConfigStep::SetVerbose];
    let tmpl = Seq::new(n_template_args, |i: int| ConfigStep::AddTemplateArg(i as usize));
    let plan = config_plan(n_outputs, has_init_value, n_template_args);
    let head: int = n_outputs + if has_init_value { 4int } else { 3int };
    assert(plan =~= outs + mid + tmpl);
    assert(mid.len() == head - n_outputs);
    assert forall|i: int| 0 <= i < n_outputs implies #[trigger] plan[i] == ConfigStep::AddOutput(i as usize) by {
        assert(plan[i] == outs[i]);
    }
    assert(plan[n_outputs as int] == mid[0]);
    assert(plan[n_outputs as int + 1] == mid[1]);
    assert(plan[head - 1] == mid[mid.len() - 1]);
    if has_init_value {
        assert(plan[n_outputs as int + 2] == mid[2]);
    }
    assert forall|j: int| 0 <= j < n_template_args implies #[trigger] plan[head + j] == ConfigStep::AddTemplateArg(j as usize) by {
        assert(plan[head + j] == tmpl[j]);
    }
    if has_init_value {
        assert(plan[n_outputs as int + 2] == ConfigStep::SetInitValue);
    } else {
        assert forall|k: int| 0 <= k < plan.len() implies plan[k] != ConfigStep::SetInitValue by {
            if k < n_outputs {
                assert(plan[k] == outs[k]);
            } else if k < head {
                assert(plan[k] == mid[k - n_outputs]);
            } else {
                assert(plan[k] == tmpl[k - head]);
            }
        }
    }
}

/// Every template parameter step of a plan names a parameter that exists.
pub proof fn lemma_plan_template_indices(n_outputs: nat, has_init_value: bool, n_template_args: nat, k: int)
    requires
        0 <= k < config_plan(n_outputs, has_init_value, n_template_args).len(),
    ensures
        config_plan(n_outputs, has_init_value, n_template_args)[k] matches ConfigStep::AddTemplateArg(i)
            ==> i < n_template_args,
{
    let outs = Seq::new(n_outputs, |i: int| ConfigStep::AddOutput(i as usize));
    let mid = seq![ConfigStep::SetGrid, ConfigStep::SetThreadGroup]
        + (if has_init_value { seq![ConfigStep::SetInitValue] } else { Seq::empty() })
        + seq![ConfigStep::SetVerbose];
    let tmpl = Seq::new(n_template_args, |i: int| ConfigStep::AddTemplateArg(i as usize));
    let plan = config_plan(n_outputs, has_init_value, n_template_args);
    assert(plan =~= outs + mid + tmpl);
    if k >= outs.len() + mid.len() {
        let j = k - outs.len() - mid.len();
        assert(plan[k] == tmpl[j]);
        assert(j < n_template_args);
        assert((j as usize) < n_template_args);
    } else if k >= outs.len() {
        assert(plan[k] == mid[k - outs.len()]);
    } else {
        assert(plan[k] == outs[k]);
    }
}

/// What a dispatch does next.
#[derive(Debug)]
pub enum DispatchAction {
    /// Make this configuration call.
    Call(ConfigStep),
    /// Stop the dispatch with this error.
    Fail(Exception),
    /// Every configuration call was made and succeeded: run the kernel.
    Run,
}

/// Whether the status of the last configuration call, if one was made, is a
/// failure.
pub open spec fn last_call_failed(last: Option<(i32, Option<String>)>) -> bool {
    last matches Some(st) && st.0 != SUCCESS
}

/// The message of a failed configuration call: the backend's last error, or
/// `metal kernel config error` when it recorded none.
pub open spec fn config_failure_message(last_error: Option<String>) -> Seq<char> {
    match last_error {
        Some(m) => m@,
        None => "metal kernel config error"@,
    }
}

/// Append `AddOutput(i)` or `AddTemplateArg(i)` for every `i < n` to `steps`.
fn push_indexed(steps: &mut Vec<ConfigStep>, n: usize, outputs: bool)
    ensures
        final(steps)@ == old(steps)@ + Seq::new(n as nat, |i: int|
            if outputs { ConfigStep::AddOutput(i as usize) } else { ConfigStep::AddTemplateArg(i as usize) }),
{
    let ghost start = steps@;
    let ghost target = Seq::new(n as nat, |i: int|
        if outputs { ConfigStep::AddOutput(i as usize) } else { ConfigStep::AddTemplateArg(i as usize) });
    let mut i: usize = 0;
    while i < n
        invariant
            i <= n,
            steps@ == start + target.take(i as int),
            target == Seq::new(n as nat, |i: int|
                if outputs { ConfigStep::AddOutput(i as usize) } else { ConfigStep::AddTemplateArg(i as usize) }),
        decreases n - i,
    {
        if outputs {
            steps.push(ConfigStep::AddOutput(i));
        } else {
            steps.push(ConfigStep::AddTemplateArg(i));
        }
        proof {
            assert(target.take(i + 1) =~= target.take(i as int).push(target[i as int]));
        }
        i = i + 1;
    }
    proof {
        assert(target.take(n as int) =~= target);
    }
}

/// The abstract contents of a kernel dispatch.
pub struct DispatchView<I, V> {
    pub inputs: Seq<I>,
    pub outputs: Seq<OutputArg>,
    pub grid: (i32, i32, i32),
    pub thread_group: (i32, i32, i32),
    pub template_args: Seq<(Seq<char>, TemplateArg)>,
    pub init_value: Option<V>,
    pub verbose: bool,
}

/// A builder for a single dispatch of a [`MetalKernel`], over input arrays of
/// type `I` and an output initial value of type `V`.
///
/// Created via [`MetalKernel::apply`]. Configure the inputs, outputs, grid and
/// threadgroup dimensions (and optionally template params / init value).
#[derive(Debug)]
pub struct MetalKernelDispatch<'a, I, V> {
    kernel: &'a MetalKernel,
    inputs: Vec<I>,
    outputs: Vec<OutputArg>,
    grid: (i32, i32, i32),
    thread_group: (i32, i32, i32),
    template_args: Vec<(String, TemplateArg)>,
    init_value: Option<V>,
    verbose: bool,
}

/// The characters of each template parameter name, with its value.
pub open spec fn template_views(args: Seq<(String, TemplateArg)>) -> Seq<(Seq<char>, TemplateArg)> {
    args.map_values(|a: (String, TemplateArg)| (a.0@, a.1))
}

impl<'a, I, V> View for MetalKernelDispatch<'a, I, V> {
    type V = DispatchView<I, V>;

    closed spec fn view(&self) -> DispatchView<I, V> {
        DispatchView {
            inputs: self.inputs@,
            outputs: self.outputs@,
            grid: self.grid,
            thread_group: self.thread_group,
            template_args: template_views(self.template_args@),
            init_value: self.init_value,
            verbose: self.verbose,
        }
    }
}

impl MetalKernel {
    /// Begin building a dispatch of this kernel: no inputs or outputs, a
    /// 1x1x1 grid and thread group, no template parameters, no initial value,
    /// not verbose.
    pub fn apply<I, V>(&self) -> (d: MetalKernelDispatch<'_, I, V>)
        ensures
            d.kernel_spec() == *self,
            d@.inputs.len() == 0,
            d@.outputs.len() == 0,
            d@.grid == (1i32, 1i32, 1i32),
            d@.thread_group == (1i32, 1i32, 1i32),
            d@.template_args.len() == 0,
            d@.init_value is None,
            !d@.verbose,
    {
        let d = MetalKernelDispatch {
            kernel: self,
            inputs: Vec::new(),
            outputs: Vec::new(),
            grid: (1, 1, 1),
            thread_group: (1, 1, 1),
            template_args: Vec::new(),
            init_value: None,
            verbose: false,
        };
        proof {
            assert(template_views(d.template_args@) =~= Seq::<(Seq<char>, TemplateArg)>::empty());
        }
        d
    }
}

impl<'a, I, V> MetalKernelDispatch<'a, I, V> {
    /// The kernel being dispatched.
    pub closed spec fn kernel_spec(&self) -> MetalKernel {
        *self.kernel
    }

    /// The configuration calls this dispatch makes before the kernel runs, in
    /// order. [`Self::next_action`] walks them: a dispatch stops at the first
    /// call that fails, and before the call of `AddTemplateArg(i)` it checks
    /// the name of parameter `i`, stopping with that error when the check
    /// fails.
    pub fn config_steps(&self) -> (steps: Vec<ConfigStep>)
        ensures
            steps@ == config_plan(self@.outputs.len(), self@.init_value is Some, self@.template_args.len()),
            steps@.contains(ConfigStep::SetInitValue) <==> self@.init_value is Some,
            steps@.len() == self@.outputs.len() + self@.template_args.len()
                + if self@.init_value is Some { 4int } else { 3int },
    {
        let mut steps: Vec<ConfigStep> = Vec::new();
        push_indexed(&mut steps, self.outputs.len(), true);
        steps.push(ConfigStep::SetGrid);
        steps.push(ConfigStep::SetThreadGroup);
        if self.init_value.is_some() {
            steps.push(ConfigStep::SetInitValue);
        }
        steps.push(ConfigStep::SetVerbose);
        push_indexed(&mut steps, self.template_args.len(), false);
        proof {
            let plan = config_plan(self@.outputs.len(), self@.init_value is Some, self@.template_args.len());
            assert(steps@ =~= plan);
            lemma_config_plan_layout(self@.outputs.len(), self@.init_value is Some, self@.template_args.len());
        }
        steps
    }

    /// Decide what the dispatch does next, once `made` of its configuration
    /// calls have been made and `last` holds the status of the latest one
    /// (with the backend's last error), or `None` before the first.
    ///
    /// A failed call stops the dispatch with its error. Once every call of
    /// [`Self::config_steps`] has been made, the kernel runs. Otherwise the
    /// next call is made, except that a template parameter whose name holds a
    /// NUL byte stops the dispatch, before its call, with the error of
    /// [`Self::check_template_arg_name`].
    pub fn next_action(&self, made: usize, last: Option<(i32, Option<String>)>) -> (a: DispatchAction)
        requires
            made <= config_plan(self@.outputs.len(), self@.init_value is Some, self@.template_args.len()).len(),
        ensures
            ({
                let plan = config_plan(self@.outputs.len(), self@.init_value is Some, self@.template_args.len());
                &&& last_call_failed(last) ==> (a matches DispatchAction::Fail(e)
                    && e.message() == config_failure_message((last->0).1))
                &&& !last_call_failed(last) && made == plan.len() ==> a is Run
                &&& !last_call_failed(last) && made < plan.len() ==> match plan[made as int] {
                    ConfigStep::AddTemplateArg(i) => {
                        let bytes = vstd::utf8::encode_utf8(self@.template_args[i as int].0);
                        &&& first_nul(bytes) is None ==> a == DispatchAction::Call(plan[made as int])
                        &&& first_nul(bytes) is Some ==> (a matches DispatchAction::Fail(e)
                            && e.message() == nul_message(first_nul(bytes)->0))
                    },
                    step => a == DispatchAction::Call(step),
                }
            }),
    {
        if let Some((status, last_error)) = last {
            if status != SUCCESS {
                return match check_status(status, last_error) {
                    Err(e) => DispatchAction::Fail(e),
                    Ok(()) => DispatchAction::Run,
                };
            }
        }
        let steps = self.config_steps();
        if made == steps.len() {
            return DispatchAction::Run;
        }
        let step = steps[made];
        proof {
            lemma_plan_template_indices(self@.outputs.len(), self@.init_value is Some,
                self@.template_args.len(), made as int);
        }
        match step {
            ConfigStep::AddTemplateArg(i) => match self.check_template_arg_name(i) {
                Ok(()) => DispatchAction::Call(step),
                Err(e) => DispatchAction::Fail(e),
            },
            _ => DispatchAction::Call(step),
        }
    }

    /// Check that the name of template parameter `i` can be handed to the
    /// backend as a C string: it fails, with the message of the first NUL
    /// byte's position, exactly when the name holds a NUL byte.
    pub fn check_template_arg_name(&self, i: usize) -> (r: Result<(), Exception>)
        requires
            i < self@.template_args.len(),
        ensures
            r is Ok <==> first_nul(vstd::utf8::encode_utf8(self@.template_args[i as int].0)) is None,
            r matches Err(e) ==> e.message() == nul_message(
                first_nul(vstd::utf8::encode_utf8(self@.template_args[i as int].0))->0),
    {
        check_c_string(self.template_args[i].0.as_str())
    }

    /// The kernel being dispatched.
    pub fn kernel(&self) -> (k: &MetalKernel)
        ensures
            *k == self.kernel_spec(),
    {
        self.kernel
    }

    /// The input arrays, in order.
    pub fn input_list(&self) -> (v: &Vec<I>)
        ensures
            v@ == self@.inputs,
    {
        &self.inputs
    }

    /// The declared outputs, in order.
    pub fn output_list(&self) -> (v: &Vec<OutputArg>)
        ensures
            v@ == self@.outputs,
    {
        &self.outputs
    }

    /// The grid dimensions.
    pub fn grid_dims(&self) -> (g: (i32, i32, i32))
        ensures
            g == self@.grid,
    {
        self.grid
    }

    /// The thread group dimensions.
    pub fn thread_group_dims(&self) -> (g: (i32, i32, i32))
        ensures
            g == self@.thread_group,
    {
        self.thread_group
    }

    /// The template parameters, in order.
    pub fn template_arg_list(&self) -> (v: &Vec<(String, TemplateArg)>)
        ensures
            template_views(v@) == self@.template_args,
    {
        &self.template_args
    }

    /// The initial value of the outputs, if one is set.
    pub fn init_value_ref(&self) -> (v: &Option<V>)
        ensures
            *v == self@.init_value,
    {
        &self.init_value
    }

    /// Whether verbose mode is on.
    pub fn is_verbose(&self) -> (b: bool)
        ensures
            b == self@.verbose,
    {
        self.verbose
    }

    /// Append an input array (in the order the kernel's input names declared).
    pub fn input(self, array: I) -> (d: Self)
        ensures
            d.kernel_spec() == self.kernel_spec(),
            d@ == (DispatchView { inputs: self@.inputs.push(array), ..self@ }),
    {
        let mut d = self;
        d.inputs.push(array);
        d
    }

    /// Append all input arrays of `arrays`, in order.
    pub fn inputs(self, arrays: Vec<I>) -> (d: Self)
        ensures
            d.kernel_spec() == self.kernel_spec(),
            d@ == (DispatchView { inputs: self@.inputs + arrays@, ..self@ }),
    {
        let mut d = self;
        let mut more = arrays;
        d.inputs.append(&mut more);
        d
    }

    /// Declare an output (shape + dtype), in the order the output names declared.
    pub fn output(self, output: OutputArg) -> (d: Self)
        ensures
            d.kernel_spec() == self.kernel_spec(),
            d@ == (DispatchView { outputs: self@.outputs.push(output), ..self@ }),
    {
        let mut d = self;
        d.outputs.push(output);
        d
    }

    /// Declare an output by shape and dtype.
    pub fn output_shape(self, shape: Vec<i32>, dtype: Dtype) -> (d: Self)
        ensures
            d.kernel_spec() == self.kernel_spec(),
            d@ == (DispatchView { outputs: self@.outputs.push(OutputArg { shape, dtype }), ..self@ }),
    {
        self.output(OutputArg { shape, dtype })
    }

    /// Set the dispatch grid dimensions (total threads per dimension).
    pub fn grid(self, x: i32, y: i32, z: i32) -> (d: Self)
        ensures
            d.kernel_spec() == self.kernel_spec(),
            d@ == (DispatchView { grid: (x, y, z), ..self@ }),
    {
        let mut d = self;
        d.grid = (x, y, z);
        d
    }

    /// Set the threadgroup dimensions.
    pub fn thread_group(self, x: i32, y: i32, z: i32) -> (d: Self)
        ensures
            d.kernel_spec() == self.kernel_spec(),
            d@ == (DispatchView { thread_group: (x, y, z), ..self@ }),
    {
        let mut d = self;
        d.thread_group = (x, y, z);
        d
    }

    /// Add a template parameter (substituted at JIT-compile time).
    pub fn template_arg(self, name: String, value: TemplateArg) -> (d: Self)
        ensures
            d.kernel_spec() == self.kernel_spec(),
            d@ == (DispatchView { template_args: self@.template_args.push((name@, value)), ..self@ }),
    {
        let mut d = self;
        let ghost before = d.template_args@;
        d.template_args.push((name, value));
        proof {
            assert(template_views(d.template_args@) =~= template_views(before).push((name@, value)));
        }
        d
    }

    /// Set the initial value used to fill outputs before the kernel runs.
    pub fn init_value(self, value: V) -> (d: Self)
        ensures
            d.kernel_spec() == self.kernel_spec(),
            d@ == (DispatchView { init_value: Some(value), ..self@ }),
    {
        let mut d = self;
        d.init_value = Some(value);
        d
    }

    /// Enable or disable verbose mode (printing the generated kernel source).
    pub fn verbose(self, verbose: bool) -> (d: Self)
        ensures
            d.kernel_spec() == self.kernel_spec(),
            d@ == (DispatchView { verbose, ..self@ }),
    {
        let mut d = self;
        d.verbose = verbose;
        d
    }
}

} // verus!
