//! Weight loading: resolving serialized tensor shards onto model parameters.
//!
//! A model directory holds container files of named dense tensors. For each
//! named tensor, the loader converts its declared on-disk element type to the
//! runtime element type by a fixed table, rebuilds the dense array from the
//! stored shape and raw bytes, rewrites the tensor name through the model's
//! packed-module rules (logically merged parameters stored as several on-disk
//! shards), and hands the result to the model. A parameter the model does not
//! know is reported back as a warning and the load goes on; an unsupported
//! element type, a malformed container or an unbuildable tensor aborts the
//! whole load, naming the offending tensor.
//!
//! Tensor and parameter names are handled as their UTF-8 bytes throughout.
//! What a container file holds is abstracted by the uninterpreted
//! [`st_parses`] and [`st_content`], both functions of the file's bytes
//! alone; what one tensor view carries is abstracted by [`view_dtype_of`],
//! [`view_shape_of`] and [`view_data_of`].
use vstd::prelude::*;
use vstd::slice::slice_to_vec;

use crate::pattern::{contains_pattern, replace_all, replace_all_spec, contains_pat};

verus! {

/// The on-disk element types this loader tells apart. Variants outside the
/// supported set that the loader still names (such as the 64-bit and complex
/// floats) exist so an unsupported file fails with a precise element type;
/// every remaining container variant is read as `Other`.
#[derive(Debug, Clone, Copy, PartialEq, Eq, Structural)]
pub enum StorageDtype {
    /// Boolean.
    Bool,
    /// Unsigned byte.
    U8,
    /// Signed byte.
    I8,
    /// Half-precision float.
    F16,
    /// Brain float.
    Bf16,
    /// Signed 32-bit integer.
    I32,
    /// Single-precision float.
    F32,
    /// Double-precision float; not supported at runtime.
    F64,
    /// Complex of two single-precision parts; not supported at runtime.
    C64,
    /// Signed 64-bit integer.
    I64,
    /// Any other on-disk element type; never supported.
    Other,
}

/// The runtime element types tensors are materialized with.
#[derive(Debug, Clone, Copy, PartialEq, Eq, Structural)]
pub enum RuntimeDtype {
    /// Unsigned byte.
    U8,
    /// Unsigned 32-bit integer.
    U32,
    /// Signed 64-bit integer.
    I64,
    /// Brain float.
    Bf16,
    /// Half-precision float.
    F16,
    /// Single-precision float.
    F32,
}

/// Why a load was aborted.
#[derive(Debug, PartialEq, Eq)]
pub enum LoadError {
    /// The named tensor's on-disk element type is outside the supported set.
    UnsupportedDtype {
        /// UTF-8 bytes of the offending tensor's name.
        tensor_name: Vec<u8>,
    },
    /// A container file's format could not be parsed.
    MalformedContainer,
    /// The named tensor could not be rebuilt from its raw bytes.
    TensorCreate {
        /// UTF-8 bytes of the offending tensor's name.
        tensor_name: Vec<u8>,
    },
    /// The model failed while loading the named parameter.
    WeightLoad {
        /// UTF-8 bytes of the offending parameter's name.
        param_name: Vec<u8>,
    },
}

/// The fixed on-disk to runtime element-type table: the three float widths
/// and the 64-bit integer map to themselves, the 32-bit integer is
/// reinterpreted as unsigned (a documented, lossy policy), and the one-byte
/// types collapse to the unsigned byte. Everything else is unsupported.
pub open spec fn spec_convert_dtype(dtype: StorageDtype) -> Option<RuntimeDtype> {
    match dtype {
        StorageDtype::F32 => Some(RuntimeDtype::F32),
        StorageDtype::F16 => Some(RuntimeDtype::F16),
        StorageDtype::Bf16 => Some(RuntimeDtype::Bf16),
        StorageDtype::I64 => Some(RuntimeDtype::I64),
        StorageDtype::I32 => Some(RuntimeDtype::U32),
        StorageDtype::U8 => Some(RuntimeDtype::U8),
        StorageDtype::I8 => Some(RuntimeDtype::U8),
        StorageDtype::Bool => Some(RuntimeDtype::U8),
        _ => None,
    }
}

/// How many bytes one element of the runtime type occupies.
pub open spec fn spec_dtype_size(dtype: RuntimeDtype) -> int {
    match dtype {
        RuntimeDtype::U8 => 1,
        RuntimeDtype::U32 => 4,
        RuntimeDtype::I64 => 8,
        RuntimeDtype::Bf16 => 2,
        RuntimeDtype::F16 => 2,
        RuntimeDtype::F32 => 4,
    }
}

/// How many bytes one element of the runtime type occupies.
fn dtype_size(dtype: RuntimeDtype) -> (r: usize)
    ensures
        r == spec_dtype_size(dtype),
{
    match dtype {
        RuntimeDtype::U8 => 1,
        RuntimeDtype::U32 => 4,
        RuntimeDtype::I64 => 8,
        RuntimeDtype::Bf16 => 2,
        RuntimeDtype::F16 => 2,
        RuntimeDtype::F32 => 4,
    }
}

/// The number of elements in the trailing dimensions `dims[i..]`: the empty
/// product is 1.
pub open spec fn spec_suffix_elems(dims: Seq<usize>, i: int) -> int
    decreases dims.len() - i,
{
    if i < 0 || i >= dims.len() {
        1
    } else {
        dims[i] * spec_suffix_elems(dims, i + 1)
    }
}

/// The number of elements a shape describes: the product of its dimensions.
pub open spec fn spec_elem_count(dims: Seq<usize>) -> int {
    spec_suffix_elems(dims, 0)
}

/// The raw bytes fill the shape exactly: the element count times the element
/// size equals the byte length, and every trailing-dimension product fits the
/// machine word (so the dense layout's strides are computable).
pub open spec fn spec_shape_fits(dims: Seq<usize>, size: int, len: int) -> bool {
    &&& spec_elem_count(dims) * size == len
    &&& forall|i: int| #![auto] 0 <= i <= dims.len() ==> spec_suffix_elems(dims, i) <= usize::MAX
}

/// Converts an on-disk element type to the runtime one by the fixed table;
/// exactly the unsupported types err, naming the offending tensor.
pub fn convert_dtype(dtype: StorageDtype, tensor_name: &[u8]) -> (r: Result<
    RuntimeDtype,
    LoadError,
>)
    ensures
        match r {
            Ok(d) => spec_convert_dtype(dtype) == Some(d),
            Err(e) => {
                &&& spec_convert_dtype(dtype) is None
                &&& e matches LoadError::UnsupportedDtype { tensor_name: n } && n@ == tensor_name@
            },
        },
{
    match dtype {
        StorageDtype::F32 => Ok(RuntimeDtype::F32),
        StorageDtype::F16 => Ok(RuntimeDtype::F16),
        StorageDtype::Bf16 => Ok(RuntimeDtype::Bf16),
        StorageDtype::I64 => Ok(RuntimeDtype::I64),
        StorageDtype::I32 => Ok(RuntimeDtype::U32),
        StorageDtype::U8 => Ok(RuntimeDtype::U8),
        StorageDtype::I8 => Ok(RuntimeDtype::U8),
        StorageDtype::Bool => Ok(RuntimeDtype::U8),
        _ => Err(LoadError::UnsupportedDtype { tensor_name: slice_to_vec(tensor_name) }),
    }
}

/// One packed-module rule: a tensor name containing `pattern` belongs to
/// shard `shard_id` of the merged parameter named by rewriting `pattern` to
/// `replacement`.
#[derive(Debug)]
pub struct PackedEntry {
    /// UTF-8 bytes of the substring to look for in a tensor name.
    pub pattern: Vec<u8>,
    /// UTF-8 bytes that replace every occurrence of the pattern.
    pub replacement: Vec<u8>,
    /// Which shard of the merged parameter the tensor is.
    pub shard_id: usize,
}

impl Clone for PackedEntry {
    /// A field-wise copy.
    fn clone(&self) -> (r: Self)
        ensures
            r.pattern@ == self.pattern@,
            r.replacement@ == self.replacement@,
            r.shard_id == self.shard_id,
    {
        PackedEntry {
            pattern: slice_to_vec(self.pattern.as_slice()),
            replacement: slice_to_vec(self.replacement.as_slice()),
            shard_id: self.shard_id,
        }
    }
}

/// A model's packed-module rules, tried in declaration order.
///
/// The first rule whose pattern occurs in a tensor name wins, so a caller
/// whose patterns overlap gets the earliest declared one; callers should keep
/// patterns mutually exclusive as substrings. Patterns are non-empty:
/// `insert` requires it, and an empty pattern — reachable only by filling
/// `entries` directly — is outside the mapping's domain. Resolution then
/// treats it as occurring in every name and rewriting none of it, where the
/// standard library's replacement would instead interleave the replacement
/// around every character.
#[derive(Debug)]
pub struct PackedModulesMapping {
    /// The rules, in the order they were declared.
    pub entries: Vec<PackedEntry>,
}

impl View for PackedModulesMapping {
    type V = Seq<PackedEntry>;

    open spec fn view(&self) -> Seq<PackedEntry> {
        self.entries@
    }
}

/// What resolving a name against rules yields: the first rule (in order)
/// whose pattern occurs in the name gives the rewritten name and its shard
/// index; no rule matching yields nothing. A degenerate empty pattern occurs
/// in every name and its replacement leaves the name unchanged.
pub open spec fn resolve_spec(name: Seq<u8>, entries: Seq<PackedEntry>) -> Option<(Seq<u8>, usize)>
    decreases entries.len(),
{
    if entries.len() == 0 {
        None
    } else if contains_pat(name, entries[0].pattern@) {
        Some(
            (
                replace_all_spec(name, entries[0].pattern@, entries[0].replacement@),
                entries[0].shard_id,
            ),
        )
    } else {
        resolve_spec(name, entries.skip(1))
    }
}

impl PackedModulesMapping {
    /// A mapping with no rules.
    pub fn new() -> (r: Self)
        ensures
            r@ == Seq::<PackedEntry>::empty(),
    {
        let r = PackedModulesMapping { entries: Vec::new() };
        proof {
            assert(r@ =~= Seq::<PackedEntry>::empty());
        }
        r
    }

    /// Declares one more rule, after all existing ones. A pattern must be
    /// non-empty: an empty one would match every name without changing it.
    pub fn insert(&mut self, pattern: Vec<u8>, replacement: Vec<u8>, shard_id: usize)
        requires
            pattern@.len() >= 1,
        ensures
            final(self)@ == old(self)@.push(PackedEntry { pattern, replacement, shard_id }),
    {
        self.entries.push(PackedEntry { pattern, replacement, shard_id });
    }
}

impl Clone for PackedModulesMapping {
    /// A rule-wise copy: the clone holds field-wise equal rules in the same
    /// order.
    fn clone(&self) -> (r: Self)
        ensures
            r@.len() == self@.len(),
            forall|i: int|
                #![auto]
                0 <= i < self@.len() ==> r@[i].pattern@ == self@[i].pattern@
                    && r@[i].replacement@ == self@[i].replacement@ && r@[i].shard_id
                    == self@[i].shard_id,
    {
        let mut entries: Vec<PackedEntry> = Vec::new();
        let mut i: usize = 0;
        while i < self.entries.len()
            invariant
                0 <= i <= self@.len(),
                entries@.len() == i,
                forall|k: int|
                    #![auto]
                    0 <= k < i ==> entries@[k].pattern@ == self@[k].pattern@
                        && entries@[k].replacement@ == self@[k].replacement@
                        && entries@[k].shard_id == self@[k].shard_id,
            decreases self@.len() - i,
        {
            entries.push(self.entries[i].clone());
            i = i + 1;
        }
        PackedModulesMapping { entries }
    }
}

/// Resolves a tensor name against a mapping: the first rule whose pattern is
/// a substring of the name yields the rewritten name and shard index.
pub fn find_packed_mapping(tensor_name: &[u8], mapping: &PackedModulesMapping) -> (r: Option<
    (Vec<u8>, usize),
>)
    ensures
        match r {
            Some(p) => resolve_spec(tensor_name@, mapping@) == Some((p.0@, p.1)),
            None => resolve_spec(tensor_name@, mapping@) is None,
        },
{
    let mut i: usize = 0;
    proof {
        assert(mapping@.skip(0) =~= mapping@);
    }
    while i < mapping.entries.len()
        invariant
            0 <= i <= mapping@.len(),
            resolve_spec(tensor_name@, mapping@) == resolve_spec(
                tensor_name@,
                mapping@.skip(i as int),
            ),
        decreases mapping@.len() - i,
    {
        proof {
            assert(mapping@.skip(i as int)[0] == mapping@[i as int]);
            assert(mapping@.skip(i as int).skip(1) =~= mapping@.skip(i + 1));
        }
        let entry = &mapping.entries[i];
        if contains_pattern(tensor_name, entry.pattern.as_slice()) {
            let rewritten = replace_all(
                tensor_name,
                entry.pattern.as_slice(),
                entry.replacement.as_slice(),
            );
            return Some((rewritten, entry.shard_id));
        }
        i = i + 1;
    }
    proof {
        assert(mapping@.skip(mapping@.len() as int) =~= Seq::<PackedEntry>::empty());
    }
    None
}

/// The abstract rules of an optional mapping.
pub open spec fn spec_mapping_of(mapping: Option<&PackedModulesMapping>) -> Option<
    Seq<PackedEntry>,
> {
    match mapping {
        Some(m) => Some(m@),
        None => None,
    }
}

/// What name resolution with fallback yields: the first matching rule's
/// rewritten name and shard index, or — with no mapping or no matching rule —
/// the name unchanged and no shard index.
pub open spec fn spec_resolve_target(name: Seq<u8>, mapping: Option<Seq<PackedEntry>>) -> (
    Seq<u8>,
    Option<usize>,
) {
    match mapping {
        Some(entries) => match resolve_spec(name, entries) {
            Some(p) => (p.0, Some(p.1)),
            None => (name, None),
        },
        None => (name, None),
    }
}

/// Resolves a tensor name to the model parameter it targets: through the
/// mapping's first matching rule if there is one, else unchanged with no
/// shard index.
pub fn resolve_target_name(tensor_name: &[u8], mapping: Option<&PackedModulesMapping>) -> (r: (
    Vec<u8>,
    Option<usize>,
))
    ensures
        ({
            let t = spec_resolve_target(tensor_name@, spec_mapping_of(mapping));
            r.0@ == t.0 && r.1 == t.1
        }),
{
    match mapping {
        Some(m) => match find_packed_mapping(tensor_name, m) {
            Some(p) => (p.0, Some(p.1)),
            None => (slice_to_vec(tensor_name), None),
        },
        None => (slice_to_vec(tensor_name), None),
    }
}

/// The capability a model offers the loader: receive one named weight at a
/// time, and optionally declare packed-module rules.
pub trait SafeTensorLoadable {
    /// The model's packed-module rules, if it has logically merged
    /// parameters stored as separate on-disk shards; none unless the model
    /// says otherwise.
    fn get_packed_modules_mapping(&self) -> (r: Option<&PackedModulesMapping>)
        default_ensures
            r is None,
    {
        None
    }

    /// Loads `weight` into the parameter named by the UTF-8 bytes of
    /// `name`; `shard_id` says which shard of a merged parameter the weight
    /// is. Returns `Ok(true)` if the parameter was found and loaded,
    /// `Ok(false)` if the model has no such parameter.
    fn load_weight(&mut self, name: &[u8], weight: candle_core::Tensor, shard_id: Option<usize>)
        -> (r: Result<bool, LoadError>);
}

#[verifier::external_type_specification]
#[verifier::external_body]
/// The runtime tensor type, opaque here: this core builds tensors and hands
/// them on, and never reads into one.
pub struct ExTensor(candle_core::Tensor);

#[verifier::external_type_specification]
#[verifier::external_body]
/// The runtime tensor library's error type, opaque here.
pub struct ExCandleError(candle_core::Error);

#[verifier::external_type_specification]
#[verifier::external_body]
/// One named tensor's view into a parsed container. Opaque; what it carries
/// is abstracted by [`view_dtype_of`], [`view_shape_of`] and
/// [`view_data_of`].
pub struct ExTensorView<'a>(safetensors::tensor::TensorView<'a>);

/// Whether the bytes are a well-formed tensor container: parsing is a
/// function of the bytes alone.
pub uninterp spec fn st_parses(data: Seq<u8>) -> bool;

/// What a well-formed container holds: for each contained tensor's name, its
/// declared element type, its dimensions and its raw bytes. A function of
/// the container bytes alone; unconstrained for bytes that do not parse.
pub uninterp spec fn st_content(data: Seq<u8>) -> Map<
    Seq<u8>,
    (StorageDtype, Seq<usize>, Seq<u8>),
>;

/// The declared element type a tensor view carries.
pub uninterp spec fn view_dtype_of(view: safetensors::tensor::TensorView) -> StorageDtype;

/// The dimensions a tensor view carries.
pub uninterp spec fn view_shape_of(view: safetensors::tensor::TensorView) -> Seq<usize>;

/// The raw bytes a tensor view carries.
pub uninterp spec fn view_data_of(view: safetensors::tensor::TensorView) -> Seq<u8>;

/// The element type of a runtime tensor built by this loader.
pub uninterp spec fn tensor_dtype_of(t: candle_core::Tensor) -> RuntimeDtype;

/// The dimensions of a runtime tensor built by this loader.
pub uninterp spec fn tensor_shape_of(t: candle_core::Tensor) -> Seq<usize>;

/// The raw element bytes of a runtime tensor built by this loader.
pub uninterp spec fn tensor_data_of(t: candle_core::Tensor) -> Seq<u8>;

/// Relies on safetensors::SafeTensors::deserialize and
/// safetensors::SafeTensors::tensors: parses a serialized container and
/// hands out every contained tensor as its name's UTF-8 bytes and its view,
/// in an order that follows a hash map's walk and is promised nowhere.
/// `None` exactly on a malformed container; on success each handed-out view
/// carries what the container stores under its name, and every stored name
/// is handed out.
#[verifier::external_body]
fn st_parse<'a>(data: &'a [u8]) -> (r: Option<
    Vec<(Vec<u8>, safetensors::tensor::TensorView<'a>)>,
>)
    ensures
        match r {
            Some(entries) => {
                &&& st_parses(data@)
                &&& forall|i: int|
                    #![auto]
                    0 <= i < entries@.len() ==> {
                        &&& st_content(data@).dom().contains(entries@[i].0@)
                        &&& view_dtype_of(entries@[i].1) == st_content(data@)[entries@[i].0@].0
                        &&& view_shape_of(entries@[i].1) == st_content(data@)[entries@[i].0@].1
                        &&& view_data_of(entries@[i].1) == st_content(data@)[entries@[i].0@].2
                    }
                &&& forall|name: Seq<u8>|
                    #![auto]
                    st_content(data@).dom().contains(name) ==> exists|i: int|
                        0 <= i < entries@.len() && entries@[i].0@ == name
            },
            None => !st_parses(data@),
        },
{
    match safetensors::SafeTensors::deserialize(data) {
        Ok(t) => Some(t.tensors().into_iter().map(|(n, v)| (n.into_bytes(), v)).collect()),
        Err(_) => None,
    }
}

/// Relies on safetensors::tensor::TensorView::dtype: the declared on-disk
/// element type of the viewed tensor, told apart one container variant per
/// arm; every variant outside the set this loader names becomes `Other`.
#[verifier::external_body]
fn view_storage_dtype(view: &safetensors::tensor::TensorView) -> (d: StorageDtype)
    ensures
        d == view_dtype_of(*view),
{
    match view.dtype() {
        safetensors::Dtype::BOOL => StorageDtype::Bool,
        safetensors::Dtype::U8 => StorageDtype::U8,
        safetensors::Dtype::I8 => StorageDtype::I8,
        safetensors::Dtype::F16 => StorageDtype::F16,
        safetensors::Dtype::BF16 => StorageDtype::Bf16,
        safetensors::Dtype::I32 => StorageDtype::I32,
        safetensors::Dtype::F32 => StorageDtype::F32,
        safetensors::Dtype::F64 => StorageDtype::F64,
        safetensors::Dtype::C64 => StorageDtype::C64,
        safetensors::Dtype::I64 => StorageDtype::I64,
        _ => StorageDtype::Other,
    }
}

/// Relies on safetensors::tensor::TensorView::shape: the stored dimensions
/// of the viewed tensor.
#[verifier::external_body]
fn view_shape(view: &safetensors::tensor::TensorView) -> (r: Vec<usize>)
    ensures
        r@ == view_shape_of(*view),
{
    view.shape().to_vec()
}

/// Relies on safetensors::tensor::TensorView::data: the viewed tensor's raw
/// bytes within the container buffer.
#[verifier::external_body]
fn view_data<'a>(view: &safetensors::tensor::TensorView<'a>) -> (r: &'a [u8])
    ensures
        r@ == view_data_of(*view),
{
    view.data()
}

/// Relies on candle_core::Tensor::from_raw_buffer: builds a dense CPU tensor
/// of the given element type and shape, reinterpreting exactly the given raw
/// little-endian bytes as its elements. The element byte sizes are candle's
/// (one for the byte type, two for the half and brain floats, four for the
/// 32-bit types, eight for the 64-bit integer). Admitted only when the bytes
/// fill the shape exactly and every trailing-dimension product fits a
/// machine word: the call then validates nothing further, computes only
/// in-bounds strides, and returns a tensor carrying those bytes, that shape
/// and that element type.
#[verifier::external_body]
fn tensor_from_raw(data: &[u8], dtype: RuntimeDtype, shape: &Vec<usize>) -> (r: Result<
    candle_core::Tensor,
    candle_core::Error,
>)
    requires
        spec_shape_fits(shape@, spec_dtype_size(dtype), data@.len() as int),
    ensures
        r is Ok,
        r matches Ok(t) ==> {
            &&& tensor_dtype_of(t) == dtype
            &&& tensor_shape_of(t) == shape@
            &&& tensor_data_of(t) == data@
        },
{
    let dt = match dtype {
        RuntimeDtype::U8 => candle_core::DType::U8,
        RuntimeDtype::U32 => candle_core::DType::U32,
        RuntimeDtype::I64 => candle_core::DType::I64,
        RuntimeDtype::Bf16 => candle_core::DType::BF16,
        RuntimeDtype::F16 => candle_core::DType::F16,
        RuntimeDtype::F32 => candle_core::DType::F32,
    };
    candle_core::Tensor::from_raw_buffer(data, dt, shape.as_slice(), &candle_core::Device::Cpu)
}

/// The tensor behind a view can be materialized: its element type is in the
/// supported set and its raw bytes fill its shape exactly.
pub open spec fn spec_view_loadable(view: safetensors::tensor::TensorView) -> bool {
    match spec_convert_dtype(view_dtype_of(view)) {
        Some(rt) => spec_shape_fits(
            view_shape_of(view),
            spec_dtype_size(rt),
            view_data_of(view).len() as int,
        ),
        None => false,
    }
}

/// The tensor stored under `name` in the container bytes can be
/// materialized: its element type is in the supported set and its raw bytes
/// fill its shape exactly.
pub open spec fn spec_tensor_loadable(data: Seq<u8>, name: Seq<u8>) -> bool {
    &&& st_content(data).dom().contains(name)
    &&& match spec_convert_dtype(st_content(data)[name].0) {
        Some(rt) => spec_shape_fits(
            st_content(data)[name].1,
            spec_dtype_size(rt),
            st_content(data)[name].2.len() as int,
        ),
        None => false,
    }
}

/// Builds the runtime tensor for one named on-disk tensor: the element type
/// goes through the fixed table, the byte length is checked against the
/// shape, and the raw bytes and shape go through the runtime tensor builder.
/// Succeeds exactly when the view's element type is supported and its bytes
/// fill its shape, and the built tensor carries the view's bytes, the view's
/// dimensions and the converted element type; the error names this tensor
/// and says which of the two checks failed.
#[verifier::loop_isolation(false)]
pub fn create_tensor(view: &safetensors::tensor::TensorView, tensor_name: &[u8]) -> (r: Result<
    candle_core::Tensor,
    LoadError,
>)
    ensures
        match r {
            Ok(t) => {
                &&& spec_view_loadable(*view)
                &&& spec_convert_dtype(view_dtype_of(*view)) == Some(tensor_dtype_of(t))
                &&& tensor_shape_of(t) == view_shape_of(*view)
                &&& tensor_data_of(t) == view_data_of(*view)
            },
            Err(e) => match e {
                LoadError::UnsupportedDtype { tensor_name: n } => {
                    &&& n@ == tensor_name@
                    &&& spec_convert_dtype(view_dtype_of(*view)) is None
                },
                LoadError::TensorCreate { tensor_name: n } => {
                    &&& n@ == tensor_name@
                    &&& spec_convert_dtype(view_dtype_of(*view)) is Some
                    &&& !spec_view_loadable(*view)
                },
                _ => false,
            },
        },
{
    let storage_dtype = view_storage_dtype(view);
    let dtype = match convert_dtype(storage_dtype, tensor_name) {
        Ok(d) => d,
        Err(e) => {
            return Err(e);
        },
    };
    let shape = view_shape(view);
    let data = view_data(view);
    let size = dtype_size(dtype);
    let data_len: usize = data.len();

    let mut count: usize = 1;
    let mut i: usize = shape.len();
    while i > 0
        invariant
            0 <= i <= shape@.len(),
            count == spec_suffix_elems(shape@, i as int),
            forall|k: int| #![auto] i <= k <= shape@.len() ==> spec_suffix_elems(shape@, k)
                <= usize::MAX,
        decreases i,
    {
        proof {
            assert(spec_suffix_elems(shape@, i - 1) == shape@[i - 1] * spec_suffix_elems(
                shape@,
                i as int,
            ));
        }
        match count.checked_mul(shape[i - 1]) {
            Some(c) => {
                count = c;
                i = i - 1;
            },
            None => {
                proof {
                    assert(spec_suffix_elems(shape@, i - 1) > usize::MAX);
                }
                return Err(LoadError::TensorCreate { tensor_name: slice_to_vec(tensor_name) });
            },
        }
    }
    match count.checked_mul(size) {
        Some(total) => {
            if total == data_len {
                match tensor_from_raw(data, dtype, &shape) {
                    Ok(t) => Ok(t),
                    Err(_) => Err(
                        LoadError::TensorCreate { tensor_name: slice_to_vec(tensor_name) },
                    ),
                }
            } else {
                Err(LoadError::TensorCreate { tensor_name: slice_to_vec(tensor_name) })
            }
        },
        None => {
            proof {
                assert(spec_elem_count(shape@) * spec_dtype_size(dtype) > usize::MAX);
            }
            Err(LoadError::TensorCreate { tensor_name: slice_to_vec(tensor_name) })
        },
    }
}

/// The loader's fixed policy on the model's answer for one resolved
/// parameter: a loaded parameter passes silently, a missing parameter only
/// appends a warning naming it — it never aborts the load — and a model
/// failure aborts, naming the parameter.
pub fn apply_weight_result(
    result: Result<bool, LoadError>,
    param_name: &[u8],
    warnings: &mut Vec<Vec<u8>>,
) -> (r: Result<(), LoadError>)
    ensures
        match result {
            Ok(found) => {
                &&& r is Ok
                &&& if found {
                    final(warnings)@ == old(warnings)@
                } else {
                    &&& final(warnings)@.len() == old(warnings)@.len() + 1
                    &&& (forall|k: int|
                        #![auto]
                        0 <= k < old(warnings)@.len() ==> final(warnings)@[k] == old(warnings)@[k])
                    &&& final(warnings)@.last()@ == param_name@
                }
            },
            Err(_) => {
                &&& r matches Err(LoadError::WeightLoad { param_name: p }) && p@ == param_name@
                &&& final(warnings)@ == old(warnings)@
            },
        },
{
    match result {
        Ok(true) => Ok(()),
        Ok(false) => {
            warnings.push(slice_to_vec(param_name));
            Ok(())
        },
        Err(_) => Err(LoadError::WeightLoad { param_name: slice_to_vec(param_name) }),
    }
}

/// `w` is the resolved target name of some tensor stored in the container
/// bytes, under the given rules.
pub open spec fn spec_resolved_param(
    data: Seq<u8>,
    mapping: Option<Seq<PackedEntry>>,
    w: Seq<u8>,
) -> bool {
    exists|name: Seq<u8>|
        #![trigger st_content(data).dom().contains(name)]
        st_content(data).dom().contains(name) && w == spec_resolve_target(name, mapping).0
}

/// Loads every named tensor of one serialized container into the model,
/// resolving names through the given packed-module rules. Returns the
/// resolved parameter names the model did not know, for the caller to warn
/// about — a missing destination parameter does not abort the load. A
/// malformed container (if and only if the bytes do not parse), an
/// unsupported element type or an unbuildable tensor aborts the whole load
/// naming the offending tensor; a model failure aborts it naming the
/// resolved parameter. On success, every contained tensor was materializable.
#[verifier::loop_isolation(false)]
pub fn load_shard_with<M: SafeTensorLoadable>(
    model: &mut M,
    mapping: Option<&PackedModulesMapping>,
    data: &[u8],
) -> (r: Result<Vec<Vec<u8>>, LoadError>)
    ensures
        (r matches Err(LoadError::MalformedContainer)) <==> !st_parses(data@),
        r matches Err(LoadError::UnsupportedDtype { tensor_name }) ==> {
            &&& st_content(data@).dom().contains(tensor_name@)
            &&& spec_convert_dtype(st_content(data@)[tensor_name@].0) is None
        },
        r matches Err(LoadError::TensorCreate { tensor_name }) ==> {
            &&& st_content(data@).dom().contains(tensor_name@)
            &&& spec_convert_dtype(st_content(data@)[tensor_name@].0) is Some
            &&& !spec_tensor_loadable(data@, tensor_name@)
        },
        r matches Err(LoadError::WeightLoad { param_name }) ==> spec_resolved_param(
            data@,
            spec_mapping_of(mapping),
            param_name@,
        ),
        r matches Ok(warnings) ==> {
            &&& st_parses(data@)
            &&& forall|k: int|
                #![trigger warnings@[k]]
                0 <= k < warnings@.len() ==> spec_resolved_param(
                    data@,
                    spec_mapping_of(mapping),
                    warnings@[k]@,
                )
            &&& forall|name: Seq<u8>| #![auto]
                st_content(data@).dom().contains(name) ==> spec_tensor_loadable(data@, name)
        },
{
    let named = match st_parse(data) {
        Some(entries) => entries,
        None => {
            return Err(LoadError::MalformedContainer);
        },
    };
    let mut resolved: Vec<(Vec<u8>, Option<usize>)> = Vec::new();
    let mut i: usize = 0;
    while i < named.len()
        invariant
            0 <= i <= named@.len(),
            resolved@.len() == i,
            forall|k: int|
                #![auto]
                0 <= k < i ==> resolved@[k].0@ == spec_resolve_target(
                    named@[k].0@,
                    spec_mapping_of(mapping),
                ).0 && resolved@[k].1 == spec_resolve_target(
                    named@[k].0@,
                    spec_mapping_of(mapping),
                ).1,
        decreases named@.len() - i,
    {
        let pair = &named[i];
        resolved.push(resolve_target_name(pair.0.as_slice(), mapping));
        i = i + 1;
    }
    let mut warnings: Vec<Vec<u8>> = Vec::new();
    let mut j: usize = 0;
    while j < named.len()
        invariant
            0 <= j <= named@.len(),
            forall|k: int|
                #![trigger warnings@[k]]
                0 <= k < warnings@.len() ==> spec_resolved_param(
                    data@,
                    spec_mapping_of(mapping),
                    warnings@[k]@,
                ),
            forall|k: int| #![auto] 0 <= k < j ==> spec_tensor_loadable(data@, named@[k].0@),
        decreases named@.len() - j,
    {
        let pair = &named[j];
        let tensor = match create_tensor(&pair.1, pair.0.as_slice()) {
            Ok(t) => t,
            Err(e) => {
                return Err(e);
            },
        };
        let target = &resolved[j];
        proof {
            assert(st_content(data@).dom().contains(named@[j as int].0@));
            assert(spec_resolved_param(data@, spec_mapping_of(mapping), resolved@[j as int].0@));
        }
        let answer = model.load_weight(target.0.as_slice(), tensor, target.1);
        match apply_weight_result(answer, target.0.as_slice(), &mut warnings) {
            Ok(_) => {},
            Err(e) => {
                return Err(e);
            },
        }
        j = j + 1;
    }
    proof {
        assert forall|name: Seq<u8>| #![auto]
            st_content(data@).dom().contains(name) implies spec_tensor_loadable(data@, name) by {
            assert(exists|k: int| 0 <= k < named@.len() && named@[k].0@ == name);
            let k = choose|k: int| 0 <= k < named@.len() && named@[k].0@ == name;
            assert(spec_tensor_loadable(data@, named@[k].0@));
        }
    }
    Ok(warnings)
}

/// Loads every named tensor of one serialized container (the raw bytes of
/// one shard file) into the model, resolving names through the model's own
/// packed-module rules; see [`load_shard_with`], which this calls with a
/// copy of those rules and which also pins the returned warning names to the
/// rules' resolution.
pub fn load_shard<M: SafeTensorLoadable>(model: &mut M, data: &[u8]) -> (r: Result<
    Vec<Vec<u8>>,
    LoadError,
>)
    ensures
        (r matches Err(LoadError::MalformedContainer)) <==> !st_parses(data@),
        r matches Err(LoadError::UnsupportedDtype { tensor_name }) ==> {
            &&& st_content(data@).dom().contains(tensor_name@)
            &&& spec_convert_dtype(st_content(data@)[tensor_name@].0) is None
        },
        r matches Err(LoadError::TensorCreate { tensor_name }) ==> {
            &&& st_content(data@).dom().contains(tensor_name@)
            &&& spec_convert_dtype(st_content(data@)[tensor_name@].0) is Some
            &&& !spec_tensor_loadable(data@, tensor_name@)
        },
        r matches Ok(warnings) ==> {
            &&& st_parses(data@)
            &&& forall|name: Seq<u8>| #![auto]
                st_content(data@).dom().contains(name) ==> spec_tensor_loadable(data@, name)
        },
{
    let mapping_copy: Option<PackedModulesMapping> = match model.get_packed_modules_mapping() {
        Some(m) => Some(m.clone()),
        None => None,
    };
    let mapping_ref: Option<&PackedModulesMapping> = match &mapping_copy {
        Some(m) => Some(m),
        None => None,
    };
    load_shard_with(model, mapping_ref, data)
}

} // verus!
