use nano_vllm_core::loader::{
    apply_weight_result, convert_dtype, find_packed_mapping, load_shard, resolve_target_name,
    LoadError, PackedEntry, PackedModulesMapping, RuntimeDtype, SafeTensorLoadable, StorageDtype,
};
use safetensors::tensor::TensorView;
use safetensors::Dtype;

fn qkv_mapping() -> PackedModulesMapping {
    let mut mapping = PackedModulesMapping::new();
    mapping.insert(b"q_proj".to_vec(), b"qkv_proj".to_vec(), 0);
    mapping.insert(b"k_proj".to_vec(), b"qkv_proj".to_vec(), 1);
    mapping
}

#[test]
fn packed_patterns_resolve_to_merged_parameter_and_shard() {
    let mapping = qkv_mapping();
    let q = find_packed_mapping(b"layer0.q_proj.weight", &mapping);
    assert_eq!(q, Some((b"layer0.qkv_proj.weight".to_vec(), 0)));
    let k = find_packed_mapping(b"layer0.k_proj.weight", &mapping);
    assert_eq!(k, Some((b"layer0.qkv_proj.weight".to_vec(), 1)));
    let other = find_packed_mapping(b"layer0.o_proj.weight", &mapping);
    assert_eq!(other, None);
}

#[test]
fn unmatched_names_pass_through_unchanged() {
    let mapping = qkv_mapping();
    let (name, shard) = resolve_target_name(b"model.embed_tokens.weight", Some(&mapping));
    assert_eq!(name, b"model.embed_tokens.weight".to_vec());
    assert_eq!(shard, None);
    let (name, shard) = resolve_target_name(b"layer0.k_proj.weight", Some(&mapping));
    assert_eq!(name, b"layer0.qkv_proj.weight".to_vec());
    assert_eq!(shard, Some(1));
    let (name, shard) = resolve_target_name(b"layer0.k_proj.weight", None);
    assert_eq!(name, b"layer0.k_proj.weight".to_vec());
    assert_eq!(shard, None);
}

#[test]
fn replacement_rewrites_every_occurrence() {
    let mut mapping = PackedModulesMapping::new();
    mapping.insert(b"ab".to_vec(), b"X".to_vec(), 3);
    let r = find_packed_mapping(b"ab.mid.ab", &mapping);
    assert_eq!(r, Some((b"X.mid.X".to_vec(), 3)));
}

#[test]
fn first_declared_rule_wins_on_overlap() {
    let mut mapping = PackedModulesMapping::new();
    mapping.insert(b"proj".to_vec(), b"first".to_vec(), 0);
    mapping.insert(b"q_proj".to_vec(), b"second".to_vec(), 1);
    let r = find_packed_mapping(b"layer0.q_proj.weight", &mapping);
    assert_eq!(r, Some((b"layer0.q_first.weight".to_vec(), 0)));
}

#[test]
fn dtype_table_matches_the_documented_mapping() {
    let name = b"t".as_slice();
    assert_eq!(convert_dtype(StorageDtype::F32, name), Ok(RuntimeDtype::F32));
    assert_eq!(convert_dtype(StorageDtype::F16, name), Ok(RuntimeDtype::F16));
    assert_eq!(
        convert_dtype(StorageDtype::Bf16, name),
        Ok(RuntimeDtype::Bf16)
    );
    assert_eq!(convert_dtype(StorageDtype::I64, name), Ok(RuntimeDtype::I64));
    assert_eq!(convert_dtype(StorageDtype::I32, name), Ok(RuntimeDtype::U32));
    assert_eq!(convert_dtype(StorageDtype::U8, name), Ok(RuntimeDtype::U8));
    assert_eq!(convert_dtype(StorageDtype::I8, name), Ok(RuntimeDtype::U8));
    assert_eq!(convert_dtype(StorageDtype::Bool, name), Ok(RuntimeDtype::U8));
    assert_eq!(
        convert_dtype(StorageDtype::F64, b"dbl"),
        Err(LoadError::UnsupportedDtype {
            tensor_name: b"dbl".to_vec()
        })
    );
    assert_eq!(
        convert_dtype(StorageDtype::C64, b"cpx"),
        Err(LoadError::UnsupportedDtype {
            tensor_name: b"cpx".to_vec()
        })
    );
    assert_eq!(
        convert_dtype(StorageDtype::Other, b"o"),
        Err(LoadError::UnsupportedDtype {
            tensor_name: b"o".to_vec()
        })
    );
}

/// A model stub that records every weight it is handed.
struct StubModel {
    mapping: Option<PackedModulesMapping>,
    known: Vec<Vec<u8>>,
    loaded: Vec<(Vec<u8>, Option<usize>, Vec<usize>, candle_core::DType)>,
}

impl SafeTensorLoadable for StubModel {
    fn get_packed_modules_mapping(&self) -> Option<&PackedModulesMapping> {
        self.mapping.as_ref()
    }

    fn load_weight(
        &mut self,
        name: &[u8],
        weight: candle_core::Tensor,
        shard_id: Option<usize>,
    ) -> Result<bool, LoadError> {
        if self.known.iter().any(|k| k.as_slice() == name) {
            self.loaded
                .push((name.to_vec(), shard_id, weight.dims().to_vec(), weight.dtype()));
            Ok(true)
        } else {
            Ok(false)
        }
    }
}

fn shard_bytes(tensors: Vec<(&str, Dtype, Vec<usize>, Vec<u8>)>) -> Vec<u8> {
    let views: Vec<(String, TensorView)> = tensors
        .iter()
        .map(|(name, dtype, shape, data)| {
            (
                name.to_string(),
                TensorView::new(*dtype, shape.clone(), data).unwrap(),
            )
        })
        .collect();
    safetensors::serialize(views, None).unwrap()
}

#[test]
fn load_resolves_shards_and_converts_types() {
    let data = shard_bytes(vec![
        (
            "layer0.q_proj.weight",
            Dtype::F32,
            vec![2, 2],
            vec![0u8; 16],
        ),
        (
            "layer0.k_proj.weight",
            Dtype::F32,
            vec![2, 2],
            vec![0u8; 16],
        ),
        ("layer0.counts", Dtype::I32, vec![3], vec![0u8; 12]),
    ]);
    let mut model = StubModel {
        mapping: Some(qkv_mapping()),
        known: vec![b"layer0.qkv_proj.weight".to_vec(), b"layer0.counts".to_vec()],
        loaded: Vec::new(),
    };
    let warnings = load_shard(&mut model, &data).unwrap();
    assert!(warnings.is_empty());
    assert_eq!(model.loaded.len(), 3);
    let q = model
        .loaded
        .iter()
        .find(|(_, shard, _, _)| *shard == Some(0))
        .unwrap();
    assert_eq!(q.0, b"layer0.qkv_proj.weight".to_vec());
    assert_eq!(q.2, vec![2, 2]);
    assert_eq!(q.3, candle_core::DType::F32);
    let k = model
        .loaded
        .iter()
        .find(|(_, shard, _, _)| *shard == Some(1))
        .unwrap();
    assert_eq!(k.0, b"layer0.qkv_proj.weight".to_vec());
    let counts = model
        .loaded
        .iter()
        .find(|(name, _, _, _)| name == &b"layer0.counts".to_vec())
        .unwrap();
    assert_eq!(counts.1, None);
    assert_eq!(counts.3, candle_core::DType::U32);
}

#[test]
fn unsupported_dtype_aborts_the_whole_load_naming_the_tensor() {
    let data = shard_bytes(vec![(
        "layer0.complex.weight",
        Dtype::C64,
        vec![1],
        vec![0u8; 8],
    )]);
    let mut model = StubModel {
        mapping: None,
        known: vec![b"layer0.complex.weight".to_vec()],
        loaded: Vec::new(),
    };
    let r = load_shard(&mut model, &data);
    assert_eq!(
        r,
        Err(LoadError::UnsupportedDtype {
            tensor_name: b"layer0.complex.weight".to_vec()
        })
    );
    assert!(model.loaded.is_empty());
}

#[test]
fn missing_parameter_warns_and_the_load_succeeds() {
    let data = shard_bytes(vec![(
        "layer0.k_proj.weight",
        Dtype::F32,
        vec![2],
        vec![0u8; 8],
    )]);
    let mut model = StubModel {
        mapping: Some(qkv_mapping()),
        known: Vec::new(),
        loaded: Vec::new(),
    };
    let warnings = load_shard(&mut model, &data).unwrap();
    assert_eq!(warnings, vec![b"layer0.qkv_proj.weight".to_vec()]);
    assert!(model.loaded.is_empty());
}

#[test]
fn malformed_container_aborts_the_load() {
    let mut model = StubModel {
        mapping: None,
        known: Vec::new(),
        loaded: Vec::new(),
    };
    let r = load_shard(&mut model, b"not a container");
    assert_eq!(r, Err(LoadError::MalformedContainer));
}

/// A model stub that fails on every weight; it leaves
/// `get_packed_modules_mapping` to its default of no rules.
struct FailingModel;

impl SafeTensorLoadable for FailingModel {
    fn load_weight(
        &mut self,
        _name: &[u8],
        _weight: candle_core::Tensor,
        _shard_id: Option<usize>,
    ) -> Result<bool, LoadError> {
        Err(LoadError::WeightLoad {
            param_name: b"x".to_vec(),
        })
    }
}

#[test]
fn model_failure_is_reported_as_a_weight_load_error() {
    let data = shard_bytes(vec![("w", Dtype::U8, vec![2], vec![1u8, 2u8])]);
    let mut model = FailingModel;
    let r = load_shard(&mut model, &data);
    assert_eq!(
        r,
        Err(LoadError::WeightLoad {
            param_name: b"w".to_vec()
        })
    );
}

#[test]
fn entries_keep_declaration_order() {
    let mapping = qkv_mapping();
    assert_eq!(mapping.entries.len(), 2);
    let PackedEntry {
        pattern,
        replacement,
        shard_id,
    } = &mapping.entries[0];
    assert_eq!(pattern, &b"q_proj".to_vec());
    assert_eq!(replacement, &b"qkv_proj".to_vec());
    assert_eq!(*shard_id, 0);
}

/// A model stub that records the raw element bytes of the one weight it is
/// handed.
struct ByteModel {
    bytes: Vec<u8>,
}

impl SafeTensorLoadable for ByteModel {
    fn load_weight(
        &mut self,
        _name: &[u8],
        weight: candle_core::Tensor,
        _shard_id: Option<usize>,
    ) -> Result<bool, LoadError> {
        self.bytes = weight.to_vec1::<u8>().unwrap();
        Ok(true)
    }
}

#[test]
fn loaded_tensor_carries_the_stored_bytes() {
    let data = shard_bytes(vec![("w", Dtype::U8, vec![4], vec![9, 8, 7, 6])]);
    let mut model = ByteModel { bytes: Vec::new() };
    let warnings = load_shard(&mut model, &data).unwrap();
    assert!(warnings.is_empty());
    assert_eq!(model.bytes, vec![9, 8, 7, 6]);
}

#[test]
fn weight_result_policy_warns_but_never_aborts_on_missing() {
    let mut warnings: Vec<Vec<u8>> = Vec::new();
    let r = apply_weight_result(Ok(true), b"layer0.qkv_proj.weight", &mut warnings);
    assert_eq!(r, Ok(()));
    assert!(warnings.is_empty());

    let r = apply_weight_result(Ok(false), b"layer0.qkv_proj.weight", &mut warnings);
    assert_eq!(r, Ok(()));
    assert_eq!(warnings, vec![b"layer0.qkv_proj.weight".to_vec()]);

    let r = apply_weight_result(
        Err(LoadError::WeightLoad {
            param_name: b"inner".to_vec(),
        }),
        b"layer0.out_proj.weight",
        &mut warnings,
    );
    assert_eq!(
        r,
        Err(LoadError::WeightLoad {
            param_name: b"layer0.out_proj.weight".to_vec()
        })
    );
    assert_eq!(warnings, vec![b"layer0.qkv_proj.weight".to_vec()]);
}
