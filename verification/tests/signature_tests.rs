use wasm_plugin::sig::{derive_sig, host_kind, kinds_eq, sig_eq, FuncSig};
use wasm_plugin::value::{check_args, value_kind};
use wasm_plugin::{check_signature, HostType, HostValue, PluginError, ValueKind};

#[test]
fn host_kind_table_is_exact() {
    assert_eq!(host_kind(HostType::Int32), ValueKind::I32);
    assert_eq!(host_kind(HostType::Int64), ValueKind::I64);
}

#[test]
fn value_kinds_follow_the_same_table() {
    assert_eq!(value_kind(&HostValue::I32(0)), ValueKind::I32);
    assert_eq!(value_kind(&HostValue::I64(0)), ValueKind::I64);
}

#[test]
fn derived_signature_is_ordered_and_elementwise() {
    let s = derive_sig(&[HostType::Int32, HostType::Int64], &[HostType::Int64]);
    assert_eq!(s.params, vec![ValueKind::I32, ValueKind::I64]);
    assert_eq!(s.results, vec![ValueKind::I64]);

    let empty = derive_sig(&[], &[]);
    assert_eq!(empty.params, Vec::<ValueKind>::new());
    assert_eq!(empty.results, Vec::<ValueKind>::new());
}

#[test]
fn signature_equality_is_structural_and_ordered() {
    let a = derive_sig(&[HostType::Int32, HostType::Int64], &[HostType::Int32]);
    let b = derive_sig(&[HostType::Int32, HostType::Int64], &[HostType::Int32]);
    let swapped = derive_sig(&[HostType::Int64, HostType::Int32], &[HostType::Int32]);
    let shorter = derive_sig(&[HostType::Int32], &[HostType::Int32]);
    assert!(sig_eq(&a, &b));
    assert!(!sig_eq(&a, &swapped));
    assert!(!sig_eq(&a, &shorter));

    assert!(kinds_eq(&vec![ValueKind::F32, ValueKind::F64], &vec![ValueKind::F32, ValueKind::F64]));
    assert!(!kinds_eq(&vec![ValueKind::F32], &vec![ValueKind::F64]));
}

#[test]
fn check_signature_accepts_exactly_equal_signatures() {
    let actual = derive_sig(&[HostType::Int32], &[HostType::Int64]);
    let expected = derive_sig(&[HostType::Int32], &[HostType::Int64]);
    let verified = check_signature(actual, expected).unwrap();
    assert_eq!(verified.params, vec![ValueKind::I32]);
    assert_eq!(verified.results, vec![ValueKind::I64]);

    let actual = derive_sig(&[HostType::Int32], &[HostType::Int64]);
    let other = derive_sig(&[HostType::Int64], &[HostType::Int64]);
    match check_signature(actual, other) {
        Err(PluginError::TypeMismatch { actual, expected }) => {
            assert_eq!(actual.params, vec![ValueKind::I32]);
            assert_eq!(expected.params, vec![ValueKind::I64]);
            assert_eq!(actual.results, expected.results);
        }
        _ => panic!("expected a type mismatch"),
    }
}

#[test]
fn cloned_signature_is_the_same_signature() {
    let s = derive_sig(&[HostType::Int64, HostType::Int32], &[HostType::Int32]);
    let c = s.clone();
    assert!(sig_eq(&s, &c));
    assert_eq!(c.params, vec![ValueKind::I64, ValueKind::I32]);
}

#[test]
fn argument_lists_fit_only_their_own_parameter_kinds() {
    let params = vec![ValueKind::I32, ValueKind::I64];
    assert!(check_args(&vec![HostValue::I32(1), HostValue::I64(2)], &params));
    assert!(!check_args(&vec![HostValue::I64(2), HostValue::I32(1)], &params));
    assert!(!check_args(&vec![HostValue::I32(1)], &params));
    assert!(check_args(&vec![], &vec![]));
    // No host value fits a floating-point parameter slot.
    assert!(!check_args(&vec![HostValue::I32(1)], &vec![ValueKind::F32]));
}

#[test]
fn mismatch_error_preserves_engine_only_kinds() {
    let actual = FuncSig { params: vec![ValueKind::F64], results: vec![ValueKind::V128] };
    let expected = derive_sig(&[HostType::Int32], &[HostType::Int32]);
    match check_signature(actual, expected) {
        Err(PluginError::TypeMismatch { actual, expected }) => {
            assert_eq!(actual.params, vec![ValueKind::F64]);
            assert_eq!(actual.results, vec![ValueKind::V128]);
            assert_eq!(expected.params, vec![ValueKind::I32]);
        }
        _ => panic!("expected a type mismatch"),
    }
}
