use evm_backend::traits::{Function, TestFunctionExt};

#[test]
fn test_skipped() {
    assert!("skiptest".is_test_skipped());
    assert!("skipTest".is_test_skipped());
    assert!(!"skip".is_test_skipped());
    assert!(!"skipF".is_test_skipped());
}

#[test]
fn test_names_are_recognised() {
    assert!("testTransfer".is_test());
    assert!(!"setUp".is_test());
    assert!("testFailTransfer".is_test_fail());
    assert!(!"testTransfer".is_test_fail());
    assert!("invariantBalance".is_invariant_test());
    assert!(!"testInvariant".is_invariant_test());
}

#[test]
fn setup_is_matched_without_regard_to_case() {
    assert!("setUp".is_setup());
    assert!("setup".is_setup());
    assert!("SETUP".is_setup());
    assert!(!"setUpAll".is_setup());
    assert!(!"set".is_setup());
}

#[test]
fn string_names_behave_as_str_names() {
    let name = String::from("skipTestLater");
    assert!(name.is_test_skipped());
    assert!(!name.is_test());
    assert!(String::from("testFail_x").is_test_fail());
}

#[test]
fn functions_with_inputs_are_fuzz_tests() {
    let f = Function { name: String::from("testFuzz"), inputs: vec![String::from("uint256")] };
    assert!(f.is_fuzz_test());
    assert!(f.is_test());
    let g = Function { name: String::from("testPlain"), inputs: vec![] };
    assert!(!g.is_fuzz_test());
    let s = Function { name: String::from("setUp"), inputs: vec![] };
    assert!(s.is_setup());
}
