use evm_backend::config::RootPath;
use evm_backend::coverage::CoverageCollector;
use evm_backend::env::SpecId;
use evm_backend::outcome::{InstructionResult, RawCallResult};
use evm_backend::types::B256;

#[test]
fn coverage_counts_hits_per_code_body() {
    let mut c = CoverageCollector::new();
    let h = B256::new(0, 1);
    c.step(h, 0);
    assert!(c.maps.get(&h).is_none());
    c.initialize_interp(h, &[0x60, 0x01, 0x00]);
    c.step(h, 0);
    c.step(h, 2);
    c.step(h, 0);
    let map = c.maps.get(&h).unwrap();
    assert_eq!(map.bytecode, vec![0x60, 0x01, 0x00]);
    assert_eq!(map.hits.get(&0), Some(&2));
    assert_eq!(map.hits.get(&2), Some(&1));
    assert_eq!(map.hits.get(&1), None);
}

#[test]
fn coverage_keeps_the_first_code_of_a_hash() {
    let mut c = CoverageCollector::new();
    let h = B256::new(0, 2);
    c.initialize_interp(h, &[1]);
    c.step(h, 0);
    c.initialize_interp(h, &[2]);
    let map = c.maps.get(&h).unwrap();
    assert_eq!(map.bytecode, vec![1]);
    assert_eq!(map.hits.get(&0), Some(&1));
}

#[test]
fn root_path_defaults_to_current_dir() {
    assert_eq!(RootPath::default().0, ".");
    assert_eq!(RootPath::new(String::from("/tmp/x")).0, "/tmp/x");
}

#[test]
fn default_raw_call_result_reports_nothing() {
    let r = RawCallResult::default();
    assert_eq!(r.exit_reason, InstructionResult::Continue);
    assert!(!r.reverted);
    assert!(r.result.is_empty());
    assert_eq!(r.gas_used, 0);
    assert!(r.state_changeset.is_none());
    assert_eq!(r.env.cfg.spec_id, SpecId::Latest);
}
