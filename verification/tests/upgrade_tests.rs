use soroban_debugger::inspector::budget::BudgetInfo;
use soroban_debugger::upgrade::{
    classify, compare, exports_entry, exports_name, select, Compatibility, Difference,
    ExportedFunction, ProbeOutcome,
};

fn export(name: &str, signature: &str) -> ExportedFunction {
    ExportedFunction { name: name.to_string(), signature: signature.to_string() }
}

fn outcome(result: &str, cpu: u64, mem: u64) -> ProbeOutcome {
    ProbeOutcome {
        result: result.to_string(),
        budget: BudgetInfo {
            cpu_instructions: cpu,
            cpu_limit: 100_000,
            memory_bytes: mem,
            memory_limit: 40_000,
        },
    }
}

#[test]
fn test_removed_export_is_incompatible() {
    let old = vec![export("transfer", "(i128)"), export("balance", "()")];
    let new = vec![export("transfer", "(i128)")];
    let report = compare(&old, &new, None);
    assert_eq!(report.classification, Compatibility::Incompatible);
    assert_eq!(report.removed, vec!["balance".to_string()]);
    assert!(report.added.is_empty());
    assert!(report.changed.is_empty());
    assert!(report.probe.is_none());
}

#[test]
fn test_removed_export_is_incompatible_even_with_agreeing_probe() {
    let old = vec![export("transfer", "(i128)"), export("balance", "()")];
    let new = vec![export("transfer", "(i128)")];
    let probe = Some((outcome("Ok(1)", 10, 10), outcome("Ok(1)", 10, 10)));
    let report = compare(&old, &new, probe);
    assert_eq!(report.classification, Compatibility::Incompatible);
    assert_eq!(report.removed, vec!["balance".to_string()]);
}

#[test]
fn test_static_diff_alone_is_unknown() {
    let old = vec![export("transfer", "(i128)")];
    let new = vec![export("transfer", "(i128)"), export("mint", "(i128)")];
    let report = compare(&old, &new, None);
    assert_eq!(report.classification, Compatibility::Unknown);
    assert_eq!(report.added, vec!["mint".to_string()]);
    assert!(report.removed.is_empty());
    assert!(report.changed.is_empty());
}

#[test]
fn test_agreeing_probe_is_compatible() {
    let old = vec![export("transfer", "(i128)")];
    let new = vec![export("mint", "(i128)"), export("transfer", "(i128)")];
    let probe = Some((outcome("Ok(5)", 1000, 300), outcome("Ok(5)", 1200, 250)));
    let report = compare(&old, &new, probe);
    assert_eq!(report.classification, Compatibility::Compatible);
    assert_eq!(report.added, vec!["mint".to_string()]);
    let probe = report.probe.unwrap();
    assert_eq!(probe.old_result, "Ok(5)");
    assert_eq!(probe.new_result, "Ok(5)");
    assert_eq!(probe.cpu_delta, 200);
    assert_eq!(probe.memory_delta, -50);
}

#[test]
fn test_disagreeing_probe_is_incompatible() {
    let old = vec![export("transfer", "(i128)")];
    let new = vec![export("transfer", "(i128)")];
    let probe = Some((outcome("Ok(5)", 1000, 300), outcome("Ok(6)", 1000, 300)));
    let report = compare(&old, &new, probe);
    assert_eq!(report.classification, Compatibility::Incompatible);
    assert!(report.added.is_empty());
    assert!(report.removed.is_empty());
    assert!(report.changed.is_empty());
    let probe = report.probe.unwrap();
    assert_eq!(probe.old_result, "Ok(5)");
    assert_eq!(probe.new_result, "Ok(6)");
    assert_eq!(probe.cpu_delta, 0);
}

#[test]
fn test_changed_signature_is_incompatible() {
    let old = vec![export("transfer", "(i128)"), export("balance", "()")];
    let new = vec![export("balance", "()"), export("transfer", "(i128, bool)")];
    let report = compare(&old, &new, None);
    assert_eq!(report.classification, Compatibility::Incompatible);
    assert_eq!(report.changed, vec!["transfer".to_string()]);
    assert!(report.added.is_empty());
    assert!(report.removed.is_empty());
}

#[test]
fn test_budget_deltas_cover_the_whole_range() {
    let probe = Some((outcome("x", u64::MAX, 0), outcome("x", 0, u64::MAX)));
    let report = compare(&Vec::new(), &Vec::new(), probe);
    assert_eq!(report.classification, Compatibility::Compatible);
    let probe = report.probe.unwrap();
    assert_eq!(probe.cpu_delta, -(u64::MAX as i128));
    assert_eq!(probe.memory_delta, u64::MAX as i128);
}

#[test]
fn test_classify_orders_its_classes() {
    assert_eq!(classify(0, 0, None), Compatibility::Unknown);
    assert_eq!(classify(0, 0, Some(true)), Compatibility::Compatible);
    assert_eq!(classify(0, 0, Some(false)), Compatibility::Incompatible);
    assert_eq!(classify(1, 0, None), Compatibility::Incompatible);
    assert_eq!(classify(0, 1, None), Compatibility::Incompatible);
    assert_eq!(classify(2, 0, Some(true)), Compatibility::Incompatible);
    assert_eq!(classify(0, 3, Some(true)), Compatibility::Incompatible);
}

#[test]
fn test_select_keeps_source_order() {
    let source = vec![export("c", "1"), export("a", "1"), export("b", "1"), export("d", "1")];
    let other = vec![export("a", "2"), export("d", "1")];
    assert_eq!(
        select(&source, &other, Difference::Missing),
        vec!["c".to_string(), "b".to_string()]
    );
    assert_eq!(select(&source, &other, Difference::Changed), vec!["a".to_string()]);
}

#[test]
fn test_export_lookup() {
    let exports = vec![export("transfer", "(i128)"), export("balance", "()")];
    assert!(exports_name(&exports, &"balance".to_string()));
    assert!(!exports_name(&exports, &"mint".to_string()));
    assert!(exports_entry(&exports, &export("balance", "()")));
    assert!(!exports_entry(&exports, &export("balance", "(i128)")));
    assert!(!exports_entry(&exports, &export("mint", "()")));
}
