use interoperability_tests_sv2::scenarios::ScenarioError;

#[test]
fn scenario_errors_keep_their_reason() {
    let from_str: ScenarioError = "endpoint closed the connection".into();
    assert_eq!(from_str.to_string(), "endpoint closed the connection");
    let from_string = ScenarioError::from(format!("timeout after {} ms", 10_000));
    assert_eq!(from_string.to_string(), "timeout after 10000 ms");
    assert_eq!(ScenarioError("x".to_string()).0, "x");
}
