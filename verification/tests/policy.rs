use linkerd_support::policy::Policy;

#[test]
fn a_rule_without_a_policy_is_unexpected() {
    assert_eq!(Policy::default(), Policy::Unexpected);
    assert_ne!(Policy::default(), Policy::Expected);
}
