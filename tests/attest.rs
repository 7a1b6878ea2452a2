use private_pass::attest::{eligibility_attestation, generate_eligibility_proof, push_decimal, push_signed_decimal};

#[test]
fn test_eligibility_proof() {
    let (eligible, proof) = generate_eligibility_proof(100, 50).unwrap();
    assert!(eligible);
    assert!(proof.contains("eligible"));

    let (not_eligible, proof2) = generate_eligibility_proof(30, 50).unwrap();
    assert!(!not_eligible);
    assert!(proof2.contains("ineligible"));
}

#[test]
fn attestation_eligible_is_exact() {
    let (eligible, text) = eligibility_attestation(100, 50, 1_700_000_000);
    assert!(eligible);
    assert_eq!(text, "proof:eligible:100:50:1700000000");
}

#[test]
fn attestation_ineligible_is_exact() {
    let (eligible, text) = eligibility_attestation(30, 50, 1_700_000_000);
    assert!(!eligible);
    assert_eq!(text, "proof:ineligible");
}

#[test]
fn attestation_equal_balance_and_threshold_is_eligible() {
    let (eligible, text) = eligibility_attestation(50, 50, 0);
    assert!(eligible);
    assert_eq!(text, "proof:eligible:50:50:0");
}

#[test]
fn attestation_with_negative_timestamp() {
    let (_, text) = eligibility_attestation(7, 0, -42);
    assert_eq!(text, "proof:eligible:7:0:-42");
}

#[test]
fn current_attestation_carries_balance_and_threshold() {
    let (eligible, text) = generate_eligibility_proof(100, 50).unwrap();
    assert!(eligible);
    assert!(text.starts_with("proof:eligible:100:50:"));
    let stamp: i64 = text["proof:eligible:100:50:".len()..].parse().unwrap();
    assert!(stamp > 0);
}

#[test]
fn decimal_rendering_matches_std() {
    for n in [0u64, 9, 10, 99, 100, 12345, u64::MAX] {
        let mut s = String::new();
        push_decimal(&mut s, n);
        assert_eq!(s, n.to_string());
    }
    for i in [i64::MIN, -1, 0, 1, i64::MAX] {
        let mut s = String::from("x");
        push_signed_decimal(&mut s, i);
        assert_eq!(s, format!("x{}", i));
    }
}
