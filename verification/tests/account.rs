use chkp_counter::account::Identity;

#[test]
fn identity_comparison_is_byte_for_byte() {
    let a = Identity { bytes: [7; 32] };
    let b = Identity { bytes: [7; 32] };
    assert!(a.same_as(&b));

    let mut bytes = [7; 32];
    bytes[31] = 8;
    let c = Identity { bytes };
    assert!(!a.same_as(&c));
    assert!(!c.same_as(&a));
}
