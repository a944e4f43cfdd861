use rpm_utils::utils::align_n_bytes;

#[test]
fn test_allign_n() {
    assert_eq!(align_n_bytes(32, 8), 0);
    assert_eq!(align_n_bytes(33, 8), 7);
    assert_eq!(align_n_bytes(34, 8), 6);
    assert_eq!(align_n_bytes(35, 8), 5);
    assert_eq!(align_n_bytes(39, 8), 1);
}
