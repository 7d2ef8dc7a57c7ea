use les_nes::cpu::status::Status;

#[test]
fn test_status() {
    let mut s = Status::default();
    assert_eq!(s.to_u8(), 0b0010_0000);

    s.b = true;
    assert!(s.b);

    s.b = false;
    assert!(!s.b);

    let s: Status = 0b1111_1111u8.into();
    assert_eq!(s.to_u8(), 0b1110_1111);

    assert_eq!(s.text(), "NV--DIZC".to_owned());
}
