use remu::register::Register;

#[test]
fn test_reg_num_conversion() {
    for i in 0..32 {
        assert_eq!(i, Register::from_num(i as u32).unwrap().to_num());
    }
}

#[test]
fn frame_pointer_is_register_eight() {
    assert_eq!(Register::FP.to_num(), 8);
    assert_eq!(Register::S0.to_num(), 8);
    assert_eq!(Register::from_num(8), Some(Register::S0));
}

#[test]
fn numbers_above_31_name_no_register() {
    assert_eq!(Register::from_num(32), None);
    assert_eq!(Register::from_num(u32::MAX), None);
}
