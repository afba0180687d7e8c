use remu::control::{control_for, number_of, poke_register};
use remu::register::Register;
use remu::statetransfer::ControlCode;

#[test]
fn endpoints_by_name() {
    assert_eq!(control_for("run", ""), Some(ControlCode::RUN));
    assert_eq!(control_for("stop", "ignored=1"), Some(ControlCode::STOP));
    assert_eq!(control_for("step", ""), Some(ControlCode::STEP));
    assert_eq!(control_for("Run", ""), None);
    assert_eq!(control_for("", ""), None);
    assert_eq!(control_for("reset", ""), None);
}

#[test]
fn a_form_names_the_register_and_the_value() {
    assert_eq!(
        control_for("pokereg", "reg=5&val=7"),
        Some(ControlCode::POKEREG { register: Register::T0, value: 7 })
    );
    // the first pair of a key counts
    assert_eq!(
        control_for("pokereg", "val=1&reg=10&val=2&reg=11"),
        Some(ControlCode::POKEREG { register: Register::A0, value: 1 })
    );
    // the form is decoded
    assert_eq!(
        control_for("pokereg", "reg=%31%31&val=%2B42"),
        Some(ControlCode::POKEREG { register: Register::A1, value: 42 })
    );
    // what stands before a question mark is no part of the form
    assert_eq!(
        control_for("pokereg", "reg=1?reg=2&val=3"),
        Some(ControlCode::POKEREG { register: Register::SP, value: 3 })
    );
    assert_eq!(
        control_for("pokereg", ""),
        Some(ControlCode::POKEREG { register: Register::Zero, value: 0 })
    );
    assert_eq!(
        control_for("pokereg", "reg=32&val=x"),
        Some(ControlCode::POKEREG { register: Register::A0, value: 0 })
    );
}

#[test]
fn fields_are_decimal_numbers_or_zero() {
    assert_eq!(number_of(Some("4294967295")), u32::MAX);
    assert_eq!(number_of(Some("4294967296")), 0);
    assert_eq!(number_of(Some("-1")), 0);
    assert_eq!(number_of(Some("")), 0);
    assert_eq!(number_of(None), 0);
    assert_eq!(
        poke_register(Some("31"), Some("9")),
        ControlCode::POKEREG { register: Register::T6, value: 9 }
    );
    assert_eq!(
        poke_register(None, None),
        ControlCode::POKEREG { register: Register::Zero, value: 0 }
    );
}
