use checked::{
    Checked, CheckedAdd, CheckedDiv, CheckedMul, CheckedNeg, CheckedRem, CheckedSub, WithDeref,
    WithoutDeref,
};

#[test]
fn it_works() {
    assert_eq!(
        *{ Checked::new_with_deref(1u8) * 12 - 2 }
            .check()
            .expect("no oveflow"),
        10
    );

    assert_eq!(
        { Checked::new(1u8) * 12 - 2 }.check().expect("no oveflow"),
        Checked::new(10)
    );

    assert!({ Checked::new(1u8) + u8::MAX }.check().is_none());
    assert!({ Checked::new(255u8) + 5 - 100 }.check().is_none());
}

#[test]
fn subtraction_in_range_collapses_to_difference() {
    let r = { Checked::new(200u8) - 50 }.check().expect("in range");
    assert_eq!(r.into_inner(), 150);
}

#[test]
fn each_operator_matches_the_raw_result() {
    assert_eq!({ Checked::new(-40i32) + 15 }.check().unwrap().into_inner(), -25);
    assert_eq!({ Checked::new(-40i32) - 15 }.check().unwrap().into_inner(), -55);
    assert_eq!({ Checked::new(-40i32) * 15 }.check().unwrap().into_inner(), -600);
    assert_eq!({ Checked::new(-40i32) / 15 }.check().unwrap().into_inner(), -2);
    assert_eq!({ Checked::new(1u64 << 40) * 1000 }.check().unwrap().into_inner(), 1_099_511_627_776_000);
    assert_eq!({ Checked::new(i128::MAX) - i128::MAX }.check().unwrap().into_inner(), 0);
    assert_eq!({ Checked::new(usize::MAX - 1) + 1 }.check().unwrap().into_inner(), usize::MAX);
}

#[test]
fn long_chain_without_overflow_is_exact() {
    let r = { Checked::new(7i16) * 100 + 300 - 1000 / 1 };
    assert_eq!(r.check().unwrap().into_inner(), 7 * 100 + 300 - 1000);
    let r = { Checked::new(10u16) * 6000 / 3 + 5 - 20000 };
    assert_eq!(r.check().unwrap().into_inner(), 5);
}

#[test]
fn overflow_survives_any_later_operations() {
    let r = { Checked::new(i8::MAX) + 1 - 100 * 1 / 1 + 0 };
    assert!(r.check().is_none());
    let r = { Checked::new(0u32) - 1 + 1 };
    assert!(r.check().is_none());
    let r = { Checked::new(u16::MAX) * 2 / 4 };
    assert!(r.check().is_none());
}

#[test]
fn overflow_never_heals() {
    let r = { Checked::new(i64::MIN) - 1 };
    let r = r + 1;
    let r = r * 1;
    let r = r / 1;
    assert!(r.check().is_none());
}

#[test]
fn division_by_zero_reports_overflow() {
    assert!({ Checked::new(5u8) / 0 }.check().is_none());
    assert!({ Checked::new(5i32) / 0 + 1 }.check().is_none());
}

#[test]
fn signed_minimum_divided_by_minus_one_reports_overflow() {
    assert!({ Checked::new(i8::MIN) / -1 }.check().is_none());
    assert!({ Checked::new(i32::MIN) / -1 }.check().is_none());
    assert_eq!({ Checked::new(i8::MIN) / 1 }.check().unwrap().into_inner(), i8::MIN);
}

#[test]
fn division_rounds_toward_zero() {
    assert_eq!({ Checked::new(-7i32) / 2 }.check().unwrap().into_inner(), -3);
    assert_eq!({ Checked::new(7i32) / -2 }.check().unwrap().into_inner(), -3);
    assert_eq!({ Checked::new(-7i32) / -2 }.check().unwrap().into_inner(), 3);
}

#[test]
fn wrapped_right_operand_counts_as_its_value() {
    let r = { Checked::new(3u8) + Checked::new_without_deref(4u8) } * Checked::new(2u8);
    assert_eq!(r.check().unwrap().into_inner(), 14);
    let r = { Checked::new(250u8) + Checked::new(10u8) };
    assert!(r.check().is_none());
    let r = { Checked::new(9u8) - Checked::new(10u8) };
    assert!(r.check().is_none());
}

#[test]
fn tag_is_kept_through_the_chain() {
    let r: Option<Checked<u8, WithoutDeref>> = { Checked::new_without_deref(3u8) + 4 - 1 }.check();
    assert_eq!(r.unwrap().to_inner(), 6);
    let r: Option<Checked<u8, WithDeref>> = { Checked::new_with_deref(3u8) + 4 - 1 }.check();
    assert_eq!(*r.unwrap(), 6);
}

#[test]
fn equality_ignores_the_tag() {
    let a = Checked::new(10u8);
    let b = Checked::new_without_deref(10u8);
    let c: Checked<u8, WithDeref> = Checked::from(10u8);
    assert!(a == a);
    assert!(a == b);
    assert!(b == a);
    assert!(b == c);
    assert!(a == c);
    assert!(a != Checked::new_without_deref(11u8));
}

#[test]
fn deref_reads_what_extraction_reads() {
    let a = Checked::new(42u32);
    let b = Checked::new_without_deref(42u32);
    assert_eq!(*a, b.to_inner());
    assert_eq!(*a, a.to_inner());
    assert_eq!(*a, b.into_inner());
    assert_eq!(*Checked::new(-3i64), Checked::new(-3i64).into_inner());
}

#[test]
fn clone_and_copy_keep_the_value() {
    let a = Checked::new(17u16);
    let b = a;
    let c = a.clone();
    assert_eq!(a, b);
    assert_eq!(b, c);
    let u = Checked::new(200u8) + 100;
    let v = u;
    assert!(u.check().is_none());
    assert!(v.clone().check().is_none());
    let w = Checked::new(20u8) + 100;
    assert_eq!(w.clone().check().unwrap().into_inner(), 120);
    assert_eq!(*Checked::new_with_deref(9u8).clone(), 9);
}

#[test]
fn checked_ops_on_raw_values() {
    assert_eq!(CheckedAdd::checked_add(250u8, 5u8), Some(255));
    assert_eq!(CheckedAdd::checked_add(250u8, 6u8), None);
    assert_eq!(CheckedSub::checked_sub(-100i8, 28i8), Some(-128));
    assert_eq!(CheckedSub::checked_sub(-100i8, 29i8), None);
    assert_eq!(CheckedMul::checked_mul(16u8, 16u8), None);
    assert_eq!(CheckedMul::checked_mul(-16i8, 8i8), Some(-128));
    assert_eq!(CheckedDiv::checked_div(9usize, 0usize), None);
    assert_eq!(CheckedDiv::checked_div(isize::MIN, -1isize), None);
    assert_eq!(CheckedAdd::checked_add(1u8, Checked::new(2u8)), Some(3));
    assert_eq!(CheckedSub::checked_sub(1u8, Checked::new_without_deref(2u8)), None);
}

#[test]
fn remainder_has_the_sign_of_the_dividend() {
    assert_eq!(CheckedRem::checked_rem(-7i32, 2i32), Some(-1));
    assert_eq!(CheckedRem::checked_rem(7i32, -2i32), Some(1));
    assert_eq!(CheckedRem::checked_rem(-7i32, -2i32), Some(-1));
    assert_eq!(CheckedRem::checked_rem(17u64, 5u64), Some(2));
    assert_eq!(CheckedRem::checked_rem(17u64, 0u64), None);
    assert_eq!(CheckedRem::checked_rem(i16::MIN, -1i16), None);
    assert_eq!(CheckedRem::checked_rem(5i16, Checked::new(0i16)), None);
    assert_eq!(CheckedRem::checked_rem(5u128, Checked::new(3u128)), Some(2));
}

#[test]
fn negation_overflows_only_out_of_range() {
    assert_eq!(CheckedNeg::checked_neg(5i8), Some(-5));
    assert_eq!(CheckedNeg::checked_neg(i8::MIN), None);
    assert_eq!(CheckedNeg::checked_neg(i8::MAX), Some(-127));
    assert_eq!(CheckedNeg::checked_neg(0u32), Some(0));
    assert_eq!(CheckedNeg::checked_neg(1u32), None);
    assert_eq!(CheckedNeg::checked_neg(i128::MIN), None);
}
