use discr_codec::scalar::{Pointer, Scalar, ScalarInt};
use discr_codec::width::{IntTy, Width};

#[test]
fn widths_report_their_bits_and_top_value() {
    assert_eq!(Width::W8.bit_count(), 8);
    assert_eq!(Width::W16.bit_count(), 16);
    assert_eq!(Width::W32.bit_count(), 32);
    assert_eq!(Width::W64.bit_count(), 64);
    assert_eq!(Width::W128.bit_count(), 128);
    assert_eq!(Width::W8.max_value(), 0xff);
    assert_eq!(Width::W16.max_value(), 0xffff);
    assert_eq!(Width::W32.max_value(), u32::MAX as u128);
    assert_eq!(Width::W64.max_value(), u64::MAX as u128);
    assert_eq!(Width::W128.max_value(), u128::MAX);
}

#[test]
fn fits_is_exact_at_the_bound() {
    assert!(Width::W8.fits(255));
    assert!(!Width::W8.fits(256));
    assert!(Width::W32.fits(0xffff_ffff));
    assert!(!Width::W32.fits(0x1_0000_0000));
    assert!(Width::W128.fits(u128::MAX));
}

#[test]
fn truncate_keeps_the_low_bits() {
    assert_eq!(Width::W8.truncate(200), 200);
    assert_eq!(Width::W8.truncate(256), 0);
    assert_eq!(Width::W8.truncate(0x1234), 0x34);
    assert_eq!(Width::W16.truncate(0xabcd_1234), 0x1234);
    assert_eq!(Width::W32.truncate(0xffff_ffff_0000_0001), 1);
    assert_eq!(Width::W64.truncate(u128::MAX), u64::MAX as u128);
    assert_eq!(Width::W128.truncate(u128::MAX), u128::MAX);
}

#[test]
fn wrapping_add_wraps_at_each_width() {
    assert_eq!(Width::W8.wrapping_add(254, 2), 0);
    assert_eq!(Width::W8.wrapping_add(254, 1), 255);
    assert_eq!(Width::W8.wrapping_add(255, 255), 254);
    assert_eq!(Width::W16.wrapping_add(0xffff, 1), 0);
    assert_eq!(Width::W32.wrapping_add(0xffff_fffe, 5), 3);
    assert_eq!(Width::W64.wrapping_add(u64::MAX as u128, 1), 0);
    assert_eq!(Width::W128.wrapping_add(u128::MAX - 1, 2), 0);
    assert_eq!(Width::W128.wrapping_add(u128::MAX, u128::MAX), u128::MAX - 1);
    assert_eq!(Width::W8.wrapping_add(3, 4), 7);
}

#[test]
fn wrapping_add_reduces_wide_operands_first() {
    assert_eq!(Width::W8.wrapping_add(0x101, 0x202), 3);
    assert_eq!(Width::W8.wrapping_add(0x1ff, 1), 0);
}

#[test]
fn wrapping_sub_wraps_at_each_width() {
    assert_eq!(Width::W8.wrapping_sub(0, 254), 2);
    assert_eq!(Width::W8.wrapping_sub(0, 1), 255);
    assert_eq!(Width::W8.wrapping_sub(7, 4), 3);
    assert_eq!(Width::W16.wrapping_sub(0, 1), 0xffff);
    assert_eq!(Width::W64.wrapping_sub(0, 1), u64::MAX as u128);
    assert_eq!(Width::W128.wrapping_sub(0, u128::MAX - 1), 2);
    assert_eq!(Width::W128.wrapping_sub(5, 5), 0);
}

#[test]
fn wrapping_sub_undoes_wrapping_add() {
    let widths = [Width::W8, Width::W16, Width::W32, Width::W64, Width::W128];
    for w in widths {
        let top = w.max_value();
        for a in [0u128, 1, 2, 100, top / 2, top - 1, top] {
            for b in [0u128, 1, 3, top / 2 + 1, top - 1, top] {
                assert_eq!(w.wrapping_sub(w.wrapping_add(a, b), b), a);
            }
        }
    }
}

#[test]
fn unsigned_cast_zero_extends() {
    let u8_ty = IntTy { width: Width::W8, signed: false };
    assert_eq!(u8_ty.cast(0xff, Width::W64), 0xff);
    assert_eq!(u8_ty.cast(200, Width::W128), 200);
    assert_eq!(u8_ty.cast(0x7f, Width::W16), 0x7f);
}

#[test]
fn signed_cast_sign_extends() {
    let i8_ty = IntTy { width: Width::W8, signed: true };
    assert_eq!(i8_ty.cast(0xff, Width::W64), u64::MAX as u128);
    assert_eq!(i8_ty.cast(0x80, Width::W16), 0xff80);
    assert_eq!(i8_ty.cast(0x7f, Width::W64), 0x7f);
    assert_eq!(i8_ty.cast(0xfe, Width::W128), u128::MAX - 1);
    let i16_ty = IntTy { width: Width::W16, signed: true };
    assert_eq!(i16_ty.cast(0x8000, Width::W32), 0xffff_8000);
}

#[test]
fn cast_to_a_narrower_width_truncates() {
    let i64_ty = IntTy { width: Width::W64, signed: true };
    assert_eq!(i64_ty.cast(u64::MAX as u128, Width::W8), 0xff);
    assert_eq!(i64_ty.cast(0x1234, Width::W8), 0x34);
    let u128_ty = IntTy { width: Width::W128, signed: false };
    assert_eq!(u128_ty.cast(u128::MAX, Width::W32), 0xffff_ffff);
    let i128_ty = IntTy { width: Width::W128, signed: true };
    assert_eq!(i128_ty.cast(u128::MAX, Width::W128), u128::MAX);
}

#[test]
fn scalar_int_is_made_only_from_values_that_fit() {
    assert_eq!(
        ScalarInt::try_from_uint(255, Width::W8),
        Some(ScalarInt { data: 255, size: Width::W8 })
    );
    assert_eq!(ScalarInt::try_from_uint(256, Width::W8), None);
    assert_eq!(
        ScalarInt::try_from_uint(u128::MAX, Width::W128),
        Some(ScalarInt { data: u128::MAX, size: Width::W128 })
    );
}

#[test]
fn scalar_int_null_is_all_zero() {
    assert!(ScalarInt { data: 0, size: Width::W32 }.is_null());
    assert!(!ScalarInt { data: 1, size: Width::W32 }.is_null());
}

#[test]
fn try_to_int_tells_integers_from_pointers() {
    let i = ScalarInt { data: 7, size: Width::W64 };
    assert_eq!(Scalar::Int(i).try_to_int(), Ok(i));
    let p = Scalar::Ptr(Pointer { alloc_id: 3, offset: 8, may_be_null: false });
    assert_eq!(p.try_to_int(), Err(p));
}
