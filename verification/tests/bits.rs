use rv32i_core::bits::{
    address, low_byte, low_half, shift_amount, to_signed, to_unsigned, wrapping_difference,
    wrapping_sum,
};

#[test]
fn the_same_bits_read_as_signed_and_as_unsigned() {
    assert_eq!(to_signed(0), 0);
    assert_eq!(to_signed(0x7fff_ffff), 2147483647);
    assert_eq!(to_signed(0x8000_0000), -2147483648);
    assert_eq!(to_signed(0xffff_ffff), -1);
    assert_eq!(to_unsigned(0), 0);
    assert_eq!(to_unsigned(-1), 0xffff_ffff);
    assert_eq!(to_unsigned(-2147483648), 0x8000_0000);
    assert_eq!(to_unsigned(2147483647), 0x7fff_ffff);
}

#[test]
fn the_low_bits_of_a_register() {
    assert_eq!(low_byte(0x1234_5678), 0x78);
    assert_eq!(low_byte(-2), 0xfe);
    assert_eq!(low_byte(256), 0);
    assert_eq!(low_half(0x1234_5678), 0x5678);
    assert_eq!(low_half(-2), 0xfffe);
    assert_eq!(low_half(0x1_0000), 0);
    assert_eq!(shift_amount(0), 0);
    assert_eq!(shift_amount(31), 31);
    assert_eq!(shift_amount(32), 0);
    assert_eq!(shift_amount(33), 1);
    assert_eq!(shift_amount(-1), 31);
    assert_eq!(shift_amount(-32), 0);
}

#[test]
fn sums_and_differences_wrap_modulo_two_to_the_thirty_two() {
    assert_eq!(wrapping_sum(2147483647, 1), -2147483648);
    assert_eq!(wrapping_sum(-2147483648, -1), 2147483647);
    assert_eq!(wrapping_sum(5, -7), -2);
    assert_eq!(wrapping_difference(-2147483648, 1), 2147483647);
    assert_eq!(wrapping_difference(2147483647, -1), -2147483648);
    assert_eq!(wrapping_difference(5, 7), -2);
}

#[test]
fn addresses_wrap_modulo_two_to_the_thirty_two() {
    assert_eq!(address(0x100, 4), 0x104);
    assert_eq!(address(0, -4), 0xffff_fffc);
    assert_eq!(address(-1, 1), 0);
    assert_eq!(address(2147483647, 1), 0x8000_0000);
    assert_eq!(address(-2147483648, -1), 0x7fff_ffff);
}
