use lib::alu::ALU;
use lib::register::{Register16, Register8};

#[test]
fn ands_correctly() {
    let mut a = Register8::new(0b11110000);
    let b = Register8::new(0b01010101);
    let flags = Register8::new(0x00);
    let mut alu = ALU::new(flags);

    alu.and(&mut a, &b);

    assert_eq!(a.get_value(), 0b01010000);
}

#[test]
fn and_resets_sub_flag() {
    let mut a = Register8::new(0b11110000);
    let b = Register8::new(0b01010101);
    let flags = Register8::new(0xFF);
    let mut alu = ALU::new(flags);

    alu.and(&mut a, &b);

    assert_eq!(false, alu.flags.get_bit(ALU::SUB_FLAG));
}

#[test]
fn and_resets_half_carry_flag() {
    let mut a = Register8::new(0b11110000);
    let b = Register8::new(0b01010101);
    let flags = Register8::new(0x00);
    let mut alu = ALU::new(flags);

    alu.and(&mut a, &b);

    assert_eq!(true, alu.flags.get_bit(ALU::HALF_CARRY_FLAG));
}

#[test]
fn and_resets_carry_flag() {
    let mut a = Register8::new(0b11110000);
    let b = Register8::new(0b01010101);
    let flags = Register8::new(0x00);
    let mut alu = ALU::new(flags);

    alu.and(&mut a, &b);

    assert_eq!(false, alu.flags.get_bit(ALU::CARRY_FLAG));
}

#[test]
fn and_sets_zero_flag_correctly() {
    let mut a = Register8::new(0);
    let b = Register8::new(0);
    let flags = Register8::new(0x00);
    let mut alu = ALU::new(flags);

    alu.and(&mut a, &b);

    assert_eq!(true, alu.flags.get_bit(ALU::ZERO_FLAG));
}

#[test]
fn and_resets_zero_flag_correctly() {
    let mut a = Register8::new(0b11110000);
    let b = Register8::new(0b01010101);
    let flags = Register8::new(0x00);
    let mut alu = ALU::new(flags);

    alu.and(&mut a, &b);

    assert_eq!(false, alu.flags.get_bit(ALU::ZERO_FLAG));
}

#[test]
fn xors_correctly() {
    let mut a = Register8::new(0b11110000);
    let b = Register8::new(0b01010101);
    let flags = Register8::new(0x00);
    let mut alu = ALU::new(flags);

    alu.xor_internal(&mut a, &b);

    assert_eq!(a.get_value(), 0b10100101);
}

#[test]
fn xor_resets_sub_flag() {
    let mut a = Register8::new(0b11110000);
    let b = Register8::new(0b01010101);
    let flags = Register8::new(0xFF);
    let mut alu = ALU::new(flags);

    alu.xor_internal(&mut a, &b);

    assert_eq!(false, alu.flags.get_bit(ALU::SUB_FLAG));
}

#[test]
fn xor_resets_half_carry_flag() {
    let mut a = Register8::new(0b11110000);
    let b = Register8::new(0b01010101);
    let flags = Register8::new(0x00);
    let mut alu = ALU::new(flags);

    alu.xor_internal(&mut a, &b);

    assert_eq!(false, alu.flags.get_bit(ALU::HALF_CARRY_FLAG));
}

#[test]
fn xor_resets_carry_flag() {
    let mut a = Register8::new(0b11110000);
    let b = Register8::new(0b01010101);
    let flags = Register8::new(0x00);
    let mut alu = ALU::new(flags);

    alu.xor_internal(&mut a, &b);

    assert_eq!(false, alu.flags.get_bit(ALU::CARRY_FLAG));
}

#[test]
fn xor_sets_zero_flag_correctly() {
    let mut a = Register8::new(0x00);
    let b = Register8::new(0x00);
    let flags = Register8::new(0x00);
    let mut alu = ALU::new(flags);

    alu.xor_internal(&mut a, &b);

    assert_eq!(true, alu.flags.get_bit(ALU::ZERO_FLAG));
}

#[test]
fn xor_resets_zero_flag_correctly() {
    let mut a = Register8::new(0x01);
    let b = Register8::new(0x00);
    let flags = Register8::new(0x00);
    let mut alu = ALU::new(flags);

    alu.xor_internal(&mut a, &b);

    assert_eq!(false, alu.flags.get_bit(ALU::ZERO_FLAG));
}

#[test]
fn ors_correctly() {
    let mut a = Register8::new(0b11110000);
    let b = Register8::new(0b01010101);
    let flags = Register8::new(0x00);
    let mut alu = ALU::new(flags);

    alu.or_internal(&mut a, &b);

    assert_eq!(a.get_value(), 0b11110101);
}

#[test]
fn or_resets_sub_flag() {
    let mut a = Register8::new(0b11110000);
    let b = Register8::new(0b01010101);
    let flags = Register8::new(0xFF);
    let mut alu = ALU::new(flags);

    alu.or_internal(&mut a, &b);

    assert_eq!(false, alu.flags.get_bit(ALU::SUB_FLAG));
}

#[test]
fn or_resets_half_carry_flag() {
    let mut a = Register8::new(0b11110000);
    let b = Register8::new(0b01010101);
    let flags = Register8::new(0x00);
    let mut alu = ALU::new(flags);

    alu.or_internal(&mut a, &b);

    assert_eq!(false, alu.flags.get_bit(ALU::HALF_CARRY_FLAG));
}

#[test]
fn or_resets_carry_flag() {
    let mut a = Register8::new(0b11110000);
    let b = Register8::new(0b01010101);
    let flags = Register8::new(0x00);
    let mut alu = ALU::new(flags);

    alu.or_internal(&mut a, &b);

    assert_eq!(false, alu.flags.get_bit(ALU::CARRY_FLAG));
}

#[test]
fn or_sets_zero_flag_correctly() {
    let mut a = Register8::new(0x00);
    let b = Register8::new(0x00);
    let flags = Register8::new(0x00);
    let mut alu = ALU::new(flags);

    alu.or_internal(&mut a, &b);

    assert_eq!(true, alu.flags.get_bit(ALU::ZERO_FLAG));
}

#[test]
fn or_resets_zero_flag_correctly() {
    let mut a = Register8::new(0x01);
    let b = Register8::new(0x00);
    let flags = Register8::new(0x00);
    let mut alu = ALU::new(flags);

    alu.or_internal(&mut a, &b);

    assert_eq!(false, alu.flags.get_bit(ALU::ZERO_FLAG));
}

#[test]
fn adds_u8_no_flags() {
    let mut a = Register8::new(0x01);
    let b = Register8::new(0x02);
    let flags = Register8::new(0x00);
    let mut alu = ALU::new(flags);

    alu.add(&mut a, &b);

    assert_eq!(a.get_value(), 0x03);
}

#[test]
fn adds_u16_no_flags() {
    let mut a = Register16::new(0xFF);
    let b = Register16::new(0x02);
    let flags = Register8::new(0x00);
    let mut alu = ALU::new(flags);

    alu.add(&mut a, &b);

    assert_eq!(a.get_value(), 0x101);
}

#[test]
fn add_resets_sub_bit() {
    let mut a = Register8::new(0x01);
    let b = Register8::new(0x02);
    let flags = Register8::new(0x00);
    let mut alu = ALU::new(flags);

    alu.flags.set_bit(ALU::SUB_FLAG, true);

    alu.add(&mut a, &b);

    assert_eq!(alu.flags.get_bit(ALU::SUB_FLAG), false);
}

#[test]
fn add_sets_zero_bit_when_zero() {
    let mut a = Register8::new(0xFF);
    let b = Register8::new(0x01);
    let flags = Register8::new(0x00);
    let mut alu = ALU::new(flags);

    alu.add(&mut a, &b);

    assert_eq!(true, alu.flags.get_bit(ALU::ZERO_FLAG));
}

#[test]
fn add_resets_zero_bit_when_not_zero() {
    let mut a = Register8::new(0xEF);
    let b = Register8::new(0x01);
    let flags = Register8::new(0x00);
    let mut alu = ALU::new(flags);

    alu.add(&mut a, &b);

    assert_eq!(false, alu.flags.get_bit(ALU::ZERO_FLAG));
}

#[test]
fn add_sets_half_carry_flag_correctly_for_u8() {
    let mut a = Register8::new(0x0F);
    let b = Register8::new(0x0F);
    let flags = Register8::new(0x00);
    let mut alu = ALU::new(flags);

    alu.add(&mut a, &b);

    assert_eq!(true, alu.flags.get_bit(ALU::HALF_CARRY_FLAG));
}

#[test]
fn add_does_not_set_half_carry_flag_correctly_for_u8() {
    let mut a = Register8::new(0x02);
    let b = Register8::new(0x02);
    let flags = Register8::new(0x00);
    let mut alu = ALU::new(flags);

    alu.add(&mut a, &b);

    assert_eq!(false, alu.flags.get_bit(ALU::HALF_CARRY_FLAG));
}

#[test]
fn add_sets_half_carry_flag_correctly_for_u16() {
    let mut a = Register16::new(0x0F00);
    let b = Register16::new(0x0F00);
    let flags = Register8::new(0x00);
    let mut alu = ALU::new(flags);

    alu.add(&mut a, &b);

    assert_eq!(true, alu.flags.get_bit(ALU::HALF_CARRY_FLAG));
}

#[test]
fn add_does_not_set_half_carry_flag_correctly_for_u16() {
    let mut a = Register16::new(0xF0);
    let b = Register16::new(0xF0);
    let flags = Register8::new(0x00);
    let mut alu = ALU::new(flags);

    alu.add(&mut a, &b);

    assert_eq!(false, alu.flags.get_bit(ALU::HALF_CARRY_FLAG));
}

#[test]
fn add_sets_carry_flag_correctly() {
    let mut a = Register8::new(0xFF);
    let b = Register8::new(0x01);
    let flags = Register8::new(0x00);
    let mut alu = ALU::new(flags);

    alu.add(&mut a, &b);

    assert_eq!(alu.flags.get_bit(ALU::CARRY_FLAG), true);
}

#[test]
fn add_no_carry_resets_sub_bit() {
    let mut a = Register8::new(0x01);
    let b = Register8::new(0x02);
    let flags = Register8::new(0x00);
    let mut alu = ALU::new(flags);

    alu.flags.set_bit(ALU::SUB_FLAG, true);

    alu.add_no_carry(&mut a, &b);

    assert_eq!(alu.flags.get_bit(ALU::SUB_FLAG), false);
}

#[test]
fn add_no_carry_sets_zero_bit_when_zero() {
    let mut a = Register8::new(0xFF);
    let b = Register8::new(0x01);
    let flags = Register8::new(0x00);
    let mut alu = ALU::new(flags);

    alu.add_no_carry(&mut a, &b);

    assert_eq!(true, alu.flags.get_bit(ALU::ZERO_FLAG));
}

#[test]
fn add_no_carry_resets_zero_bit_when_not_zero() {
    let mut a = Register8::new(0xEF);
    let b = Register8::new(0x01);
    let flags = Register8::new(0x00);
    let mut alu = ALU::new(flags);

    alu.add_no_carry(&mut a, &b);

    assert_eq!(false, alu.flags.get_bit(ALU::ZERO_FLAG));
}

#[test]
fn add_no_carry_sets_half_carry_flag_correctly_for_u8() {
    let mut a = Register8::new(0x0F);
    let b = Register8::new(0x0F);
    let flags = Register8::new(0x00);
    let mut alu = ALU::new(flags);

    alu.add_no_carry(&mut a, &b);

    assert_eq!(true, alu.flags.get_bit(ALU::HALF_CARRY_FLAG));
}

#[test]
fn add_no_carry_does_not_set_half_carry_flag_correctly_for_u8() {
    let mut a = Register8::new(0x02);
    let b = Register8::new(0x02);
    let flags = Register8::new(0x00);
    let mut alu = ALU::new(flags);

    alu.add_no_carry(&mut a, &b);

    assert_eq!(false, alu.flags.get_bit(ALU::HALF_CARRY_FLAG));
}

#[test]
fn add_no_carry_sets_half_carry_flag_correctly_for_u16() {
    let mut a = Register16::new(0x0F00);
    let b = Register16::new(0x0F00);
    let flags = Register8::new(0x00);
    let mut alu = ALU::new(flags);

    alu.add_no_carry(&mut a, &b);

    assert_eq!(true, alu.flags.get_bit(ALU::HALF_CARRY_FLAG));
}

#[test]
fn add_no_carry_does_not_set_half_carry_flag_correctly_for_u16() {
    let mut a = Register16::new(0xF0);
    let b = Register16::new(0xF0);
    let flags = Register8::new(0x00);
    let mut alu = ALU::new(flags);

    alu.add_no_carry(&mut a, &b);

    assert_eq!(false, alu.flags.get_bit(ALU::HALF_CARRY_FLAG));
}

#[test]
fn add_no_carry_does_not_change_carry_flag() {
    let mut a = Register8::new(0x01);
    let b = Register8::new(0x01);
    let mut flags = Register8::new(0x00);
    flags.set_bit(ALU::CARRY_FLAG, true);
    let mut alu = ALU::new(flags);

    alu.add_no_carry(&mut a, &b);

    assert_eq!(alu.flags.get_bit(ALU::CARRY_FLAG), true);
}

#[test]
fn adc_does_not_carry_when_carry_bit_not_set() {
    let mut a = Register8::new(0x01);
    let b = Register8::new(0x02);
    let flags = Register8::new(0x00);
    let mut alu = ALU::new(flags);

    alu.flags.set_bit(ALU::CARRY_FLAG, false);
    alu.adc(&mut a, &b);

    assert_eq!(0x03, a.get_value());
}

#[test]
fn adc_carries_when_carry_bit_set() {
    let mut a = Register8::new(0x01);
    let b = Register8::new(0x02);
    let flags = Register8::new(0x00);
    let mut alu = ALU::new(flags);

    alu.flags.set_bit(ALU::CARRY_FLAG, true);
    alu.adc(&mut a, &b);

    assert_eq!(0x04, a.get_value());
}

#[test]
fn adc_resets_carry() {
    let mut a = Register8::new(0x01);
    let b = Register8::new(0x02);
    let flags = Register8::new(0x00);
    let mut alu = ALU::new(flags);

    alu.flags.set_bit(ALU::CARRY_FLAG, true);
    alu.adc(&mut a, &b);

    assert_eq!(false, alu.flags.get_bit(ALU::CARRY_FLAG));
}

#[test]
fn adc_with_carry_bit_set_preserves_carry_from_a_b_addition() {
    let mut a = Register8::new(0xF0);
    let b = Register8::new(0x1F);
    let flags = Register8::new(0x00);
    let mut alu = ALU::new(flags);

    alu.flags.set_bit(ALU::CARRY_FLAG, true);
    alu.adc(&mut a, &b);

    assert_eq!(true, alu.flags.get_bit(ALU::CARRY_FLAG));
}

#[test]
fn adc_with_carry_bit_set_sets_carry_bit_on_carry_wrap() {
    //edge case where carry causes the rollover rather than the a+b

    let mut a = Register8::new(0xF0);
    let b = Register8::new(0x0F);
    let flags = Register8::new(0x00);
    let mut alu = ALU::new(flags);

    alu.flags.set_bit(ALU::CARRY_FLAG, true);
    alu.adc(&mut a, &b);

    assert_eq!(true, alu.flags.get_bit(ALU::CARRY_FLAG));
}

#[test]
fn adc_with_carry_preserves_half_carry_from_a_b_addition() {
    let mut a = Register8::new(0x08);
    let b = Register8::new(0x08);
    let flags = Register8::new(0x00);
    let mut alu = ALU::new(flags);

    alu.flags.set_bit(ALU::CARRY_FLAG, true);
    alu.adc(&mut a, &b);

    assert_eq!(true, alu.flags.get_bit(ALU::HALF_CARRY_FLAG));
}

#[test]
fn adc_with_carry_sets_half_carry_when_caused_by_carry() {
    let mut a = Register8::new(0x07);
    let b = Register8::new(0x08);
    let flags = Register8::new(0x00);
    let mut alu = ALU::new(flags);

    alu.flags.set_bit(ALU::CARRY_FLAG, true);
    alu.adc(&mut a, &b);

    assert_eq!(true, alu.flags.get_bit(ALU::HALF_CARRY_FLAG));
}

#[test]
fn adc_with_carry_sets_zero_when_zero() {
    let mut a = Register8::new(0xF0);
    let b = Register8::new(0x0F);
    let flags = Register8::new(0x00);
    let mut alu = ALU::new(flags);

    alu.flags.set_bit(ALU::CARRY_FLAG, true);
    alu.adc(&mut a, &b);

    assert_eq!(true, alu.flags.get_bit(ALU::ZERO_FLAG));
}

#[test]
fn subs_u8_no_flags() {
    let mut a = Register8::new(0x10);
    let b = Register8::new(0x01);
    let flags = Register8::new(0x00);
    let mut alu = ALU::new(flags);

    alu.sub(&mut a, &b);

    assert_eq!(a.get_value(), 0x0F);
}

#[test]
fn subs_u16_no_flags() {
    let mut a = Register16::new(0x101);
    let b = Register16::new(0x02);
    let flags = Register8::new(0x00);
    let mut alu = ALU::new(flags);

    alu.sub(&mut a, &b);

    assert_eq!(a.get_value(), 0xFF);
}

#[test]
fn sub_sets_sub_bit() {
    let mut a = Register8::new(0x01);
    let b = Register8::new(0x02);
    let flags = Register8::new(0x00);
    let mut alu = ALU::new(flags);

    alu.flags.set_bit(ALU::SUB_FLAG, false);

    alu.sub(&mut a, &b);

    assert_eq!(alu.flags.get_bit(ALU::SUB_FLAG), true);
}

#[test]
fn sub_sets_zero_bit_when_zero() {
    let mut a = Register8::new(0x01);
    let b = Register8::new(0x01);
    let flags = Register8::new(0x00);
    let mut alu = ALU::new(flags);

    alu.sub(&mut a, &b);

    assert_eq!(true, alu.flags.get_bit(ALU::ZERO_FLAG));
}

#[test]
fn sub_resets_zero_bit_when_not_zero() {
    let mut a = Register8::new(0xEF);
    let b = Register8::new(0x01);
    let flags = Register8::new(0x00);
    let mut alu = ALU::new(flags);

    alu.sub(&mut a, &b);

    assert_eq!(false, alu.flags.get_bit(ALU::ZERO_FLAG));
}

#[test]
fn sub_sets_half_carry_flag_correctly_for_u8() {
    let mut a = Register8::new(0x18);
    let b = Register8::new(0x0F);
    let flags = Register8::new(0x00);
    let mut alu = ALU::new(flags);

    alu.add(&mut a, &b);

    assert_eq!(true, alu.flags.get_bit(ALU::HALF_CARRY_FLAG));
}

#[test]
fn sub_does_not_set_half_carry_flag_correctly_for_u8() {
    let mut a = Register8::new(0x02);
    let b = Register8::new(0x02);
    let flags = Register8::new(0x00);
    let mut alu = ALU::new(flags);

    alu.add(&mut a, &b);

    assert_eq!(false, alu.flags.get_bit(ALU::HALF_CARRY_FLAG));
}

#[test]
fn sub_sets_half_carry_flag_correctly_for_u16() {
    let mut a = Register16::new(0x1800);
    let b = Register16::new(0x0F00);
    let flags = Register8::new(0x00);
    let mut alu = ALU::new(flags);

    alu.add(&mut a, &b);

    assert_eq!(true, alu.flags.get_bit(ALU::HALF_CARRY_FLAG));
}

#[test]
fn sub_does_not_set_half_carry_flag_correctly_for_u16() {
    let mut a = Register16::new(0xF0);
    let b = Register16::new(0xF0);
    let flags = Register8::new(0x00);
    let mut alu = ALU::new(flags);

    alu.add(&mut a, &b);

    assert_eq!(false, alu.flags.get_bit(ALU::HALF_CARRY_FLAG));
}

#[test]
fn sub_sets_carry_flag() {
    let mut a = Register8::new(0x01);
    let b = Register8::new(0x10);
    let flags = Register8::new(0x00);
    let mut alu = ALU::new(flags);

    alu.sub(&mut a, &b);

    assert_eq!(alu.flags.get_bit(ALU::CARRY_FLAG), true);
}

#[test]
fn sub_no_carry_resets_sub_bit() {
    let mut a = Register8::new(0x01);
    let b = Register8::new(0x02);
    let flags = Register8::new(0x00);
    let mut alu = ALU::new(flags);

    alu.flags.set_bit(ALU::SUB_FLAG, false);

    alu.sub_no_carry(&mut a, &b);

    assert_eq!(alu.flags.get_bit(ALU::SUB_FLAG), true);
}

#[test]
fn sub_no_carry_sets_zero_bit_when_zero() {
    let mut a = Register8::new(0x01);
    let b = Register8::new(0x01);
    let flags = Register8::new(0x00);
    let mut alu = ALU::new(flags);

    alu.sub_no_carry(&mut a, &b);

    assert_eq!(true, alu.flags.get_bit(ALU::ZERO_FLAG));
}

#[test]
fn sub_no_carry_resets_zero_bit_when_not_zero() {
    let mut a = Register8::new(0xEF);
    let b = Register8::new(0x01);
    let flags = Register8::new(0x00);
    let mut alu = ALU::new(flags);

    alu.sub_no_carry(&mut a, &b);

    assert_eq!(false, alu.flags.get_bit(ALU::ZERO_FLAG));
}

#[test]
fn sub_no_carry_sets_half_carry_flag_correctly_for_u8() {
    let mut a = Register8::new(0x18);
    let b = Register8::new(0x0F);
    let flags = Register8::new(0x00);
    let mut alu = ALU::new(flags);

    alu.sub_no_carry(&mut a, &b);

    assert_eq!(true, alu.flags.get_bit(ALU::HALF_CARRY_FLAG));
}

#[test]
fn sub_no_carry_does_not_set_half_carry_flag_correctly_for_u8() {
    let mut a = Register8::new(0x04);
    let b = Register8::new(0x02);
    let flags = Register8::new(0x00);
    let mut alu = ALU::new(flags);

    alu.sub_no_carry(&mut a, &b);

    assert_eq!(false, alu.flags.get_bit(ALU::HALF_CARRY_FLAG));
}

#[test]
fn sub_no_carry_sets_half_carry_flag_correctly_for_u16() {
    let mut a = Register16::new(0x1800);
    let b = Register16::new(0x0F00);
    let flags = Register8::new(0x00);
    let mut alu = ALU::new(flags);

    alu.sub_no_carry(&mut a, &b);

    assert_eq!(true, alu.flags.get_bit(ALU::HALF_CARRY_FLAG));
}

#[test]
fn sub_no_carry_does_not_set_half_carry_flag_correctly_for_u16() {
    let mut a = Register16::new(0x1F0);
    let b = Register16::new(0xF0);
    let flags = Register8::new(0x00);
    let mut alu = ALU::new(flags);

    alu.sub_no_carry(&mut a, &b);

    assert_eq!(false, alu.flags.get_bit(ALU::HALF_CARRY_FLAG));
}

#[test]
fn sub_no_carry_does_not_change_carry_flag() {
    let mut a = Register8::new(0x02);
    let b = Register8::new(0x01);
    let mut flags = Register8::new(0x00);
    flags.set_bit(ALU::CARRY_FLAG, true);
    let mut alu = ALU::new(flags);

    alu.sub_no_carry(&mut a, &b);

    assert_eq!(alu.flags.get_bit(ALU::CARRY_FLAG), true);
}

#[test]
fn sbcs_u8_no_flags() {
    let mut a = Register8::new(0x10);
    let b = Register8::new(0x01);
    let flags = Register8::new(0x00);
    let mut alu = ALU::new(flags);

    alu.sbc(&mut a, &b);

    assert_eq!(a.get_value(), 0x0F);
}

#[test]
fn sbcs_u16_no_flags() {
    let mut a = Register16::new(0x101);
    let b = Register16::new(0x02);
    let flags = Register8::new(0x00);
    let mut alu = ALU::new(flags);

    alu.sbc(&mut a, &b);

    assert_eq!(a.get_value(), 0xFF);
}

#[test]
fn sbcs_u8_carry_flag() {
    let mut a = Register8::new(0x10);
    let b = Register8::new(0x01);
    let mut flags = Register8::new(0x00);
    flags.set_bit(ALU::CARRY_FLAG, true);
    let mut alu = ALU::new(flags);

    alu.sbc(&mut a, &b);

    assert_eq!(0x0E, a.get_value());
}

#[test]
fn sbcs_u16_carry_flag() {
    let mut a = Register16::new(0x101);
    let b = Register16::new(0x02);
    let mut flags = Register8::new(0x00);
    flags.set_bit(ALU::CARRY_FLAG, true);
    let mut alu = ALU::new(flags);

    alu.sbc(&mut a, &b);

    assert_eq!(0xFE, a.get_value());
}

#[test]
fn sbc_sets_sub_bit() {
    let mut a = Register8::new(0x01);
    let b = Register8::new(0x02);
    let flags = Register8::new(0x00);
    let mut alu = ALU::new(flags);

    alu.flags.set_bit(ALU::SUB_FLAG, false);

    alu.sbc(&mut a, &b);

    assert_eq!(alu.flags.get_bit(ALU::SUB_FLAG), true);
}

#[test]
fn sbc_sets_zero_bit_when_zero() {
    let mut a = Register8::new(0x01);
    let b = Register8::new(0x01);
    let flags = Register8::new(0x00);
    let mut alu = ALU::new(flags);

    alu.sbc(&mut a, &b);

    assert_eq!(true, alu.flags.get_bit(ALU::ZERO_FLAG));
}

#[test]
fn sbc_resets_zero_bit_when_not_zero() {
    let mut a = Register8::new(0xEF);
    let b = Register8::new(0x01);
    let flags = Register8::new(0x00);
    let mut alu = ALU::new(flags);

    alu.sbc(&mut a, &b);

    assert_eq!(false, alu.flags.get_bit(ALU::ZERO_FLAG));
}

#[test]
fn sbc_sets_half_carry_flag_correctly_for_u8() {
    let mut a = Register8::new(0x18);
    let b = Register8::new(0x0F);
    let flags = Register8::new(0x00);
    let mut alu = ALU::new(flags);

    alu.add(&mut a, &b);

    assert_eq!(true, alu.flags.get_bit(ALU::HALF_CARRY_FLAG));
}

#[test]
fn sbc_does_not_set_half_carry_flag_correctly_for_u8() {
    let mut a = Register8::new(0x02);
    let b = Register8::new(0x02);
    let flags = Register8::new(0x00);
    let mut alu = ALU::new(flags);

    alu.add(&mut a, &b);

    assert_eq!(false, alu.flags.get_bit(ALU::HALF_CARRY_FLAG));
}

#[test]
fn sbc_sets_half_carry_flag_correctly_for_u16() {
    let mut a = Register16::new(0x1800);
    let b = Register16::new(0x0F00);
    let flags = Register8::new(0x00);
    let mut alu = ALU::new(flags);

    alu.add(&mut a, &b);

    assert_eq!(true, alu.flags.get_bit(ALU::HALF_CARRY_FLAG));
}

#[test]
fn sbc_does_not_set_half_carry_flag_correctly_for_u16() {
    let mut a = Register16::new(0xF0);
    let b = Register16::new(0xF0);
    let flags = Register8::new(0x00);
    let mut alu = ALU::new(flags);

    alu.add(&mut a, &b);

    assert_eq!(false, alu.flags.get_bit(ALU::HALF_CARRY_FLAG));
}

#[test]
fn sbc_sets_carry_flag() {
    let mut a = Register8::new(0x01);
    let b = Register8::new(0x10);
    let flags = Register8::new(0x00);
    let mut alu = ALU::new(flags);

    alu.sbc(&mut a, &b);

    assert_eq!(alu.flags.get_bit(ALU::CARRY_FLAG), true);
}
