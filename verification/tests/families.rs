use lib::alu::ALU;
use lib::instructions::alu_ops::{AdcAR, AddAR, AddHlRr, AndAR, CpAR, DecR, IncR};
use lib::instructions::bitwise::{
    BitBHl, BitBR, ResBHl, ResBR, RlcR, RrR, RrcR, SetBHl, SetBR, SwapR,
};
use lib::instructions::jumps::{CallCcNn, Cond, JpCcNn};
use lib::instructions::loads::{DecRr, IncRr, LdARr, LdHlR, LdRHl, LdRN};
use lib::memory::Memory;
use lib::register::Register8;
use lib::registers::{Reg16, Reg8, Registers};

const EIGHT_BIT: [Reg8; 6] = [Reg8::B, Reg8::C, Reg8::D, Reg8::E, Reg8::H, Reg8::L];
const ALL_EIGHT_BIT: [Reg8; 7] = [Reg8::B, Reg8::C, Reg8::D, Reg8::E, Reg8::H, Reg8::L, Reg8::A];

#[test]
fn add_a_r_adds_the_register_to_a() {
    for (code, reg) in EIGHT_BIT.iter().enumerate() {
        let mut registers = Registers::new(0, 0, 0, 0, 0xC000, 0);
        registers.a.set_value(0x12);
        registers.set8(*reg, 0x12);
        let mut instruction = AddAR::from_opcode(&(0x80 + code as u8)).unwrap();

        let result = instruction.act(&mut registers);

        assert_eq!(true, result);
        assert_eq!(0x24, registers.a.get_value());
        assert_eq!(0x80 + code as u8, instruction.get_opcode());
    }
}

#[test]
fn adc_a_r_adds_the_register_and_the_carry() {
    for reg in EIGHT_BIT {
        let mut registers = Registers::new(0, 0, 0, 0, 0xC000, 0);
        registers.a.set_value(0x12);
        registers.f.set_bit(ALU::CARRY_FLAG, true);
        registers.set8(reg, 0x12);
        let mut instruction = AdcAR { reg };

        let result = instruction.act(&mut registers);

        assert_eq!(true, result);
        assert_eq!(0x25, registers.a.get_value());
    }
}

#[test]
fn and_a_r_ands_the_register_into_a() {
    for reg in EIGHT_BIT {
        let mut registers = Registers::new(0, 0, 0, 0, 0xC000, 0);
        registers.a.set_value(0x36);
        registers.set8(reg, 0x12);
        let mut instruction = AndAR { reg };

        let result = instruction.act(&mut registers);

        assert_eq!(true, result);
        assert_eq!(0x12, registers.a.get_value());
        assert_eq!(true, registers.f.get_bit(ALU::HALF_CARRY_FLAG));
    }
}

#[test]
fn cp_a_r_equal_values_set_zero() {
    for reg in EIGHT_BIT {
        let mut registers = Registers::new(0x1200, 0, 0, 0, 0xC001, 0);
        registers.set8(reg, 0x12);
        let mut instruction = CpAR { reg };

        let result = instruction.act(&mut registers);

        assert_eq!(true, result);
        assert_eq!(true, registers.f.get_bit(ALU::ZERO_FLAG));
        assert_eq!(false, registers.f.get_bit(ALU::CARRY_FLAG));
        assert_eq!(0x12, registers.a.get_value());
    }
}

#[test]
fn cp_a_r_greater_register_sets_carry() {
    for reg in EIGHT_BIT {
        let mut registers = Registers::new(0x1100, 0, 0, 0, 0xC001, 0);
        registers.set8(reg, 0x12);
        let mut instruction = CpAR { reg };

        let result = instruction.act(&mut registers);

        assert_eq!(true, result);
        assert_eq!(false, registers.f.get_bit(ALU::ZERO_FLAG));
        assert_eq!(true, registers.f.get_bit(ALU::CARRY_FLAG));
        assert_eq!(0x11, registers.a.get_value());
    }
}

#[test]
fn cp_a_r_smaller_register_sets_neither() {
    for reg in EIGHT_BIT {
        let mut registers = Registers::new(0x1300, 0, 0, 0, 0xC001, 0);
        registers.set8(reg, 0x12);
        let mut instruction = CpAR { reg };

        let result = instruction.act(&mut registers);

        assert_eq!(true, result);
        assert_eq!(false, registers.f.get_bit(ALU::ZERO_FLAG));
        assert_eq!(false, registers.f.get_bit(ALU::CARRY_FLAG));
        assert_eq!(true, registers.f.get_bit(ALU::SUB_FLAG));
    }
}

#[test]
fn cp_a_r_opcodes() {
    for (code, reg) in EIGHT_BIT.iter().enumerate() {
        let instruction = CpAR::from_opcode(&(0xB8 + code as u8)).unwrap();
        assert_eq!(*reg, instruction.reg);
        assert_eq!(0xB8 + code as u8, instruction.get_opcode());
    }
    assert!(CpAR::from_opcode(&0xBE).is_none());
    assert!(CpAR::from_opcode(&0xB7).is_none());
}

#[test]
fn inc_r_increments_the_register() {
    for reg in ALL_EIGHT_BIT {
        let mut registers = Registers::new(0, 0, 0, 0, 0xC000, 0);
        registers.set8(reg, 0x12);
        let mut instruction = IncR { reg };

        let result = instruction.act(&mut registers);

        assert_eq!(true, result);
        assert_eq!(0x13, registers.get8(reg));
    }
}

#[test]
fn dec_r_decrements_the_register() {
    for reg in ALL_EIGHT_BIT {
        let mut registers = Registers::new(0, 0, 0, 0, 0xC000, 0);
        registers.set8(reg, 0x12);
        let mut instruction = DecR { reg };

        let result = instruction.act(&mut registers);

        assert_eq!(true, result);
        assert_eq!(0x11, registers.get8(reg));
    }
}

#[test]
fn inc_r_wraps_and_sets_zero_and_half_carry() {
    let mut registers = Registers::new(0, 0, 0, 0, 0xC000, 0);
    registers.b.set_value(0xFF);
    let mut instruction = IncR { reg: Reg8::B };

    instruction.act(&mut registers);

    assert_eq!(0x00, registers.b.get_value());
    assert_eq!(true, registers.f.get_bit(ALU::ZERO_FLAG));
    assert_eq!(true, registers.f.get_bit(ALU::HALF_CARRY_FLAG));
    assert_eq!(false, registers.f.get_bit(ALU::SUB_FLAG));
}

#[test]
fn add_hl_rr_adds_on_tick_1_and_finishes_on_tick_0() {
    for reg in [Reg16::BC, Reg16::DE, Reg16::SP] {
        let mut registers = Registers::new(0, 0, 0, 0, 0xC000, 0);
        registers.set_hl(0x1234);
        registers.set16(reg, 0x1234);
        let mut instruction = AddHlRr { counter: 1, reg };

        let result = instruction.act(&mut registers);

        assert_eq!(false, result);
        assert_eq!(0x2468, registers.get_hl());

        let result = instruction.act(&mut registers);
        assert_eq!(true, result);
        assert_eq!(0x2468, registers.get_hl());
    }
}

#[test]
fn add_hl_hl_doubles_hl() {
    let mut registers = Registers::new(0, 0, 0, 0, 0xC000, 0);
    registers.set_hl(0x1234);
    let mut instruction = AddHlRr { counter: 1, reg: Reg16::HL };

    instruction.act(&mut registers);

    assert_eq!(0x2468, registers.get_hl());
}

#[test]
fn inc_rr_increments_on_tick_1() {
    for reg in [Reg16::BC, Reg16::DE, Reg16::HL, Reg16::SP] {
        let mut registers = Registers::new(0, 0, 0, 0, 0xC000, 0);
        registers.set16(reg, 0x1234);
        let mut instruction = IncRr { counter: 1, reg };

        let result = instruction.act(&mut registers);

        assert_eq!(false, result);
        assert_eq!(0x1235, registers.get16(reg));

        let result = instruction.act(&mut registers);
        assert_eq!(true, result);
        assert_eq!(0x1235, registers.get16(reg));
    }
}

#[test]
fn dec_rr_decrements_on_tick_1() {
    for reg in [Reg16::BC, Reg16::DE, Reg16::HL, Reg16::SP] {
        let mut registers = Registers::new(0, 0, 0, 0, 0xC000, 0);
        registers.set16(reg, 0x1234);
        let mut instruction = DecRr { counter: 1, reg };

        let result = instruction.act(&mut registers);

        assert_eq!(false, result);
        assert_eq!(0x1233, registers.get16(reg));

        let result = instruction.act(&mut registers);
        assert_eq!(true, result);
    }
}

#[test]
fn dec_rr_wraps_below_zero() {
    let mut registers = Registers::new(0, 0, 0, 0, 0xC000, 0);
    let mut instruction = DecRr { counter: 1, reg: Reg16::DE };

    instruction.act(&mut registers);

    assert_eq!(0xFFFF, registers.get_de());
}

#[test]
fn ld_r_n_loads_the_byte_after_the_opcode() {
    for reg in [Reg8::A, Reg8::B, Reg8::C, Reg8::D, Reg8::E, Reg8::H] {
        let mut registers = Registers::new(0, 0, 0, 0, 0xC000, 0);
        let mut memory = Memory::new();
        memory.set(0xC000, 0x12);
        let mut instruction = LdRN { counter: 1, reg };

        let result = instruction.act(&mut registers, &memory);

        assert_eq!(false, result);
        assert_eq!(0x12, registers.get8(reg));
        assert_eq!(0xC001, registers.pc.get_value());

        let result = instruction.act(&mut registers, &memory);
        assert_eq!(true, result);
        assert_eq!(0xC001, registers.pc.get_value());
    }
}

#[test]
fn ld_r_n_opcodes_and_the_shared_one() {
    assert_eq!(Reg8::A, LdRN::from_opcode(&0x3E).unwrap().reg);
    assert_eq!(Reg8::B, LdRN::from_opcode(&0x06).unwrap().reg);
    assert_eq!(Reg8::C, LdRN::from_opcode(&0x0E).unwrap().reg);
    assert_eq!(Reg8::D, LdRN::from_opcode(&0x16).unwrap().reg);
    assert_eq!(Reg8::E, LdRN::from_opcode(&0x1E).unwrap().reg);
    assert_eq!(Reg8::H, LdRN::from_opcode(&0x2E).unwrap().reg);
    assert!(LdRN::from_opcode(&0x26).is_none());
    assert!(LdRN::from_opcode(&0x36).is_none());
}

#[test]
fn ld_a_rr_loads_from_the_address_in_the_pair() {
    for reg in [Reg16::BC, Reg16::DE, Reg16::HL] {
        let mut registers = Registers::new(0x1200, 0, 0, 0, 0xC000, 0);
        registers.set16(reg, 0xC000);
        let mut memory = Memory::new();
        memory.set(0xC000, 0x12);
        let mut instruction = LdARr { counter: 1, reg };

        let result = instruction.act(&mut registers, &memory);

        assert_eq!(false, result);
        assert_eq!(0x12, registers.a.get_value());

        let result = instruction.act(&mut registers, &memory);
        assert_eq!(true, result);
    }
}

#[test]
fn ld_hl_r_takes_the_address_then_writes() {
    for reg in [Reg8::B, Reg8::C, Reg8::D, Reg8::E] {
        let mut registers = Registers::new(0, 0, 0, 0xC000, 0xC000, 0);
        let mut memory = Memory::new();
        let mut instruction = LdHlR { counter: 1, address: 0x0000, reg };

        let result = instruction.act(&mut registers, &mut memory);

        assert_eq!(false, result);
        assert_eq!(0xC000, instruction.address);

        registers.set8(reg, 0x12);
        let result = instruction.act(&mut registers, &mut memory);

        assert_eq!(true, result);
        assert_eq!(0x12, memory.get(0xC000));
    }
}

#[test]
fn ld_r_hl_takes_the_address_then_reads() {
    for reg in ALL_EIGHT_BIT {
        let mut registers = Registers::new(0, 0, 0, 0xC000, 0xC000, 0);
        let mut memory = Memory::new();
        memory.set(0xC000, 0x12);
        let mut instruction = LdRHl { counter: 1, address: 0x0000, reg };

        let result = instruction.act(&mut registers, &memory);

        assert_eq!(false, result);
        assert_eq!(0xC000, instruction.address);

        let result = instruction.act(&mut registers, &memory);

        assert_eq!(true, result);
        assert_eq!(0x12, registers.get8(reg));
    }
}

#[test]
fn call_cc_nn_with_condition_met_calls() {
    let mut registers = Registers::new(0, 0, 0, 0, 0xC000, 0xE000);
    registers.f.set_bit(ALU::ZERO_FLAG, false);
    let mut memory = Memory::new();
    memory.set(0xC000, 0x12);
    memory.set(0xC001, 0x34);
    let mut instruction = CallCcNn::from_opcode(&0xC4).unwrap();
    assert_eq!(Cond::NZ, instruction.cond);

    assert_eq!(false, instruction.act(&mut registers, &mut memory));
    assert_eq!(0x3412, instruction.address);
    assert_eq!(0xC002, registers.pc.get_value());

    assert_eq!(false, instruction.act(&mut registers, &mut memory));
    assert_eq!(0xDFFE, registers.sp.get_value());
    assert_eq!(0x02, memory.get(0xDFFE));
    assert_eq!(0xC0, memory.get(0xDFFF));

    assert_eq!(true, instruction.act(&mut registers, &mut memory));
    assert_eq!(0x3412, registers.pc.get_value());
}

#[test]
fn call_cc_nn_with_condition_not_met_only_skips_the_address() {
    let mut registers = Registers::new(0, 0, 0, 0, 0xC000, 0xE000);
    registers.f.set_bit(ALU::CARRY_FLAG, true);
    let mut memory = Memory::new();
    let mut instruction = CallCcNn::from_opcode(&0xDC).unwrap();
    assert_eq!(Cond::C, instruction.cond);

    assert_eq!(false, instruction.act(&mut registers, &mut memory));
    assert_eq!(0xC002, registers.pc.get_value());
    assert_eq!(false, instruction.act(&mut registers, &mut memory));
    assert_eq!(0xE000, registers.sp.get_value());
    assert_eq!(0x00, memory.get(0xDFFF));
    assert_eq!(0x00, memory.get(0xDFFE));
    assert_eq!(true, instruction.act(&mut registers, &mut memory));
    assert_eq!(0xC002, registers.pc.get_value());
}

// Each conditional call with the flag it tests and the value of that flag
// that makes it call: CALL C, nn calls when the carry flag is clear.
const CALL_CONDITIONS: [(u8, u8, bool); 4] = [
    (0xC4, ALU::ZERO_FLAG, false),
    (0xCC, ALU::ZERO_FLAG, true),
    (0xD4, ALU::CARRY_FLAG, false),
    (0xDC, ALU::CARRY_FLAG, false),
];

#[test]
fn call_cc_nn_loads_address_on_tick_2_if_condition_met() {
    for (opcode, flag, wants_set) in CALL_CONDITIONS {
        let mut registers = Registers::new(0, 0, 0, 0, 0xC000, 0xE000);
        registers.f.set_bit(flag, wants_set);
        let mut memory = Memory::new();
        memory.set(0xC000, 0x12);
        memory.set(0xC001, 0x34);
        let mut instruction = CallCcNn::from_opcode(&opcode).unwrap();

        let result = instruction.act(&mut registers, &mut memory);

        assert_eq!(false, result);
        assert_eq!(0x3412, instruction.address);
        assert_eq!(0xC002, registers.pc.get_value());
    }
}

#[test]
fn call_cc_nn_increases_pc_if_condition_not_met() {
    for (opcode, flag, wants_set) in CALL_CONDITIONS {
        let mut registers = Registers::new(0, 0, 0, 0, 0xC000, 0xE000);
        registers.f.set_bit(flag, !wants_set);
        let mut memory = Memory::new();
        let mut instruction = CallCcNn::from_opcode(&opcode).unwrap();

        let result = instruction.act(&mut registers, &mut memory);

        assert_eq!(false, result);
        assert_eq!(0xC002, registers.pc.get_value());
    }
}

#[test]
fn call_cc_nn_saves_address_to_stack_on_tick_1_if_condition_met() {
    for (opcode, flag, wants_set) in CALL_CONDITIONS {
        let mut registers = Registers::new(0, 0, 0, 0, 0x1234, 0xE000);
        registers.f.set_bit(flag, wants_set);
        let mut memory = Memory::new();
        let mut instruction = CallCcNn::from_opcode(&opcode).unwrap();
        instruction.counter = 1;

        let result = instruction.act(&mut registers, &mut memory);

        assert_eq!(false, result);
        assert_eq!(0xDFFE, registers.sp.get_value());
        assert_eq!(0x34, memory.get(registers.sp.get_value()));
        assert_eq!(0x12, memory.get(registers.sp.get_value() + 1));
    }
}

#[test]
fn call_cc_nn_does_not_save_address_to_stack_on_tick_1_if_condition_not_met() {
    for (opcode, flag, wants_set) in CALL_CONDITIONS {
        let mut registers = Registers::new(0, 0, 0, 0, 0x1234, 0xE000);
        registers.f.set_bit(flag, !wants_set);
        let mut memory = Memory::new();
        let mut instruction = CallCcNn::from_opcode(&opcode).unwrap();
        instruction.counter = 1;

        let result = instruction.act(&mut registers, &mut memory);

        assert_eq!(false, result);
        assert_eq!(0xE000, registers.sp.get_value());
        assert_eq!(0x00, memory.get(registers.sp.get_value() - 1));
        assert_eq!(0x00, memory.get(registers.sp.get_value() - 2));
    }
}

#[test]
fn call_cc_nn_updates_pc_on_tick_0_and_gets_next_instruction() {
    for (opcode, flag, wants_set) in CALL_CONDITIONS {
        let mut registers = Registers::new(0, 0, 0, 0, 0xC000, 0);
        registers.f.set_bit(flag, wants_set);
        let mut instruction = CallCcNn::from_opcode(&opcode).unwrap();
        instruction.counter = 0;
        instruction.address = 0x1234;

        let result = instruction.act(&mut registers, &mut Memory::new());

        assert_eq!(true, result);
        assert_eq!(0x1234, registers.pc.get_value());
    }
}

#[test]
fn call_cc_nn_does_not_update_pc_on_tick_0_if_condition_not_met() {
    for (opcode, flag, wants_set) in CALL_CONDITIONS {
        let mut registers = Registers::new(0, 0, 0, 0, 0xC000, 0);
        registers.f.set_bit(flag, !wants_set);
        let mut instruction = CallCcNn::from_opcode(&opcode).unwrap();
        instruction.counter = 0;
        instruction.address = 0x1234;

        let result = instruction.act(&mut registers, &mut Memory::new());

        assert_eq!(true, result);
        assert_eq!(0xC000, registers.pc.get_value());
    }
}

#[test]
fn jp_cc_nn_reads_the_address_then_jumps_when_the_condition_holds() {
    let mut registers = Registers::new(0, 0, 0, 0, 0xC000, 0);
    registers.f.set_bit(ALU::ZERO_FLAG, true);
    let mut memory = Memory::new();
    memory.set(0xC000, 0x34);
    memory.set(0xC001, 0x12);
    let mut instruction = JpCcNn::from_opcode(&0xCA).unwrap();
    assert_eq!(Cond::Z, instruction.cond);

    assert_eq!(false, instruction.act(&mut registers, &memory));
    assert_eq!(0x0034, instruction.address);
    assert_eq!(false, instruction.act(&mut registers, &memory));
    assert_eq!(0x1234, instruction.address);
    assert_eq!(true, instruction.act(&mut registers, &memory));
    assert_eq!(0x1234, registers.pc.get_value());
}

#[test]
fn jp_cc_nn_stays_when_the_condition_fails() {
    let mut registers = Registers::new(0, 0, 0, 0, 0xC000, 0);
    registers.f.set_bit(ALU::CARRY_FLAG, true);
    let mut instruction = JpCcNn { counter: 0, address: 0x1234, cond: Cond::NC };

    let result = instruction.act(&mut registers, &Memory::new());

    assert_eq!(true, result);
    assert_eq!(0xC000, registers.pc.get_value());
}

#[test]
fn rlc_r_rotates_left_through_bit_0() {
    let mut registers = Registers::new(0, 0, 0, 0, 0xC000, 0);
    registers.b.set_value(0b00010001);
    registers.f.set_bit(ALU::CARRY_FLAG, true);
    let mut instruction = RlcR { counter: 1, reg: Reg8::B };

    let result = instruction.act(&mut registers);

    assert_eq!(false, result);
    assert_eq!(false, registers.f.get_bit(ALU::ZERO_FLAG));
    assert_eq!(false, registers.f.get_bit(ALU::SUB_FLAG));
    assert_eq!(false, registers.f.get_bit(ALU::HALF_CARRY_FLAG));
    assert_eq!(false, registers.f.get_bit(ALU::CARRY_FLAG));
    assert_eq!(0b00100010, registers.b.get_value());
    assert_eq!(true, instruction.act(&mut registers));
}

#[test]
fn rlc_r_carries_out_bit_7() {
    let mut registers = Registers::new(0, 0, 0, 0, 0xC000, 0);
    registers.e.set_value(0b10000001);
    let mut instruction = RlcR { counter: 1, reg: Reg8::E };

    instruction.act(&mut registers);

    assert_eq!(0b00000011, registers.e.get_value());
    assert_eq!(true, registers.f.get_bit(ALU::CARRY_FLAG));
}

#[test]
fn rrc_r_rotates_right_through_bit_7() {
    let mut registers = Registers::new(0, 0, 0, 0, 0xC000, 0);
    registers.c.set_value(0b00100011);
    let mut instruction = RrcR { counter: 1, reg: Reg8::C };

    let result = instruction.act(&mut registers);

    assert_eq!(false, result);
    assert_eq!(false, registers.f.get_bit(ALU::ZERO_FLAG));
    assert_eq!(true, registers.f.get_bit(ALU::CARRY_FLAG));
    assert_eq!(0b10010001, registers.c.get_value());
    assert_eq!(true, instruction.act(&mut registers));
}

#[test]
fn rr_r_rotates_right_through_the_carry() {
    let mut registers = Registers::new(0, 0, 0, 0, 0xC000, 0);
    registers.d.set_value(0b00100011);
    let mut instruction = RrR { counter: 1, reg: Reg8::D };

    let result = instruction.act(&mut registers);

    assert_eq!(false, result);
    assert_eq!(false, registers.f.get_bit(ALU::ZERO_FLAG));
    assert_eq!(false, registers.f.get_bit(ALU::SUB_FLAG));
    assert_eq!(false, registers.f.get_bit(ALU::HALF_CARRY_FLAG));
    assert_eq!(true, registers.f.get_bit(ALU::CARRY_FLAG));
    assert_eq!(0b00010001, registers.d.get_value());
}

#[test]
fn rr_r_shifts_the_old_carry_into_bit_7() {
    let mut registers = Registers::new(0, 0, 0, 0, 0xC000, 0);
    registers.d.set_value(0b00000010);
    registers.f.set_bit(ALU::CARRY_FLAG, true);
    let mut instruction = RrR { counter: 1, reg: Reg8::D };

    instruction.act(&mut registers);

    assert_eq!(0b10000001, registers.d.get_value());
    assert_eq!(false, registers.f.get_bit(ALU::CARRY_FLAG));
}

#[test]
fn bit_b_r_tests_every_bit_of_every_register() {
    for reg in ALL_EIGHT_BIT {
        for bit in 0..8u8 {
            let mut registers = Registers::new(0, 0, 0, 0, 0xC000, 0);
            let mut value = Register8::new(0);
            value.set_bit(bit, true);
            registers.set8(reg, value.get_value());
            let mut instruction = BitBR { counter: 1, bit, reg };

            let result = instruction.act(&mut registers);

            assert_eq!(false, result);
            assert_eq!(false, registers.f.get_bit(ALU::SUB_FLAG));
            assert_eq!(true, registers.f.get_bit(ALU::HALF_CARRY_FLAG));
            assert_eq!(false, registers.f.get_bit(ALU::ZERO_FLAG));

            registers.set8(reg, !value.get_value());
            let mut instruction = BitBR { counter: 1, bit, reg };
            instruction.act(&mut registers);
            assert_eq!(true, registers.f.get_bit(ALU::ZERO_FLAG));
            assert_eq!(true, instruction.act(&mut registers));
        }
    }
}

#[test]
fn res_b_r_and_set_b_r_change_only_their_bit() {
    for reg in ALL_EIGHT_BIT {
        for bit in 0..8u8 {
            let mut registers = Registers::new(0, 0, 0, 0, 0xC000, 0);
            registers.set8(reg, 0xFF);
            let mut res = ResBR { counter: 1, bit, reg };
            assert_eq!(false, res.act(&mut registers));
            assert_eq!(0xFF ^ (1u8 << bit), registers.get8(reg));
            assert_eq!(true, res.act(&mut registers));

            registers.set8(reg, 0x00);
            let mut set = SetBR { counter: 1, bit, reg };
            assert_eq!(false, set.act(&mut registers));
            assert_eq!(1u8 << bit, registers.get8(reg));
            assert_eq!(true, set.act(&mut registers));
        }
    }
}

#[test]
fn swap_r_swaps_the_nibbles() {
    for reg in ALL_EIGHT_BIT {
        let mut registers = Registers::new(0, 0, 0, 0, 0xC000, 0);
        registers.set8(reg, 0x12);
        let mut instruction = SwapR { reg };

        let result = instruction.act(&mut registers);

        assert_eq!(true, result);
        assert_eq!(false, registers.f.get_bit(ALU::SUB_FLAG));
        assert_eq!(false, registers.f.get_bit(ALU::HALF_CARRY_FLAG));
        assert_eq!(false, registers.f.get_bit(ALU::CARRY_FLAG));
        assert_eq!(false, registers.f.get_bit(ALU::ZERO_FLAG));
        assert_eq!(0x21, registers.get8(reg));
    }
}

#[test]
fn swap_r_of_zero_sets_zero() {
    let mut registers = Registers::new(0, 0, 0, 0, 0xC000, 0);
    registers.h.set_value(0x00);
    let mut instruction = SwapR { reg: Reg8::H };

    let result = instruction.act(&mut registers);

    assert_eq!(true, result);
    assert_eq!(true, registers.f.get_bit(ALU::ZERO_FLAG));
    assert_eq!(0x00, registers.h.get_value());
}

#[test]
fn bit_b_hl_runs_its_four_ticks() {
    let mut registers = Registers::new(0, 0, 0, 0xC000, 0xC000, 0);
    let mut memory = Memory::new();
    memory.set(0xC000, 0x12);
    let mut instruction = BitBHl { counter: 3, bit: 4, value_register: Register8::new(0) };

    assert_eq!(false, instruction.act(&mut registers, &mut memory));
    assert_eq!(0x12, instruction.value_register.get_value());

    assert_eq!(false, instruction.act(&mut registers, &mut memory));
    assert_eq!(false, registers.f.get_bit(ALU::SUB_FLAG));
    assert_eq!(true, registers.f.get_bit(ALU::HALF_CARRY_FLAG));
    assert_eq!(false, registers.f.get_bit(ALU::ZERO_FLAG));

    assert_eq!(false, instruction.act(&mut registers, &mut memory));
    assert_eq!(0x12, memory.get(0xC000));

    assert_eq!(true, instruction.act(&mut registers, &mut memory));
}

#[test]
fn bit_b_hl_of_a_clear_bit_sets_zero() {
    let mut registers = Registers::new(0, 0, 0, 0, 0xC000, 0);
    let mut memory = Memory::new();
    let mut instruction = BitBHl { counter: 2, bit: 3, value_register: Register8::new(0) };

    let result = instruction.act(&mut registers, &mut memory);

    assert_eq!(false, result);
    assert_eq!(true, registers.f.get_bit(ALU::HALF_CARRY_FLAG));
    assert_eq!(true, registers.f.get_bit(ALU::ZERO_FLAG));
}

#[test]
fn res_b_hl_reads_resets_and_writes_back() {
    let mut registers = Registers::new(0, 0, 0, 0xC000, 0xC000, 0);
    let mut memory = Memory::new();
    memory.set(0xC000, 0xFF);
    let mut instruction = ResBHl { counter: 3, bit: 0, value_register: Register8::new(0) };

    assert_eq!(false, instruction.act(&mut registers, &mut memory));
    assert_eq!(0xFF, instruction.value_register.get_value());
    assert_eq!(false, instruction.act(&mut registers, &mut memory));
    assert_eq!(false, instruction.value_register.get_bit(0));
    assert_eq!(false, instruction.act(&mut registers, &mut memory));
    assert_eq!(0xFE, memory.get(0xC000));
    assert_eq!(true, instruction.act(&mut registers, &mut memory));
}

#[test]
fn set_b_hl_reads_sets_and_writes_back() {
    let mut registers = Registers::new(0, 0, 0, 0xC000, 0xC000, 0);
    let mut memory = Memory::new();
    let mut instruction = SetBHl { counter: 3, bit: 7, value_register: Register8::new(0) };

    assert_eq!(false, instruction.act(&mut registers, &mut memory));
    assert_eq!(0x00, instruction.value_register.get_value());
    assert_eq!(false, instruction.act(&mut registers, &mut memory));
    assert_eq!(true, instruction.value_register.get_bit(7));
    assert_eq!(false, instruction.act(&mut registers, &mut memory));
    assert_eq!(0x80, memory.get(0xC000));
    assert_eq!(true, instruction.act(&mut registers, &mut memory));
}
