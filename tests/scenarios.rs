use emu8080::emulator::Emulator;
use emu8080::machine::{EmulatorError, Status};

fn loaded(program: &[u8]) -> Emulator {
    let mut emulator = Emulator::new();
    emulator.load_rom(program);
    emulator
}

#[test]
fn mvi_jmp_nop_hlt() {
    let mut emulator = loaded(&[0x3E, 0x42, 0xC3, 0x05, 0x00, 0x00, 0x76]);
    assert_eq!(emulator.run(), Ok(()));
    assert_eq!(emulator.cpu_state.pc.get(), 0x0007);
    assert_eq!(emulator.cpu_state.psw.a, 0x42);
    assert_eq!(emulator.cycles, 28);
}

#[test]
fn counting_with_inr() {
    let mut emulator = loaded(&[0x06, 0x03, 0x04, 0x04, 0x04, 0x76]);
    assert_eq!(emulator.run(), Ok(()));
    assert_eq!(emulator.cpu_state.bc.rh, 6);
    assert!(!emulator.cpu_state.psw.is_zero_set());
    assert!(emulator.cpu_state.psw.is_parity_set());
    assert!(!emulator.cpu_state.psw.is_sign_set());
    assert_eq!(emulator.cycles, 7 + 5 + 5 + 5 + 7);
}

#[test]
fn call_and_return() {
    let mut emulator = loaded(&[0x31, 0x00, 0x24, 0xCD, 0x07, 0x00, 0x76, 0xC9]);
    assert_eq!(emulator.run(), Ok(()));
    assert_eq!(emulator.cpu_state.pc.get(), 0x0007);
    assert_eq!(emulator.cpu_state.sp.get(), 0x2400);
    assert_eq!(emulator.memory.read8(0x23FE), 0x06);
    assert_eq!(emulator.memory.read8(0x23FF), 0x00);
}

#[test]
fn rlc_sets_carry() {
    let mut emulator = loaded(&[0x3E, 0x80, 0x07, 0x76]);
    assert_eq!(emulator.run(), Ok(()));
    assert_eq!(emulator.cpu_state.psw.a, 0x01);
    assert!(emulator.cpu_state.psw.is_carry_set());
}

#[test]
fn adi_overflow_flags() {
    let mut emulator = loaded(&[0x3E, 0xFF, 0xC6, 0x01, 0x76]);
    assert_eq!(emulator.run(), Ok(()));
    assert_eq!(emulator.cpu_state.psw.a, 0x00);
    assert!(emulator.cpu_state.psw.is_carry_set());
    assert!(emulator.cpu_state.psw.is_zero_set());
    assert!(emulator.cpu_state.psw.is_parity_set());
    assert!(!emulator.cpu_state.psw.is_sign_set());
}

#[test]
fn push_pop_hl() {
    let mut emulator = loaded(&[0x21, 0x34, 0x12, 0xE5, 0xE1, 0x76]);
    let start_sp = emulator.cpu_state.sp.get();
    assert_eq!(emulator.step(), Ok(Status::Running));
    assert_eq!(emulator.step(), Ok(Status::Running));
    let below = start_sp.wrapping_sub(2);
    assert_eq!(emulator.memory.read8(below), 0x34);
    assert_eq!(emulator.memory.read8(below.wrapping_add(1)), 0x12);
    assert_eq!(emulator.run(), Ok(()));
    assert_eq!(emulator.cpu_state.hl.get(), 0x1234);
    assert_eq!(emulator.cpu_state.sp.get(), start_sp);
}

#[test]
fn push_at_sp_zero_wraps() {
    let mut emulator = loaded(&[0x01, 0xCD, 0xAB, 0xC5, 0x76]);
    assert_eq!(emulator.run(), Ok(()));
    assert_eq!(emulator.cpu_state.sp.get(), 0xFFFE);
    assert_eq!(emulator.memory.read8(0xFFFE), 0xCD);
    assert_eq!(emulator.memory.read8(0xFFFF), 0xAB);
    assert_eq!(emulator.memory.read16(0xFFFE), 0xABCD);
}

#[test]
fn inr_wraps_at_ff() {
    // STC, MVI A,FF, INR A
    let mut emulator = loaded(&[0x37, 0x3E, 0xFF, 0x3C, 0x76]);
    assert_eq!(emulator.run(), Ok(()));
    assert_eq!(emulator.cpu_state.psw.a, 0x00);
    assert!(emulator.cpu_state.psw.is_zero_set());
    assert!(!emulator.cpu_state.psw.is_sign_set());
    assert!(emulator.cpu_state.psw.is_carry_set());
}

#[test]
fn dcr_wraps_at_zero() {
    let mut emulator = loaded(&[0x0E, 0x00, 0x0D, 0x76]);
    assert_eq!(emulator.run(), Ok(()));
    assert_eq!(emulator.cpu_state.bc.rl, 0xFF);
    assert!(emulator.cpu_state.psw.is_sign_set());
    assert!(!emulator.cpu_state.psw.is_zero_set());
    assert!(!emulator.cpu_state.psw.is_carry_set());
}

#[test]
fn dad_carry_out() {
    let mut emulator = loaded(&[0x21, 0xFF, 0xFF, 0x11, 0x01, 0x00, 0x19, 0x76]);
    assert_eq!(emulator.run(), Ok(()));
    assert_eq!(emulator.cpu_state.hl.get(), 0x0000);
    assert!(emulator.cpu_state.psw.is_carry_set());
}

#[test]
fn mov_same_register_is_no_op() {
    for reg in [0u8, 1, 2, 3, 4, 5, 7] {
        let opcode = 0x40 | (reg << 3) | reg;
        let mut emulator = loaded(&[0x01, 0x22, 0x11, 0x11, 0x44, 0x33, 0x21, 0x66, 0x55, 0x3E, 0x77, opcode, 0x76]);
        for _ in 0..4 {
            assert_eq!(emulator.step(), Ok(Status::Running));
        }
        let flags = emulator.cpu_state.psw.flags;
        let cycles = emulator.cycles;
        assert_eq!(emulator.step(), Ok(Status::Running));
        assert_eq!(emulator.cycles, cycles + 4);
        assert_eq!(emulator.cpu_state.pc.get(), 12);
        assert_eq!(emulator.cpu_state.bc.get(), 0x1122);
        assert_eq!(emulator.cpu_state.de.get(), 0x3344);
        assert_eq!(emulator.cpu_state.hl.get(), 0x5566);
        assert_eq!(emulator.cpu_state.psw.a, 0x77);
        assert_eq!(emulator.cpu_state.psw.flags, flags);
    }
}

#[test]
fn xchg_twice_restores() {
    let mut emulator = loaded(&[0x11, 0x34, 0x12, 0x21, 0x78, 0x56, 0xEB, 0x76]);
    assert_eq!(emulator.run(), Ok(()));
    assert_eq!(emulator.cpu_state.de.get(), 0x5678);
    assert_eq!(emulator.cpu_state.hl.get(), 0x1234);
    let mut emulator = loaded(&[0x11, 0x34, 0x12, 0x21, 0x78, 0x56, 0xEB, 0xEB, 0x76]);
    assert_eq!(emulator.run(), Ok(()));
    assert_eq!(emulator.cpu_state.de.get(), 0x1234);
    assert_eq!(emulator.cpu_state.hl.get(), 0x5678);
}

#[test]
fn xthl_twice_restores() {
    // LXI SP,2400; LXI B,BEEF; PUSH B; LXI H,1234; XTHL
    let once = [0x31, 0x00, 0x24, 0x01, 0xEF, 0xBE, 0xC5, 0x21, 0x34, 0x12, 0xE3, 0x76];
    let mut emulator = loaded(&once);
    assert_eq!(emulator.run(), Ok(()));
    assert_eq!(emulator.cpu_state.hl.get(), 0xBEEF);
    assert_eq!(emulator.memory.read16(0x23FE), 0x1234);
    let twice = [0x31, 0x00, 0x24, 0x01, 0xEF, 0xBE, 0xC5, 0x21, 0x34, 0x12, 0xE3, 0xE3, 0x76];
    let mut emulator = loaded(&twice);
    assert_eq!(emulator.run(), Ok(()));
    assert_eq!(emulator.cpu_state.hl.get(), 0x1234);
    assert_eq!(emulator.memory.read16(0x23FE), 0xBEEF);
    assert_eq!(emulator.cycles, 10 + 10 + 11 + 10 + 18 + 18 + 7);
}

#[test]
fn rotate_right_then_left_restores() {
    // MVI A,B5 (bit 0 set); STC; RRC x4; RLC x4
    let mut emulator = loaded(&[0x3E, 0xB5, 0x37, 0x0F, 0x0F, 0x0F, 0x0F, 0x07, 0x07, 0x07, 0x07, 0x76]);
    assert_eq!(emulator.run(), Ok(()));
    assert_eq!(emulator.cpu_state.psw.a, 0xB5);
    assert!(emulator.cpu_state.psw.is_carry_set());
    // bit 0 clear and carry clear
    let mut emulator = loaded(&[0x3E, 0x6A, 0x0F, 0x0F, 0x0F, 0x0F, 0x07, 0x07, 0x07, 0x07, 0x76]);
    assert_eq!(emulator.run(), Ok(()));
    assert_eq!(emulator.cpu_state.psw.a, 0x6A);
    assert!(!emulator.cpu_state.psw.is_carry_set());
}

#[test]
fn cma_twice_restores() {
    let mut emulator = loaded(&[0x3E, 0x5C, 0x2F, 0x76]);
    assert_eq!(emulator.run(), Ok(()));
    assert_eq!(emulator.cpu_state.psw.a, 0xA3);
    let mut emulator = loaded(&[0x3E, 0x5C, 0x2F, 0x2F, 0x76]);
    assert_eq!(emulator.run(), Ok(()));
    assert_eq!(emulator.cpu_state.psw.a, 0x5C);
}

#[test]
fn arithmetic_flags_follow_result() {
    // SUI 1 from 0: A=FF, borrow, sign, even parity
    let mut emulator = loaded(&[0xD6, 0x01, 0x76]);
    assert_eq!(emulator.run(), Ok(()));
    let psw = &emulator.cpu_state.psw;
    assert_eq!(psw.a, 0xFF);
    assert!(psw.is_carry_set());
    assert!(psw.is_sign_set());
    assert!(!psw.is_zero_set());
    assert!(psw.is_parity_set());
    // MVI A,07; ANI 03: A=03, carry cleared, even parity
    let mut emulator = loaded(&[0x37, 0x3E, 0x07, 0xE6, 0x03, 0x76]);
    assert_eq!(emulator.run(), Ok(()));
    let psw = &emulator.cpu_state.psw;
    assert_eq!(psw.a, 0x03);
    assert!(!psw.is_carry_set());
    assert!(psw.is_parity_set());
    // MVI A,10; CPI 20: A kept, borrow set, odd parity of F0? F0 has four ones
    let mut emulator = loaded(&[0x3E, 0x10, 0xFE, 0x20, 0x76]);
    assert_eq!(emulator.run(), Ok(()));
    let psw = &emulator.cpu_state.psw;
    assert_eq!(psw.a, 0x10);
    assert!(psw.is_carry_set());
    assert!(psw.is_sign_set());
    assert!(psw.is_parity_set());
    // MVI A,01; ORI 02: A=03; XRI 01: A=02, odd parity
    let mut emulator = loaded(&[0x3E, 0x01, 0xF6, 0x02, 0xEE, 0x01, 0x76]);
    assert_eq!(emulator.run(), Ok(()));
    assert_eq!(emulator.cpu_state.psw.a, 0x02);
    assert!(!emulator.cpu_state.psw.is_parity_set());
}

#[test]
fn carry_chains() {
    // STC; MVI A,FE; ACI 01: FE+01+1 = 100 -> A=00, C
    let mut emulator = loaded(&[0x37, 0x3E, 0xFE, 0xCE, 0x01, 0x76]);
    assert_eq!(emulator.run(), Ok(()));
    assert_eq!(emulator.cpu_state.psw.a, 0x00);
    assert!(emulator.cpu_state.psw.is_carry_set());
    // STC; MVI A,05; SBI 05: 05-05-1 -> FF, borrow
    let mut emulator = loaded(&[0x37, 0x3E, 0x05, 0xDE, 0x05, 0x76]);
    assert_eq!(emulator.run(), Ok(()));
    assert_eq!(emulator.cpu_state.psw.a, 0xFF);
    assert!(emulator.cpu_state.psw.is_carry_set());
    // STC; CMC: carry cleared; CMC again: set
    let mut emulator = loaded(&[0x37, 0x3F, 0x76]);
    assert_eq!(emulator.run(), Ok(()));
    assert!(!emulator.cpu_state.psw.is_carry_set());
    let mut emulator = loaded(&[0x37, 0x3F, 0x3F, 0x76]);
    assert_eq!(emulator.run(), Ok(()));
    assert!(emulator.cpu_state.psw.is_carry_set());
}

#[test]
fn conditional_transfers() {
    // XRA A (Z=1); JNZ 0010 not taken; JZ 0009 taken; at 0009: CNZ not taken (11), HLT
    let program = [0xAF, 0xC2, 0x10, 0x00, 0xCA, 0x09, 0x00, 0x76, 0x76, 0xC4, 0x00, 0x00, 0x76];
    let mut emulator = loaded(&program);
    assert_eq!(emulator.run(), Ok(()));
    assert_eq!(emulator.cpu_state.pc.get(), 13);
    assert_eq!(emulator.cycles, 4 + 10 + 10 + 11 + 7);
    // LXI SP,2400; CALL 0008; HLT; ... 0008: XRA A; RNZ (not taken, 5); RZ (taken, 11)
    let program = [0x31, 0x00, 0x24, 0xCD, 0x08, 0x00, 0x76, 0x00, 0xAF, 0xC0, 0xC8];
    let mut emulator = loaded(&program);
    assert_eq!(emulator.run(), Ok(()));
    assert_eq!(emulator.cpu_state.pc.get(), 7);
    assert_eq!(emulator.cycles, 10 + 17 + 4 + 5 + 11 + 7);
}

#[test]
fn memory_transfers() {
    // MVI A,5A; STA 2000; LDA 2000 into A after MVI A,0; LHLD/SHLD
    let program = [
        0x3E, 0x5A, 0x32, 0x00, 0x20, 0x3E, 0x00, 0x3A, 0x00, 0x20, 0x21, 0xCD, 0xAB, 0x22, 0x10,
        0x20, 0x21, 0x00, 0x00, 0x2A, 0x10, 0x20, 0x76,
    ];
    let mut emulator = loaded(&program);
    assert_eq!(emulator.run(), Ok(()));
    assert_eq!(emulator.cpu_state.psw.a, 0x5A);
    assert_eq!(emulator.memory.read8(0x2000), 0x5A);
    assert_eq!(emulator.memory.read8(0x2010), 0xCD);
    assert_eq!(emulator.memory.read8(0x2011), 0xAB);
    assert_eq!(emulator.cpu_state.hl.get(), 0xABCD);
    assert_eq!(emulator.cycles, 7 + 13 + 7 + 13 + 10 + 16 + 10 + 16 + 7);
}

#[test]
fn push_pop_psw() {
    // LXI SP,2400; MVI A,99; STC; PUSH PSW; POP B
    let mut emulator = loaded(&[0x31, 0x00, 0x24, 0x3E, 0x99, 0x37, 0xF5, 0xC1, 0x76]);
    let flags_before = {
        let mut probe = loaded(&[0x31, 0x00, 0x24, 0x3E, 0x99, 0x37, 0x76]);
        assert_eq!(probe.run(), Ok(()));
        probe.cpu_state.psw.flags
    };
    assert_eq!(emulator.run(), Ok(()));
    assert_eq!(emulator.cpu_state.bc.rh, flags_before);
    assert_eq!(emulator.cpu_state.bc.rl, 0x99);
    assert_eq!(emulator.memory.read8(0x23FE), 0x99);
}

#[test]
fn invalid_opcode_error() {
    let mut emulator = loaded(&[0x00, 0x08]);
    assert_eq!(emulator.run(), Err(EmulatorError::InvalidOpcode { pc: 1, opcode: 0x08 }));
}

#[test]
fn invalid_port_errors() {
    let mut emulator = loaded(&[0xD3, 0x07]);
    assert_eq!(emulator.run(), Err(EmulatorError::InvalidPort { pc: 0, port: 0x07 }));
    let mut emulator = loaded(&[0x00, 0xDB, 0x04]);
    assert_eq!(emulator.run(), Err(EmulatorError::InvalidPort { pc: 1, port: 0x04 }));
    assert_eq!(emulator.cpu_state.pc.get(), 1);
}

#[test]
fn daa_is_unimplemented() {
    let mut emulator = loaded(&[0x27]);
    assert_eq!(emulator.run(), Err(EmulatorError::Unimplemented { pc: 0, opcode: 0x27 }));
}

#[test]
fn ports_through_instructions() {
    // MVI A,AB; OUT 4; MVI A,CD; OUT 4; MVI A,3; OUT 2; IN 3; HLT
    let program = [0x3E, 0xAB, 0xD3, 0x04, 0x3E, 0xCD, 0xD3, 0x04, 0x3E, 0x03, 0xD3, 0x02, 0xDB, 0x03, 0x76];
    let mut emulator = loaded(&program);
    assert_eq!(emulator.run(), Ok(()));
    assert_eq!(emulator.io_ports.shift_register, 0xCDAB);
    assert_eq!(emulator.io_ports.output.shift_amount, 3);
    assert_eq!(emulator.cpu_state.psw.a, ((0xCDABu16 >> 5) & 0xFF) as u8);
}

#[test]
fn interrupt_is_delivered_as_rst() {
    // EI; then NOPs; a pending interrupt 2 becomes RST 2 (push PC, jump 0x10)
    let mut program = vec![0x00; 0x20];
    program[0] = 0x31;
    program[1] = 0x00;
    program[2] = 0x24;
    program[3] = 0xFB;
    program[0x10] = 0x76;
    let mut emulator = loaded(&program);
    assert_eq!(emulator.step(), Ok(Status::Running));
    assert_eq!(emulator.step(), Ok(Status::Running));
    emulator.interrupt_timers.interrupt = true;
    emulator.interrupt_timers.number = 2;
    assert_eq!(emulator.step(), Ok(Status::Running));
    assert_eq!(emulator.cpu_state.pc.get(), 0x10);
    assert!(!emulator.cpu_state.inte);
    assert!(!emulator.interrupt_timers.interrupt);
    assert_eq!(emulator.memory.read16(0x23FE), 4);
    assert_eq!(emulator.step(), Ok(Status::Halted));
}

#[test]
fn interrupt_dropped_when_disabled() {
    let mut emulator = loaded(&[0x00, 0x76]);
    emulator.interrupt_timers.interrupt = true;
    emulator.interrupt_timers.number = 1;
    assert_eq!(emulator.step(), Ok(Status::Running));
    assert_eq!(emulator.cpu_state.pc.get(), 1);
    assert!(!emulator.interrupt_timers.interrupt);
}
