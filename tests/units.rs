use emu8080::decoder::{decode, DecodeError};
use emu8080::disassembler::{disassemble, register, register_pair};
use emu8080::flag::Flag;
use emu8080::instruction::Instruction;
use emu8080::interrupt_timer::{InterruptTimer, InterruptTimers};
use emu8080::io_ports::{IOPorts, InvalidPort};
use emu8080::memory::{Memory, MEMORY_SIZE};
use emu8080::pointer_register::PointerRegister;
use emu8080::program_state_word::ProgramStateWord;
use emu8080::register_pair::RegisterPair;
use emu8080::cpu_state::CpuState;

#[test]
fn register_pair_round_trip() {
    let mut pair = RegisterPair::new();
    for v in [0u16, 1, 0x00FF, 0x0100, 0x1234, 0xFFFF] {
        pair.set(v);
        assert_eq!(pair.get(), v);
        assert_eq!(pair.rh, (v >> 8) as u8);
        assert_eq!(pair.rl, (v & 0xFF) as u8);
    }
}

#[test]
fn pointer_register_wraps() {
    let mut r = PointerRegister::new();
    assert_eq!(r.get(), 0);
    r.sub_assign(2);
    assert_eq!(r.get(), 0xFFFE);
    r.add_assign(3);
    assert_eq!(r.get(), 0x0001);
    r.set(0x8000);
    r.add_assign(0x8000);
    assert_eq!(r.get(), 0);
}

#[test]
fn psw_packing_and_flags() {
    let mut psw = ProgramStateWord::new();
    assert_eq!(psw.get(), 0x0200);
    psw.set(0xC5AA);
    assert_eq!(psw.a, 0xAA);
    assert_eq!(psw.flags, 0xC5);
    assert!(psw.is_carry_set() && psw.is_parity_set() && psw.is_zero_set() && psw.is_sign_set());
    psw.set_carry(0);
    assert_eq!(psw.get_carry(), 0);
    psw.set_carry(7);
    assert_eq!(psw.get_carry(), 1);
    psw.set_parity(0b0000_0111);
    assert!(!psw.is_parity_set());
    psw.set_parity(0b0000_0011);
    assert!(psw.is_parity_set());
    psw.set_zero(1);
    assert!(!psw.is_zero_set());
    psw.set_sign(0x7F);
    assert!(!psw.is_sign_set());
    psw.set_sign(0x80);
    assert!(psw.is_sign_set());
    assert_eq!(psw.flags & 0b0000_0010, 0);
    assert_eq!(u8::from(Flag::Carry), 1);
    assert_eq!(u8::from(Flag::Parity), 4);
    assert_eq!(u8::from(Flag::Zero), 64);
    assert_eq!(u8::from(Flag::Sign), 128);
}

#[test]
fn cpu_state_starts_cleared() {
    let cpu = CpuState::new();
    assert_eq!(cpu.bc.get(), 0);
    assert_eq!(cpu.de.get(), 0);
    assert_eq!(cpu.hl.get(), 0);
    assert_eq!(cpu.psw.flags, 0b0000_0010);
    assert_eq!(cpu.pc.get(), 0);
    assert_eq!(cpu.sp.get(), 0);
    assert!(!cpu.inte);
}

#[test]
fn memory_write_read() {
    let mut memory = Memory::new();
    assert_eq!(memory.read(0, MEMORY_SIZE).len(), MEMORY_SIZE);
    memory.write8(0x2345, 0x9C);
    assert_eq!(memory.read8(0x2345), 0x9C);
    memory.write16(0x2400, 0xBEEF);
    assert_eq!(memory.read16(0x2400), 0xBEEF);
    assert_eq!(memory.read8(0x2400), 0xEF);
    assert_eq!(memory.read8(0x2401), 0xBE);
    memory.write(0x3000, &[1, 2, 3, 4]);
    assert_eq!(memory.read(0x3000, 4), vec![1, 2, 3, 4]);
    assert_eq!(memory.read(0x2FFF, 2), vec![0, 1]);
}

#[test]
fn memory_mirrors_past_capacity() {
    let mut memory = Memory::new();
    memory.write8(0x5000, 0x11);
    assert_eq!(memory.read8(0x0000), 0x11);
    memory.write16(0xFFFF, 0x2233);
    assert_eq!(memory.read8(0xFFFF), 0x33);
    assert_eq!(memory.read8(0x0000), 0x22);
    assert_eq!(memory.read16(0xFFFF), 0x2233);
}

#[test]
fn io_ports_read_write() {
    let mut ports = IOPorts::new();
    assert_eq!(ports.read(0), Ok(0b0000_1110));
    assert_eq!(ports.read(1), Ok(0));
    assert_eq!(ports.read(2), Ok(0));
    assert_eq!(ports.read(5), Err(InvalidPort { port: 5 }));
    assert_eq!(ports.write(4, 0x12), Ok(()));
    assert_eq!(ports.write(4, 0x34), Ok(()));
    assert_eq!(ports.shift_register, 0x3412);
    assert_eq!(ports.read(3), Ok(0x34));
    assert_eq!(ports.write(2, 0xFC), Ok(()));
    assert_eq!(ports.output.shift_amount, 4);
    assert_eq!(ports.read(3), Ok(0x41));
    assert_eq!(ports.write(3, 7), Ok(()));
    assert_eq!(ports.write(5, 8), Ok(()));
    assert_eq!(ports.write(6, 9), Ok(()));
    assert_eq!((ports.output.sound1, ports.output.sound2, ports.output.watchdog), (7, 8, 9));
    assert_eq!(ports.write(0, 1), Err(InvalidPort { port: 0 }));
    assert_eq!(ports.write(7, 1), Err(InvalidPort { port: 7 }));
}

#[test]
fn scheduler_fires_sources_in_order() {
    let mut timers = InterruptTimers::new();
    timers.add_assign(33334);
    assert!(timers.interrupt);
    assert_eq!(timers.number, 2);
    assert_eq!(timers.timers[0].cycles, 16667);
    assert_eq!(timers.timers[1].cycles, 0);
    timers.interrupt = false;
    timers.add_assign(16666);
    assert!(!timers.interrupt);
    timers.add_assign(1);
    assert!(timers.interrupt);
    assert_eq!(timers.number, 1);
    assert_eq!(timers.timers[0].cycles, 0);
}

#[test]
fn single_source_accumulates() {
    let mut timer = InterruptTimer::new(1, 33330);
    timer.add_assign(3);
    assert!(!timer.interrupt);
    assert_eq!(timer.cycles, 33333);
    timer.add_assign(5);
    assert!(timer.interrupt);
    assert_eq!(timer.cycles, 4);
}

#[test]
fn decode_table_spot_checks() {
    assert_eq!(decode(&[0x00]), Ok(Instruction::Nop));
    assert_eq!(decode(&[0x31, 0x00, 0x24]), Ok(Instruction::Lxi { rp: 3, data: 0x2400 }));
    assert_eq!(decode(&[0x3E, 0x42]), Ok(Instruction::Mvi { reg: 7, data: 0x42 }));
    assert_eq!(decode(&[0x7E]), Ok(Instruction::Mov { dst: 7, src: 6 }));
    assert_eq!(decode(&[0x76]), Ok(Instruction::Hlt));
    assert_eq!(decode(&[0x9E]), Ok(Instruction::Sbb { reg: 6 }));
    assert_eq!(decode(&[0xF1]), Ok(Instruction::Pop { rp: 4 }));
    assert_eq!(decode(&[0xC5]), Ok(Instruction::Push { rp: 0 }));
    assert_eq!(decode(&[0xCD, 0x34, 0x12]), Ok(Instruction::Call { sub: 0x1234 }));
    assert_eq!(decode(&[0xDA, 0x01, 0x02]), Ok(Instruction::Jc { exp: 0x0201 }));
    assert_eq!(decode(&[0xFF]), Ok(Instruction::Rst { exp: 7 }));
    assert_eq!(decode(&[0xDB, 0x01]), Ok(Instruction::In { exp: 1 }));
    assert_eq!(decode(&[0x1A]), Ok(Instruction::Ldax { rp: 1 }));
    assert_eq!(decode(&[0x39]), Ok(Instruction::Dad { rp: 3 }));
}

#[test]
fn decode_errors() {
    assert_eq!(decode(&[]), Err(DecodeError::TooShort));
    assert_eq!(decode(&[0xC3, 0x00]), Err(DecodeError::TooShort));
    assert_eq!(decode(&[0x3E]), Err(DecodeError::TooShort));
    for opcode in [0x08u8, 0x10, 0x18, 0x20, 0x28, 0x30, 0x38, 0xCB, 0xD9, 0xDD, 0xED, 0xFD] {
        assert_eq!(decode(&[opcode, 0, 0]), Err(DecodeError::InvalidOpcode { opcode }));
    }
}

#[test]
fn decode_every_opcode() {
    let undefined = [0x08u8, 0x10, 0x18, 0x20, 0x28, 0x30, 0x38, 0xCB, 0xD9, 0xDD, 0xED, 0xFD];
    let mut defined = 0;
    for opcode in 0..=255u8 {
        let r = decode(&[opcode, 0x34, 0x12]);
        if undefined.contains(&opcode) {
            assert_eq!(r, Err(DecodeError::InvalidOpcode { opcode }));
            continue;
        }
        defined += 1;
        let i = r.unwrap();
        let (_, line) = disassemble(0, &[opcode, 0x34, 0x12]).unwrap();
        let column = &line[6..16];
        let shown = column.split_whitespace().count();
        assert!(shown >= 1 && shown <= 3);
        assert_eq!(decode(&[opcode, 0x34, 0x12][..shown]), Ok(i));
        if shown > 1 {
            assert_eq!(decode(&[opcode, 0x34, 0x12][..shown - 1]), Err(DecodeError::TooShort));
        }
    }
    assert_eq!(defined, 244);
}

#[test]
fn register_names() {
    let names: Vec<&str> = (0..8).map(register).collect();
    assert_eq!(names, vec!["B", "C", "D", "E", "H", "L", "M", "A"]);
    let pairs: Vec<&str> = (0..5).map(register_pair).collect();
    assert_eq!(pairs, vec!["B", "D", "H", "SP", "PSW"]);
}

#[test]
fn trace_lines() {
    let (i, line) = disassemble(0x0000, &[0x3E, 0x42, 0x00]).unwrap();
    assert_eq!(i, Instruction::Mvi { reg: 7, data: 0x42 });
    assert_eq!(line, "0000  3e 42     MVI  A, 0x42");
    let (_, line) = disassemble(0x1a2b, &[0xC3, 0x05, 0x00]).unwrap();
    assert_eq!(line, "1a2b  c3 05 00  JMP  0x5");
    let (_, line) = disassemble(0x0007, &[0x76, 0, 0]).unwrap();
    assert_eq!(line, "0007  76        HLT");
    let (_, line) = disassemble(0x0100, &[0x21, 0x34, 0x12]).unwrap();
    assert_eq!(line, "0100  21 34 12  LXI  H, 0x1234");
    let (_, line) = disassemble(0x0000, &[0x78, 0, 0]).unwrap();
    assert_eq!(line, "0000  78        MOV  A, B");
    let (_, line) = disassemble(0x0000, &[0xF5, 0, 0]).unwrap();
    assert_eq!(line, "0000  f5        PUSH PSW");
    let (_, line) = disassemble(0x0000, &[0xD7, 0, 0]).unwrap();
    assert_eq!(line, "0000  d7        RST  2");
    let (_, line) = disassemble(0x0000, &[0xDB, 0x00, 0]).unwrap();
    assert_eq!(line, "0000  db 00     IN   0x0");
    assert_eq!(disassemble(0, &[0xED]).unwrap_err(), DecodeError::InvalidOpcode { opcode: 0xED });
}
