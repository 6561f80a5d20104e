pub mod cpu_state;
pub mod decoder;
pub mod disassembler;
pub mod emulator;
pub mod flag;
pub mod instruction;
pub mod interrupt_timer;
pub mod io_ports;
pub mod laws;
pub mod machine;
pub mod memory;
pub mod pointer_register;
pub mod program_state_word;
pub mod register_pair;
