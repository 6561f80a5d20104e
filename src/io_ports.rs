use vstd::prelude::*;

verus! {

/// An access to a port number that the cabinet does not wire.
#[derive(Debug, Clone, Copy, PartialEq, Eq, Structural)]
pub struct InvalidPort {
    pub port: u8,
}

/// The peripheral port bank: input latches, output latches and the hardware shifter.
pub struct IOPorts {
    pub input: InputPorts,
    pub output: OutputPorts,
    pub shift_register: u16,
}

/// Latches that the host fills from the cabinet's controls.
pub struct InputPorts {
    pub input0: u8,
    pub input1: u8,
    pub input2: u8,
}

/// Latches that the program writes.
pub struct OutputPorts {
    pub shift_amount: u8,
    pub sound1: u8,
    pub sound2: u8,
    pub watchdog: u8,
}

impl IOPorts {
    /// What reading `port` returns, or `None` for a port that cannot be read.
    pub open spec fn spec_read(&self, port: u8) -> Option<u8> {
        match port {
            0 => Some(self.input.input0),
            1 => Some(self.input.input1),
            2 => Some(self.input.input2),
            3 => Some(
                (self.shift_register >> ((8 - self.output.shift_amount % 8) as u16)) as u8,
            ),
            _ => None,
        }
    }

    /// The bank after writing `value` to `port`, or `None` for a port that cannot be written.
    pub open spec fn spec_write(self, port: u8, value: u8) -> Option<IOPorts> {
        match port {
            2 => Some(IOPorts { output: OutputPorts { shift_amount: value % 8, ..self.output }, ..self }),
            3 => Some(IOPorts { output: OutputPorts { sound1: value, ..self.output }, ..self }),
            4 => Some(
                IOPorts {
                    shift_register: (self.shift_register / 256 + value as u16 * 256) as u16,
                    ..self
                },
            ),
            5 => Some(IOPorts { output: OutputPorts { sound2: value, ..self.output }, ..self }),
            6 => Some(IOPorts { output: OutputPorts { watchdog: value, ..self.output }, ..self }),
            _ => None,
        }
    }

    pub fn new() -> (r: IOPorts)
        ensures
            r.input == InputPorts::initial(),
            r.output == OutputPorts::initial(),
            r.shift_register == 0,
    {
        IOPorts { input: InputPorts::new(), output: OutputPorts::new(), shift_register: 0 }
    }

    /// Reads an input latch (ports 0 to 2) or the shifter's result (port 3).
    pub fn read(&self, port: u8) -> (r: Result<u8, InvalidPort>)
        ensures
            match self.spec_read(port) {
                Some(v) => r == Ok::<u8, InvalidPort>(v),
                None => r == Err::<u8, InvalidPort>(InvalidPort { port }),
            },
    {
        match port {
            0 => Ok(self.input.input0),
            1 => Ok(self.input.input1),
            2 => Ok(self.input.input2),
            3 => {
                let shift_amount: u8 = self.output.shift_amount % 8;
                Ok((self.shift_register >> ((8 - shift_amount) as u16)) as u8)
            },
            _ => Err(InvalidPort { port }),
        }
    }

    /// Writes the shift amount (port 2), a sound latch (ports 3 and 5), the
    /// shifter (port 4) or the watchdog (port 6).
    pub fn write(&mut self, port: u8, value: u8) -> (r: Result<(), InvalidPort>)
        ensures
            match old(self).spec_write(port, value) {
                Some(next) => r == Ok::<(), InvalidPort>(()) && *final(self) == next,
                None => r == Err::<(), InvalidPort>(InvalidPort { port }) && *final(self) == *old(
                    self,
                ),
            },
    {
        match port {
            2 => self.output.shift_amount = value % 8,
            3 => self.output.sound1 = value,
            4 => {
                self.shift_register = self.shift_register / 256 + (value as u16) * 256;
            },
            5 => self.output.sound2 = value,
            6 => self.output.watchdog = value,
            _ => {
                return Err(InvalidPort { port });
            },
        }
        Ok(())
    }
}

impl InputPorts {
    /// The cabinet's strap bits on port 0; the other latches clear.
    pub open spec fn initial() -> InputPorts {
        InputPorts { input0: 0b0000_1110, input1: 0, input2: 0 }
    }

    pub fn new() -> (r: InputPorts)
        ensures
            r == InputPorts::initial(),
    {
        InputPorts { input0: 0b0000_1110, input1: 0, input2: 0 }
    }
}

impl OutputPorts {
    pub open spec fn initial() -> OutputPorts {
        OutputPorts { shift_amount: 0, sound1: 0, sound2: 0, watchdog: 0 }
    }

    pub fn new() -> (r: OutputPorts)
        ensures
            r == OutputPorts::initial(),
    {
        OutputPorts { shift_amount: 0, sound1: 0, sound2: 0, watchdog: 0 }
    }
}

} // verus!
