//! The machine as a mathematical value, and what each instruction does to
//! it. The executable interpreter is specified against these functions.

use vstd::prelude::*;
use crate::display::{collides, DisplayView, blank};
use crate::instruction::{decoded, Instruction};
use crate::keypad::keypad_state;
use crate::memory::{font_address, initial_memory, with_program};
use crate::registers::{wrap16, RegistersView};
use crate::timing::Due;

verus! {

/// Why an instruction did not take effect.
#[derive(Clone, Copy, Debug, PartialEq, Eq, Structural)]
pub enum TickError {
    /// A fetch or an instruction reached outside the address space at
    /// `address`. The run cannot go on.
    InvalidAddress { address: u16 },
    /// A return found the call stack empty. The instruction is skipped.
    EmptyStack,
    /// `opcode` encodes no instruction. It is skipped.
    IncorrectOpcode { opcode: u16 },
}

impl TickError {
    /// Whether the run has to end on this error.
    pub open spec fn fatal(self) -> bool {
        self is InvalidAddress
    }

    /// Whether the run has to end on this error.
    pub fn is_fatal(&self) -> (r: bool)
        ensures
            r == self.fatal(),
    {
        match self {
            TickError::InvalidAddress { .. } => true,
            _ => false,
        }
    }
}

/// `value` reduced to eight bits.
pub open spec fn wrap8(value: int) -> u8 {
    (value % 0x100) as u8
}

/// The first address outside the address space that an access starting at
/// `base` reaches, given that it reaches one.
pub open spec fn first_invalid_address(base: u16) -> u16 {
    if base >= 4096 {
        base
    } else {
        4096
    }
}

/// Whether `key` is the lowest-numbered key that is down in `keys`.
pub open spec fn is_first_pressed(keys: Seq<bool>, key: int) -> bool {
    &&& 0 <= key < keys.len()
    &&& keys[key]
    &&& forall|lower: int| 0 <= lower < key ==> !#[trigger] keys[lower]
}

/// Whether any key is down in `keys`.
pub open spec fn any_pressed(keys: Seq<bool>) -> bool {
    exists|key: int| 0 <= key < keys.len() && #[trigger] keys[key]
}

/// The lowest-numbered key that is down in `keys`, if one is.
pub open spec fn first_pressed(keys: Seq<bool>) -> int {
    choose|key: int| is_first_pressed(keys, key)
}

/// The whole machine as a mathematical value.
pub struct Machine {
    pub registers: RegistersView,
    /// The 4096 bytes of the address space.
    pub memory: Seq<u8>,
    pub display: DisplayView,
    /// The sixteen keys, `true` for down.
    pub keys: Seq<bool>,
    pub delay_timer: u8,
    pub sound_timer: u8,
}

impl Machine {
    /// All parts have their fixed sizes.
    pub open spec fn wf(self) -> bool {
        &&& self.registers.wf()
        &&& self.memory.len() == 4096
        &&& self.display.wf()
        &&& self.keys.len() == 16
    }

    /// The machine right after creation.
    pub open spec fn initial(pixel_size: u32) -> Machine {
        Machine {
            registers: RegistersView::initial(),
            memory: initial_memory(),
            display: DisplayView { pixel_size, pixels: blank(), dirty: true },
            keys: Seq::new(16, |key: int| false),
            delay_timer: 0,
            sound_timer: 0,
        }
    }

    /// What general register `register` holds.
    pub open spec fn reg(self, register: u8) -> u8 {
        self.registers.general[register as int]
    }

    /// The machine with general register `register` holding `value`.
    pub open spec fn set_reg(self, register: u8, value: u8) -> Machine {
        Machine { registers: self.registers.with_register(register as int, value), ..self }
    }

    /// The machine with the flag register holding 1 (`set`) or 0.
    pub open spec fn set_flag(self, set: bool) -> Machine {
        Machine { registers: self.registers.with_flag(set), ..self }
    }

    /// The machine with the program counter at `value`.
    pub open spec fn set_pc(self, value: u16) -> Machine {
        Machine { registers: self.registers.with_program_counter(value), ..self }
    }

    /// The machine with the index register at `value`.
    pub open spec fn set_index(self, value: u16) -> Machine {
        Machine { registers: self.registers.with_index(value), ..self }
    }

    /// The machine with the program counter moved past one more
    /// instruction if `condition` holds.
    pub open spec fn skip_if(self, condition: bool) -> Machine {
        if condition {
            self.set_pc(wrap16(self.registers.program_counter + 2))
        } else {
            self
        }
    }

    /// The machine with the program image `data` in the program region.
    pub open spec fn load_rom(self, data: Seq<u8>) -> Machine {
        Machine { memory: with_program(self.memory, data), ..self }
    }

    /// The machine with the keypad replaced by `pressed`.
    pub open spec fn set_keys(self, pressed: Seq<bool>) -> Machine {
        Machine { keys: pressed, ..self }
    }

    /// The machine after one sixtieth of a second: each timer that is not
    /// zero goes down by one.
    pub open spec fn tick_timers(self) -> Machine {
        Machine {
            delay_timer: if self.delay_timer > 0 {
                (self.delay_timer - 1) as u8
            } else {
                0
            },
            sound_timer: if self.sound_timer > 0 {
                (self.sound_timer - 1) as u8
            } else {
                0
            },
            ..self
        }
    }

    /// Whether the two bytes at the program counter lie in the address
    /// space.
    pub open spec fn can_fetch(self) -> bool {
        self.registers.program_counter + 1 < 4096
    }

    /// The opcode at the program counter: two bytes, the high one first.
    pub open spec fn opcode(self) -> u16 {
        let pc = self.registers.program_counter as int;
        (self.memory[pc] * 0x100 + self.memory[pc + 1]) as u16
    }

    /// The machine with the program counter moved past `count` bytes.
    pub open spec fn advance(self, count: int) -> Machine {
        self.set_pc(wrap16(self.registers.program_counter + count))
    }

    /// Every pixel off.
    pub open spec fn clear_screen(self) -> Machine {
        Machine { display: self.display.cleared(), ..self }
    }

    /// Return: the program counter takes the address on top of the call
    /// stack, which loses it.
    pub open spec fn pop_stack(self) -> Machine {
        Machine {
            registers: RegistersView {
                program_counter: self.registers.call_stack.last(),
                call_stack: self.registers.call_stack.drop_last(),
                ..self.registers
            },
            ..self
        }
    }

    /// Call: the program counter goes on the call stack and then takes
    /// `address`.
    pub open spec fn push_stack(self, address: u16) -> Machine {
        Machine {
            registers: RegistersView {
                program_counter: address,
                call_stack: self.registers.call_stack.push(self.registers.program_counter),
                ..self.registers
            },
            ..self
        }
    }

    /// Register `register` plus `value`, reduced to eight bits; the flag is
    /// not written.
    pub open spec fn add_to_register(self, register: u8, value: u8) -> Machine {
        self.set_reg(register, wrap8(self.reg(register) + value))
    }

    /// The sum of two registers, reduced to eight bits, into
    /// `dest_register`; then the flag tells whether the sum passed 255.
    pub open spec fn add_registers(self, reg_1: u8, reg_2: u8, dest_register: u8) -> Machine {
        let sum = self.reg(reg_1) + self.reg(reg_2);
        self.set_reg(dest_register, wrap8(sum)).set_flag(sum > 255)
    }

    /// Register `reg_1` minus register `reg_2`, reduced to eight bits, into
    /// `dest_register`; then the flag tells that nothing was borrowed.
    pub open spec fn substract_registers(self, reg_1: u8, reg_2: u8, dest_register: u8) -> Machine {
        let difference = self.reg(reg_1) - self.reg(reg_2);
        self.set_reg(dest_register, wrap8(difference)).set_flag(difference >= 0)
    }

    /// Half of the source register into `dest_register`; then the flag
    /// gets the bit that fell off.
    pub open spec fn right_shift(self, dest_register: u8, source_register: u8) -> Machine {
        let source = self.reg(source_register);
        self.set_reg(dest_register, (source / 2) as u8).set_flag(source % 2 == 1)
    }

    /// Twice the source register, reduced to eight bits, into
    /// `dest_register`; then the flag gets the bit that fell off.
    pub open spec fn left_shift(self, dest_register: u8, source_register: u8) -> Machine {
        let source = self.reg(source_register);
        self.set_reg(dest_register, wrap8(source * 2)).set_flag(source >= 128)
    }

    /// The sprite of `number_bytes` rows at the index register.
    pub open spec fn sprite(self, number_bytes: u8) -> Seq<u8> {
        self.memory.subrange(self.registers.index as int, self.registers.index + number_bytes)
    }

    /// The sprite at the index register is drawn at the position that
    /// registers `reg_x` and `reg_y` hold, reduced to the grid; then the
    /// flag tells whether a lit pixel went off.
    pub open spec fn draw_to_screen(self, reg_x: u8, reg_y: u8, number_bytes: u8) -> Machine {
        let x = self.reg(reg_x) as int;
        let y = self.reg(reg_y) as int;
        let sprite = self.sprite(number_bytes);
        Machine { display: self.display.draw(x, y, sprite), ..self }.set_flag(
            collides(self.display.pixels, x, y, sprite),
        )
    }

    /// Whether the key named by the low nibble of register `register` is
    /// down.
    pub open spec fn key_pressed(self, register: u8) -> bool {
        self.keys[(self.reg(register) % 16) as int]
    }

    /// Wait for a key: the lowest key that is down goes to `register`;
    /// with no key down, the program counter goes back by two, so that
    /// the instruction runs again.
    pub open spec fn get_key(self, register: u8) -> Machine {
        if any_pressed(self.keys) {
            self.set_reg(register, first_pressed(self.keys) as u8)
        } else {
            self.advance(-2)
        }
    }

    /// The index register points at the glyph for the low nibble of
    /// `register`.
    pub open spec fn set_index_to_font(self, register: u8) -> Machine {
        self.set_index(font_address((self.reg(register) % 16) as int) as u16)
    }

    /// The hundreds, tens and ones of `register` are written at the index
    /// register and the two addresses after it.
    pub open spec fn binary_coded_decimal_conversion(self, register: u8) -> Machine {
        let value = self.reg(register);
        let base = self.registers.index as int;
        Machine {
            memory: self.memory.update(base, (value / 100) as u8).update(
                base + 1,
                ((value / 10) % 10) as u8,
            ).update(base + 2, (value % 10) as u8),
            ..self
        }
    }

    /// Registers 0 to `register` are written to memory from the index
    /// register on.
    pub open spec fn store_in_memory(self, register: u8) -> Machine {
        let base = self.registers.index as int;
        Machine {
            memory: Seq::new(
                4096,
                |address: int|
                    if base <= address <= base + register {
                        self.registers.general[address - base]
                    } else {
                        self.memory[address]
                    },
            ),
            ..self
        }
    }

    /// Registers 0 to `register` are read from memory from the index
    /// register on.
    pub open spec fn load_from_memory(self, register: u8) -> Machine {
        let base = self.registers.index as int;
        Machine {
            registers: RegistersView {
                general: Seq::new(
                    16,
                    |r: int|
                        if r <= register {
                            self.memory[base + r]
                        } else {
                            self.registers.general[r]
                        },
                ),
                ..self.registers
            },
            ..self
        }
    }

    /// Whether `instruction` reaches outside the address space.
    pub open spec fn faults(self, instruction: Instruction) -> bool {
        let index = self.registers.index;
        match instruction {
            Instruction::Draw { rows, .. } => index + rows > 4096,
            Instruction::DecimalDigits { .. } => index + 2 >= 4096,
            Instruction::StoreRegisters { x } | Instruction::LoadRegisters { x } => index + x
                >= 4096,
            _ => false,
        }
    }

    /// The machine after `instruction`, given that it does not fail;
    /// `random_number` is the byte that a random instruction draws.
    pub open spec fn apply(self, instruction: Instruction, random_number: u8) -> Machine {
        match instruction {
            Instruction::ClearScreen => self.clear_screen(),
            Instruction::Return => self.pop_stack(),
            Instruction::Jump { address } => self.set_pc(address),
            Instruction::Call { address } => self.push_stack(address),
            Instruction::SkipIfEqual { x, value } => self.skip_if(self.reg(x) == value),
            Instruction::SkipIfNotEqual { x, value } => self.skip_if(self.reg(x) != value),
            Instruction::SkipIfRegistersEqual { x, y } => self.skip_if(self.reg(x) == self.reg(y)),
            Instruction::LoadImmediate { x, value } => self.set_reg(x, value),
            Instruction::AddImmediate { x, value } => self.add_to_register(x, value),
            Instruction::Move { x, y } => self.set_reg(x, self.reg(y)),
            Instruction::Or { x, y } => self.set_reg(x, self.reg(x) | self.reg(y)),
            Instruction::And { x, y } => self.set_reg(x, self.reg(x) & self.reg(y)),
            Instruction::Xor { x, y } => self.set_reg(x, self.reg(x) ^ self.reg(y)),
            Instruction::Add { x, y } => self.add_registers(x, y, x),
            Instruction::Subtract { x, y } => self.substract_registers(x, y, x),
            Instruction::ShiftRight { x, y } => self.right_shift(x, y),
            Instruction::SubtractReversed { x, y } => self.substract_registers(y, x, x),
            Instruction::ShiftLeft { x, y } => self.left_shift(x, y),
            Instruction::SkipIfRegistersNotEqual { x, y } => self.skip_if(
                self.reg(x) != self.reg(y),
            ),
            Instruction::LoadIndex { address } => self.set_index(address),
            Instruction::JumpOffset { address } => self.set_pc(wrap16(address + self.reg(0))),
            Instruction::Random { x, value } => self.set_reg(x, random_number & value),
            Instruction::Draw { x, y, rows } => self.draw_to_screen(x, y, rows),
            Instruction::SkipIfKeyPressed { x } => self.skip_if(self.key_pressed(x)),
            Instruction::SkipIfKeyNotPressed { x } => self.skip_if(!self.key_pressed(x)),
            Instruction::LoadDelayTimer { x } => self.set_reg(x, self.delay_timer),
            Instruction::WaitForKey { x } => self.get_key(x),
            Instruction::SetDelayTimer { x } => Machine { delay_timer: self.reg(x), ..self },
            Instruction::SetSoundTimer { x } => Machine { sound_timer: self.reg(x), ..self },
            Instruction::AddToIndex { x } => self.set_index(
                wrap16(self.registers.index + self.reg(x)),
            ),
            Instruction::FontAddress { x } => self.set_index_to_font(x),
            Instruction::DecimalDigits { x } => self.binary_coded_decimal_conversion(x),
            Instruction::StoreRegisters { x } => self.store_in_memory(x),
            Instruction::LoadRegisters { x } => self.load_from_memory(x),
        }
    }

    /// The machine after `instruction` and what is reported. An
    /// instruction that fails leaves the machine as it was.
    pub open spec fn execute(self, instruction: Instruction, random_number: u8) -> (
        Machine,
        Result<(), TickError>,
    ) {
        if self.faults(instruction) {
            (
                self,
                Err(TickError::InvalidAddress { address: first_invalid_address(self.registers.index) }),
            )
        } else if instruction is Return && self.registers.call_stack.len() == 0 {
            (self, Err(TickError::EmptyStack))
        } else {
            (self.apply(instruction, random_number), Ok(()))
        }
    }

    /// The machine after `opcode` is decoded and executed. An opcode that
    /// encodes nothing changes nothing.
    pub open spec fn decode_and_execute(self, opcode: u16, random_number: u8) -> (
        Machine,
        Result<(), TickError>,
    ) {
        match decoded(opcode) {
            Some(instruction) => self.execute(instruction, random_number),
            None => (self, Err(TickError::IncorrectOpcode { opcode })),
        }
    }

    /// One cycle: fetch the opcode at the program counter, move the
    /// counter past it, decode and execute. A fetch outside the address
    /// space changes nothing; an instruction that fails leaves the counter
    /// past it and nothing else changed.
    pub open spec fn tick(self, random_number: u8) -> (Machine, Result<(), TickError>) {
        if self.can_fetch() {
            self.advance(2).decode_and_execute(self.opcode(), random_number)
        } else {
            (
                self,
                Err(
                    TickError::InvalidAddress {
                        address: first_invalid_address(self.registers.program_counter),
                    },
                ),
            )
        }
    }

    /// One turn of the host's loop: the keypad takes the state of the
    /// host's keys, then comes a tick if one is due, then a timer tick if
    /// one is due. What the tick reported is handed on.
    pub open spec fn run_step(self, due: Due, host_pressed: Seq<bool>, random_number: u8) -> (
        Machine,
        Result<(), TickError>,
    ) {
        let keyed = self.set_keys(keypad_state(host_pressed));
        let ticked = if due.cpu_tick {
            keyed.tick(random_number)
        } else {
            (keyed, Ok(()))
        };
        let timed = if due.timer_tick {
            ticked.0.tick_timers()
        } else {
            ticked.0
        };
        (timed, ticked.1)
    }
}

} // verus!
