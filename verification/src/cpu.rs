//! The interpreter: fetches, decodes and executes one instruction per tick
//! against the registers, the memory, the display, the keypad and the two
//! timers.

use vstd::prelude::*;
use crate::display::{lemma_draw_reduced, DisplayChip8, DisplayView, MAX_PIXEL_SIZE};
use crate::instruction::{decode, Instruction};
use crate::keypad::read_keys;
use crate::machine::{first_invalid_address, first_pressed, is_first_pressed, Machine, TickError};
use crate::memory::{loaded_length, Memory};
use crate::registers::{wrap16, Registers, RegistersView};
use crate::timing::Pacer;

verus! {

/// One machine: registers, memory, display, keypad and timers.
pub struct CPU {
    registers: Registers,
    memory: Memory,
    display: DisplayChip8,
    keys: [bool; 16],
    delay_timer: u8,
    sound_timer: u8,
}

impl View for CPU {
    type V = Machine;

    closed spec fn view(&self) -> Machine {
        Machine {
            registers: self.registers@,
            memory: self.memory@,
            display: self.display@,
            keys: self.keys@,
            delay_timer: self.delay_timer,
            sound_timer: self.sound_timer,
        }
    }
}

impl CPU {
    /// Every machine is well formed.
    pub proof fn lemma_wf(&self)
        ensures
            self@.wf(),
    {
        self.registers.lemma_wf();
        self.memory.lemma_len();
        self.display.lemma_wf();
    }

    /// A machine with no program loaded, whose display has cells of
    /// `pixel_size` on the host's surface. The size is limited so that the
    /// whole grid has `i32` coordinates there.
    pub fn new(pixel_size: u32) -> (r: Self)
        requires
            pixel_size <= MAX_PIXEL_SIZE,
        ensures
            r@ == Machine::initial(pixel_size),
    {
        let r = Self {
            registers: Registers::default(),
            memory: Memory::default(),
            display: DisplayChip8::new(pixel_size),
            keys: [false;16],
            delay_timer: 0,
            sound_timer: 0,
        };
        assert(r.keys@ =~= Machine::initial(pixel_size).keys);
        r
    }

    /// Copies the program image `data` to the program region. What does
    /// not fit is left out; the result tells how many bytes that were.
    pub fn load_rom(&mut self, data: &[u8]) -> (dropped: usize)
        ensures
            final(self)@ == old(self)@.load_rom(data@),
            dropped == data@.len() - loaded_length(data@.len() as int),
    {
        self.memory.load(data)
    }

    /// Replaces the keypad by `pressed`, entry `k` telling whether key `k`
    /// is down.
    pub fn set_keys(&mut self, pressed: [bool; 16])
        ensures
            final(self)@ == old(self)@.set_keys(pressed@),
    {
        self.keys = pressed;
    }

    /// Records that key `key` is down (`pressed`) or up.
    pub fn set_key(&mut self, key: u8, pressed: bool)
        requires
            key < 16,
        ensures
            final(self)@ == old(self)@.set_keys(old(self)@.keys.update(key as int, pressed)),
    {
        self.keys[key as usize] = pressed;
    }

    /// One sixtieth of a second has passed: each timer that is not zero
    /// goes down by one.
    pub fn tick_timers(&mut self)
        ensures
            final(self)@ == old(self)@.tick_timers(),
    {
        if self.delay_timer > 0 {
            self.delay_timer -= 1;
        }
        if self.sound_timer > 0 {
            self.sound_timer -= 1;
        }
    }

    /// Reads the byte at the program counter and moves the counter past it.
    pub fn fetch_byte(&mut self) -> (r: u8)
        requires
            old(self)@.registers.program_counter < 4096,
        ensures
            r == old(self)@.memory[old(self)@.registers.program_counter as int],
            final(self)@ == old(self)@.advance(1),
    {
        let byte = self.memory.get_value(self.registers.get_program_counter());
        self.registers.increase_program_counter(1);
        byte
    }

    /// Reads the opcode at the program counter and moves the counter past
    /// it.
    pub fn fetch_instruction(&mut self) -> (r: u16)
        requires
            old(self)@.can_fetch(),
        ensures
            r == old(self)@.opcode(),
            final(self)@ == old(self)@.advance(2),
    {
        let first_half = self.fetch_byte() as u16;
        let second_half = self.fetch_byte() as u16;
        assert((first_half << 8) | second_half == first_half * 0x100 + second_half)
            by (bit_vector)
            requires
                first_half < 0x100,
                second_half < 0x100,
        ;
        let instruction = (first_half << 8) | second_half;
        instruction
    }

    /// Return: continues at the address on top of the call stack. With an
    /// empty stack nothing changes and the error says so.
    pub fn pop_stack(&mut self) -> (r: Result<(), TickError>)
        ensures
            (final(self)@, r) == old(self)@.execute(Instruction::Return, 0),
    {
        let new_pc = self.registers.pop_return_address();
        if let Some(new_pc) = new_pc {
            self.registers.set_program_counter(new_pc);
            Ok(())
        } else {
            Err(TickError::EmptyStack)
        }
    }

    /// Call: remembers the program counter and continues at `address`.
    pub fn push_stack(&mut self, address: u16)
        ensures
            final(self)@ == old(self)@.push_stack(address),
    {
        let return_address = self.registers.get_program_counter();
        self.registers.push_return_address(return_address);
        self.registers.set_program_counter(address);
    }

    /// Moves the program counter past the next instruction.
    fn skip_instruction(&mut self)
        ensures
            final(self)@ == old(self)@.skip_if(true),
    {
        self.registers.increase_program_counter(2);
    }

    /// Skips the next instruction if register `register` equals `value`.
    pub fn skip_if_eq_register(&mut self, register: u8, value: u8)
        requires
            register < 16,
        ensures
            final(self)@ == old(self)@.skip_if(old(self)@.reg(register) == value),
    {
        let register_value = self.registers.get_register(register as usize).unwrap();
        let skip = register_value == value;
        if skip {
            self.skip_instruction();
        }
    }

    /// Skips the next instruction if register `register` differs from
    /// `value`.
    pub fn skip_if_not_eq_register(&mut self, register: u8, value: u8)
        requires
            register < 16,
        ensures
            final(self)@ == old(self)@.skip_if(old(self)@.reg(register) != value),
    {
        let register_value = self.registers.get_register(register as usize).unwrap();
        let skip = register_value != value;
        if skip {
            self.skip_instruction();
        }
    }

    /// Skips the next instruction if the two registers are equal.
    pub fn skip_if_reg_equals(&mut self, reg_1: u8, reg_2: u8)
        requires
            reg_1 < 16,
            reg_2 < 16,
        ensures
            final(self)@ == old(self)@.skip_if(old(self)@.reg(reg_1) == old(self)@.reg(reg_2)),
    {
        let first_value = self.registers.get_register(reg_1 as usize).unwrap();
        let second_value = self.registers.get_register(reg_2 as usize).unwrap();
        let skip = first_value == second_value;
        if skip {
            self.skip_instruction();
        }
    }

    /// Skips the next instruction if the two registers differ.
    pub fn skip_if_reg_not_eq(&mut self, reg_1: u8, reg_2: u8)
        requires
            reg_1 < 16,
            reg_2 < 16,
        ensures
            final(self)@ == old(self)@.skip_if(old(self)@.reg(reg_1) != old(self)@.reg(reg_2)),
    {
        let value_1 = self.registers.get_register(reg_1 as usize).unwrap();
        let value_2 = self.registers.get_register(reg_2 as usize).unwrap();
        let skip = value_1 != value_2;
        if skip {
            self.skip_instruction();
        }
    }

    /// Adds `value` to register `register`, wrapping modulo 256. The flag
    /// is not written.
    pub fn add_to_register(&mut self, register: u8, value: u8)
        requires
            register < 16,
        ensures
            final(self)@ == old(self)@.add_to_register(register, value),
    {
        let register_value = self.registers.get_register(register as usize).unwrap();
        self.registers.set_register(register as usize, register_value.wrapping_add(value));
    }

    /// Copies the source register to `dest_register`.
    pub fn set_register_value(&mut self, dest_register: u8, source_register: u8)
        requires
            dest_register < 16,
            source_register < 16,
        ensures
            final(self)@ == old(self)@.set_reg(dest_register, old(self)@.reg(source_register)),
    {
        let value = self.registers.get_register(source_register as usize).unwrap();
        self.registers.set_register(dest_register as usize, value);
    }

    /// Bitwise or of two registers, into `dest_register`.
    pub fn or_registers(&mut self, reg_1: u8, reg_2: u8, dest_register: u8)
        requires
            reg_1 < 16,
            reg_2 < 16,
            dest_register < 16,
        ensures
            final(self)@ == old(self)@.set_reg(
                dest_register,
                old(self)@.reg(reg_1) | old(self)@.reg(reg_2),
            ),
    {
        let value_1 = self.registers.get_register(reg_1 as usize).unwrap();
        let value_2 = self.registers.get_register(reg_2 as usize).unwrap();
        let new_value = value_1 | value_2;
        self.registers.set_register(dest_register as usize, new_value);
    }

    /// Bitwise and of two registers, into `dest_register`.
    pub fn and_registers(&mut self, reg_1: u8, reg_2: u8, dest_register: u8)
        requires
            reg_1 < 16,
            reg_2 < 16,
            dest_register < 16,
        ensures
            final(self)@ == old(self)@.set_reg(
                dest_register,
                old(self)@.reg(reg_1) & old(self)@.reg(reg_2),
            ),
    {
        let value_1 = self.registers.get_register(reg_1 as usize).unwrap();
        let value_2 = self.registers.get_register(reg_2 as usize).unwrap();
        let new_value = value_1 & value_2;
        self.registers.set_register(dest_register as usize, new_value);
    }

    /// Bitwise exclusive or of two registers, into `dest_register`.
    pub fn xor_registers(&mut self, reg_1: u8, reg_2: u8, dest_register: u8)
        requires
            reg_1 < 16,
            reg_2 < 16,
            dest_register < 16,
        ensures
            final(self)@ == old(self)@.set_reg(
                dest_register,
                old(self)@.reg(reg_1) ^ old(self)@.reg(reg_2),
            ),
    {
        let value_1 = self.registers.get_register(reg_1 as usize).unwrap();
        let value_2 = self.registers.get_register(reg_2 as usize).unwrap();
        let new_value = value_1 ^ value_2;
        self.registers.set_register(dest_register as usize, new_value);
    }

    /// Sum of two registers, wrapping modulo 256, into `dest_register`;
    /// then the flag becomes 1 if the sum passed 255 and 0 otherwise.
    pub fn add_registers(&mut self, reg_1: u8, reg_2: u8, dest_register: u8)
        requires
            reg_1 < 16,
            reg_2 < 16,
            dest_register < 16,
        ensures
            final(self)@ == old(self)@.add_registers(reg_1, reg_2, dest_register),
    {
        let value_1 = self.registers.get_register(reg_1 as usize).unwrap();
        let value_2 = self.registers.get_register(reg_2 as usize).unwrap();
        let new_value = value_1.wrapping_add(value_2);
        let did_overflow = value_1 > u8::MAX - value_2;
        self.registers.set_register(dest_register as usize, new_value);
        if did_overflow {
            self.registers.set_flag();
        } else {
            self.registers.reset_flag();
        }
    }

    /// Register `reg_1` minus register `reg_2`, wrapping modulo 256, into
    /// `dest_register`; then the flag becomes 1 if nothing was borrowed
    /// and 0 otherwise.
    pub fn substract_registers(&mut self, reg_1: u8, reg_2: u8, dest_register: u8)
        requires
            reg_1 < 16,
            reg_2 < 16,
            dest_register < 16,
        ensures
            final(self)@ == old(self)@.substract_registers(reg_1, reg_2, dest_register),
    {
        let value_1 = self.registers.get_register(reg_1 as usize).unwrap();
        let value_2 = self.registers.get_register(reg_2 as usize).unwrap();
        let new_value = value_1.wrapping_sub(value_2);
        let did_borrow = value_1 < value_2;
        self.registers.set_register(dest_register as usize, new_value);
        if did_borrow {
            self.registers.reset_flag();
        } else {
            self.registers.set_flag();
        }
    }

    /// The source register shifted right by one, into `dest_register`;
    /// then the flag gets the lowest bit that the source had.
    pub fn right_shift(&mut self, dest_register: u8, source_register: u8)
        requires
            dest_register < 16,
            source_register < 16,
        ensures
            final(self)@ == old(self)@.right_shift(dest_register, source_register),
    {
        let source_value = self.registers.get_register(source_register as usize).unwrap();
        assert(source_value & 1 == source_value % 2 && source_value >> 1 == source_value / 2)
            by (bit_vector);
        let did_overflow = source_value & 1 == 1;
        let new_value = source_value >> 1;
        self.registers.set_register(dest_register as usize, new_value);
        if did_overflow {
            self.registers.set_flag();
        } else {
            self.registers.reset_flag();
        }
    }

    /// The source register shifted left by one, into `dest_register`;
    /// then the flag gets the highest bit that the source had.
    pub fn left_shift(&mut self, dest_register: u8, source_register: u8)
        requires
            dest_register < 16,
            source_register < 16,
        ensures
            final(self)@ == old(self)@.left_shift(dest_register, source_register),
    {
        let source_value = self.registers.get_register(source_register as usize).unwrap();
        assert((source_value >> 7 == 1) == (source_value >= 128) && source_value << 1 == (
        source_value * 2) % 0x100) by (bit_vector);
        let did_overflow = source_value >> 7 == 1;
        let new_value = source_value << 1;
        self.registers.set_register(dest_register as usize, new_value);
        if did_overflow {
            self.registers.set_flag();
        } else {
            self.registers.reset_flag();
        }
    }

    /// Continues at `base_address` plus register 0.
    pub fn jump_address_offset(&mut self, base_address: u16)
        ensures
            final(self)@ == old(self)@.set_pc(wrap16(base_address + old(self)@.reg(0))),
    {
        let offset = self.registers.get_register(0).unwrap() as u16;
        self.registers.set_program_counter(base_address.wrapping_add(offset));
    }

    /// Puts `random_number`, masked by `mask`, in register `register`.
    pub fn set_random_number(&mut self, register: u8, mask: u8, random_number: u8)
        requires
            register < 16,
        ensures
            final(self)@ == old(self)@.set_reg(register, random_number & mask),
    {
        self.registers.set_register(register as usize, random_number & mask);
    }

    /// Draws a random byte and puts it, masked by `mask`, in register
    /// `register`. Which byte is drawn is open.
    pub fn generate_random_number(&mut self, register: u8, mask: u8)
        requires
            register < 16,
        ensures
            exists|random_number: u8|
                final(self)@ == #[trigger] old(self)@.set_reg(register, random_number & mask),
    {
        let random_number = random_byte();
        self.set_random_number(register, mask, random_number);
    }

    /// Skips the next instruction if the key named by the low nibble of
    /// register `register` is down.
    pub fn skip_if_key_pressed(&mut self, register: u8)
        requires
            register < 16,
        ensures
            final(self)@ == old(self)@.skip_if(old(self)@.key_pressed(register)),
    {
        let register_value = self.registers.get_register(register as usize).unwrap();
        assert(register_value & 0xF == register_value % 16) by (bit_vector);
        let skip = self.keys[(register_value & 0xF) as usize];
        if skip {
            self.skip_instruction();
        }
    }

    /// Skips the next instruction if the key named by the low nibble of
    /// register `register` is up.
    pub fn skip_if_not_key_pressed(&mut self, register: u8)
        requires
            register < 16,
        ensures
            final(self)@ == old(self)@.skip_if(!old(self)@.key_pressed(register)),
    {
        let register_value = self.registers.get_register(register as usize).unwrap();
        assert(register_value & 0xF == register_value % 16) by (bit_vector);
        let skip = !self.keys[(register_value & 0xF) as usize];
        if skip {
            self.skip_instruction();
        }
    }

    /// Copies the delay timer to register `register`.
    pub fn set_reg_to_delay_timer(&mut self, register: u8)
        requires
            register < 16,
        ensures
            final(self)@ == old(self)@.set_reg(register, old(self)@.delay_timer),
    {
        self.registers.set_register(register as usize, self.delay_timer);
    }

    /// Copies register `register` to the delay timer.
    pub fn set_delay_timer(&mut self, register: u8)
        requires
            register < 16,
        ensures
            final(self)@ == (Machine { delay_timer: old(self)@.reg(register), ..old(self)@ }),
    {
        self.delay_timer = self.registers.get_register(register as usize).unwrap();
    }

    /// Copies register `register` to the sound timer.
    pub fn set_sound_timer(&mut self, register: u8)
        requires
            register < 16,
        ensures
            final(self)@ == (Machine { sound_timer: old(self)@.reg(register), ..old(self)@ }),
    {
        self.sound_timer = self.registers.get_register(register as usize).unwrap();
    }

    /// Adds register `register` to the index register, wrapping past
    /// `0xFFFF`.
    pub fn add_to_index(&mut self, register: u8)
        requires
            register < 16,
        ensures
            final(self)@ == old(self)@.set_index(
                wrap16(old(self)@.registers.index + old(self)@.reg(register)),
            ),
    {
        let register_value = self.registers.get_register(register as usize).unwrap() as u16;
        let index = self.registers.get_index();
        self.registers.set_index(index.wrapping_add(register_value));
    }

    /// Points the index register at the glyph for the low nibble of
    /// register `register`.
    pub fn set_index_to_font(&mut self, register: u8)
        requires
            register < 16,
        ensures
            final(self)@ == old(self)@.set_index_to_font(register),
    {
        let register_value = self.registers.get_register(register as usize).unwrap();
        assert(register_value & 0xF == register_value % 16) by (bit_vector);
        let character = register_value & 0xF;
        let character_address = self.memory.get_font_address(character);
        self.registers.set_index(character_address);
    }

    /// Writes the hundreds, tens and ones of register `register` at the
    /// index register and the two addresses after it.
    pub fn binary_coded_decimal_conversion(&mut self, register: u8)
        requires
            register < 16,
            old(self)@.registers.index + 2 < 4096,
        ensures
            final(self)@ == old(self)@.binary_coded_decimal_conversion(register),
    {
        let register_value = self.registers.get_register(register as usize).unwrap();
        let first_digit = register_value / 100;
        let second_digit = (register_value / 10) % 10;
        let third_digit = register_value % 10;
        let base_address = self.registers.get_index();
        self.memory.set_value(base_address, first_digit);
        self.memory.set_value(base_address + 1, second_digit);
        self.memory.set_value(base_address + 2, third_digit);
    }

    /// Draws the sprite of `number_bytes` rows that starts at the index
    /// register, at the column held by `reg_x` and the row held by
    /// `reg_y`, both reduced to the grid; then the flag becomes 1 if a lit
    /// pixel went off and 0 otherwise.
    pub fn draw_to_screen(&mut self, reg_x: u8, reg_y: u8, number_bytes: u8)
        requires
            reg_x < 16,
            reg_y < 16,
            old(self)@.registers.index + number_bytes <= 4096,
        ensures
            final(self)@ == old(self)@.draw_to_screen(reg_x, reg_y, number_bytes),
    {
        let x_position = self.registers.get_register(reg_x as usize).unwrap();
        let y_position = self.registers.get_register(reg_y as usize).unwrap();
        proof {
            assert(x_position & 63 == x_position % 64) by (bit_vector);
            assert(y_position & 31 == y_position % 32) by (bit_vector);
            lemma_draw_reduced(
                self@.display.pixels,
                x_position as int,
                y_position as int,
                self@.sprite(number_bytes),
            );
        }
        let x_position = x_position & 63;
        let y_position = y_position & 31;
        let bytes = self.memory.get_slice(self.registers.get_index(), number_bytes as u16);
        let did_flip_on_pixel = self.display.draw(x_position, y_position, bytes);
        if did_flip_on_pixel {
            self.registers.set_flag();
        } else {
            self.registers.reset_flag();
        }
    }

    /// Waits for a key: the lowest key that is down goes to register
    /// `register`. With no key down the program counter goes back by two,
    /// so that the instruction is fetched again on the next tick.
    pub fn get_key(&mut self, register: u8)
        requires
            register < 16,
        ensures
            final(self)@ == old(self)@.get_key(register),
    {
        let mut found_key = false;
        let mut key: u8 = 0;
        while key < 16 && !found_key
            invariant
                register < 16,
                key <= 16,
                !found_key ==> *self == *old(self),
                !found_key ==> forall|lower: int| 0 <= lower < key ==> !#[trigger] self.keys@[lower],
                found_key ==> self@ == old(self)@.get_key(register),
            decreases 16 - key + (if found_key { 0int } else { 1int }),
        {
            if self.keys[key as usize] {
                proof {
                    assert(is_first_pressed(self.keys@, key as int));
                    let chosen = first_pressed(self.keys@);
                    assert(is_first_pressed(self.keys@, chosen));
                    assert(chosen == key);
                }
                self.registers.set_register(register as usize, key);
                found_key = true;
            } else {
                key += 1;
            }
        }
        if !found_key {
            let rewound = self.registers.get_program_counter().wrapping_sub(2);
            self.registers.set_program_counter(rewound);
        }
    }

    /// Writes registers 0 to `register` to memory from the index register
    /// on. The index register stays.
    pub fn store_in_memory(&mut self, register: u8)
        requires
            register < 16,
            old(self)@.registers.index + register < 4096,
        ensures
            final(self)@ == old(self)@.store_in_memory(register),
    {
        let base_index = self.registers.get_index();
        let ghost before = self@;
        proof {
            self.lemma_wf();
        }
        let mut reg: u8 = 0;
        while reg <= register
            invariant
                register < 16,
                reg <= register + 1,
                base_index == before.registers.index,
                base_index + register < 4096,
                before.memory.len() == 4096,
                self@ == (Machine { memory: self.memory@, ..before }),
                self.memory@ == Seq::new(
                    4096,
                    |address: int|
                        if base_index <= address < base_index + reg {
                            before.registers.general[address - base_index]
                        } else {
                            before.memory[address]
                        },
                ),
            decreases register + 1 - reg,
        {
            let value = self.registers.get_register(reg as usize).unwrap();
            self.memory.set_value(base_index + reg as u16, value);
            reg += 1;
        }
        assert(self.memory@ == old(self)@.store_in_memory(register).memory);
    }

    /// Reads registers 0 to `register` from memory from the index register
    /// on. The index register stays.
    pub fn load_from_memory(&mut self, register: u8)
        requires
            register < 16,
            old(self)@.registers.index + register < 4096,
        ensures
            final(self)@ == old(self)@.load_from_memory(register),
    {
        let base_index = self.registers.get_index();
        let ghost before = self@;
        proof {
            self.lemma_wf();
        }
        let mut reg: u8 = 0;
        while reg <= register
            invariant
                register < 16,
                reg <= register + 1,
                base_index == before.registers.index,
                base_index + register < 4096,
                before.registers.general.len() == 16,
                self@ == (Machine { registers: self.registers@, ..before }),
                self.registers@ == (RegistersView {
                    general: self.registers@.general,
                    ..before.registers
                }),
                self.registers@.general == Seq::new(
                    16,
                    |r: int|
                        if r < reg {
                            before.memory[base_index + r]
                        } else {
                            before.registers.general[r]
                        },
                ),
            decreases register + 1 - reg,
        {
            let value = self.memory.get_value(base_index + reg as u16);
            self.registers.set_register(reg as usize, value);
            reg += 1;
        }
        assert(self.registers@.general == old(self)@.load_from_memory(register).registers.general);
    }

    /// Executes `instruction`; `random_number` is the byte that a random
    /// instruction draws. An instruction that reaches outside the address
    /// space, or a return on an empty call stack, changes nothing and is
    /// reported.
    pub fn execute(&mut self, instruction: Instruction, random_number: u8) -> (r: Result<
        (),
        TickError,
    >)
        requires
            instruction.wf(),
        ensures
            (final(self)@, r) == old(self)@.execute(instruction, random_number),
    {
        let index = self.registers.get_index();
        match instruction {
            Instruction::ClearScreen => self.display.clear(),
            Instruction::Return => {
                return self.pop_stack();
            },
            Instruction::Jump { address } => self.registers.set_program_counter(address),
            Instruction::Call { address } => self.push_stack(address),
            Instruction::SkipIfEqual { x, value } => self.skip_if_eq_register(x, value),
            Instruction::SkipIfNotEqual { x, value } => self.skip_if_not_eq_register(x, value),
            Instruction::SkipIfRegistersEqual { x, y } => self.skip_if_reg_equals(x, y),
            Instruction::LoadImmediate { x, value } => self.registers.set_register(
                x as usize,
                value,
            ),
            Instruction::AddImmediate { x, value } => self.add_to_register(x, value),
            Instruction::Move { x, y } => self.set_register_value(x, y),
            Instruction::Or { x, y } => self.or_registers(x, y, x),
            Instruction::And { x, y } => self.and_registers(x, y, x),
            Instruction::Xor { x, y } => self.xor_registers(x, y, x),
            Instruction::Add { x, y } => self.add_registers(x, y, x),
            Instruction::Subtract { x, y } => self.substract_registers(x, y, x),
            Instruction::ShiftRight { x, y } => self.right_shift(x, y),
            Instruction::SubtractReversed { x, y } => self.substract_registers(y, x, x),
            Instruction::ShiftLeft { x, y } => self.left_shift(x, y),
            Instruction::SkipIfRegistersNotEqual { x, y } => self.skip_if_reg_not_eq(x, y),
            Instruction::LoadIndex { address } => self.registers.set_index(address),
            Instruction::JumpOffset { address } => self.jump_address_offset(address),
            Instruction::Random { x, value } => self.set_random_number(x, value, random_number),
            Instruction::Draw { x, y, rows } => {
                if index > 4096 - rows as u16 {
                    return Err(invalid_address(index));
                }
                self.draw_to_screen(x, y, rows)
            },
            Instruction::SkipIfKeyPressed { x } => self.skip_if_key_pressed(x),
            Instruction::SkipIfKeyNotPressed { x } => self.skip_if_not_key_pressed(x),
            Instruction::LoadDelayTimer { x } => self.set_reg_to_delay_timer(x),
            Instruction::WaitForKey { x } => self.get_key(x),
            Instruction::SetDelayTimer { x } => self.set_delay_timer(x),
            Instruction::SetSoundTimer { x } => self.set_sound_timer(x),
            Instruction::AddToIndex { x } => self.add_to_index(x),
            Instruction::FontAddress { x } => self.set_index_to_font(x),
            Instruction::DecimalDigits { x } => {
                if index >= 4096 - 2 {
                    return Err(invalid_address(index));
                }
                self.binary_coded_decimal_conversion(x)
            },
            Instruction::StoreRegisters { x } => {
                if index >= 4096 - x as u16 {
                    return Err(invalid_address(index));
                }
                self.store_in_memory(x)
            },
            Instruction::LoadRegisters { x } => {
                if index >= 4096 - x as u16 {
                    return Err(invalid_address(index));
                }
                self.load_from_memory(x)
            },
        }
        Ok(())
    }

    /// Decodes `opcode` and executes what it encodes, drawing a random
    /// byte where the instruction asks for one. An opcode that encodes
    /// nothing changes nothing and is reported.
    pub fn decode_and_execute(&mut self, opcode: u16) -> (r: Result<(), TickError>)
        ensures
            exists|random_number: u8|
                (final(self)@, r) == #[trigger] old(self)@.decode_and_execute(opcode, random_number),
    {
        match decode(opcode) {
            Some(instruction) => {
                let random_number = match instruction {
                    Instruction::Random { .. } => random_byte(),
                    _ => 0,
                };
                let r = self.execute(instruction, random_number);
                assert((self@, r) == old(self)@.decode_and_execute(opcode, random_number));
                r
            },
            None => {
                assert((self@, Err::<(), TickError>(TickError::IncorrectOpcode { opcode })) == old(
                    self,
                )@.decode_and_execute(opcode, 0));
                Err(TickError::IncorrectOpcode { opcode })
            },
        }
    }

    /// One cycle: fetches the opcode at the program counter, moves the
    /// counter past it, then decodes and executes it.
    pub fn tick(&mut self) -> (r: Result<(), TickError>)
        ensures
            exists|random_number: u8| (final(self)@, r) == #[trigger] old(self)@.tick(random_number),
    {
        let program_counter = self.registers.get_program_counter();
        if program_counter >= 4095 {
            assert((self@, Err::<(), TickError>(
                TickError::InvalidAddress { address: first_invalid_address(program_counter) },
            )) == old(self)@.tick(0));
            return Err(invalid_address(program_counter));
        }
        let instruction = self.fetch_instruction();
        let ghost fetched = self@;
        let r = self.decode_and_execute(instruction);
        proof {
            let random_number = choose|random_number: u8|
                (self@, r) == #[trigger] fetched.decode_and_execute(instruction, random_number);
            assert((self@, r) == old(self)@.tick(random_number));
        }
        r
    }

    /// One turn of the host's loop, `delta_time` nanoseconds after the
    /// last: takes over the state of the host's keys, given by the places
    /// of `SCANCODES_KEYS`, then runs an instruction if one is due and
    /// counts the timers down if that is due. The result is what the
    /// instruction reported.
    pub fn run_step(&mut self, pacer: &mut Pacer, delta_time: u128, host_pressed: &[bool; 16]) -> (r:
        Result<(), TickError>)
        ensures
            final(pacer)@ == old(pacer)@.advance(delta_time as int),
            exists|random_number: u8|
                (final(self)@, r) == #[trigger] old(self)@.run_step(
                    old(pacer)@.due(delta_time as int),
                    host_pressed@,
                    random_number,
                ),
    {
        let due = pacer.advance(delta_time);
        self.set_keys(read_keys(host_pressed));
        let ghost keyed = self@;
        let ghost mut drawn_byte = 0u8;
        let r = if due.cpu_tick {
            let r = self.tick();
            proof {
                drawn_byte = choose|random_number: u8|
                    (self@, r) == #[trigger] keyed.tick(random_number);
            }
            r
        } else {
            Ok(())
        };
        if due.timer_tick {
            self.tick_timers();
        }
        assert((self@, r) == old(self)@.run_step(due, host_pressed@, drawn_byte));
        r
    }

    /// The register bank.
    pub fn registers(&self) -> (r: &Registers)
        ensures
            r@ == self@.registers,
    {
        &self.registers
    }

    /// The address space.
    pub fn memory(&self) -> (r: &Memory)
        ensures
            r@ == self@.memory,
    {
        &self.memory
    }

    /// The display.
    pub fn display(&self) -> (r: &DisplayChip8)
        ensures
            r@ == self@.display,
    {
        &self.display
    }

    /// The keypad, entry `k` telling whether key `k` is down.
    pub fn keys(&self) -> (r: &[bool; 16])
        ensures
            r@ == self@.keys,
    {
        &self.keys
    }

    /// The delay timer.
    pub fn delay_timer(&self) -> (r: u8)
        ensures
            r == self@.delay_timer,
    {
        self.delay_timer
    }

    /// The sound timer; the host sounds a tone while it is not zero.
    pub fn sound_timer(&self) -> (r: u8)
        ensures
            r == self@.sound_timer,
    {
        self.sound_timer
    }

    /// Records that the display was handed to the host.
    pub fn show(&mut self)
        ensures
            final(self)@ == (Machine {
                display: DisplayView { dirty: false, ..old(self)@.display },
                ..old(self)@
            }),
    {
        self.display.show();
    }
}

/// The error for an access that starts at `base` and leaves the address
/// space.
fn invalid_address(base: u16) -> (r: TickError)
    ensures
        r == (TickError::InvalidAddress { address: first_invalid_address(base) }),
{
    if base >= 4096 {
        TickError::InvalidAddress { address: base }
    } else {
        TickError::InvalidAddress { address: 4096 }
    }
}


/// Draws one byte from the thread's generator of the `rand` crate
/// (`rand::thread_rng()`, then `Rng::gen::<u8>()`). Every byte can come
/// back, and two calls need not agree, so nothing is claimed of the
/// result. The generator panics if the operating system gives it no
/// seed, when a thread first uses it or when it seeds itself anew.
#[verifier::external_body]
fn random_byte() -> (r: u8) {
    rand::Rng::gen::<u8>(&mut rand::thread_rng())
}

} // verus!
