//! The register bank: sixteen 8-bit registers, the index register, the
//! program counter and the call stack.

use vstd::prelude::*;

verus! {

/// Number of general registers.
pub const REGISTER_COUNT: usize = 16;

/// The general register that doubles as the flag.
pub const FLAG_REGISTER: usize = 0xF;

/// Where the program counter starts.
pub const INITIAL_PC: u16 = 0x200;

/// The register bank as a mathematical value.
pub struct RegistersView {
    /// The sixteen general registers; entry 15 is the flag.
    pub general: Seq<u8>,
    /// The index register.
    pub index: u16,
    /// Address of the next instruction to fetch.
    pub program_counter: u16,
    /// Return addresses, the most recent call last.
    pub call_stack: Seq<u16>,
}

impl RegistersView {
    /// The bank holds exactly sixteen general registers.
    pub open spec fn wf(self) -> bool {
        self.general.len() == 16
    }

    /// The bank after a machine is created.
    pub open spec fn initial() -> RegistersView {
        RegistersView {
            general: Seq::new(16, |i: int| 0u8),
            index: 0,
            program_counter: INITIAL_PC,
            call_stack: Seq::empty(),
        }
    }

    /// The bank with general register `register` holding `value`.
    pub open spec fn with_register(self, register: int, value: u8) -> RegistersView {
        RegistersView { general: self.general.update(register, value), ..self }
    }

    /// The bank with the flag register holding 1 (`set`) or 0.
    pub open spec fn with_flag(self, set: bool) -> RegistersView {
        self.with_register(15, if set { 1u8 } else { 0u8 })
    }

    /// The bank with the program counter at `value`.
    pub open spec fn with_program_counter(self, value: u16) -> RegistersView {
        RegistersView { program_counter: value, ..self }
    }

    /// The bank with the index register at `value`.
    pub open spec fn with_index(self, value: u16) -> RegistersView {
        RegistersView { index: value, ..self }
    }

    /// The bank with `address` on top of the call stack.
    pub open spec fn with_pushed(self, address: u16) -> RegistersView {
        RegistersView { call_stack: self.call_stack.push(address), ..self }
    }

    /// The bank without the top of the call stack.
    pub open spec fn with_popped(self) -> RegistersView {
        RegistersView { call_stack: self.call_stack.drop_last(), ..self }
    }

    /// Whether the flag register holds exactly 1.
    pub open spec fn flag(self) -> bool {
        self.general[15] == 1
    }
}

/// `value` reduced to sixteen bits: what counter arithmetic gives when it
/// wraps.
pub open spec fn wrap16(value: int) -> u16 {
    (value % 0x1_0000) as u16
}

/// The register bank of one machine.
pub struct Registers {
    general_registers: [u8; 16],
    index: u16,
    program_counter: u16,
    call_stack: Vec<u16>,
}

impl View for Registers {
    type V = RegistersView;

    closed spec fn view(&self) -> RegistersView {
        RegistersView {
            general: self.general_registers@,
            index: self.index,
            program_counter: self.program_counter,
            call_stack: self.call_stack@,
        }
    }
}

impl Default for Registers {
    /// All registers zero, the program counter at the start of the program
    /// region, the call stack empty.
    fn default() -> (r: Self)
        ensures
            r@ == RegistersView::initial(),
    {
        let r = Self {
            general_registers: [0;16],
            index: 0,
            program_counter: INITIAL_PC,
            call_stack: Vec::new(),
        };
        assert(r@.general =~= RegistersView::initial().general);
        r
    }
}

impl Registers {
    /// Every bank holds sixteen general registers.
    pub proof fn lemma_wf(&self)
        ensures
            self@.wf(),
    {
    }

    /// Puts 1 in the flag register.
    pub fn set_flag(&mut self)
        ensures
            final(self)@ == old(self)@.with_flag(true),
    {
        self.general_registers[FLAG_REGISTER] = 0x1;
    }

    /// Puts 0 in the flag register.
    pub fn reset_flag(&mut self)
        ensures
            final(self)@ == old(self)@.with_flag(false),
    {
        self.general_registers[FLAG_REGISTER] = 0x0;
    }

    /// Whether the flag register holds 1. Nothing is changed.
    pub fn is_flag_set(&mut self) -> (r: bool)
        ensures
            r == old(self)@.flag(),
            *final(self) == *old(self),
    {
        self.general_registers[FLAG_REGISTER] == 1
    }

    /// The address of the next instruction to fetch.
    pub fn get_program_counter(&self) -> (r: u16)
        ensures
            r == self@.program_counter,
    {
        self.program_counter
    }

    /// Moves the program counter to `value`.
    pub fn set_program_counter(&mut self, value: u16)
        ensures
            final(self)@ == old(self)@.with_program_counter(value),
    {
        self.program_counter = value;
    }

    /// Moves the program counter on by `amount`, wrapping past `0xFFFF`.
    pub fn increase_program_counter(&mut self, amount: u16)
        ensures
            final(self)@ == old(self)@.with_program_counter(
                wrap16(old(self)@.program_counter + amount),
            ),
    {
        self.program_counter = self.program_counter.wrapping_add(amount);
    }

    /// Puts `value` in general register `register`. A register number of
    /// 16 or more is ignored.
    pub fn set_register(&mut self, register: usize, value: u8)
        ensures
            register < 16 ==> final(self)@ == old(self)@.with_register(register as int, value),
            register >= 16 ==> *final(self) == *old(self),
    {
        if register < REGISTER_COUNT {
            self.general_registers[register] = value;
        }
    }

    /// What general register `register` holds; `None` for a register
    /// number of 16 or more. Nothing is changed.
    pub fn get_register(&mut self, register: usize) -> (r: Option<u8>)
        ensures
            register < 16 ==> r == Some(old(self)@.general[register as int]),
            register >= 16 ==> r is None,
            *final(self) == *old(self),
    {
        if register < REGISTER_COUNT {
            Some(self.general_registers[register])
        } else {
            None
        }
    }

    /// What general register `register` holds.
    pub fn register(&self, register: usize) -> (r: u8)
        requires
            register < 16,
        ensures
            r == self@.general[register as int],
    {
        self.general_registers[register]
    }

    /// Puts `address` on top of the call stack.
    pub fn push_return_address(&mut self, address: u16)
        ensures
            final(self)@ == old(self)@.with_pushed(address),
    {
        self.call_stack.push(address);
    }

    /// Takes the top of the call stack; `None`, and nothing changed, when
    /// the stack is empty.
    pub fn pop_return_address(&mut self) -> (r: Option<u16>)
        ensures
            old(self)@.call_stack.len() == 0 ==> r is None && final(self)@ == old(self)@,
            old(self)@.call_stack.len() > 0 ==> r == Some(old(self)@.call_stack.last())
                && final(self)@ == old(self)@.with_popped(),
    {
        self.call_stack.pop()
    }

    /// How many return addresses the call stack holds.
    pub fn call_depth(&self) -> (r: usize)
        ensures
            r == self@.call_stack.len(),
    {
        self.call_stack.len()
    }

    /// What the index register holds.
    pub fn get_index(&self) -> (r: u16)
        ensures
            r == self@.index,
    {
        self.index
    }

    /// Puts `value` in the index register. No bound is checked here: the
    /// memory checks an address when it is used.
    pub fn set_index(&mut self, value: u16)
        ensures
            final(self)@ == old(self)@.with_index(value),
    {
        self.index = value;
    }
}

} // verus!
