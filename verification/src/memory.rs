//! The 4096-byte address space, with the glyph font in its reserved region.

use vstd::prelude::*;

verus! {

/// Number of addressable bytes.
pub const MEMORY_SIZE: usize = 4096;

/// First address of the program region.
pub const INITIAL_POSITION: usize = 0x200;

/// Longest program image that fits in the program region.
pub const PROGRAM_CAPACITY: usize = MEMORY_SIZE - INITIAL_POSITION;

/// First address of the font region.
pub const FONT_POSITION: u16 = 0x50;

/// Bytes per glyph.
pub const GLYPH_SIZE: u16 = 5;

/// Bytes in the whole font: sixteen glyphs.
pub const FONT_SIZE: usize = 80;

/// The font: glyph `g`, the shape of hexadecimal digit `g`, takes entries
/// `5 * g` to `5 * g + 4`, one byte per row from the top, the leftmost
/// pixel in the highest bit.
pub const FONT: [u8; 80] = [
    0xF0, 0x90, 0x90, 0x90, 0xF0, 0x20, 0x60, 0x20, 0x20, 0x70, 0xF0, 0x10, 0xF0, 0x80, 0xF0, 0xF0,
    0x10, 0xF0, 0x10, 0xF0, 0x90, 0x90, 0xF0, 0x10, 0x10, 0xF0, 0x80, 0xF0, 0x10, 0xF0, 0xF0, 0x80,
    0xF0, 0x90, 0xF0, 0xF0, 0x10, 0x20, 0x40, 0x40, 0xF0, 0x90, 0xF0, 0x90, 0xF0, 0xF0, 0x90, 0xF0,
    0x10, 0xF0, 0xF0, 0x90, 0xF0, 0x90, 0x90, 0xE0, 0x90, 0xE0, 0x90, 0xE0, 0xF0, 0x80, 0x80, 0x80,
    0xF0, 0xE0, 0x90, 0x90, 0x90, 0xE0, 0xF0, 0x80, 0xF0, 0x80, 0xF0, 0xF0, 0x80, 0xF0, 0x80, 0x80,
];

/// The address space right after creation: the font in its region, zero
/// everywhere else.
pub open spec fn initial_memory() -> Seq<u8> {
    Seq::new(
        4096,
        |address: int|
            if 0x50 <= address < 0xA0 {
                FONT@[address - 0x50]
            } else {
                0u8
            },
    )
}

/// How many bytes of an image of `length` bytes reach the program region.
pub open spec fn loaded_length(length: int) -> int {
    if length <= 4096 - 0x200 {
        length
    } else {
        4096 - 0x200
    }
}

/// `memory` with the image `data` copied to the program region; what does
/// not fit below the end of the address space is left out.
pub open spec fn with_program(memory: Seq<u8>, data: Seq<u8>) -> Seq<u8> {
    Seq::new(
        4096,
        |address: int|
            if 0x200 <= address < 0x200 + loaded_length(data.len() as int) {
                data[address - 0x200]
            } else {
                memory[address]
            },
    )
}

/// Address of the first byte of glyph `value`.
pub open spec fn font_address(value: int) -> int {
    0x50 + 5 * value
}

/// The address space of one machine.
pub struct Memory {
    memory: [u8; 4096],
}

impl View for Memory {
    type V = Seq<u8>;

    closed spec fn view(&self) -> Seq<u8> {
        self.memory@
    }
}

impl Default for Memory {
    /// The font in its region, zero everywhere else.
    fn default() -> (r: Self)
        ensures
            r@ == initial_memory(),
    {
        let mut memory = [0u8;4096];
        let mut offset: usize = 0;
        while offset < FONT_SIZE
            invariant
                offset <= FONT_SIZE,
                forall|address: int|
                    0 <= address < 4096 ==> #[trigger] memory@[address] == (if 0x50 <= address
                        < 0x50 + offset {
                        FONT@[address - 0x50]
                    } else {
                        0u8
                    }),
            decreases FONT_SIZE - offset,
        {
            memory[FONT_POSITION as usize + offset] = FONT[offset];
            offset += 1;
        }
        assert(memory@ =~= initial_memory());
        Self { memory }
    }
}

impl Memory {
    /// Every address space holds 4096 bytes.
    pub proof fn lemma_len(&self)
        ensures
            self@.len() == 4096,
    {
    }

    /// The byte at `address`.
    pub fn get_value(&self, address: u16) -> (r: u8)
        requires
            address < 4096,
        ensures
            r == self@[address as int],
    {
        self.memory[address as usize]
    }

    /// Writes `value` at `address`.
    pub fn set_value(&mut self, address: u16, value: u8)
        requires
            address < 4096,
        ensures
            final(self)@ == old(self)@.update(address as int, value),
    {
        self.memory[address as usize] = value;
    }

    /// The `number_bytes` bytes from `address` on.
    pub fn get_slice(&self, address: u16, number_bytes: u16) -> (r: &[u8])
        requires
            address + number_bytes <= 4096,
        ensures
            r@ == self@.subrange(address as int, address + number_bytes),
    {
        let start = address as usize;
        let end = start + number_bytes as usize;
        &self.memory[start..end]
    }

    /// Copies the program image `data` to the program region. What does
    /// not fit below the end of the address space is left out; the result
    /// tells how many bytes that were.
    pub fn load(&mut self, data: &[u8]) -> (dropped: usize)
        ensures
            final(self)@ == with_program(old(self)@, data@),
            dropped == data@.len() - loaded_length(data@.len() as int),
    {
        let mut position: usize = 0;
        while position < data.len() && position < PROGRAM_CAPACITY
            invariant
                position <= data@.len(),
                position <= PROGRAM_CAPACITY,
                forall|address: int|
                    0 <= address < 4096 ==> #[trigger] self.memory@[address] == (if 0x200 <= address
                        < 0x200 + position {
                        data@[address - 0x200]
                    } else {
                        old(self).memory@[address]
                    }),
            decreases data@.len() - position,
        {
            self.memory[position + INITIAL_POSITION] = data[position];
            position += 1;
        }
        assert(self.memory@ =~= with_program(old(self)@, data@));
        data.len() - position
    }

    /// Address of the first byte of the glyph for hexadecimal digit
    /// `value`.
    pub fn get_font_address(&self, value: u8) -> (r: u16)
        requires
            value <= 0xF,
        ensures
            r == font_address(value as int),
    {
        FONT_POSITION + GLYPH_SIZE * value as u16
    }
}

} // verus!
