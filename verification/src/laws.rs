//! Laws of the machine, proved from the model of the instruction set.

use vstd::prelude::*;
use crate::display::{blank, collides, drawn, toggles};
use crate::instruction::{decoded, Instruction};
use crate::machine::{any_pressed, Machine, TickError};
use crate::memory::FONT;

verus! {

/// Executing an instruction keeps every part of the machine at its size.
pub proof fn law_execute_keeps_sizes(machine: Machine, instruction: Instruction, random_number: u8)
    requires
        machine.wf(),
        instruction.wf(),
    ensures
        machine.execute(instruction, random_number).0.wf(),
{
}

/// A tick keeps every part of the machine at its size.
pub proof fn law_tick_keeps_sizes(machine: Machine, random_number: u8)
    requires
        machine.wf(),
    ensures
        machine.tick(random_number).0.wf(),
{
    if machine.can_fetch() {
        if let Some(instruction) = decoded(machine.opcode()) {
            law_execute_keeps_sizes(machine.advance(2), instruction, random_number);
        }
    }
}

/// Only a random instruction depends on the random byte.
pub proof fn law_random_byte_only_for_random(
    machine: Machine,
    instruction: Instruction,
    first: u8,
    second: u8,
)
    requires
        !(instruction is Random),
    ensures
        machine.execute(instruction, first) == machine.execute(instruction, second),
{
}

/// A tick depends on the random byte only where it fetches a random
/// instruction.
pub proof fn law_tick_random_byte_only_for_random(machine: Machine, first: u8, second: u8)
    requires
        !(machine.can_fetch() && decoded(machine.opcode()) is Some && decoded(
            machine.opcode(),
        )->Some_0 is Random),
    ensures
        machine.tick(first) == machine.tick(second),
{
}

/// After a value is loaded into a register, the register holds it.
pub proof fn law_load_immediate_then_get(machine: Machine, x: u8, value: u8, random_number: u8)
    requires
        machine.wf(),
        x < 16,
    ensures
        machine.execute(Instruction::LoadImmediate { x, value }, random_number).1 is Ok,
        machine.execute(Instruction::LoadImmediate { x, value }, random_number).0.reg(x) == value,
{
}

/// Adding an immediate value wraps modulo 256 and leaves every other
/// register as it was.
pub proof fn law_add_immediate_wraps(machine: Machine, x: u8, value: u8, random_number: u8)
    requires
        machine.wf(),
        x < 16,
    ensures
        ({
            let after = machine.execute(Instruction::AddImmediate { x, value }, random_number).0;
            &&& after.reg(x) == (machine.reg(x) + value) % 256
            &&& forall|other: u8| other < 16 && other != x ==> after.reg(other) == machine.reg(other)
        }),
{
}

/// Adding an immediate value to a register other than the flag register
/// never writes the flag register.
pub proof fn law_add_immediate_keeps_flag(machine: Machine, x: u8, value: u8, random_number: u8)
    requires
        machine.wf(),
        x < 15,
    ensures
        machine.execute(Instruction::AddImmediate { x, value }, random_number).0.reg(15)
            == machine.reg(15),
{
}

/// Adding two registers sets the flag to 1 if the sum passes 255 and to 0
/// otherwise.
pub proof fn law_add_sets_flag_on_carry(machine: Machine, x: u8, y: u8, random_number: u8)
    requires
        machine.wf(),
        x < 16,
        y < 16,
    ensures
        machine.execute(Instruction::Add { x, y }, random_number).0.reg(15) == (if machine.reg(x)
            + machine.reg(y) > 255 {
            1u8
        } else {
            0u8
        }),
{
}

/// Adding two registers leaves the sum modulo 256 in the first, unless the
/// first is the flag register.
pub proof fn law_add_wraps(machine: Machine, x: u8, y: u8, random_number: u8)
    requires
        machine.wf(),
        x < 15,
        y < 16,
    ensures
        machine.execute(Instruction::Add { x, y }, random_number).0.reg(x) == (machine.reg(x)
            + machine.reg(y)) % 256,
{
}

/// Subtracting register `y` from register `x` sets the flag to 1 if
/// register `x` is at least register `y` and to 0 otherwise.
pub proof fn law_subtract_sets_flag_without_borrow(
    machine: Machine,
    x: u8,
    y: u8,
    random_number: u8,
)
    requires
        machine.wf(),
        x < 16,
        y < 16,
    ensures
        machine.execute(Instruction::Subtract { x, y }, random_number).0.reg(15) == (
        if machine.reg(x) >= machine.reg(y) {
            1u8
        } else {
            0u8
        }),
{
}

/// Drawing the same sprite twice at the same place gives back the grid as
/// it was.
pub proof fn law_draw_twice_restores(pixels: Seq<bool>, x: int, y: int, bytes: Seq<u8>)
    requires
        pixels.len() == 2048,
    ensures
        drawn(drawn(pixels, x, y, bytes), x, y, bytes) == pixels,
{
    assert(drawn(drawn(pixels, x, y, bytes), x, y, bytes) =~= pixels);
}

/// The second of two equal draws reports a collision exactly if the sprite
/// reaches a cell that was off before the first.
pub proof fn law_second_draw_collides(pixels: Seq<bool>, x: int, y: int, bytes: Seq<u8>)
    requires
        pixels.len() == 2048,
    ensures
        collides(drawn(pixels, x, y, bytes), x, y, bytes) <==> exists|position: int|
            0 <= position < 2048 && !pixels[position] && #[trigger] toggles(x, y, bytes, position),
{
    let first = drawn(pixels, x, y, bytes);
    if collides(first, x, y, bytes) {
        let witness = choose|position: int|
            0 <= position < 2048 && first[position] && #[trigger] toggles(x, y, bytes, position);
        assert(!pixels[witness] && toggles(x, y, bytes, witness));
    }
    if exists|position: int|
        0 <= position < 2048 && !pixels[position] && #[trigger] toggles(x, y, bytes, position) {
        let witness = choose|position: int|
            0 <= position < 2048 && !pixels[position] && #[trigger] toggles(x, y, bytes, position);
        assert(first[witness] && toggles(x, y, bytes, witness));
    }
}

/// On a blank grid, drawing a sprite twice leaves the grid blank; the
/// first draw reports no collision, and the second reports one exactly if
/// the sprite has a set bit inside the grid.
pub proof fn law_draw_twice_on_blank(x: int, y: int, bytes: Seq<u8>)
    ensures
        !collides(blank(), x, y, bytes),
        drawn(drawn(blank(), x, y, bytes), x, y, bytes) == blank(),
        collides(drawn(blank(), x, y, bytes), x, y, bytes) <==> exists|position: int|
            0 <= position < 2048 && #[trigger] toggles(x, y, bytes, position),
{
    law_draw_twice_restores(blank(), x, y, bytes);
    law_second_draw_collides(blank(), x, y, bytes);
    if exists|position: int| 0 <= position < 2048 && #[trigger] toggles(x, y, bytes, position) {
        let witness = choose|position: int|
            0 <= position < 2048 && #[trigger] toggles(x, y, bytes, position);
        assert(!blank()[witness] && toggles(x, y, bytes, witness));
    }
}

/// Drawing through the instruction twice, with the position held in
/// registers other than the flag register, gives back the grid as it was;
/// after the second draw the flag tells whether the sprite reaches a cell
/// that was off at the start.
pub proof fn law_draw_instruction_twice(
    machine: Machine,
    x: u8,
    y: u8,
    rows: u8,
    first: u8,
    second: u8,
)
    requires
        machine.wf(),
        x < 15,
        y < 15,
        rows < 16,
        machine.registers.index + rows <= 4096,
    ensures
        ({
            let once = machine.execute(Instruction::Draw { x, y, rows }, first);
            let twice = once.0.execute(Instruction::Draw { x, y, rows }, second);
            &&& once.1 is Ok
            &&& twice.1 is Ok
            &&& twice.0.display.pixels == machine.display.pixels
            &&& twice.0.registers.flag() <==> exists|position: int|
                0 <= position < 2048 && !machine.display.pixels[position] && #[trigger] toggles(
                    machine.reg(x) as int,
                    machine.reg(y) as int,
                    machine.sprite(rows),
                    position,
                )
        }),
{
    let column = machine.reg(x) as int;
    let row = machine.reg(y) as int;
    let sprite = machine.sprite(rows);
    law_draw_twice_restores(machine.display.pixels, column, row, sprite);
    law_second_draw_collides(machine.display.pixels, column, row, sprite);
}

/// While no key is down, a tick on a wait for a key leaves the whole
/// machine as it was: the same instruction is fetched again next time.
pub proof fn law_wait_for_key_repeats(machine: Machine, x: u8, random_number: u8)
    requires
        machine.wf(),
        machine.can_fetch(),
        decoded(machine.opcode()) == Some(Instruction::WaitForKey { x }),
        !any_pressed(machine.keys),
    ensures
        machine.tick(random_number) == (machine, Ok::<(), TickError>(())),
{
}

/// The three digits that are written for a register make up its value.
pub proof fn law_decimal_digits_recompose(machine: Machine, x: u8, random_number: u8)
    requires
        machine.wf(),
        x < 16,
        machine.registers.index + 2 < 4096,
    ensures
        ({
            let after = machine.execute(Instruction::DecimalDigits { x }, random_number);
            let base = machine.registers.index as int;
            &&& after.1 is Ok
            &&& after.0.memory[base] < 10
            &&& after.0.memory[base + 1] < 10
            &&& after.0.memory[base + 2] < 10
            &&& after.0.memory[base] * 100 + after.0.memory[base + 1] * 10 + after.0.memory[base
                + 2] == machine.reg(x)
        }),
{
}

/// On a machine whose font region is as at creation, pointing the index
/// register at a glyph makes the sprite of five rows there the glyph of
/// the register's low nibble.
pub proof fn law_font_address_finds_glyph(machine: Machine, x: u8, random_number: u8)
    requires
        machine.wf(),
        x < 16,
        machine.memory.subrange(0x50, 0xA0) == FONT@,
    ensures
        ({
            let after = machine.execute(Instruction::FontAddress { x }, random_number);
            let glyph = machine.reg(x) % 16;
            &&& after.1 is Ok
            &&& after.0.registers.index == 0x50 + 5 * glyph
            &&& after.0.sprite(5) == FONT@.subrange(5 * glyph, 5 * glyph + 5)
        }),
{
    let after = machine.execute(Instruction::FontAddress { x }, random_number);
    let glyph = (machine.reg(x) % 16) as int;
    assert forall|row: int| 0 <= row < 5 implies after.0.sprite(5)[row] == FONT@[5 * glyph
        + row] by {
        assert(machine.memory.subrange(0x50, 0xA0)[5 * glyph + row] == machine.memory[0x50 + 5
            * glyph + row]);
    }
    assert(after.0.sprite(5) =~= FONT@.subrange(5 * glyph, 5 * glyph + 5));
}

/// Storing registers 0 to `x` and loading them again right away, at any
/// index base inside the address space, leaves the whole bank as it was.
pub proof fn law_store_then_load(machine: Machine, x: u8, first: u8, second: u8)
    requires
        machine.wf(),
        x < 16,
        machine.registers.index + x < 4096,
    ensures
        ({
            let stored = machine.execute(Instruction::StoreRegisters { x }, first);
            let loaded = stored.0.execute(Instruction::LoadRegisters { x }, second);
            &&& stored.1 is Ok
            &&& loaded.1 is Ok
            &&& loaded.0.registers == machine.registers
        }),
{
    let stored = machine.execute(Instruction::StoreRegisters { x }, first);
    let loaded = stored.0.execute(Instruction::LoadRegisters { x }, second);
    assert(loaded.0.registers.general =~= machine.registers.general);
}

/// A call followed by a return resumes right after the call: the program
/// counter is where the fetch of the call left it, and the call stack is
/// as before.
pub proof fn law_call_then_return(machine: Machine, address: u16, first: u8, second: u8)
    requires
        machine.wf(),
        machine.can_fetch(),
        decoded(machine.opcode()) == Some(Instruction::Call { address }),
    ensures
        ({
            let called = machine.tick(first);
            let returned = called.0.execute(Instruction::Return, second);
            &&& called.1 is Ok
            &&& called.0.registers.program_counter == address
            &&& returned.1 is Ok
            &&& returned.0.registers.program_counter == machine.registers.program_counter + 2
            &&& returned.0 == machine.advance(2)
        }),
{
    let called = machine.tick(first);
    let returned = called.0.execute(Instruction::Return, second);
    assert(returned.0.registers.call_stack =~= machine.registers.call_stack);
}

/// The machine after `count` timer ticks.
pub open spec fn after_timer_ticks(machine: Machine, count: nat) -> Machine
    decreases count,
{
    if count == 0 {
        machine
    } else {
        after_timer_ticks(machine.tick_timers(), (count - 1) as nat)
    }
}

/// `value` less `count`, stopping at zero.
pub open spec fn counted_down(value: u8, count: nat) -> int {
    if value >= count {
        value - count
    } else {
        0
    }
}

/// After `count` timer ticks each timer has gone down by `count`, or to
/// zero if it held less: no timer goes below zero. Nothing else changes.
pub proof fn law_timers_count_down(machine: Machine, count: nat)
    ensures
        after_timer_ticks(machine, count).delay_timer == counted_down(machine.delay_timer, count),
        after_timer_ticks(machine, count).sound_timer == counted_down(machine.sound_timer, count),
        after_timer_ticks(machine, count) == (Machine {
            delay_timer: after_timer_ticks(machine, count).delay_timer,
            sound_timer: after_timer_ticks(machine, count).sound_timer,
            ..machine
        }),
    decreases count,
{
    if count > 0 {
        law_timers_count_down(machine.tick_timers(), (count - 1) as nat);
    }
}

} // verus!
