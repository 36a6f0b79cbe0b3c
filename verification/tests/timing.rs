use chip8::cpu::CPU;
use chip8::machine::TickError;
use chip8::timing::{Due, Pacer, CPU_TICK_NANOS, SEC_TO_NANOS, TIMER_TICK_NANOS};

#[test]
fn tick_lengths() {
    assert_eq!(SEC_TO_NANOS, 1_000_000_000);
    assert_eq!(CPU_TICK_NANOS, 1_428_571);
    assert_eq!(TIMER_TICK_NANOS, 16_666_666);
}

#[test]
fn nothing_is_due_before_time_has_passed() {
    let mut pacer = Pacer::new();
    assert_eq!(pacer.advance(0), Due { cpu_tick: false, timer_tick: false });
    assert_eq!(pacer.advance(1_000_000), Due { cpu_tick: false, timer_tick: false });
}

#[test]
fn instruction_is_due_once_more_than_its_length_has_passed() {
    let mut pacer = Pacer::new();
    assert_eq!(pacer.advance(1_428_571), Due { cpu_tick: false, timer_tick: false });
    assert_eq!(pacer.advance(1), Due { cpu_tick: true, timer_tick: false });
    // the count started again from zero
    assert_eq!(pacer.advance(1_428_571), Due { cpu_tick: false, timer_tick: false });
    assert_eq!(pacer.advance(1), Due { cpu_tick: true, timer_tick: false });
}

#[test]
fn timer_tick_is_due_once_more_than_its_length_has_passed() {
    let mut pacer = Pacer::new();
    assert_eq!(pacer.advance(16_666_666), Due { cpu_tick: true, timer_tick: false });
    assert_eq!(pacer.advance(1), Due { cpu_tick: false, timer_tick: true });
    assert_eq!(pacer.advance(16_666_667), Due { cpu_tick: true, timer_tick: true });
}

#[test]
fn huge_time_step_does_not_overflow() {
    let mut pacer = Pacer::new();
    assert_eq!(pacer.advance(1_000_000), Due { cpu_tick: false, timer_tick: false });
    assert_eq!(pacer.advance(u128::MAX), Due { cpu_tick: true, timer_tick: true });
    assert_eq!(pacer.advance(u128::MAX), Due { cpu_tick: true, timer_tick: true });
    assert_eq!(pacer.advance(0), Due { cpu_tick: false, timer_tick: false });
}

#[test]
fn rates_over_one_second_of_small_steps() {
    let mut pacer = Pacer::new();
    let mut cpu_ticks = 0;
    let mut timer_ticks = 0;
    // one second in steps of 10 microseconds
    for _ in 0..100_000 {
        let due = pacer.advance(10_000);
        if due.cpu_tick {
            cpu_ticks += 1;
        }
        if due.timer_tick {
            timer_ticks += 1;
        }
    }
    // an instruction every 143 steps, a timer tick every 1667 steps
    assert_eq!(cpu_ticks, 100_000 / 143);
    assert_eq!(timer_ticks, 100_000 / 1667);
}

#[test]
fn run_step_runs_what_is_due() {
    let mut cpu = CPU::new(1);
    let mut pacer = Pacer::new();
    // reg1 = 9; delay = reg1; reg2 = 1
    cpu.load_rom(&[0x61, 0x09, 0xF1, 0x15, 0x62, 0x01]);
    let no_keys = [false; 16];
    assert_eq!(cpu.run_step(&mut pacer, 1_000_000, &no_keys), Ok(()));
    assert_eq!(cpu.registers().get_program_counter(), 0x200);
    assert_eq!(cpu.run_step(&mut pacer, 1_000_000, &no_keys), Ok(()));
    assert_eq!(cpu.registers().get_program_counter(), 0x202);
    assert_eq!(cpu.registers().register(1), 9);
    assert_eq!(cpu.run_step(&mut pacer, 2_000_000, &no_keys), Ok(()));
    assert_eq!(cpu.registers().get_program_counter(), 0x204);
    assert_eq!(cpu.delay_timer(), 9);
    // 4 ms so far; 13 ms more make the timer tick due, after the instruction
    assert_eq!(cpu.run_step(&mut pacer, 13_000_000, &no_keys), Ok(()));
    assert_eq!(cpu.registers().get_program_counter(), 0x206);
    assert_eq!(cpu.registers().register(2), 1);
    assert_eq!(cpu.delay_timer(), 8);
}

#[test]
fn run_step_takes_over_the_host_keys() {
    let mut cpu = CPU::new(1);
    let mut pacer = Pacer::new();
    let mut host = [false; 16];
    host[4] = true; // Q stands for key 4
    host[15] = true; // V stands for key F
    assert_eq!(cpu.run_step(&mut pacer, 0, &host), Ok(()));
    let mut expected = [false; 16];
    expected[0x4] = true;
    expected[0xF] = true;
    assert_eq!(*cpu.keys(), expected);
    assert_eq!(cpu.registers().get_program_counter(), 0x200);
    assert_eq!(cpu.run_step(&mut pacer, 0, &[false; 16]), Ok(()));
    assert_eq!(*cpu.keys(), [false; 16]);
}

#[test]
fn run_step_hands_on_what_the_tick_reported() {
    let mut cpu = CPU::new(1);
    let mut pacer = Pacer::new();
    cpu.load_rom(&[0x00, 0xEE, 0xFF, 0xFF, 0x1F, 0xFF]);
    let no_keys = [false; 16];
    assert_eq!(cpu.run_step(&mut pacer, 2_000_000, &no_keys), Err(TickError::EmptyStack));
    assert_eq!(
        cpu.run_step(&mut pacer, 2_000_000, &no_keys),
        Err(TickError::IncorrectOpcode { opcode: 0xFFFF })
    );
    assert_eq!(cpu.run_step(&mut pacer, 2_000_000, &no_keys), Ok(()));
    assert_eq!(
        cpu.run_step(&mut pacer, 2_000_000, &no_keys),
        Err(TickError::InvalidAddress { address: 4096 })
    );
    assert_eq!(cpu.registers().get_program_counter(), 0xFFF);
}
