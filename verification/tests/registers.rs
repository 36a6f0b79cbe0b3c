use chip8::registers::Registers;

#[test]
fn registers_start_at_program_region() {
    let mut registers = Registers::default();
    assert_eq!(registers.get_program_counter(), 0x200);
    assert_eq!(registers.get_index(), 0);
    assert_eq!(registers.call_depth(), 0);
    for register in 0..16 {
        assert_eq!(registers.get_register(register), Some(0));
    }
    assert!(!registers.is_flag_set());
}

#[test]
fn set_register_then_get_register() {
    let mut registers = Registers::default();
    for register in 0..16usize {
        registers.set_register(register, (register * 16 + 1) as u8);
    }
    for register in 0..16usize {
        assert_eq!(registers.get_register(register), Some((register * 16 + 1) as u8));
        assert_eq!(registers.register(register), (register * 16 + 1) as u8);
    }
}

#[test]
fn register_out_of_range_reads_none_and_write_is_ignored() {
    let mut registers = Registers::default();
    registers.set_register(3, 7);
    registers.set_register(16, 99);
    registers.set_register(usize::MAX, 99);
    assert_eq!(registers.get_register(16), None);
    assert_eq!(registers.get_register(usize::MAX), None);
    for register in 0..16usize {
        let expected = if register == 3 { 7 } else { 0 };
        assert_eq!(registers.get_register(register), Some(expected));
    }
    assert_eq!(registers.get_program_counter(), 0x200);
    assert_eq!(registers.get_index(), 0);
}

#[test]
fn flag_lives_in_register_fifteen() {
    let mut registers = Registers::default();
    registers.set_flag();
    assert!(registers.is_flag_set());
    assert_eq!(registers.get_register(0xF), Some(1));
    registers.reset_flag();
    assert!(!registers.is_flag_set());
    assert_eq!(registers.get_register(0xF), Some(0));
    registers.set_register(0xF, 2);
    assert!(!registers.is_flag_set());
    registers.set_register(0xF, 1);
    assert!(registers.is_flag_set());
}

#[test]
fn program_counter_arithmetic_wraps() {
    let mut registers = Registers::default();
    registers.increase_program_counter(2);
    assert_eq!(registers.get_program_counter(), 0x202);
    registers.set_program_counter(0xFFFF);
    registers.increase_program_counter(2);
    assert_eq!(registers.get_program_counter(), 1);
    registers.set_program_counter(0x0ABC);
    assert_eq!(registers.get_program_counter(), 0x0ABC);
}

#[test]
fn index_is_not_bounded_by_the_register_bank() {
    let mut registers = Registers::default();
    registers.set_index(0xFFFF);
    assert_eq!(registers.get_index(), 0xFFFF);
    registers.set_index(0x123);
    assert_eq!(registers.get_index(), 0x123);
}

#[test]
fn call_stack_is_last_in_first_out() {
    let mut registers = Registers::default();
    assert_eq!(registers.pop_return_address(), None);
    registers.push_return_address(0x202);
    registers.push_return_address(0x30A);
    assert_eq!(registers.call_depth(), 2);
    assert_eq!(registers.pop_return_address(), Some(0x30A));
    assert_eq!(registers.pop_return_address(), Some(0x202));
    assert_eq!(registers.pop_return_address(), None);
    assert_eq!(registers.call_depth(), 0);
}

#[test]
fn call_stack_grows_past_sixteen() {
    let mut registers = Registers::default();
    for depth in 0..100u16 {
        registers.push_return_address(0x200 + depth);
    }
    assert_eq!(registers.call_depth(), 100);
    for depth in (0..100u16).rev() {
        assert_eq!(registers.pop_return_address(), Some(0x200 + depth));
    }
}
