use befuddle::field::FungeField;
use befuddle::{BefungeExecution, Delta, FungeError, StepEffect};

fn run_steps(program: &str, width: usize, height: usize, steps: usize) -> BefungeExecution {
    let mut exec = BefungeExecution::new(FungeField::from_str(program, width, height));
    for _i in 0..steps {
        exec.step().unwrap();
    }
    exec
}

#[test]
fn test_horizontal_wrap_right() {
    let mut exec = BefungeExecution::new(FungeField::new(2, 1));
    exec.step().unwrap();
    let (x, _y, _delta) = exec.pc();
    assert_eq!(x, 1);
    exec.step().unwrap();
    let (x, _y, _delta) = exec.pc();
    assert_eq!(x, 0);
    exec.step().unwrap();
    let (x, _y, _delta) = exec.pc();
    assert_eq!(x, 1);
}

#[test]
fn test_horizontal_wrap_left() {
    let mut exec = BefungeExecution::new(FungeField::from_str("<", 3, 1));
    exec.step().unwrap();
    let (x, _y, _delta) = exec.pc();
    assert_eq!(x, 2);
    exec.step().unwrap();
    let (x, _y, _delta) = exec.pc();
    assert_eq!(x, 1);
    exec.step().unwrap();
    let (x, _y, _delta) = exec.pc();
    assert_eq!(x, 0);
}

#[test]
fn test_vertical_wrap_down() {
    let mut exec = BefungeExecution::new(FungeField::from_str("v", 1, 2));
    exec.step().unwrap();
    let (_x, y, _delta) = exec.pc();
    assert_eq!(y, 1);
    exec.step().unwrap();
    let (_x, y, _delta) = exec.pc();
    assert_eq!(y, 0);
    exec.step().unwrap();
    let (_x, y, _delta) = exec.pc();
    assert_eq!(y, 1);
}

#[test]
fn test_vertical_wrap_up() {
    let mut exec = BefungeExecution::new(FungeField::from_str("^", 1, 2));
    exec.step().unwrap();
    let (_x, y, _delta) = exec.pc();
    assert_eq!(y, 1);
    exec.step().unwrap();
    let (_x, y, _delta) = exec.pc();
    assert_eq!(y, 0);
    exec.step().unwrap();
    let (_x, y, _delta) = exec.pc();
    assert_eq!(y, 1);
}

#[test]
fn test_push_digits() {
    let mut exec = BefungeExecution::new(FungeField::from_str("0123456789", 10, 1));

    for _i in 0..10 {
        exec.step().unwrap();
    }

    assert_eq!(exec.stack(), vec![0, 1, 2, 3, 4, 5, 6, 7, 8, 9])
}

#[test]
fn test_string_mode() {
    let mut exec = BefungeExecution::new(FungeField::from_str("\"0123456789\"0", 13, 1));

    for _i in 0..13 {
        exec.step().unwrap();
    }

    assert_eq!(
        exec.stack(),
        vec![48, 49, 50, 51, 52, 53, 54, 55, 56, 57, 0]
    )
}

#[test]
fn test_read_cell() {
    let mut exec = BefungeExecution::new(FungeField::from_str("g", 1, 1));

    exec.step().unwrap();

    assert_eq!(exec.stack(), vec![103])
}

#[test]
fn test_write_cell() {
    let mut exec = BefungeExecution::new(FungeField::from_str("p", 1, 1));

    exec.step().unwrap();

    assert_eq!(exec.get(0, 0), Some(0));
}

#[test]
fn test_negate() {
    let mut exec = BefungeExecution::new(FungeField::from_str("!!", 2, 1));

    exec.step().unwrap();
    assert_eq!(exec.stack(), vec![1]);
    exec.step().unwrap();
    assert_eq!(exec.stack(), vec![0]);
}

#[test]
fn test_swap() {
    let exec = run_steps("01\\", 3, 1, 3);
    assert_eq!(exec.stack(), vec![1, 0]);
}

#[test]
fn test_add() {
    let exec = run_steps("12+", 3, 1, 3);
    assert_eq!(exec.stack(), vec![3]);
}

#[test]
fn test_subtract() {
    let exec = run_steps("12-", 3, 1, 3);
    assert_eq!(exec.stack(), vec![1]);
}

#[test]
fn test_multiply() {
    let exec = run_steps("12*", 3, 1, 3);
    assert_eq!(exec.stack(), vec![2]);
}

#[test]
fn test_divide() {
    let exec = run_steps("12/", 3, 1, 3);
    assert_eq!(exec.stack(), vec![2]);
}

#[test]
fn test_modulo() {
    let exec = run_steps("23%", 3, 1, 3);
    assert_eq!(exec.stack(), vec![1]);
}

#[test]
fn test_compare() {
    let exec = run_steps("12`", 3, 1, 3);
    assert_eq!(exec.stack(), vec![1]);

    let exec = run_steps("21`", 3, 1, 3);
    assert_eq!(exec.stack(), vec![0]);
}

#[test]
fn test_duplicate() {
    let exec = run_steps("1:", 2, 1, 2);
    assert_eq!(exec.stack(), vec![1, 1]);
}

#[test]
fn test_discard() {
    let mut exec = BefungeExecution::new(FungeField::from_str("1$", 2, 1));

    exec.step().unwrap();
    assert_eq!(exec.stack(), vec![1]);
    exec.step().unwrap();
    assert_eq!(exec.stack(), vec![]);
}

#[test]
fn test_if_left_right() {
    let mut exec = BefungeExecution::new(FungeField::from_str("1_", 2, 1));

    exec.step().unwrap();
    assert_eq!(exec.stack(), vec![1]);
    exec.step().unwrap();
    assert_eq!(exec.stack(), vec![]);
    let (x, _y, delta) = exec.pc();
    assert_eq!(x, 0);
    assert_eq!(delta, Delta::Left);

    let mut exec = BefungeExecution::new(FungeField::from_str("0_", 2, 1));
    exec.step().unwrap();
    assert_eq!(exec.stack(), vec![0]);
    exec.step().unwrap();
    assert_eq!(exec.stack(), vec![]);
    let (x, _y, delta) = exec.pc();
    assert_eq!(x, 0);
    assert_eq!(delta, Delta::Right);
}

#[test]
fn test_if_up_down() {
    let mut exec = BefungeExecution::new(FungeField::from_str("1|", 2, 2));

    exec.step().unwrap();
    assert_eq!(exec.stack(), vec![1]);
    exec.step().unwrap();
    assert_eq!(exec.stack(), vec![]);
    let (_x, y, delta) = exec.pc();
    assert_eq!(y, 1);
    assert_eq!(delta, Delta::Up);

    let mut exec = BefungeExecution::new(FungeField::from_str("0|", 2, 2));
    exec.step().unwrap();
    assert_eq!(exec.stack(), vec![0]);
    exec.step().unwrap();
    assert_eq!(exec.stack(), vec![]);
    let (_x, y, delta) = exec.pc();
    assert_eq!(y, 1);
    assert_eq!(delta, Delta::Down);
}

#[test]
fn test_write_int() {
    let mut exec = BefungeExecution::new(FungeField::from_str("12..", 4, 1));
    exec.step().unwrap();
    exec.step().unwrap();
    assert_eq!(exec.step(), Ok(StepEffect::WriteNumber(2)));
    assert_eq!(exec.step(), Ok(StepEffect::WriteNumber(1)));
}

#[test]
fn test_write_char() {
    let mut exec = BefungeExecution::new(FungeField::from_str("\"a\",", 4, 1));
    exec.step().unwrap();
    exec.step().unwrap();
    exec.step().unwrap();
    assert_eq!(exec.step(), Ok(StepEffect::WriteCharacter(97)));
}

#[test]
fn division_by_zero_halts_with_an_error() {
    let mut exec = BefungeExecution::new(FungeField::from_str("01/5", 4, 1));
    exec.step().unwrap();
    exec.step().unwrap();
    assert_eq!(exec.step(), Err(FungeError { opcode: b'/' as i32, x: 2, y: 0 }));
    assert!(!exec.is_active());
    assert_eq!(exec.stack(), vec![]);
    assert_eq!(exec.pc(), (2, 0, Delta::Right));
    assert_eq!(exec.step(), Ok(StepEffect::Nothing));
    assert_eq!(exec.pc(), (2, 0, Delta::Right));
}

#[test]
fn modulo_by_zero_halts_with_an_error() {
    let mut exec = BefungeExecution::new(FungeField::from_str("%", 2, 1));
    assert_eq!(exec.step(), Err(FungeError { opcode: b'%' as i32, x: 0, y: 0 }));
    assert!(!exec.is_active());
}

#[test]
fn division_truncates_toward_zero() {
    // 0 - 2 leaves -2; then 3 / -2 and 3 % -2
    let exec = run_steps("20-3/", 5, 1, 5);
    assert_eq!(exec.stack(), vec![-1]);
    let exec = run_steps("20-3%", 5, 1, 5);
    assert_eq!(exec.stack(), vec![1]);
}

#[test]
fn multiplication_wraps_on_overflow() {
    let exec = run_steps("99*:*:*:*", 9, 1, 9);
    assert_eq!(exec.stack(), vec![43046721i32.wrapping_mul(43046721)]);
}

#[test]
fn stop_is_terminal() {
    let mut exec = BefungeExecution::new(FungeField::from_str("@1", 2, 1));
    exec.step().unwrap();
    assert!(!exec.is_active());
    for _i in 0..3 {
        assert_eq!(exec.step(), Ok(StepEffect::Nothing));
    }
    assert_eq!(exec.pc(), (0, 0, Delta::Right));
    assert_eq!(exec.stack(), vec![]);
}

#[test]
fn bridge_skips_one_cell() {
    let exec = run_steps("#12", 3, 1, 2);
    assert_eq!(exec.stack(), vec![2]);
    assert_eq!(exec.pc(), (0, 0, Delta::Right));
}

#[test]
fn underflow_uses_zero() {
    let exec = run_steps("+", 1, 1, 1);
    assert_eq!(exec.stack(), vec![0]);
    let exec = run_steps(":", 1, 1, 1);
    assert_eq!(exec.stack(), vec![0, 0]);
    let exec = run_steps("$", 1, 1, 1);
    assert_eq!(exec.stack(), vec![]);
}

#[test]
fn negate_of_negative_is_zero() {
    let exec = run_steps("10-!", 4, 1, 4);
    assert_eq!(exec.stack(), vec![0]);
}

#[test]
fn read_cell_off_the_field_pushes_nothing() {
    let exec = run_steps("9g", 2, 1, 2);
    assert_eq!(exec.stack(), vec![]);
    let exec = run_steps("10-g", 4, 1, 4);
    assert_eq!(exec.stack(), vec![]);
}

#[test]
fn write_cell_off_the_field_changes_nothing() {
    let exec = run_steps("719p", 4, 1, 4);
    assert_eq!(exec.stack(), vec![]);
    assert_eq!(exec.get(1, 0), Some(b'1' as i32));
    let exec = run_steps("710p", 4, 2, 4);
    assert_eq!(exec.get(1, 0), Some(7));
}

#[test]
fn read_number_waits_for_input() {
    let mut exec = BefungeExecution::new(FungeField::from_str("&~", 2, 1));
    assert_eq!(exec.step(), Ok(StepEffect::ReadNumber));
    assert_eq!(exec.pc(), (0, 0, Delta::Right));
    assert!(exec.awaits_input());
    assert_eq!(exec.step(), Ok(StepEffect::ReadNumber));
    exec.provide_input(-42);
    assert_eq!(exec.stack(), vec![-42]);
    assert_eq!(exec.pc(), (1, 0, Delta::Right));
    assert_eq!(exec.step(), Ok(StepEffect::ReadCharacter));
    exec.provide_input(b'z' as i32);
    assert_eq!(exec.stack(), vec![-42, 122]);
    assert_eq!(exec.pc(), (0, 0, Delta::Right));
}

#[test]
fn input_without_a_waiting_read_is_ignored() {
    let mut exec = BefungeExecution::new(FungeField::from_str("1", 2, 1));
    assert!(!exec.awaits_input());
    exec.provide_input(5);
    exec.provide_direction(Delta::Up);
    assert_eq!(exec.stack(), vec![]);
    assert_eq!(exec.pc(), (0, 0, Delta::Right));
}

#[test]
fn random_turn_waits_for_a_direction() {
    let mut exec = BefungeExecution::new(FungeField::from_str("?", 2, 2));
    assert_eq!(exec.step(), Ok(StepEffect::ChooseDirection));
    assert!(exec.awaits_direction());
    assert_eq!(exec.pc(), (0, 0, Delta::Right));
    exec.provide_direction(Delta::Up);
    assert_eq!(exec.pc(), (0, 1, Delta::Up));
    assert!(!exec.awaits_direction());
}

#[test]
fn move_pc_wraps() {
    let mut exec = BefungeExecution::new(FungeField::new(3, 1));
    exec.move_pc();
    exec.move_pc();
    assert_eq!(exec.pc(), (2, 0, Delta::Right));
    exec.move_pc();
    assert_eq!(exec.pc(), (0, 0, Delta::Right));
}

#[test]
fn string_mode_pushes_instructions_verbatim() {
    let exec = run_steps("\"@+\"", 4, 1, 4);
    assert_eq!(exec.stack(), vec![64, 43]);
    assert!(exec.is_active());
}

#[test]
fn self_modified_cell_runs_as_written() {
    // writes '@' (64) at (4, 0) over the '0', then reaches it and halts
    let mut exec = BefungeExecution::new(FungeField::from_str("88*40p", 6, 1));
    for _i in 0..6 {
        exec.step().unwrap();
    }
    assert_eq!(exec.get(4, 0), Some(64));
    assert!(exec.is_active());
    assert_eq!(exec.pc(), (0, 0, Delta::Right));
    for _i in 0..5 {
        exec.step().unwrap();
    }
    assert!(!exec.is_active());
    assert_eq!(exec.pc(), (4, 0, Delta::Right));
    assert_eq!(exec.stack(), vec![64, 4]);
}
