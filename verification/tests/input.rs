use nes_emulator::input::Input;

#[test]
fn new_controller_is_idle() {
    let input = Input::new();
    assert_eq!(input.joypad_one, 0);
    assert!(!input.read_latch);
    assert_eq!(input.snapshot, 0);
}

#[test]
fn each_button_has_its_bit() {
    let mut input = Input::new();
    input.set_a_input(true);
    assert_eq!(input.joypad_one, 0b0000_0001);
    input.set_b_input(true);
    assert_eq!(input.joypad_one, 0b0000_0011);
    input.set_select_input(true);
    assert_eq!(input.joypad_one, 0b0000_0111);
    input.set_start_input(true);
    assert_eq!(input.joypad_one, 0b0000_1111);
    input.set_up_input(true);
    assert_eq!(input.joypad_one, 0b0001_1111);
    input.set_down_input(true);
    assert_eq!(input.joypad_one, 0b0011_1111);
    input.set_left_input(true);
    assert_eq!(input.joypad_one, 0b0111_1111);
    input.set_right_input(true);
    assert_eq!(input.joypad_one, 0b1111_1111);
    input.set_a_input(false);
    assert_eq!(input.joypad_one, 0b1111_1110);
    input.set_b_input(false);
    assert_eq!(input.joypad_one, 0b1111_1100);
    input.set_select_input(false);
    assert_eq!(input.joypad_one, 0b1111_1000);
    input.set_start_input(false);
    assert_eq!(input.joypad_one, 0b1111_0000);
    input.set_up_input(false);
    assert_eq!(input.joypad_one, 0b1110_0000);
    input.set_down_input(false);
    assert_eq!(input.joypad_one, 0b1100_0000);
    input.set_left_input(false);
    assert_eq!(input.joypad_one, 0b1000_0000);
    input.set_right_input(false);
    assert_eq!(input.joypad_one, 0);
    input.set_up_input(false);
    assert_eq!(input.joypad_one, 0);
}

#[test]
fn poll_takes_the_snapshot_only_while_strobed() {
    let mut input = Input::new();
    input.set_snapshot(0xA5);
    input.update_input();
    assert_eq!(input.joypad_one, 0);
    input.set_latch(true);
    input.update_input();
    assert_eq!(input.joypad_one, 0xA5);
    assert_eq!(input.snapshot, 0xA5);
    assert!(input.read_latch);
    input.set_latch(false);
    input.set_snapshot(0xFF);
    input.update_input();
    assert_eq!(input.joypad_one, 0xA5);
}

#[test]
fn buttons_come_out_a_first() {
    let mut input = Input::new();
    input.joypad_one = 0b1000_1101;
    let read: Vec<u8> = (0..10).map(|_| input.read_and_shift_joypad_one()).collect();
    assert_eq!(read, vec![1, 0, 1, 1, 0, 0, 0, 1, 0, 0]);
    assert_eq!(input.joypad_one, 0);
}
