use chip9::clock::{
    clock_step, forwards_commands, shutdown_transition, start_transition,
};
use chip9::{
    ClockAction, ClockCommand, ClockEvent, ClockState, Color, Display, Keyboard, Memory, OpCode,
    Timer,
};

#[test]
fn decode_known_families() {
    assert_eq!(OpCode::decode(0x00E0), Ok(OpCode::ClearScreen));
    assert_eq!(OpCode::decode(0x00EE), Ok(OpCode::Return));
    assert_eq!(OpCode::decode(0x0123), Ok(OpCode::NoOp));
    assert_eq!(OpCode::decode(0x1ABC), Ok(OpCode::Jump(0xABC)));
    assert_eq!(OpCode::decode(0x2ABC), Ok(OpCode::Call(0xABC)));
    assert_eq!(OpCode::decode(0x3A12), Ok(OpCode::SkipEqualByte(0xA, 0x12)));
    assert_eq!(OpCode::decode(0x5AB0), Ok(OpCode::SkipEqualReg(0xA, 0xB)));
    assert_eq!(OpCode::decode(0x8AB4), Ok(OpCode::AddReg(0xA, 0xB)));
    assert_eq!(OpCode::decode(0x8ABE), Ok(OpCode::ShiftLeft(0xA, 0xB)));
    assert_eq!(OpCode::decode(0xBABC), Ok(OpCode::JumpV0(0xABC)));
    assert_eq!(OpCode::decode(0xD12F), Ok(OpCode::Draw(0x1, 0x2, 0xF)));
    assert_eq!(OpCode::decode(0xE39E), Ok(OpCode::SkipKeyPressed(0x3)));
    assert_eq!(OpCode::decode(0xE3A1), Ok(OpCode::SkipKeyNotPressed(0x3)));
    assert_eq!(OpCode::decode(0xF40A), Ok(OpCode::WaitKey(0x4)));
    assert_eq!(OpCode::decode(0xF465), Ok(OpCode::LoadRegs(0x4)));
}

#[test]
fn decode_rejects_unknown_words() {
    for w in [0x5121u16, 0x8008, 0x800F, 0x9AB1, 0xE000, 0xF0FF, 0xF000] {
        assert_eq!(OpCode::decode(w), Err(chip9::Chip9Error::UnrecognizedOpcode(w)));
    }
}

#[test]
fn display_draw_twice_restores_grid() {
    let mut d = Display::new();
    let first = d.draw(60, 30, &[0xFF, 0x81]);
    assert!(!first);
    assert!(d.pixel(60, 30));
    assert!(d.pixel(3, 30));
    assert!(!d.pixel(4, 30));
    assert!(d.pixel(60, 31));
    assert!(!d.pixel(61, 31));
    assert!(d.pixel(3, 31));
    let before: Vec<bool> = d.grid().clone();
    assert!(!d.draw(0, 0, &[0x80]));
    assert!(d.draw(0, 0, &[0x80]));
    assert_eq!(d.grid(), &before);
    assert!(d.draw(60, 30, &[0xFF, 0x81]));
    assert!(d.grid().iter().all(|p| !p));
}

#[test]
fn display_clear_puts_out_every_pixel() {
    let mut d = Display::new();
    d.draw(10, 10, &[0xAA, 0x55]);
    d.clear();
    assert!(d.grid().iter().all(|p| !p));
    assert_eq!(d.grid().len(), 64 * 32);
}

#[test]
fn keyboard_replaces_pressed_set() {
    let mut k = Keyboard::new();
    assert_eq!(k.get_key_press(), None);
    k.set_pressed(&[0xC, 20, 0x3]);
    assert!(k.is_key_pressed(0x3));
    assert!(k.is_key_pressed(0xC));
    assert!(!k.is_key_pressed(20));
    assert!(!k.is_key_pressed(0x4));
    assert_eq!(k.get_key_press(), Some(0x3));
    k.set_pressed(&[0xF]);
    assert!(!k.is_key_pressed(0x3));
    assert_eq!(k.get_key_press(), Some(0xF));
    k.set_pressed(&[]);
    assert_eq!(k.get_key_press(), None);
}

#[test]
fn timer_counts_down_to_zero_and_stays() {
    let t = Timer::new();
    assert_eq!(t.get(), 0);
    t.load(10);
    for _ in 0..10 {
        t.tick();
    }
    assert_eq!(t.get(), 0);
    t.tick();
    assert_eq!(t.get(), 0);
    t.load(3);
    t.tick();
    assert_eq!(t.get(), 2);
}

#[test]
fn color_packs_channels() {
    assert_eq!(Color::from((0x12, 0x34, 0x56)).value(), 0x123456);
    assert_eq!(Color::from((0xFF, 0xFF, 0xFF)).value(), 0xFFFFFF);
    assert_eq!(Color::from((0, 0, 0)).value(), 0);
}

#[test]
fn memory_holds_font_and_reads_big_endian() {
    let mut m = Memory::new();
    assert_eq!(m.read_byte(0), 0xF0);
    assert_eq!(m.read_byte(79), 0x80);
    assert_eq!(m.read_byte(80), 0);
    m.write_byte(0xFFF, 0x12);
    assert_eq!(m.read_byte(0x1FFF), 0x12);
    m.write_byte(0x000, 0x34);
    assert_eq!(m.fetch_instruction(0xFFF), 0x1234);
}

#[test]
fn clock_loop_decisions() {
    assert_eq!(clock_step(false, ClockEvent::TimedOut), (false, ClockAction::TickAll));
    assert_eq!(clock_step(true, ClockEvent::TimedOut), (true, ClockAction::Wait));
    assert_eq!(
        clock_step(false, ClockEvent::Received(ClockCommand::Pause)),
        (true, ClockAction::Wait)
    );
    assert_eq!(
        clock_step(true, ClockEvent::Received(ClockCommand::Resume)),
        (false, ClockAction::Wait)
    );
    assert_eq!(
        clock_step(true, ClockEvent::Received(ClockCommand::Shutdown)).1,
        ClockAction::Exit
    );
    assert_eq!(clock_step(false, ClockEvent::Disconnected).1, ClockAction::Exit);
}

#[test]
fn clock_lifecycle() {
    assert_eq!(start_transition(ClockState::Created), (ClockState::Running, true));
    assert_eq!(start_transition(ClockState::Running), (ClockState::Running, false));
    assert_eq!(start_transition(ClockState::Stopped), (ClockState::Stopped, false));
    assert_eq!(shutdown_transition(ClockState::Running), (ClockState::Stopped, true));
    assert_eq!(shutdown_transition(ClockState::Stopped), (ClockState::Stopped, false));
    assert_eq!(shutdown_transition(ClockState::Created), (ClockState::Stopped, false));
    assert!(forwards_commands(ClockState::Running));
    assert!(!forwards_commands(ClockState::Created));
}
