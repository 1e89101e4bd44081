use osc_dmx::frame::{Arg, FrameBuffer};
use osc_dmx::osc::{get_shift, OffsetError, OscRoute};

fn buffer_of(values: &[u8]) -> FrameBuffer {
    let mut b = FrameBuffer::new(values.len());
    let args: Vec<Arg> = values.iter().map(|v| Arg::Int(*v as i32)).collect();
    b.write_run(0, &args);
    b
}

#[test]
fn integer_run_is_clamped_and_offset() {
    let route = OscRoute::new(0);
    let mut b = buffer_of(&[5, 5, 5, 5]);
    let applied = b.apply_message(&route, "/0/dmx/1", &[Arg::Int(10), Arg::Int(20), Arg::Int(300)]);
    assert!(applied);
    assert_eq!(b.snapshot(), vec![5, 10, 20, 255]);
}

#[test]
fn run_past_the_end_is_truncated() {
    let route = OscRoute::new(0);
    let mut b = buffer_of(&[1, 2, 3, 4]);
    let applied = b.apply_message(&route, "/0/dmx/3", &[Arg::Int(77), Arg::Int(88)]);
    assert!(applied);
    assert_eq!(b.snapshot(), vec![1, 2, 3, 77]);
    assert_eq!(b.len(), 4);
}

#[test]
fn other_universe_is_ignored() {
    let route = OscRoute::new(0);
    let mut b = buffer_of(&[9, 8, 7, 6]);
    let applied = b.apply_message(&route, "/1/dmx/0", &[Arg::Int(1), Arg::Int(2)]);
    assert!(!applied);
    assert_eq!(b.snapshot(), vec![9, 8, 7, 6]);
}

#[test]
fn foreign_addresses_never_mutate() {
    let route = OscRoute::new(3);
    let mut b = buffer_of(&[1, 1, 1]);
    for addr in ["/3/dmx", "/3/dm/0", "/30/dmx/0", "3/dmx/0", "", "/3/DMX/0", "/-3/dmx/0"] {
        assert!(!b.apply_message(&route, addr, &[Arg::Int(200)]));
    }
    assert_eq!(b.snapshot(), vec![1, 1, 1]);
}

#[test]
fn bad_offsets_are_dropped() {
    let route = OscRoute::new(0);
    let mut b = buffer_of(&[4, 4]);
    for addr in ["/0/dmx/", "/0/dmx/-1", "/0/dmx/x", "/0/dmx/1a", "/0/dmx/ 1", "/0/dmx/+", "/0/dmx/99999999999999999999999"] {
        assert!(!b.apply_message(&route, addr, &[Arg::Int(200)]));
    }
    assert_eq!(b.snapshot(), vec![4, 4]);
    assert!(b.apply_message(&route, "/0/dmx/+1", &[Arg::Int(200)]));
    assert_eq!(b.snapshot(), vec![4, 200]);
}

#[test]
fn offset_at_or_past_the_end_changes_nothing() {
    let route = OscRoute::new(0);
    let mut b = buffer_of(&[4, 4]);
    assert!(b.apply_message(&route, "/0/dmx/2", &[Arg::Int(200)]));
    assert!(b.apply_message(&route, "/0/dmx/18446744073709551615", &[Arg::Int(200)]));
    assert_eq!(b.snapshot(), vec![4, 4]);
}

#[test]
fn run_updates_only_its_window() {
    let mut b = FrameBuffer::new(8);
    b.write_run(2, &[Arg::Int(1), Arg::Int(2), Arg::Int(3)]);
    assert_eq!(b.snapshot(), vec![0, 0, 1, 2, 3, 0, 0, 0]);
    b.write_run(6, &[Arg::Int(9), Arg::Int(9), Arg::Int(9)]);
    assert_eq!(b.snapshot(), vec![0, 0, 1, 2, 3, 0, 9, 9]);
    b.write_run(0, &[]);
    assert_eq!(b.snapshot(), vec![0, 0, 1, 2, 3, 0, 9, 9]);
}

#[test]
fn argument_kinds_decode() {
    let mut b = buffer_of(&[50, 50, 50, 50, 50, 50, 50, 50]);
    b.write_run(
        0,
        &[
            Arg::Int(-5),
            Arg::Long(1 << 40),
            Arg::Long(128),
            Arg::Scaled(255),
            Arg::Char('A'),
            Arg::Bool(true),
            Arg::Bool(false),
            Arg::Other,
        ],
    );
    assert_eq!(b.snapshot(), vec![0, 255, 128, 255, 65, 1, 0, 50]);
}

#[test]
fn char_gives_its_low_byte() {
    let mut b = FrameBuffer::new(1);
    b.write_run(0, &[Arg::Char('\u{1F4A1}')]);
    assert_eq!(b.get(0), 0xA1);
}

#[test]
fn prefix_of_universes() {
    assert_eq!(OscRoute::new(0).prefix(), b"/0/dmx/");
    assert_eq!(OscRoute::new(1207).prefix(), b"/1207/dmx/");
    assert_eq!(OscRoute::new(-4).prefix(), b"/-4/dmx/");
    assert_eq!(OscRoute::new(i32::MIN).prefix(), b"/-2147483648/dmx/");
}

#[test]
fn shift_after_starter() {
    assert_eq!(get_shift(b"/0/dmx/", b"/0/dmx/42"), Ok(42));
    assert_eq!(get_shift(b"/0/dmx/", b"/0/dmx/"), Err(OffsetError::Empty));
    assert_eq!(get_shift(b"/0/dmx/", b"/0/dmx/-0"), Err(OffsetError::InvalidDigit));
    assert_eq!(get_shift(b"/0/dmx/", b"/0/dmx/184467440737095516150"), Err(OffsetError::Overflow));
    assert_eq!(get_shift(b"/0/dmx/", b"/0/dmx/007"), Ok(7));
}

#[test]
fn route_offsets() {
    let route = OscRoute::new(2);
    assert_eq!(route.offset_of(b"/2/dmx/511"), Some(511));
    assert_eq!(route.offset_of(b"/2/dmx/"), None);
    assert_eq!(route.offset_of(b"/2/midi/5"), None);
}
