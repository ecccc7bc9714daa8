use led_matrix::cadence::{FrameLimit, DEFAULT_FRAME_INTERVAL_MS};
use led_matrix::frame::FrameBuffer;
use led_matrix::renderer::{render, sweep_commands, LightMatrix, LinkState};

fn check_sweep(sweep: &[Vec<u8>], fb: &FrameBuffer) {
    assert_eq!(sweep.len(), 10);
    for x in 0..9u8 {
        let cmd = &sweep[x as usize];
        assert_eq!(cmd.len(), 3 + 35);
        assert_eq!(&cmd[..3], &[0x32, 0xAC, 0x07]);
        assert_eq!(cmd[3], x);
        for i in 0..34u8 {
            assert_eq!(cmd[4 + i as usize], fb.get_pixel(x, 33 - i));
        }
    }
    assert_eq!(sweep[9], vec![0x32, 0xAC, 0x08]);
}

fn patterned() -> FrameBuffer {
    let mut fb = FrameBuffer::default();
    for x in 0..9u8 {
        for y in 0..34u8 {
            fb.set_pixel(x, y, x.wrapping_mul(34).wrapping_add(y));
        }
    }
    fb
}

#[test]
fn sweep_sends_columns_in_order_then_commit() {
    let fb = patterned();
    let sweep = sweep_commands(&fb);
    check_sweep(&sweep, &fb);
}

#[test]
fn sweep_reverses_rows() {
    let mut fb = FrameBuffer::default();
    fb.set_pixel(0, 0, 0xAA);
    let sweep = sweep_commands(&fb);
    assert_eq!(sweep[0][3 + 1 + 33], 0xAA);
    assert_eq!(sweep[0][3 + 1], 0);
}

#[test]
fn busy_link_drops_frame_and_keeps_state() {
    let mut matrix = LightMatrix::new();
    let first = matrix.draw(patterned());
    assert!(first.is_some());
    assert_eq!(matrix.link_state(), LinkState::Sending);
    let second = matrix.draw(FrameBuffer::default());
    assert!(second.is_none());
    assert_eq!(matrix.link_state(), LinkState::Sending);
}

#[test]
fn two_frames_with_free_link_give_two_sweeps() {
    let mut matrix = LightMatrix::new();
    let a = patterned();
    let mut b = FrameBuffer::default();
    b.set_pixel(8, 33, 1);
    let a_copy = a.snapshot();
    let b_copy = b.snapshot();
    let first = matrix.draw(a).unwrap();
    matrix.transmission_finished(true);
    assert_eq!(matrix.link_state(), LinkState::Idle);
    let second = matrix.draw(b).unwrap();
    check_sweep(&first, &a_copy);
    check_sweep(&second, &b_copy);
    let commits = first.iter().chain(second.iter()).filter(|c| c[2] == 0x08).count();
    assert_eq!(commits, 2);
}

#[test]
fn write_failure_disconnects_until_reconnected() {
    let mut matrix = LightMatrix::new();
    assert!(matrix.draw(FrameBuffer::default()).is_some());
    matrix.transmission_finished(false);
    assert_eq!(matrix.link_state(), LinkState::Disconnected);
    assert!(matrix.draw(FrameBuffer::default()).is_none());
    matrix.transmission_finished(true);
    assert_eq!(matrix.link_state(), LinkState::Disconnected);
    matrix.reconnected();
    assert_eq!(matrix.link_state(), LinkState::Idle);
    assert!(matrix.draw(FrameBuffer::default()).is_some());
}

#[test]
fn frame_limit_fires_once_per_interval() {
    let mut limit = FrameLimit::new(DEFAULT_FRAME_INTERVAL_MS);
    assert!(!limit.tick(40));
    assert!(!limit.tick(40));
    assert!(limit.tick(40));
    assert_eq!(limit.elapsed_ms(), 20);
    assert!(limit.tick(80));
    assert_eq!(limit.elapsed_ms(), 0);
    assert!(limit.tick(250));
    assert_eq!(limit.elapsed_ms(), 50);
    assert_eq!(limit.interval_ms(), 100);
}

#[test]
fn zero_interval_fires_every_tick() {
    let mut limit = FrameLimit::new(0);
    assert!(limit.tick(0));
    assert!(limit.tick(1));
    assert_eq!(limit.elapsed_ms(), 0);
}

#[test]
fn frame_limit_survives_huge_delta() {
    let mut limit = FrameLimit::new(100);
    assert!(!limit.tick(99));
    assert!(limit.tick(u64::MAX));
    assert_eq!(limit.elapsed_ms(), ((99u128 + u64::MAX as u128) % 100) as u64);
}

#[test]
fn render_is_held_back_by_the_limit() {
    let mut limit = Some(FrameLimit::new(100));
    let mut matrix = LightMatrix::new();
    let fb = patterned();
    assert!(render(&mut limit, 50, &mut matrix, &fb).is_none());
    assert_eq!(matrix.link_state(), LinkState::Idle);
    let sweep = render(&mut limit, 50, &mut matrix, &fb).unwrap();
    check_sweep(&sweep, &fb);
    assert_eq!(matrix.link_state(), LinkState::Sending);
    assert!(render(&mut limit, 100, &mut matrix, &fb).is_none());
    assert_eq!(matrix.link_state(), LinkState::Sending);
}

#[test]
fn render_without_limit_submits_every_tick() {
    let mut limit: Option<FrameLimit> = None;
    let mut matrix = LightMatrix::new();
    let fb = FrameBuffer::default();
    assert!(render(&mut limit, 0, &mut matrix, &fb).is_some());
    matrix.transmission_finished(true);
    assert!(render(&mut limit, 0, &mut matrix, &fb).is_some());
}
