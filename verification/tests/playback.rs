use particle_video::buffer::PlaybackBuffer;
use particle_video::controller::State;

#[test]
fn scenario_small_video_refill() {
    // FRAME_COUNT = 10, PREFETCH_DEPTH = 4, loading from frame 0.
    let mut buffer = PlaybackBuffer::new(10, 4, 0);
    for _ in 0..4 {
        buffer.refill();
    }
    assert_eq!(buffer.load_index(), 4);
    assert_eq!(buffer.queue_len(), 4);

    // Drain and refill until the end of the stream.
    let playing = State::Playing;
    buffer.tick(10_000_000, &playing);
    while buffer.play_index() < 10 {
        buffer.advance_display(&playing);
        buffer.refill();
    }
    assert_eq!(buffer.load_index(), 10);
    assert_eq!(buffer.queue_len(), 0);

    // Further refills stop enqueuing once load_index hit the frame count.
    buffer.refill();
    buffer.refill();
    assert_eq!(buffer.load_index(), 10);
    assert_eq!(buffer.queue_len(), 0);
}

#[test]
fn new_buffer_is_empty_and_unstarted() {
    let buffer = PlaybackBuffer::new(6572, 256, 1);
    assert_eq!(buffer.play_index(), 0);
    assert_eq!(buffer.load_index(), 1);
    assert_eq!(buffer.queue_len(), 0);
    assert_eq!(buffer.elapsed_micros(), 0);
    assert!(buffer.displayed().is_none());
}

#[test]
fn refill_caps_at_prefetch_depth() {
    let mut buffer = PlaybackBuffer::new(6572, 256, 1);
    buffer.refill();
    assert_eq!(buffer.queue_len(), 256);
    assert_eq!(buffer.load_index(), 257);
    buffer.refill();
    assert_eq!(buffer.queue_len(), 256);
    assert_eq!(buffer.load_index(), 257);
}

#[test]
fn frame_due_exactly_by_the_clock() {
    // At 30 frames per second a frame falls due every 33333.3 microseconds.
    let mut buffer = PlaybackBuffer::new(10, 4, 0);
    buffer.refill();
    let playing = State::Playing;

    buffer.tick(33_333, &playing);
    buffer.advance_display(&playing);
    assert_eq!(buffer.play_index(), 0);
    assert!(buffer.displayed().is_none());

    buffer.tick(1, &playing);
    buffer.advance_display(&playing);
    assert_eq!(buffer.play_index(), 1);
    assert_eq!(buffer.displayed().unwrap().index, 0);
    assert_eq!(buffer.queue_len(), 3);
}

#[test]
fn empty_queue_holds_previous_frame() {
    let mut buffer = PlaybackBuffer::new(10, 4, 0);
    let playing = State::Playing;
    buffer.tick(1_000_000, &playing);
    buffer.advance_display(&playing);
    assert_eq!(buffer.play_index(), 0);
    assert!(buffer.displayed().is_none());

    // Frames arrive late; playback catches up one dequeue at a time.
    buffer.refill();
    buffer.advance_display(&playing);
    assert_eq!(buffer.play_index(), 1);
    assert_eq!(buffer.displayed().unwrap().index, 0);
    buffer.advance_display(&playing);
    assert_eq!(buffer.play_index(), 2);
    assert_eq!(buffer.displayed().unwrap().index, 1);
}

#[test]
fn paused_buffer_does_not_advance() {
    let mut buffer = PlaybackBuffer::new(10, 4, 0);
    buffer.refill();
    let paused = State::Paused;
    buffer.tick(5_000_000, &paused);
    assert_eq!(buffer.elapsed_micros(), 0);
    buffer.advance_display(&paused);
    assert_eq!(buffer.play_index(), 0);
    assert!(buffer.displayed().is_none());
    assert_eq!(buffer.queue_len(), 4);
}

#[test]
fn start_index_offsets_first_displayed_frame() {
    // The real video starts loading at frame 1; frame 0 is the implicit
    // blank initial display.
    let mut buffer = PlaybackBuffer::new(10, 4, 1);
    buffer.refill();
    assert_eq!(buffer.load_index(), 5);
    assert_eq!(buffer.queue_len(), 4);
    let playing = State::Playing;
    buffer.tick(1_000_000, &playing);
    buffer.advance_display(&playing);
    assert_eq!(buffer.play_index(), 1);
    assert_eq!(buffer.displayed().unwrap().index, 1);
}

#[test]
fn refill_stops_at_end_of_stream_before_filling_queue() {
    let mut buffer = PlaybackBuffer::new(3, 256, 0);
    buffer.refill();
    assert_eq!(buffer.load_index(), 3);
    assert_eq!(buffer.queue_len(), 3);
    buffer.refill();
    assert_eq!(buffer.load_index(), 3);
    assert_eq!(buffer.queue_len(), 3);
}

#[test]
fn clock_saturates_instead_of_overflowing() {
    let mut buffer = PlaybackBuffer::new(10, 4, 0);
    let playing = State::Playing;
    buffer.tick(u64::MAX, &playing);
    buffer.tick(u64::MAX, &playing);
    assert_eq!(buffer.elapsed_micros(), u64::MAX);
}
