use maze_render::eraser::{EraserBuffers, PixelTag, DECAY_ONE};

fn pixels_touching(group: u16, count: usize) -> Vec<PixelTag> {
    let mut v: Vec<PixelTag> = Vec::new();
    let mut i: usize = 0;
    while i < count {
        v.push(PixelTag { group, erased: true });
        i += 1;
    }
    v
}

#[test]
fn touched_group_fades_out_over_ten_frames() {
    // Two eraser instances hold groups 1 and 2; only group 1 is touched
    // each frame, with a step worth a tenth of the full decay range
    // (velocity 1.0 times a delta-time of 0.1).
    let mut b = EraserBuffers::new();
    let px = pixels_touching(1, 4);
    let step = DECAY_ONE / 10;
    let mut frame: usize = 0;
    while frame < 10 {
        b.run_frame(&px, step);
        frame += 1;
    }
    assert_eq!(b.decay_of(1), 0);
    assert_eq!(b.decay_of(2), DECAY_ONE);
}

#[test]
fn untouched_group_keeps_its_decay_value() {
    let mut b = EraserBuffers::new();
    b.run_frame(&pixels_touching(7, 3), DECAY_ONE / 4);
    let before = b.decay_of(7);
    assert_eq!(before, DECAY_ONE - DECAY_ONE / 4);
    // A frame with no touches for group 7 leaves its slot exactly as it was.
    b.run_frame(&pixels_touching(9, 2), DECAY_ONE / 4);
    assert_eq!(b.decay_of(7), before);
    // A frame with no pixels at all changes nothing.
    b.run_frame(&Vec::new(), DECAY_ONE);
    assert_eq!(b.decay_of(7), before);
    assert_eq!(b.decay_of(9), DECAY_ONE - DECAY_ONE / 4);
}

#[test]
fn decay_is_monotonic_while_touched_and_clamped_at_zero() {
    let mut b = EraserBuffers::new();
    let px = pixels_touching(5, 1);
    let step = 300000;
    let mut last = b.decay_of(5);
    let mut frame: usize = 0;
    while frame < 6 {
        b.run_frame(&px, step);
        let now = b.decay_of(5);
        assert!(now <= last);
        assert!(now <= DECAY_ONE);
        last = now;
        frame += 1;
    }
    assert_eq!(last, 0);
}

#[test]
fn decay_stays_in_range_under_oversized_steps() {
    let mut b = EraserBuffers::new();
    b.run_frame(&pixels_touching(3, 2), u32::MAX);
    assert_eq!(b.decay_of(3), 0);
    assert_eq!(b.decay_of(4), DECAY_ONE);
    let mut g: u16 = 0;
    loop {
        assert!(b.decay_of(g) <= DECAY_ONE);
        if g == u16::MAX {
            break;
        }
        g += 1;
    }
}

#[test]
fn touch_buffer_zero_before_collect_regardless_of_history() {
    let mut b = EraserBuffers::new();
    b.run_frame(&pixels_touching(11, 5), 0);
    assert_eq!(b.touch_of(11), 5);
    // The frame commands zero the touch buffer before the collect dispatch;
    // after the clear, every slot reads zero whatever the last frame left.
    b.clear_touches();
    let mut g: u16 = 0;
    loop {
        assert_eq!(b.touch_of(g), 0);
        if g == u16::MAX {
            break;
        }
        g += 1;
    }
}

#[test]
fn frame_outcome_ignores_stale_touches() {
    // Two histories that leave the same decay values but different touch
    // residue: a zero-step frame fades nothing yet records touches.
    let mut a = EraserBuffers::new();
    let mut b = EraserBuffers::new();
    a.run_frame(&pixels_touching(21, 9), 0);
    assert_eq!(a.touch_of(21), 9);
    assert_eq!(b.touch_of(21), 0);
    // The same next frame then yields identical decay values on both.
    let px = pixels_touching(22, 3);
    a.run_frame(&px, DECAY_ONE / 5);
    b.run_frame(&px, DECAY_ONE / 5);
    let mut g: u16 = 0;
    loop {
        assert_eq!(a.decay_of(g), b.decay_of(g));
        if g == u16::MAX {
            break;
        }
        g += 1;
    }
}

#[test]
fn collect_counts_per_group_and_skips_unmarked_pixels() {
    let mut b = EraserBuffers::new();
    let mut px: Vec<PixelTag> = Vec::new();
    px.push(PixelTag { group: 1, erased: true });
    px.push(PixelTag { group: 1, erased: false });
    px.push(PixelTag { group: 2, erased: true });
    px.push(PixelTag { group: 1, erased: true });
    px.push(PixelTag { group: 0, erased: false });
    b.clear_touches();
    b.collect(&px);
    assert_eq!(b.touch_of(1), 2);
    assert_eq!(b.touch_of(2), 1);
    assert_eq!(b.touch_of(0), 0);
    assert_eq!(b.decay_of(1), DECAY_ONE);
}
