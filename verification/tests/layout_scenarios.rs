use imsequencer::geometry::CanvasRegion;
use imsequencer::geometry::ContentRegion;
use imsequencer::geometry::LayoutConstants;
use imsequencer::layout::compute_layout;
use imsequencer::layout::DrawPrimitive;
use imsequencer::layout::LayoutInput;
use imsequencer::options;
use imsequencer::options::SequencerOptions;
use imsequencer::style::SequencerStyle;

fn default_input(frame_min: u32, frame_max: u32, item_count: usize) -> LayoutInput {
    LayoutInput {
        frame_min,
        frame_max,
        item_count,
        style: SequencerStyle::default(),
        canvas: CanvasRegion { x: 0, y: 0, width: 400, height: 300 },
        content: ContentRegion { min_x: 0, min_y: 20, max_x: 400, max_y: 300 },
        constants: LayoutConstants::default(),
    }
}

fn tick_line_xs(out: &[DrawPrimitive]) -> Vec<i64> {
    out.iter()
        .filter_map(|p| match p {
            DrawPrimitive::Line { x, color, .. } if *color == 0xFF606060 => Some(*x),
            _ => None,
        })
        .collect()
}

fn frame_numbers(out: &[DrawPrimitive]) -> Vec<u32> {
    out.iter()
        .filter_map(|p| match p {
            DrawPrimitive::FrameNumber { frame, .. } => Some(*frame),
            _ => None,
        })
        .collect()
}

#[test]
fn ten_frame_scenario_emits_exact_draw_list() {
    // frames 0..=9 on a 400px canvas with a 200px legend: the decimation
    // period doubles once to 20 frames, the stride to 2, and the only
    // major frames are the endpoints 0 and 9. Frame 0 is stride-aligned,
    // so the loop draws it and the forced-endpoint pass skips it.
    let inp = default_input(0, 9, 0);
    let out = compute_layout(&inp, SequencerOptions::empty());
    let head = 0xFF606060;
    let num = 0xFFBBBBBB;
    let body = 0x30606060;
    let expected = vec![
        DrawPrimitive::FilledRect { x0: 0, y0: 0, x1: 400, y1: 20, color: 0xffff0000 },
        DrawPrimitive::FilledRect { x0: 0, y0: 0, x1: 400, y1: 300, color: 0xff242424 },
        DrawPrimitive::FilledRect { x0: 200, y0: 0, x1: 400, y1: 20, color: 0xff3d3837 },
        DrawPrimitive::Line { x: 200, y0: 4, y1: 20, color: head },
        DrawPrimitive::FrameNumber { x: 203, y: 0, color: num, frame: 0 },
        DrawPrimitive::Line { x: 220, y0: 14, y1: 20, color: head },
        DrawPrimitive::Line { x: 240, y0: 14, y1: 20, color: head },
        DrawPrimitive::Line { x: 260, y0: 14, y1: 20, color: head },
        DrawPrimitive::Line { x: 290, y0: 4, y1: 20, color: head },
        DrawPrimitive::FrameNumber { x: 293, y: 0, color: num, frame: 9 },
        DrawPrimitive::Line { x: 200, y0: 20, y1: 300, color: body },
        DrawPrimitive::Line { x: 220, y0: 20, y1: 300, color: body },
        DrawPrimitive::Line { x: 240, y0: 20, y1: 300, color: body },
        DrawPrimitive::Line { x: 260, y0: 20, y1: 300, color: body },
        DrawPrimitive::Line { x: 290, y0: 20, y1: 300, color: body },
    ];
    assert_eq!(out, expected);
}

#[test]
fn ten_frame_scenario_major_set_is_endpoints_only() {
    let inp = default_input(0, 9, 0);
    let out = compute_layout(&inp, SequencerOptions::empty());
    let mut frames = frame_numbers(&out);
    frames.sort();
    frames.dedup();
    assert_eq!(frames, vec![0, 9]);
}

#[test]
fn unaligned_endpoints_still_get_major_ticks() {
    // With a stride of 2 and period of 20, only multiples of 20 align;
    // frames 3 and 97 are forced in as majors regardless.
    let inp = LayoutInput {
        canvas: CanvasRegion { x: 0, y: 0, width: 1200, height: 400 },
        content: ContentRegion { min_x: 0, min_y: 20, max_x: 1200, max_y: 400 },
        ..default_input(3, 97, 0)
    };
    let out = compute_layout(&inp, SequencerOptions::empty());
    let frames = frame_numbers(&out);
    assert!(frames.contains(&3));
    assert!(frames.contains(&97));
    // their ticks reach the major height (start offset 4)
    for (frame, px) in [(3u32, 230i64), (97u32, 1170i64)] {
        assert!(out.iter().any(|p| matches!(
            p,
            DrawPrimitive::Line { x, y0: 4, .. } if *x == px
        )), "no major tick line for frame {frame}");
    }
    let mut sorted = frames.clone();
    sorted.sort();
    assert_eq!(sorted, vec![3, 20, 40, 60, 80, 97]);
}

#[test]
fn all_tick_lines_confined_to_clip() {
    for (min, max) in [(0u32, 9u32), (0, 5000), (137, 93210), (4, 4)] {
        let inp = default_input(min, max, 3);
        let out = compute_layout(&inp, SequencerOptions::empty());
        for p in &out {
            if let DrawPrimitive::Line { x, .. } = p {
                assert!(200 <= *x && *x <= 400, "line at {x} outside [200, 400]");
            }
        }
    }
}

#[test]
fn zero_items_draw_no_rows_but_keep_chrome() {
    let inp = default_input(0, 9, 0);
    let out = compute_layout(&inp, SequencerOptions::empty());
    let rects = out
        .iter()
        .filter(|p| matches!(p, DrawPrimitive::FilledRect { .. }))
        .count();
    let labels = out
        .iter()
        .filter(|p| matches!(p, DrawPrimitive::ItemLabel { .. }))
        .count();
    // exactly the header, background and ruler-top rectangles
    assert_eq!(rects, 3);
    assert_eq!(labels, 0);
}

#[test]
fn item_rows_alternate_slot_colors() {
    let inp = default_input(0, 9, 3);
    let out = compute_layout(&inp, SequencerOptions::empty());
    let labels: Vec<&DrawPrimitive> = out
        .iter()
        .filter(|p| matches!(p, DrawPrimitive::ItemLabel { .. }))
        .collect();
    assert_eq!(
        labels,
        vec![
            &DrawPrimitive::ItemLabel { x: 3, y: 22, color: 0xffffffff, index: 0 },
            &DrawPrimitive::ItemLabel { x: 3, y: 42, color: 0xffffffff, index: 1 },
            &DrawPrimitive::ItemLabel { x: 3, y: 62, color: 0xffffffff, index: 2 },
        ]
    );
    let slots: Vec<&DrawPrimitive> = out
        .iter()
        .filter(|p| matches!(p, DrawPrimitive::FilledRect { color, .. } if *color == 0xff3a3636 || *color == 0xff413d3d))
        .collect();
    assert_eq!(
        slots,
        vec![
            &DrawPrimitive::FilledRect { x0: 200, y0: 21, x1: 400, y1: 40, color: 0xff3a3636 },
            &DrawPrimitive::FilledRect { x0: 200, y0: 41, x1: 400, y1: 60, color: 0xff413d3d },
            &DrawPrimitive::FilledRect { x0: 200, y0: 61, x1: 400, y1: 80, color: 0xff3a3636 },
        ]
    );
}

#[test]
fn collapsed_range_draws_single_major_tick() {
    // min == max: the strided loop is empty, the coinciding endpoint is
    // forced in exactly once, and nothing divides by zero.
    let inp = default_input(5, 5, 0);
    let out = compute_layout(&inp, SequencerOptions::empty());
    assert_eq!(
        out[0],
        DrawPrimitive::FilledRect { x0: 0, y0: 0, x1: 400, y1: 20, color: 0xffff0000 }
    );
    assert_eq!(tick_line_xs(&out), vec![250]);
    assert!(out.iter().any(|p| matches!(p, DrawPrimitive::Line { x: 250, y0: 4, .. })));
    assert_eq!(frame_numbers(&out), vec![5]);
    let grid_lines = out
        .iter()
        .filter(|p| matches!(p, DrawPrimitive::Line { color: 0x30606060, .. }))
        .count();
    assert_eq!(grid_lines, 1);
}

#[test]
fn identical_inputs_give_identical_draw_lists() {
    let inp = default_input(137, 93210, 7);
    let first = compute_layout(&inp, SequencerOptions::empty());
    let second = compute_layout(&inp, SequencerOptions::empty());
    assert_eq!(first, second);
}

#[test]
fn flags_are_inert_for_layout() {
    let inp = default_input(0, 9, 2);
    let none = compute_layout(&inp, SequencerOptions::empty());
    let all = compute_layout(
        &inp,
        SequencerOptions::from_bits(
            options::EDIT_NONE
                | options::EDIT_START_END
                | options::CHANGE_FRAME
                | options::ADD
                | options::DELETE
                | options::COPY_PASTE,
        ),
    );
    assert_eq!(none, all);
}

#[test]
fn offscreen_frames_are_clipped_out() {
    // a canvas only 250px wide shows frames 0..=5; later frames emit no
    // tick lines and no frame-number labels — the majors at 20, 40 and
    // the forced endpoint 50 all sit right of the clip
    let inp = LayoutInput {
        canvas: CanvasRegion { x: 0, y: 0, width: 250, height: 300 },
        content: ContentRegion { min_x: 0, min_y: 20, max_x: 250, max_y: 300 },
        ..default_input(0, 50, 0)
    };
    let out = compute_layout(&inp, SequencerOptions::empty());
    for p in &out {
        match p {
            DrawPrimitive::Line { x, .. } => assert!(*x <= 250),
            DrawPrimitive::FrameNumber { x, .. } => assert!(*x <= 253),
            _ => {}
        }
    }
    assert_eq!(frame_numbers(&out), vec![0]);
}

#[test]
fn empty_clip_interval_emits_no_marks() {
    // a canvas narrower than the legend column: nothing of the timeline
    // is visible, only the chrome rectangles are drawn
    let inp = LayoutInput {
        canvas: CanvasRegion { x: 0, y: 0, width: 150, height: 300 },
        content: ContentRegion { min_x: 0, min_y: 20, max_x: 150, max_y: 300 },
        ..default_input(0, 50, 0)
    };
    let out = compute_layout(&inp, SequencerOptions::empty());
    assert!(out.iter().all(|p| matches!(p, DrawPrimitive::FilledRect { .. })));
    assert_eq!(out.len(), 3);
}
