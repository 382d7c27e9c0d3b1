use imsequencer::decimation::decimate;
use imsequencer::geometry::bar_width_pixels;
use imsequencer::geometry::frame_count;
use imsequencer::geometry::frame_to_pixel;
use imsequencer::geometry::visible_frame_count;

#[test]
fn pixel_mapping_is_strictly_increasing() {
    let mut last = frame_to_pixel(0, 200, 10, 0);
    assert_eq!(last, 200);
    for frame in 1..100u32 {
        let px = frame_to_pixel(0, 200, 10, frame);
        assert!(px > last);
        last = px;
    }
}

#[test]
fn pixel_mapping_exact_values() {
    assert_eq!(frame_to_pixel(0, 200, 10, 9), 290);
    assert_eq!(frame_to_pixel(100, 200, 10, 0), 300);
    assert_eq!(frame_to_pixel(-50, 0, 1, 7), -43);
}

#[test]
fn decimation_at_default_width_doubles_once() {
    // 10 frames at 10px span 100px < 150px, so the period doubles once
    let d = decimate(10);
    assert_eq!(d.mod_frame_count, 20);
    assert_eq!(d.frame_step, 2);
    assert_eq!(d.half_mod_frame_count, 10);
}

#[test]
fn decimation_yields_power_of_two_multiples_of_ten() {
    for fpw in 1..200u32 {
        let d = decimate(fpw);
        assert_eq!(d.mod_frame_count, 10 * d.frame_step);
        assert!(d.frame_step.is_power_of_two());
        assert!((d.mod_frame_count as u64) * (fpw as u64) >= 150);
        // fewest doublings: half the period would be too narrow
        if d.frame_step > 1 {
            assert!((d.mod_frame_count as u64 / 2) * (fpw as u64) < 150);
        }
    }
}

#[test]
fn decimation_exact_values() {
    // 1px frames: 10, 20, 40, 80, 160 -> stops at 160
    let d = decimate(1);
    assert_eq!((d.mod_frame_count, d.frame_step, d.half_mod_frame_count), (160, 16, 80));
    // 15px frames: 10 * 15 = 150 already reaches the floor
    let d = decimate(15);
    assert_eq!((d.mod_frame_count, d.frame_step, d.half_mod_frame_count), (10, 1, 5));
    let d = decimate(7);
    assert_eq!((d.mod_frame_count, d.frame_step, d.half_mod_frame_count), (40, 4, 20));
}

#[test]
fn frame_count_floors_at_one() {
    assert_eq!(frame_count(0, 9), 9);
    assert_eq!(frame_count(5, 5), 1);
    assert_eq!(frame_count(3, 97), 94);
}

#[test]
fn visible_frame_count_matches_scenario() {
    // floor((400 - 200) / 10) = 20
    assert_eq!(visible_frame_count(400, 200, 10), 20);
    assert_eq!(visible_frame_count(409, 200, 10), 20);
    assert_eq!(visible_frame_count(100, 200, 10), 0);
    assert_eq!(visible_frame_count(200, 200, 10), 0);
}

#[test]
fn bar_width_caps_at_track_width() {
    assert_eq!(bar_width_pixels(20, 9, 200), 200);
    assert_eq!(bar_width_pixels(5, 10, 200), 100);
    assert_eq!(bar_width_pixels(0, 10, 200), 0);
    assert_eq!(bar_width_pixels(1, 3, 200), 66);
}
