use fractals::cache::{plan_render, side_file_path};
use fractals::escape::{EscapeProgress, LaneGroup};
use fractals::field::{assemble_rows, row_major_index};
use fractals::settings::RenderSettings;

#[test]
fn settings_accepts_valid_configuration() {
    let s = RenderSettings::new(640, 480, 100, true).unwrap();
    assert_eq!(s.width, 640);
    assert_eq!(s.height, 480);
    assert_eq!(s.max_iterations, 100);
    assert!(s.julia);
}

#[test]
fn settings_rejects_degenerate_configuration() {
    assert!(RenderSettings::new(0, 480, 100, false).is_none());
    assert!(RenderSettings::new(640, 0, 100, false).is_none());
    assert!(RenderSettings::new(640, 480, 0, false).is_none());
}

#[test]
fn settings_default_is_the_classic_framing() {
    let s = RenderSettings::default();
    assert_eq!(s.width, 800);
    assert_eq!(s.height, 800);
    assert_eq!(s.max_iterations, 256);
    assert!(!s.julia);
    assert_eq!(s.field_len(), 640_000);
}

#[test]
fn escape_records_the_turn_of_the_escape() {
    let mut p = EscapeProgress::start(256);
    p.observe(false);
    p.observe(false);
    p.observe(false);
    assert!(!p.done);
    p.observe(true);
    assert!(p.done);
    assert!(p.escaped);
    assert_eq!(p.iterations_used, 3);
    assert!(p.iterations_used < p.max_iterations);
}

#[test]
fn escape_on_the_first_look_spends_nothing() {
    let mut p = EscapeProgress::start(256);
    p.observe(true);
    assert!(p.done);
    assert!(p.escaped);
    assert_eq!(p.iterations_used, 0);
}

#[test]
fn exhausted_budget_means_no_escape() {
    let mut p = EscapeProgress::start(2);
    p.observe(false);
    p.observe(false);
    assert!(!p.done);
    assert_eq!(p.iterations_used, 2);
    // The iterate reached after the last budgeted step is never tested:
    // even an escaping verdict now closes the pixel as non-escaping.
    p.observe(true);
    assert!(p.done);
    assert!(!p.escaped);
    assert_eq!(p.iterations_used, 2);
}

#[test]
fn lane_group_retires_lanes_independently() {
    let mut g = LaneGroup::start(2, 4);
    g.observe(&vec![true, false]);
    assert!(g.lanes[0].done && g.lanes[0].escaped);
    assert_eq!(g.lanes[0].iterations_used, 0);
    assert!(!g.lanes[1].done);
    assert_eq!(g.lanes[1].iterations_used, 1);
    assert!(!g.all_done());

    // A retired lane ignores every later verdict.
    g.observe(&vec![true, false]);
    assert_eq!(g.lanes[0].iterations_used, 0);
    assert!(g.lanes[0].escaped);
    assert_eq!(g.lanes[1].iterations_used, 2);

    g.observe(&vec![false, true]);
    assert!(g.all_done());
    assert!(g.lanes[1].escaped);
    assert_eq!(g.lanes[1].iterations_used, 2);
}

#[test]
fn lane_group_exhausts_like_a_single_pixel() {
    let mut g = LaneGroup::start(1, 2);
    g.observe(&vec![false]);
    g.observe(&vec![false]);
    assert!(!g.all_done());
    g.observe(&vec![false]);
    assert!(g.all_done());
    assert!(!g.lanes[0].escaped);
    assert_eq!(g.lanes[0].iterations_used, 2);
}

#[test]
fn lockstep_and_scalar_agree_on_each_lane() {
    // Two lanes in lockstep: the first escapes on its second verdict, the
    // second never escapes and exhausts the budget of 3.
    let mut g = LaneGroup::start(2, 3);
    let turns: Vec<Vec<bool>> =
        vec![vec![false, false], vec![true, false], vec![false, false], vec![false, false]];
    for t in &turns {
        g.observe(t);
    }
    assert!(g.all_done());

    // The same two pixels, each run through the scalar loop on its own
    // verdict stream, reach exactly the same states.
    let mut p0 = EscapeProgress::start(3);
    for t in &turns {
        if !p0.done {
            p0.observe(t[0]);
        }
    }
    let mut p1 = EscapeProgress::start(3);
    for t in &turns {
        if !p1.done {
            p1.observe(t[1]);
        }
    }
    assert_eq!(g.lanes[0], p0);
    assert_eq!(g.lanes[1], p1);
    assert!(p0.escaped && p0.iterations_used == 1);
    assert!(!p1.escaped && p1.done && p1.iterations_used == 3);
}

#[test]
fn row_major_index_walks_rows_first() {
    assert_eq!(row_major_index(0, 0, 10), 0);
    assert_eq!(row_major_index(9, 0, 10), 9);
    assert_eq!(row_major_index(0, 1, 10), 10);
    assert_eq!(row_major_index(3, 2, 10), 23);
}

#[test]
fn assemble_rows_lays_rows_out_in_order() {
    let rows: Vec<Vec<u32>> = vec![vec![1, 2, 3], vec![4, 5, 6]];
    let flat = assemble_rows(&rows, 3);
    assert_eq!(flat, vec![1, 2, 3, 4, 5, 6]);
}

#[test]
fn assemble_rows_of_nothing_is_empty() {
    let rows: Vec<Vec<u8>> = vec![];
    let flat = assemble_rows(&rows, 7);
    assert!(flat.is_empty());
}

#[test]
fn identical_stored_bytes_skip_the_render() {
    let encoded: Vec<u8> = vec![123, 10, 32, 119, 105, 100, 116, 104];
    let plan = plan_render(&Some(encoded.clone()), &encoded, true, false);
    assert!(plan.skip);
    assert!(plan.announce_existing);
    assert!(!plan.compute);
    assert!(!plan.write_raw);
    assert!(!plan.write_image);
}

#[test]
fn side_files_sit_beside_the_image() {
    assert_eq!(side_file_path("output.png", ".json"), "output.png.json");
    assert_eq!(side_file_path("output.png", ".bin"), "output.png.bin");
}

#[test]
fn quiet_cache_hit_stays_silent() {
    let encoded: Vec<u8> = vec![1, 2, 3];
    let plan = plan_render(&Some(encoded.clone()), &encoded, false, true);
    assert!(plan.skip);
    assert!(!plan.announce_existing);
}

#[test]
fn changed_bytes_force_a_fresh_render() {
    let stored: Vec<u8> = vec![1, 2, 3];
    let encoded: Vec<u8> = vec![1, 2, 4];
    let plan = plan_render(&Some(stored), &encoded, false, false);
    assert!(!plan.skip);
    assert!(plan.compute);
    assert!(!plan.write_raw);
    assert!(plan.write_image);
    assert!(!plan.announce_existing);
}

#[test]
fn missing_metadata_forces_a_fresh_render() {
    let encoded: Vec<u8> = vec![9, 9, 9];
    let plan = plan_render(&None, &encoded, true, false);
    assert!(!plan.skip);
    assert!(plan.compute);
    assert!(plan.write_raw);
    assert!(plan.write_image);
}

#[test]
fn longer_and_shorter_stored_bytes_both_miss() {
    let encoded: Vec<u8> = vec![5, 6];
    assert!(!plan_render(&Some(vec![5, 6, 7]), &encoded, false, false).skip);
    assert!(!plan_render(&Some(vec![5]), &encoded, false, false).skip);
    assert!(plan_render(&Some(vec![5, 6]), &encoded, false, false).skip);
}
