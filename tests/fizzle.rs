use fizzle::{
    advance_cell, captured_text, draw_overlay, frame_glyph, frame_index, join_escaped,
    safe_neighbor, CanvasFX, DrawStream, FrameClock, Grid, KeyAction, UIMainState,
    UserRequestType, FRAME_COUNT, MAX_FPS, START_FPS,
};
use rand_chacha::rand_core::{RngCore, SeedableRng};
use rand_chacha::ChaCha8Rng;

fn occupied(g: &Grid) -> Vec<(u16, u16, char)> {
    let mut out = Vec::new();
    for y in 0..g.height() {
        for x in 0..g.width() {
            if let Some(c) = g.get(x, y) {
                out.push((x, y, c));
            }
        }
    }
    out
}

fn same_cells(a: &Grid, b: &Grid) -> bool {
    a.size() == b.size() && occupied(a) == occupied(b)
}

#[test]
fn neighbor_zero_delta_is_identity() {
    for y in 0..5u16 {
        for x in 0..10u16 {
            assert_eq!(safe_neighbor((10, 5), (x, y), (0, 0)), (x, y));
        }
    }
}

#[test]
fn neighbor_inside_moves_freely() {
    assert_eq!(safe_neighbor((10, 5), (4, 3), (1, -1)), (5, 2));
    assert_eq!(safe_neighbor((10, 5), (4, 3), (-1, -1)), (3, 2));
    assert_eq!(safe_neighbor((10, 5), (4, 3), (0, -1)), (4, 2));
}

#[test]
fn neighbor_corners_clamp_into_grid() {
    assert_eq!(safe_neighbor((10, 5), (0, 0), (-1, -1)), (0, 0));
    assert_eq!(safe_neighbor((10, 5), (9, 0), (1, -1)), (9, 0));
    assert_eq!(safe_neighbor((10, 5), (0, 4), (-1, 1)), (0, 4));
    assert_eq!(safe_neighbor((10, 5), (9, 4), (1, 1)), (9, 4));
    assert_eq!(safe_neighbor((10, 5), (0, 0), (-128, -128)), (0, 0));
    assert_eq!(safe_neighbor((10, 5), (9, 4), (127, 127)), (9, 4));
}

#[test]
fn neighbor_single_axis_overflow_is_clamped() {
    assert_eq!(safe_neighbor((10, 5), (9, 2), (1, 0)), (9, 2));
    assert_eq!(safe_neighbor((10, 5), (0, 2), (-1, 0)), (0, 2));
    assert_eq!(safe_neighbor((10, 5), (4, 0), (0, -1)), (4, 0));
    assert_eq!(safe_neighbor((10, 5), (4, 4), (0, 1)), (4, 4));
}

#[test]
fn neighbor_on_empty_axis_is_zero() {
    assert_eq!(safe_neighbor((0, 0), (3, 3), (1, 1)), (0, 0));
}

#[test]
fn grid_reads_and_writes() {
    let mut g = Grid::new(3, 2);
    assert_eq!(g.size(), (3, 2));
    assert_eq!(g.get(1, 1), None);
    g.put(1, 1, 'x');
    assert_eq!(g.get(1, 1), Some('x'));
    g.put(3, 0, 'y');
    g.put(0, 2, 'y');
    assert_eq!(occupied(&g), vec![(1, 1, 'x')]);
    assert_eq!(g.get(7, 7), None);
    g.erase(1, 1);
    assert_eq!(g.get(1, 1), None);
}

#[test]
fn grid_resize_keeps_or_clears() {
    let mut g = Grid::new(3, 2);
    g.put(0, 0, 'a');
    g.resize(3, 2);
    assert_eq!(g.get(0, 0), Some('a'));
    g.resize(4, 2);
    assert_eq!(g.size(), (4, 2));
    assert!(occupied(&g).is_empty());
}

#[test]
fn overlay_writes_lines() {
    let mut g = Grid::new(3, 2);
    draw_overlay(&mut g, "AB\nC");
    assert_eq!(g.get(0, 0), Some('A'));
    assert_eq!(g.get(1, 0), Some('B'));
    assert_eq!(g.get(0, 1), Some('C'));
    assert_eq!(occupied(&g), vec![(0, 0, 'A'), (1, 0, 'B'), (0, 1, 'C')]);
}

#[test]
fn overlay_drops_what_falls_outside() {
    let mut g = Grid::new(2, 2);
    draw_overlay(&mut g, "abcd\nef\ngh\n");
    assert_eq!(occupied(&g), vec![(0, 0, 'a'), (1, 0, 'b'), (0, 1, 'e'), (1, 1, 'f')]);
}

#[test]
fn overlay_twice_is_overlay_once() {
    let mut g = Grid::new(4, 3);
    g.put(3, 2, frame_glyph(2));
    g.put(0, 0, 'z');
    draw_overlay(&mut g, "ab\n\ncd e");
    let mut once = Grid::new(4, 3);
    once.put(3, 2, frame_glyph(2));
    once.put(0, 0, 'z');
    draw_overlay(&mut once, "ab\n\ncd e");
    draw_overlay(&mut g, "ab\n\ncd e");
    assert!(same_cells(&g, &once));
    assert_eq!(g.get(0, 2), Some('c'));
    assert_eq!(g.get(3, 2), Some('e'));
}

#[test]
fn frames_round_trip() {
    for i in 0..FRAME_COUNT {
        assert_eq!(frame_index(frame_glyph(i)), Some(i));
    }
    assert_eq!(frame_glyph(0), '\u{b7}');
    assert_eq!(frame_glyph(FRAME_COUNT - 1), '\u{205c}');
    assert_eq!(frame_index('x'), None);
    assert_eq!(frame_index(' '), None);
}

#[test]
fn bubble_rises_one_frame() {
    for i in 0..FRAME_COUNT - 1 {
        let mut g = Grid::new(3, 3);
        g.put(1, 2, frame_glyph(i));
        advance_cell(&mut g, 1, 2, 0, 0);
        assert_eq!(g.get(1, 2), None);
        assert_eq!(g.get(1, 1), Some(frame_glyph(i + 1)));
        assert_eq!(occupied(&g).len(), 1);
    }
}

#[test]
fn last_frame_vanishes() {
    let mut g = Grid::new(3, 3);
    g.put(1, 2, frame_glyph(FRAME_COUNT - 1));
    advance_cell(&mut g, 1, 2, 0, u32::MAX);
    assert!(occupied(&g).is_empty());
}

#[test]
fn late_bubble_under_glyph_pops() {
    let mut g = Grid::new(3, 3);
    g.put(1, 2, frame_glyph(5));
    g.put(1, 1, 'x');
    g.put(0, 1, 'l');
    g.put(2, 1, 'r');
    advance_cell(&mut g, 1, 2, 0, 0);
    assert_eq!(occupied(&g), vec![(1, 1, frame_glyph(6))]);
}

#[test]
fn early_bubble_under_glyph_does_not_pop() {
    let mut g = Grid::new(3, 3);
    g.put(1, 2, frame_glyph(2));
    g.put(1, 1, 'x');
    g.put(0, 1, 'l');
    g.put(2, 1, 'r');
    advance_cell(&mut g, 1, 2, 0, 0);
    assert_eq!(occupied(&g), vec![(0, 1, 'l'), (1, 1, frame_glyph(3)), (2, 1, 'r')]);
}

#[test]
fn bubble_on_top_row_stays_in_grid() {
    let mut g = Grid::new(3, 2);
    g.put(1, 0, frame_glyph(0));
    advance_cell(&mut g, 1, 0, 0, 0);
    assert_eq!(occupied(&g), vec![(1, 0, frame_glyph(1))]);
}

#[test]
fn vacant_cell_spawns_below_threshold() {
    let mut g = Grid::new(2, 2);
    advance_cell(&mut g, 0, 0, 9, 10);
    advance_cell(&mut g, 1, 0, 10, 10);
    g.put(0, 1, ' ');
    advance_cell(&mut g, 0, 1, 0, 1);
    g.put(1, 1, 'q');
    advance_cell(&mut g, 1, 1, 0, 1);
    assert_eq!(occupied(&g), vec![(0, 0, frame_glyph(0)), (0, 1, frame_glyph(0)), (1, 1, 'q')]);
}

#[test]
fn draw_stream_matches_chacha8() {
    let mut s = DrawStream::new(7);
    let a = s.take(3);
    let b = s.take(3);
    assert_eq!(s.cursor, 6);
    let mut rng = ChaCha8Rng::seed_from_u64(7);
    let expected: Vec<u32> = (0..6).map(|_| rng.next_u32()).collect();
    assert_eq!(a, expected[..3].to_vec());
    assert_eq!(b, expected[3..].to_vec());
    assert_ne!(a, b);
}

#[test]
fn seeded_tick_on_empty_grid() {
    let threshold = u32::MAX / 4;
    let mut fx = CanvasFX::with_threshold(2024, threshold);
    let mut g = Grid::new(10, 5);
    fx.simulate(&mut g);
    let mut rng = ChaCha8Rng::seed_from_u64(2024);
    let mut expected = Vec::new();
    for y in 0..5u16 {
        for x in 0..10u16 {
            if rng.next_u32() < threshold {
                expected.push((x, y, frame_glyph(0)));
            }
        }
    }
    assert!(!expected.is_empty());
    assert_eq!(occupied(&g), expected);
    assert_eq!(fx.draws.cursor, 50);
}

#[test]
fn same_seed_same_outcome() {
    let mut a = CanvasFX::with_threshold(99, u32::MAX / 8);
    let mut b = CanvasFX::with_threshold(99, u32::MAX / 8);
    let mut ga = Grid::new(12, 6);
    let mut gb = Grid::new(12, 6);
    for t in 1..40u64 {
        let ra = a.on_tick(&mut ga, "hi there\nx", t * 50_000, 24, 12, 6);
        let rb = b.on_tick(&mut gb, "hi there\nx", t * 50_000, 24, 12, 6);
        assert_eq!(ra, rb);
        assert!(same_cells(&ga, &gb));
    }
    assert!(!occupied(&ga).is_empty());
}

#[test]
fn clock_waits_for_period() {
    let mut c = FrameClock::new(24);
    assert_eq!(c.period_us, 41_666);
    assert!(!c.poll(41_665, 10));
    assert_eq!(c.ticks, 0);
    assert!(c.poll(41_666, 10));
    assert_eq!(c.ticks, 1);
    assert_eq!(c.last_us, 41_666);
    assert_eq!(c.period_us, 100_000);
    assert!(!c.poll(141_665, 0));
    assert!(c.poll(141_666, 0));
    assert_eq!(c.period_us, 1_000_000);
}

#[test]
fn canvas_redraws_overlay_every_fourth_tick() {
    let mut fx = CanvasFX::with_threshold(1, 0);
    let mut g = Grid::new(4, 2);
    let mut now = 0u64;
    for _ in 0..3 {
        now += 1_000_000;
        assert!(fx.on_tick(&mut g, "ab", now, 24, 4, 2));
        assert!(occupied(&g).is_empty());
    }
    assert!(!fx.on_tick(&mut g, "ab", now + 1, 24, 4, 2));
    now += 1_000_000;
    assert!(fx.on_tick(&mut g, "ab", now, 24, 4, 2));
    assert_eq!(fx.clock.ticks, 4);
    assert_eq!(occupied(&g), vec![(0, 0, 'a'), (1, 0, 'b')]);
}

#[test]
fn canvas_takes_new_size() {
    let mut fx = CanvasFX::with_threshold(1, 0);
    let mut g = Grid::new(4, 2);
    g.put(0, 0, 'k');
    assert!(fx.on_tick(&mut g, "", 1_000_000, 24, 6, 3));
    assert_eq!(g.size(), (6, 3));
    assert!(occupied(&g).is_empty());
}

#[test]
fn fps_keys_stay_in_range() {
    let mut s = UIMainState::new();
    assert_eq!(s.fps(), START_FPS);
    for _ in 0..100 {
        assert_eq!(s.on_key('j'), KeyAction::Continue);
    }
    assert_eq!(s.fps(), 1);
    for _ in 0..100 {
        s.on_key('k');
    }
    assert_eq!(s.fps(), MAX_FPS);
    s.on_key('j');
    assert_eq!(s.fps(), MAX_FPS - 1);
    let mut wide = UIMainState::with_max_fps(240);
    for _ in 0..300 {
        wide.on_key('k');
    }
    assert_eq!(wide.fps(), 240);
    let low = UIMainState::with_max_fps(10);
    assert_eq!(low.fps(), 10);
}

#[test]
fn keys_quit_and_request() {
    let mut s = UIMainState::with_test_output("out".to_string());
    assert_eq!(s.output(), "out");
    assert_eq!(s.on_key('q'), KeyAction::Quit);
    assert_eq!(s.on_key('x'), KeyAction::Continue);
    assert_eq!(s.take_request(), None);
    s.on_key('n');
    s.request_new_pty();
    assert_eq!(s.take_request(), Some(UserRequestType::NewPty));
    assert_eq!(s.take_request(), Some(UserRequestType::NewPty));
    assert_eq!(s.take_request(), None);
    assert_eq!(s.fps(), START_FPS);
}

#[test]
fn captured_plain_line() {
    assert_eq!(captured_text(&vec!["hi".to_string()]), "hi\n");
}

#[test]
fn captured_escapes_control_characters() {
    let lines = vec!["a\tb".to_string(), "\u{1b}[0m".to_string(), String::new()];
    assert_eq!(captured_text(&lines), "a\\tb\n\\u{1b}[0m\n\n");
}

#[test]
fn captured_nothing() {
    assert_eq!(captured_text(&Vec::new()), "");
}

#[test]
fn join_keeps_lines_as_given() {
    let lines = vec!["x\\ty".to_string(), "z".to_string()];
    assert_eq!(join_escaped(&lines), "x\\ty\nz\n");
}
