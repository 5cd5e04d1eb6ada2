use dotsim::point::{Point, SCALE};
use dotsim::particle::Particle;
use dotsim::screen::Screen;
use dotsim::universe::Universe;

const S: i64 = SCALE;

#[test]
fn rasterizer_maps_sub_cell_to_dot() {
    // a single point at sub-cell coordinate (5, 9) lights exactly the sub-dot
    // at cell (2, 2), sub-position (1, 1), and nothing else
    let mut screen = Screen::new(3, 3);
    screen.add(&Point::new(5 * S, 9 * S));
    for row in 0..3 {
        for col in 0..3 {
            let bits = screen.cell_bits(col, row);
            if (col, row) == (2, 2) {
                // braille dot for sub-position (1, 1)
                assert_eq!(bits, 0x10);
            } else {
                assert_eq!(bits, 0);
            }
        }
    }
}

#[test]
fn rasterizer_drops_out_of_range() {
    let mut screen = Screen::new(2, 2);
    screen.add(&Point::new(-1, 0));
    screen.add(&Point::new(0, -1));
    // sub-cell bounds are 4 by 8: these lie exactly on them
    screen.add(&Point::new(4 * S, 0));
    screen.add(&Point::new(0, 8 * S));
    for row in 0..2 {
        for col in 0..2 {
            assert_eq!(screen.cell_bits(col, row), 0);
        }
    }
}

#[test]
fn empty_grid_renders_blank_glyphs() {
    let screen = Screen::new(2, 2);
    let text = screen.to_text();
    assert_eq!(text, "\u{2800}\u{2800}\n\u{2800}\u{2800}");
}

#[test]
fn glyph_encodes_set_dots() {
    let mut screen = Screen::new(1, 1);
    // sub-dots (0, 0) and (1, 3): braille dots 1 and 8
    screen.add(&Point::new(0, 0));
    screen.add(&Point::new(S, 3 * S));
    let text = screen.to_text();
    assert_eq!(text, "\u{2881}");
}

#[test]
fn end_to_end_still_particle() {
    // a 4 x 4 sub-cell world holding one particle at (2, 2) at rest
    let mut u = Universe::new();
    u.update_dims(2, 1);
    assert_eq!(u.width, 4);
    assert_eq!(u.height, 4);
    u.add(Particle::new(2 * S, 2 * S, 0, 0));
    u.tick_many(100);
    let p = u.particles[0];
    assert_eq!(p.l.x, 2 * S);
    assert_eq!(p.l.y, 2 * S);
    assert_eq!(p.v.x, 0);
    assert_eq!(p.v.y, 0);
    // the rendered frame holds exactly one lit sub-dot
    let text = u.render();
    let mut lit_cells = 0;
    let mut lit_dots = 0;
    for ch in text.chars() {
        if ch == '\n' {
            continue;
        }
        let bits = (ch as u32) - 0x2800;
        assert!(bits <= 0xFF);
        if bits != 0 {
            lit_cells += 1;
            lit_dots += bits.count_ones();
        }
    }
    assert_eq!(lit_cells, 1);
    assert_eq!(lit_dots, 1);
    // sub-cell (2, 2) lands in cell (1, 0), sub-position (0, 2)
    assert_eq!(text, "\u{2800}\u{2804}");
}

#[test]
fn frame_updates_ticks_and_renders() {
    let mut u = Universe::new();
    u.update_dims(2, 1);
    u.add(Particle::new(2 * S, 2 * S, 0, 0));
    let text = u.frame(2, 1);
    assert_eq!(u.width, 4);
    assert_eq!(u.height, 4);
    assert_eq!(text, "\u{2800}\u{2804}");
}

#[test]
fn universe_render_matches_term_grid() {
    let mut u = Universe::new();
    u.update_dims(3, 2);
    assert_eq!(u.term_width(), 3);
    assert_eq!(u.term_height(), 2);
    let text = u.render();
    // 2 rows of 3 glyphs, one newline separator
    assert_eq!(text.chars().count(), 7);
    assert_eq!(text.chars().filter(|c| *c == '\n').count(), 1);
}
