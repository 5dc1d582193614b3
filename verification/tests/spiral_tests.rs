use photowall::config::Config;
use photowall::spiral::engine::SpiralEngine;
use photowall::spiral::layout::{grid_dims, spiral_cells, Cell};
use photowall::spiral::state::SpiralState;
use std::collections::HashSet;

#[test]
fn spiral_walks_a_three_by_three_grid_inward() {
    let cells = spiral_cells(3, 3);
    let expected = vec![
        (0, 0),
        (0, 1),
        (0, 2),
        (1, 2),
        (2, 2),
        (2, 1),
        (2, 0),
        (1, 0),
        (1, 1),
    ];
    let got: Vec<(usize, usize)> = cells.iter().map(|c| (c.row, c.col)).collect();
    assert_eq!(got, expected);
}

#[test]
fn spiral_walks_a_two_by_four_grid_inward() {
    let cells = spiral_cells(2, 4);
    let expected = vec![
        (0, 0),
        (0, 1),
        (0, 2),
        (0, 3),
        (1, 3),
        (1, 2),
        (1, 1),
        (1, 0),
    ];
    let got: Vec<(usize, usize)> = cells.iter().map(|c| (c.row, c.col)).collect();
    assert_eq!(got, expected);
}

#[test]
fn spiral_visits_every_cell_exactly_once() {
    for (rows, cols) in [(1, 1), (1, 7), (6, 1), (4, 5), (7, 7)] {
        let cells = spiral_cells(rows, cols);
        assert_eq!(cells.len(), rows * cols);
        let distinct: HashSet<(usize, usize)> = cells.iter().map(|c| (c.row, c.col)).collect();
        assert_eq!(distinct.len(), rows * cols);
        for c in cells.iter() {
            assert!(c.row < rows && c.col < cols);
        }
        for w in cells.windows(2) {
            let dr = w[0].row.abs_diff(w[1].row);
            let dc = w[0].col.abs_diff(w[1].col);
            assert_eq!(dr + dc, 1, "consecutive cells must share a side");
        }
    }
}

#[test]
fn a_large_spiral_still_covers_its_grid() {
    let cells = spiral_cells(50, 80);
    assert_eq!(cells.len(), 4000);
    let distinct: HashSet<(usize, usize)> = cells.iter().map(|c| (c.row, c.col)).collect();
    assert_eq!(distinct.len(), 4000);
}

#[test]
fn grid_offers_enough_cells_for_every_count() {
    let cfg = Config::standard();
    for count in [1, 2, 3, 5, 12, 97] {
        let (gw, gh) = grid_dims(count, &cfg);
        assert!(gw >= 1 && gh >= 1);
        assert!(gw * gh >= count);
    }
    // three slides on a 16:9 frame land on a 2x2 grid
    assert_eq!(grid_dims(3, &cfg), (2, 2));
}

#[test]
fn layout_assigns_distinct_adjacent_cells() {
    let cfg = Config::standard();
    let mut e = SpiralEngine::new(cfg);
    for i in 0..7 {
        e.add_image(i, 800, 600);
    }
    assert!(e.initialize());
    let assignments = &e.layout.assignments;
    assert_eq!(assignments.len(), 7);
    let distinct: HashSet<(usize, usize)> =
        assignments.iter().map(|a| (a.cell.row, a.cell.col)).collect();
    assert_eq!(distinct.len(), 7);
    for w in assignments.windows(2) {
        let dr = w[0].cell.row.abs_diff(w[1].cell.row);
        let dc = w[0].cell.col.abs_diff(w[1].cell.col);
        assert_eq!(dr + dc, 1);
    }
}

#[test]
fn layout_targets_sit_near_their_cell_centers() {
    let cfg = Config::standard();
    let mut e = SpiralEngine::new(cfg);
    for i in 0..5 {
        e.add_image(i, 800, 600);
    }
    assert!(e.initialize());
    let gw = e.layout.grid_width as i64;
    let gh = e.layout.grid_height as i64;
    for (i, a) in e.layout.assignments.iter().enumerate() {
        let cx = (2 * (a.cell.col as i64) + 1) * 500 / gw;
        let cy = (2 * (a.cell.row as i64) + 1) * 500 / gh;
        assert!((a.target.x - cx).abs() <= 10);
        assert!((a.target.y - cy).abs() <= 10);
        assert!(a.target.rotation >= -15000 && a.target.rotation < 15000);
        // scale approximates 1.5 cell widths over the longer extent of the
        // 800-pixel image, within the five-percent jitter
        let base = 1500 * 1920 / (gw * 800);
        assert!(a.target.scale >= base * 950 / 1000);
        assert!(a.target.scale <= base * 1050 / 1000);
        assert_eq!(e.show.slides[i].end, a.target);
    }
}

#[test]
fn grid_columns_center_where_expected() {
    // a 2-wide grid centers its columns at 250 and 750 milli-units
    let cfg = Config::standard();
    let mut e = SpiralEngine::new(cfg);
    for i in 0..3 {
        e.add_image(i, 800, 600);
    }
    assert!(e.initialize());
    assert_eq!(e.layout.grid_width, 2);
    let a0 = &e.layout.assignments[0];
    assert_eq!((a0.cell.row, a0.cell.col), (0, 0));
    assert!((a0.target.x - 250).abs() <= 10);
}

#[test]
fn spiral_show_runs_the_same_frame_total() {
    let cfg = Config::standard();
    let mut e = SpiralEngine::new(cfg);
    for i in 0..3 {
        e.add_image(i, 800, 600);
    }
    assert!(e.initialize());
    assert_eq!(e.state(), SpiralState::Displaying);
    let mut frames: u64 = 0;
    while e.render_frame() {
        frames += 1;
        assert!(frames <= 1000);
    }
    assert_eq!(frames, 486);
    assert_eq!(e.state(), SpiralState::Finished);
}

#[test]
fn empty_spiral_show_refuses_to_start() {
    let cfg = Config::standard();
    let mut e = SpiralEngine::new(cfg);
    assert!(!e.initialize());
    let c = Cell { row: 0, col: 0 };
    assert_eq!(c.row, 0);
}
