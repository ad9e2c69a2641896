use wasm_game_of_life::greeting::greeting;
use wasm_game_of_life::universe::Universe;

fn alive_cells(u: &Universe) -> Vec<bool> {
    let mut out = Vec::new();
    for i in 0..(u.width() * u.height()) as usize {
        out.push(u.get(i));
    }
    out
}

fn grid_with(width: u32, height: u32, alive: &[(u32, u32)]) -> Vec<bool> {
    let mut cells = vec![false; (width * height) as usize];
    for &(row, col) in alive {
        cells[(row * width + col) as usize] = true;
    }
    cells
}

#[test]
fn lone_cell_dies_on_three_by_three() {
    let mut u = Universe::from_cells(3, 3, &grid_with(3, 3, &[(1, 1)]));
    u.tick(false);
    assert_eq!(alive_cells(&u), vec![false; 9]);
}

#[test]
fn block_is_still_life() {
    let cells = grid_with(10, 10, &[(4, 4), (4, 5), (5, 4), (5, 5)]);
    let mut u = Universe::from_cells(10, 10, &cells);
    u.tick(false);
    assert_eq!(alive_cells(&u), cells);
    u.tick(false);
    assert_eq!(alive_cells(&u), cells);
}

#[test]
fn origin_cell_reaches_across_edges() {
    let n: u32 = 5;
    let u = Universe::from_cells(n, n, &grid_with(n, n, &[(0, 0)]));
    let around = [(4, 4), (4, 0), (4, 1), (0, 4), (0, 1), (1, 4), (1, 0), (1, 1)];
    for row in 0..n {
        for col in 0..n {
            let expected = if around.contains(&(row, col)) { 1 } else { 0 };
            assert_eq!(u.live_neighbor_count(row, col), expected, "at ({}, {})", row, col);
        }
    }
}

#[test]
fn construction_writes_glider() {
    let pattern = [false, true, false, false, false, true, true, true, true];
    for fill in [false, true] {
        let u = Universe::new(5, 4, &vec![fill; 20]);
        for row in 0..3u32 {
            for col in 0..3u32 {
                let idx = u.get_index(row, col);
                assert_eq!(u.get(idx), pattern[(row * 3 + col) as usize]);
            }
        }
        for row in 0..4u32 {
            for col in 3..5u32 {
                assert_eq!(u.get(u.get_index(row, col)), fill);
            }
        }
        for col in 0..3u32 {
            assert_eq!(u.get(u.get_index(3, col)), fill);
        }
    }
}

#[test]
fn forced_injection_writes_glider() {
    let mut u = Universe::from_cells(4, 4, &vec![true; 16]);
    u.create_spaceship();
    let expected = vec![
        false, true, false, true, //
        false, false, true, true, //
        true, true, true, true, //
        true, true, true, true,
    ];
    assert_eq!(alive_cells(&u), expected);
}

#[test]
fn tick_with_injection_steps_from_glider() {
    let mut injected = Universe::from_cells(6, 6, &vec![false; 36]);
    injected.tick(true);
    let mut reference = Universe::new(6, 6, &vec![false; 36]);
    reference.tick(false);
    assert_eq!(alive_cells(&injected), alive_cells(&reference));
    // The glider one generation on.
    let expected = grid_with(6, 6, &[(1, 0), (1, 2), (2, 1), (2, 2), (3, 1)]);
    assert_eq!(alive_cells(&injected), expected);
}

#[test]
fn accessors_repeat() {
    let mut u = Universe::from_cells(7, 3, &vec![false; 21]);
    for _ in 0..3 {
        assert_eq!(u.width(), 7);
        assert_eq!(u.height(), 3);
    }
    u.tick(false);
    assert_eq!(u.width(), 7);
    assert_eq!(u.height(), 3);
}

#[test]
fn render_two_by_two() {
    let u = Universe::from_cells(2, 2, &vec![false, true, true, false]);
    assert_eq!(u.render(), "◻◼\n◼◻\n");
}

#[test]
fn render_lines_per_row() {
    let u = Universe::from_cells(3, 2, &grid_with(3, 2, &[(0, 2), (1, 0)]));
    assert_eq!(u.render(), "◻◻◼\n◼◻◻\n");
}

#[test]
fn blinker_oscillates() {
    let horizontal = grid_with(5, 5, &[(2, 1), (2, 2), (2, 3)]);
    let vertical = grid_with(5, 5, &[(1, 2), (2, 2), (3, 2)]);
    let mut u = Universe::from_cells(5, 5, &horizontal);
    u.tick(false);
    assert_eq!(alive_cells(&u), vertical);
    u.tick(false);
    assert_eq!(alive_cells(&u), horizontal);
}

#[test]
fn single_cell_grid_counts_itself_eight_times() {
    let mut u = Universe::from_cells(1, 1, &vec![true]);
    assert_eq!(u.live_neighbor_count(0, 0), 8);
    u.tick(false);
    assert_eq!(alive_cells(&u), vec![false]);
}

#[test]
fn two_by_two_counts_wrapped_neighbours_repeatedly() {
    let u = Universe::from_cells(2, 2, &vec![true, false, false, false]);
    assert_eq!(u.live_neighbor_count(1, 1), 4);
    assert_eq!(u.live_neighbor_count(0, 1), 2);
    assert_eq!(u.live_neighbor_count(0, 0), 0);
}

#[test]
fn packed_words_follow_cell_order() {
    let mut cells = vec![false; 40];
    cells[0] = true;
    cells[5] = true;
    cells[31] = true;
    cells[33] = true;
    let u = Universe::from_cells(8, 5, &cells);
    let words = u.cells();
    assert_eq!(words.len(), 2);
    assert_eq!(words[0], 1 | (1 << 5) | (1 << 31));
    assert_eq!(words[1] & 0xff, 1 << 1);
}

#[test]
fn storage_size_kept_by_tick() {
    let mut u = Universe::new(9, 7, &vec![true; 63]);
    for _ in 0..4 {
        u.tick(false);
        assert_eq!(u.cells().len(), 2);
        assert_eq!(alive_cells(&u).len(), 63);
    }
    u.tick(true);
    assert_eq!(u.cells().len(), 2);
}

#[test]
fn index_is_row_major() {
    let u = Universe::from_cells(4, 3, &vec![false; 12]);
    assert_eq!(u.get_index(0, 0), 0);
    assert_eq!(u.get_index(1, 0), 4);
    assert_eq!(u.get_index(2, 3), 11);
}

#[test]
fn greeting_names_the_guest() {
    assert_eq!(greeting("Ada"), "Hello, Ada!");
}
