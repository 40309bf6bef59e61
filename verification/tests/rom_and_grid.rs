use starsoldier_visualize::grid::Grid;
use starsoldier_visualize::grid::GridCell;
use starsoldier_visualize::rom::get_directions;
use starsoldier_visualize::rom::Rom;
use starsoldier_visualize::rom::RomError;

const INES_LEN: usize = 16 + 0x8000 + 0x8000;

fn blank_ines() -> Vec<u8> {
    let mut ines = vec![0u8; INES_LEN];
    ines[0] = 0x4E;
    ines[1] = 0x45;
    ines[2] = 0x53;
    ines[3] = 0x1A;
    ines
}

#[test]
fn from_ines_accepts_well_formed_image() {
    let mut ines = blank_ines();
    ines[16] = 0xAB;
    ines[16 + 0x7FFF] = 0xCD;
    let rom = Rom::from_ines(&ines).unwrap();
    assert_eq!(rom.prg.len(), 0x8000);
    assert_eq!(rom.prg[0], 0xAB);
    assert_eq!(rom.prg[0x7FFF], 0xCD);
}

#[test]
fn from_ines_rejects_wrong_size() {
    let ines = vec![0u8; 100];
    assert_eq!(Rom::from_ines(&ines).unwrap_err(), RomError::SizeMismatch);
    let ines = vec![0u8; INES_LEN + 1];
    assert_eq!(Rom::from_ines(&ines).unwrap_err(), RomError::SizeMismatch);
}

#[test]
fn from_ines_rejects_missing_magic() {
    let mut ines = blank_ines();
    ines[3] = 0x00;
    assert_eq!(Rom::from_ines(&ines).unwrap_err(), RomError::MagicNotFound);
}

#[test]
fn get_directions_preserves_order_and_sign() {
    let mut ines = blank_ines();
    // dx run at PRG offset 0x0923, dy run at 0x0963; PRG starts at byte 16.
    ines[16 + 0x0923] = 0x01;
    ines[16 + 0x0963] = 0xFF; // -1 as a signed byte
    ines[16 + 0x0923 + 63] = 0x80; // -128 as a signed byte
    ines[16 + 0x0963 + 63] = 0x7F; // 127
    let rom = Rom::from_ines(&ines).unwrap();
    let dirs = get_directions(&rom);
    assert_eq!(dirs.len(), 64);
    assert_eq!(dirs[0], (1, -1));
    assert_eq!(dirs[1], (0, 0));
    assert_eq!(dirs[63], (-128, 127));
}

#[test]
fn grid_new_places_in_range_dirs_in_order() {
    // Entry 1 falls outside the 5x5 grid, so entry 2 gets label 1.
    let dirs = [(0i8, -1i8), (10, 0), (1, 1), (0, -1)];
    let grid = Grid::new(5, 5, (2, 2), &dirs);
    assert_eq!(grid.row_count(), 5);
    assert_eq!(grid.col_count(), 5);
    assert_eq!(grid.cells[2][2], GridCell::Origin);
    // The last placement overwrites the first at (2, 1).
    assert_eq!(grid.cells[1][2], GridCell::Dir(2));
    assert_eq!(grid.cells[3][3], GridCell::Dir(1));
    assert_eq!(grid.cells[0][0], GridCell::Empty);
}

#[test]
fn grid_origin_cell_survives_without_dirs() {
    let grid = Grid::new(3, 2, (0, 1), &[]);
    assert_eq!(grid.cells[1][0], GridCell::Origin);
    assert_eq!(grid.cells[0][0], GridCell::Empty);
}

#[test]
fn grid_cell_colors() {
    let grid = Grid::new(3, 3, (1, 1), &[(1i8, 0i8)]);
    assert_eq!(grid.cell_color(0, 0), [0xC0, 0xC0, 0xC0]);
    assert_eq!(grid.cell_color(1, 1), [0xFF, 0xFF, 0x00]);
    assert_eq!(grid.cell_color(2, 1), [0xFF, 0xFF, 0xFF]);
    assert_eq!(grid.line_color(), [0x00, 0x00, 0x00]);
    assert_eq!(grid.cell_width(), 24);
    assert_eq!(grid.cell_height(), 24);
    assert_eq!(grid.font_size(), 24);
}

#[test]
fn grid_cell_text_labels() {
    // Entries 0..=41 all pile onto the origin's own cell; entry 42 lands
    // on cell (1, 0) and is labeled 42 = 0x2A, drawn in green.
    let mut dirs = vec![(0i8, 0i8); 43];
    dirs[42] = (0, -1);
    let grid = Grid::new(3, 3, (1, 1), &dirs);
    let (text, color) = grid.cell_text(1, 0).unwrap();
    assert_eq!(text, "2A");
    assert_eq!(color, [0x00, 0x80, 0x00]);
    assert!(grid.cell_text(0, 0).is_none());
}

#[test]
fn grid_origin_label() {
    let grid = Grid::new(2, 2, (0, 0), &[]);
    let (text, color) = grid.cell_text(0, 0).unwrap();
    assert_eq!(text, "弾");
    assert_eq!(color, [0x00, 0x00, 0x00]);
}
