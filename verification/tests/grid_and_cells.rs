use rin::grid::GridError;
use rin::{Cell, CellStyle, Color, Grid, Hyperlink, UnderlineStyle};

#[test]
fn new_grid_is_blank_and_dirty() {
    let grid = Grid::new(3, 2);
    assert_eq!(grid.width(), 3);
    assert_eq!(grid.height(), 2);
    for y in 0..2 {
        assert!(grid.is_row_dirty(y));
        for x in 0..3 {
            assert_eq!(grid.get(x, y), Some(&Cell::default()));
        }
    }
    assert!(!grid.is_row_dirty(2));
    assert_eq!(grid.get(3, 0), None);
    assert_eq!(grid.get(0, 2), None);
    assert!(grid.row(2).is_none());
    assert_eq!(grid.row(1).unwrap().len(), 3);
}

#[test]
fn set_outside_the_grid_fails() {
    let mut grid = Grid::new(3, 2);
    grid.clear_dirty();
    assert_eq!(
        grid.set(3, 1, Cell::new('x')),
        Err(GridError::OutOfBounds { x: 3, y: 1 })
    );
    assert_eq!(
        grid.set(0, 2, Cell::new('x')),
        Err(GridError::OutOfBounds { x: 0, y: 2 })
    );
    assert!(!grid.has_dirty_rows());
    assert_eq!(
        GridError::OutOfBounds { x: 12, y: 0 }.message(),
        "Position out of bounds: (12, 0)"
    );
    assert_eq!(
        GridError::OutOfBounds { x: 3, y: 105 }.message(),
        "Position out of bounds: (3, 105)"
    );
}

#[test]
fn set_and_get_address_row_major_cells() {
    let mut grid = Grid::new(3, 2);
    grid.set(2, 0, Cell::new('a')).unwrap();
    grid.set(0, 1, Cell::new('b')).unwrap();
    assert_eq!(grid.get(2, 0).unwrap().character, 'a');
    assert_eq!(grid.get(0, 1).unwrap().character, 'b');
    let first: String = grid.row(0).unwrap().iter().map(|c| c.character).collect();
    let second: String = grid.row(1).unwrap().iter().map(|c| c.character).collect();
    assert_eq!(first, "  a");
    assert_eq!(second, "b  ");
}

#[test]
fn get_mut_outside_the_grid_is_none() {
    let mut grid = Grid::new(3, 2);
    grid.clear_dirty();
    assert!(grid.get_mut(3, 0).is_none());
    assert!(grid.get_mut(0, 2).is_none());
    assert!(!grid.has_dirty_rows());
}

#[test]
fn mark_row_dirty_and_mark_all() {
    let mut grid = Grid::new(3, 3);
    grid.clear_dirty();
    grid.mark_row_dirty(1);
    grid.mark_row_dirty(7);
    assert!(!grid.is_row_dirty(0));
    assert!(grid.is_row_dirty(1));
    assert!(!grid.is_row_dirty(2));
    grid.clear_dirty();
    grid.mark_all_dirty();
    assert!(grid.is_row_dirty(0) && grid.is_row_dirty(1) && grid.is_row_dirty(2));
}

#[test]
fn clear_blanks_every_cell() {
    let mut grid = Grid::new(3, 2);
    grid.set(1, 1, Cell::new('z')).unwrap();
    grid.clear_dirty();
    grid.clear();
    assert_eq!(grid.get(1, 1), Some(&Cell::default()));
    assert!(grid.is_row_dirty(0) && grid.is_row_dirty(1));
}

#[test]
fn grid_resize_keeps_the_intersection() {
    let mut grid = Grid::new(4, 3);
    for y in 0..3 {
        for x in 0..4 {
            let c = (b'a' + (y * 4 + x) as u8) as char;
            grid.set(x, y, Cell::new(c)).unwrap();
        }
    }
    grid.clear_dirty();
    grid.resize(2, 5);
    assert_eq!(grid.width(), 2);
    assert_eq!(grid.height(), 5);
    assert_eq!(grid.get(0, 0).unwrap().character, 'a');
    assert_eq!(grid.get(1, 0).unwrap().character, 'b');
    assert_eq!(grid.get(0, 2).unwrap().character, 'i');
    assert_eq!(grid.get(1, 2).unwrap().character, 'j');
    assert_eq!(grid.get(0, 3), Some(&Cell::default()));
    assert_eq!(grid.get(1, 4), Some(&Cell::default()));
    for y in 0..5 {
        assert!(grid.is_row_dirty(y));
    }
    grid.resize(3, 1);
    assert_eq!(grid.get(1, 0).unwrap().character, 'b');
    assert_eq!(grid.get(2, 0), Some(&Cell::default()));
}

#[test]
fn grid_clone_is_equal() {
    let mut grid = Grid::new(2, 2);
    grid.set(1, 0, Cell::new('q')).unwrap();
    grid.clear_dirty();
    grid.mark_row_dirty(1);
    let copy = grid.clone();
    assert_eq!(copy.get(1, 0).unwrap().character, 'q');
    assert!(!copy.is_row_dirty(0));
    assert!(copy.is_row_dirty(1));
}

#[test]
fn default_style_is_white_on_black() {
    let style = CellStyle::default();
    assert_eq!(style.fg, Color::white());
    assert_eq!(style.bg, Color::black());
    assert_eq!(style.fg, Color::new(255, 255, 255));
    assert_eq!(style.bg, Color::new(0, 0, 0));
    assert!(!style.bold && !style.dim && !style.italic);
    assert!(!style.reverse && !style.hidden && !style.strikethrough);
    assert_eq!(style.underline, UnderlineStyle::Off);
    assert_eq!(UnderlineStyle::default(), UnderlineStyle::Off);
}

#[test]
fn named_colors() {
    assert_eq!(Color::red(), Color { r: 255, g: 0, b: 0 });
    assert_eq!(Color::green(), Color { r: 0, g: 255, b: 0 });
    assert_eq!(Color::blue(), Color { r: 0, g: 0, b: 255 });
}

#[test]
fn cell_builders() {
    let cell = Cell::default();
    assert_eq!(cell.character, ' ');
    assert_eq!(cell.style, CellStyle::default());
    assert!(cell.hyperlink.is_none());
    assert!(cell.zerowidth.is_empty());

    let bold = CellStyle { bold: true, ..CellStyle::default() };
    let link = Hyperlink::new(Some("id"), "uri".to_string(), 3);
    let mut cell = Cell::new('e').with_style(bold).with_hyperlink(Some(link.clone()));
    cell.push_zerowidth('\u{301}');
    cell.push_zerowidth('\u{302}');
    assert_eq!(cell.character, 'e');
    assert_eq!(cell.style, bold);
    assert_eq!(cell.hyperlink, Some(link));
    assert_eq!(cell.zerowidth, vec!['\u{301}', '\u{302}']);
    let copy = cell.clone();
    assert_eq!(copy, cell);
    assert_ne!(copy, Cell::new('e'));
    assert_eq!(cell.with_hyperlink(None).hyperlink, None);
}

#[test]
fn hyperlink_identifiers() {
    let named = Hyperlink::new(Some("abc"), "https://a".to_string(), 7);
    assert_eq!(named.id(), "abc");
    assert_eq!(named.uri(), "https://a");
    let first = Hyperlink::new(None, "https://a".to_string(), 0);
    assert_eq!(first.id(), "0_rin");
    let later = Hyperlink::new(None, "https://a".to_string(), 4_294_967_295);
    assert_eq!(later.id(), "4294967295_rin");
    let other = Hyperlink::new(None, "https://a".to_string(), 1907);
    assert_eq!(other.id(), "1907_rin");
    assert_eq!(named.clone(), named);
    assert_ne!(first, later);
}
