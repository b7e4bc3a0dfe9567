//! The console model: writing, cursor movement, wrapping, scrolling and
//! clearing.

use f3os::vga::Vga;

#[test]
fn new_screen_is_blank() {
    let vga = Vga::new();
    assert_eq!(vga.cursor(), (0, 0));
    for row in 0..25 {
        for col in 0..80 {
            assert_eq!(vga.cell_at(row, col), (b' ', 0x0f));
        }
    }
}

#[test]
fn print_places_bytes_at_the_cursor() {
    let mut vga = Vga::new();
    vga.print("AB");
    assert_eq!(vga.cell_at(0, 0), (b'A', 0x0f));
    assert_eq!(vga.cell_at(0, 1), (b'B', 0x0f));
    assert_eq!(vga.cell_at(0, 2), (b' ', 0x0f));
    assert_eq!(vga.cursor(), (2, 0));
}

#[test]
fn newline_moves_to_the_next_row() {
    let mut vga = Vga::new();
    vga.print("A\nB");
    assert_eq!(vga.cell_at(0, 0), (b'A', 0x0f));
    assert_eq!(vga.cell_at(1, 0), (b'B', 0x0f));
    assert_eq!(vga.cursor(), (1, 1));
}

#[test]
fn long_line_wraps_at_column_80() {
    let mut vga = Vga::new();
    let line = "x".repeat(81);
    vga.print(&line);
    assert_eq!(vga.cell_at(0, 79), (b'x', 0x0f));
    assert_eq!(vga.cell_at(1, 0), (b'x', 0x0f));
    assert_eq!(vga.cursor(), (1, 1));
}

#[test]
fn non_ascii_text_is_written_as_utf8_bytes() {
    let mut vga = Vga::new();
    vga.print("é");
    // Two UTF-8 bytes land in two cells.
    assert_eq!(vga.cursor(), (2, 0));
    assert_eq!(vga.cell_at(0, 0), (0xC3, 0x0f));
    assert_eq!(vga.cell_at(0, 1), (0xA9, 0x0f));
}

#[test]
fn writing_past_the_bottom_scrolls() {
    let mut vga = Vga::new();
    vga.print("top\n");
    for _ in 0..23 {
        vga.print("\n");
    }
    // Cursor now sits on the last row.
    assert_eq!(vga.cursor(), (0, 24));
    assert_eq!(vga.cell_at(0, 0), (b't', 0x0f));
    vga.print("X\n");
    // The newline past the bottom scrolls everything up one row.
    assert_eq!(vga.cursor(), (0, 24));
    assert_eq!(vga.cell_at(23, 0), (b'X', 0x0f));
    // The first line has scrolled away.
    assert_eq!(vga.cell_at(0, 0), (b' ', 0x0f));
    // The freed last row is blank.
    assert_eq!(vga.cell_at(24, 0), (b' ', 0x0f));
}

#[test]
fn clear_blanks_everything_and_homes_the_cursor() {
    let mut vga = Vga::new();
    vga.print("hello\nworld");
    vga.clear();
    assert_eq!(vga.cursor(), (0, 0));
    for row in 0..25 {
        for col in 0..80 {
            assert_eq!(vga.cell_at(row, col), (b' ', 0x0f));
        }
    }
}
