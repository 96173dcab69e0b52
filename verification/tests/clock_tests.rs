use strikeface::clock::{CLOCK_CHAR, DIGIT_HEIGHT};
use strikeface::{render_slanted_clock, render_unslanted_clock, slant_grid};

#[test]
fn unslanted_clock_draws_each_digit() {
    let rows = render_unslanted_clock(12, 34);
    let expected = vec![
        "╱╱╱╱    ╱╱╱╱╱╱      ╱╱╱╱╱╱  ╱╱  ╱╱",
        "  ╱╱        ╱╱  ╱╱      ╱╱  ╱╱  ╱╱",
        "  ╱╱        ╱╱  ╱╱      ╱╱  ╱╱  ╱╱",
        "  ╱╱    ╱╱╱╱╱╱      ╱╱╱╱╱╱  ╱╱╱╱╱╱",
        "  ╱╱    ╱╱      ╱╱      ╱╱      ╱╱",
        "  ╱╱    ╱╱      ╱╱      ╱╱      ╱╱",
        "╱╱╱╱╱╱  ╱╱╱╱╱╱      ╱╱╱╱╱╱      ╱╱",
    ];
    assert_eq!(rows, expected);
}

#[test]
fn slanted_clock_shifts_rows() {
    let rows = render_slanted_clock(9, 5);
    let expected = vec![
        "      ╱╱╱╱╱╱  ╱╱╱╱╱╱      ╱╱╱╱╱╱  ╱╱╱╱╱╱",
        "     ╱╱  ╱╱  ╱╱  ╱╱  ╱╱  ╱╱  ╱╱  ╱╱     ",
        "    ╱╱  ╱╱  ╱╱  ╱╱  ╱╱  ╱╱  ╱╱  ╱╱      ",
        "   ╱╱  ╱╱  ╱╱╱╱╱╱      ╱╱  ╱╱  ╱╱╱╱╱╱   ",
        "  ╱╱  ╱╱      ╱╱  ╱╱  ╱╱  ╱╱      ╱╱    ",
        " ╱╱  ╱╱      ╱╱  ╱╱  ╱╱  ╱╱      ╱╱     ",
        "╱╱╱╱╱╱  ╱╱╱╱╱╱      ╱╱╱╱╱╱  ╱╱╱╱╱╱      ",
    ];
    assert_eq!(rows, expected);
}

#[test]
fn clock_rows_have_uniform_width() {
    for (h, m) in [(0u32, 0u32), (23, 59), (10, 7), (88, 88)] {
        let rows = render_unslanted_clock(h, m);
        assert_eq!(rows.len(), DIGIT_HEIGHT);
        for row in &rows {
            assert_eq!(row.chars().count(), 34);
            assert!(row.chars().all(|c| c == CLOCK_CHAR || c == ' '));
        }
        let slanted = render_slanted_clock(h, m);
        assert_eq!(slanted.len(), DIGIT_HEIGHT);
        for row in &slanted {
            assert_eq!(row.chars().count(), 40);
        }
    }
}

#[test]
fn clock_shows_last_two_digits() {
    assert_eq!(render_unslanted_clock(112, 134), render_unslanted_clock(12, 34));
    assert_eq!(render_slanted_clock(1000, 99), render_slanted_clock(0, 99));
}

#[test]
fn slant_grid_pads_rows() {
    let grid = vec!["ab".to_string(), "cd".to_string(), "ef".to_string()];
    let slanted = slant_grid(&grid);
    assert_eq!(slanted, vec!["  ab", " cd ", "ef  "]);
}

#[test]
fn slant_grid_edge_cases() {
    let empty: Vec<String> = Vec::new();
    assert!(slant_grid(&empty).is_empty());
    let one = vec!["xyz".to_string()];
    assert_eq!(slant_grid(&one), vec!["xyz"]);
    let uneven = vec!["a".to_string(), "".to_string()];
    assert_eq!(slant_grid(&uneven), vec![" a", " "]);
}

#[test]
fn slant_keeps_rows_readable() {
    let rows = render_unslanted_clock(7, 42);
    let slanted = slant_grid(&rows);
    for (r, (s, u)) in slanted.iter().zip(rows.iter()).enumerate() {
        let left = DIGIT_HEIGHT - 1 - r;
        let chars: Vec<char> = s.chars().collect();
        let middle: String = chars[left..left + u.chars().count()].iter().collect();
        assert_eq!(&middle, u);
        assert!(chars[..left].iter().all(|c| *c == ' '));
        assert!(chars[left + u.chars().count()..].iter().all(|c| *c == ' '));
        assert_eq!(chars.len() - left - u.chars().count(), r);
    }
}
