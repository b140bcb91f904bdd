use ani_cli::info::{line_ranges, BACKGROUND_WIDTH};

#[test]
fn empty_text_has_no_line() {
    assert_eq!(line_ranges(0, 50), Vec::<(usize, usize)>::new());
}

#[test]
fn short_text_is_one_line() {
    assert_eq!(line_ranges(1, 50), vec![(0, 1)]);
    assert_eq!(line_ranges(49, 50), vec![(0, 49)]);
    assert_eq!(line_ranges(50, 50), vec![(0, 50)]);
}

#[test]
fn long_text_is_cut_at_the_width() {
    assert_eq!(BACKGROUND_WIDTH, 50);
    assert_eq!(line_ranges(51, BACKGROUND_WIDTH), vec![(0, 50), (50, 51)]);
    assert_eq!(line_ranges(100, BACKGROUND_WIDTH), vec![(0, 50), (50, 100)]);
    assert_eq!(line_ranges(120, BACKGROUND_WIDTH), vec![(0, 50), (50, 100), (100, 120)]);
    assert_eq!(line_ranges(7, 3), vec![(0, 3), (3, 6), (6, 7)]);
}

#[test]
fn lines_do_not_overflow_at_the_largest_length() {
    let width = usize::MAX / 2 + 1;
    assert_eq!(line_ranges(usize::MAX, width), vec![(0, width), (width, usize::MAX)]);
}

#[test]
fn lines_tile_the_text() {
    for len in 0..200usize {
        for width in 1..20usize {
            let lines = line_ranges(len, width);
            let mut at = 0usize;
            for (from, to) in &lines {
                assert_eq!(*from, at);
                assert!(*to > *from && *to - *from <= width);
                at = *to;
            }
            assert_eq!(at, len);
            assert_eq!(lines.len(), (len + width - 1) / width);
        }
    }
}
