use ani_cli::selection::{char_is_space, parse_selection, Selection};

fn reference_selection(line: &str, count: usize) -> Selection {
    let trimmed = line.trim();
    let text = if trimmed.is_empty() { "1" } else { trimmed };
    match text.parse::<u8>() {
        Err(_) => Selection::Retry,
        Ok(0) => Selection::Decline,
        Ok(number) => {
            if (number as usize) <= count {
                Selection::Pick(number as usize - 1)
            } else {
                Selection::Retry
            }
        }
    }
}

#[test]
fn empty_line_selects_the_first_candidate() {
    assert_eq!(parse_selection("", 5), Selection::Pick(0));
    assert_eq!(parse_selection("\n", 5), Selection::Pick(0));
    assert_eq!(parse_selection("  \t \r\n", 5), Selection::Pick(0));
    assert_eq!(parse_selection("", 1), Selection::Pick(0));
}

#[test]
fn empty_line_without_candidates_asks_again() {
    assert_eq!(parse_selection("", 0), Selection::Retry);
    assert_eq!(parse_selection("\n", 0), Selection::Retry);
}

#[test]
fn zero_declines() {
    assert_eq!(parse_selection("0", 5), Selection::Decline);
    assert_eq!(parse_selection("0\n", 5), Selection::Decline);
    assert_eq!(parse_selection(" 0 ", 5), Selection::Decline);
    assert_eq!(parse_selection("000", 5), Selection::Decline);
    assert_eq!(parse_selection("+0", 5), Selection::Decline);
    assert_eq!(parse_selection("0", 0), Selection::Decline);
}

#[test]
fn number_in_range_picks_that_candidate() {
    assert_eq!(parse_selection("1", 5), Selection::Pick(0));
    assert_eq!(parse_selection("2\n", 5), Selection::Pick(1));
    assert_eq!(parse_selection("5", 5), Selection::Pick(4));
    assert_eq!(parse_selection("  3  ", 5), Selection::Pick(2));
    assert_eq!(parse_selection("+4", 5), Selection::Pick(3));
    assert_eq!(parse_selection("0002", 5), Selection::Pick(1));
}

#[test]
fn number_out_of_range_asks_again() {
    assert_eq!(parse_selection("6", 5), Selection::Retry);
    assert_eq!(parse_selection("2", 1), Selection::Retry);
    assert_eq!(parse_selection("255", 5), Selection::Retry);
    assert_eq!(parse_selection("256", 5), Selection::Retry);
    assert_eq!(parse_selection("99999999999999999999999999999999999999", 5), Selection::Retry);
    assert_eq!(parse_selection("1", 0), Selection::Retry);
}

#[test]
fn what_is_no_number_asks_again() {
    for line in ["abc", "1a", "a1", "-1", "-0", "+", "+-1", "++1", "1 2", "1.5", "0x1", "１", "٣", "1_0"] {
        assert_eq!(parse_selection(line, 5), Selection::Retry, "line {:?}", line);
    }
}

#[test]
fn large_lists_are_picked_from_by_their_full_range() {
    assert_eq!(parse_selection("300", 400), Selection::Pick(299));
    assert_eq!(parse_selection("400", 400), Selection::Pick(399));
    assert_eq!(parse_selection("401", 400), Selection::Retry);
    let max = usize::MAX;
    assert_eq!(parse_selection(&format!("{}", max), max), Selection::Pick(max - 1));
    assert_eq!(parse_selection(&format!("{}0", max), max), Selection::Retry);
}

#[test]
fn whitespace_is_what_the_standard_library_trims() {
    let mut code: u32 = 0;
    while code <= 0x10FFFF {
        if let Some(c) = char::from_u32(code) {
            assert_eq!(char_is_space(c), c.is_whitespace(), "U+{:04X}", code);
        }
        code += 1;
    }
}

#[test]
fn short_lines_are_read_as_trim_and_parse_read_them() {
    let alphabet = [' ', '\t', '\n', '+', '-', '0', '1', '2', '5', '6', '9', 'a', '\u{a0}', '\u{3000}'];
    let mut lines: Vec<String> = vec![String::new()];
    let mut last: Vec<String> = vec![String::new()];
    for _ in 0..4 {
        let mut next: Vec<String> = Vec::new();
        for prefix in &last {
            for c in alphabet {
                let mut line = prefix.clone();
                line.push(c);
                next.push(line);
            }
        }
        lines.extend(next.iter().cloned());
        last = next;
    }
    for line in &lines {
        for count in [0usize, 1, 5, 21] {
            assert_eq!(parse_selection(line, count), reference_selection(line, count), "line {:?}", line);
        }
    }
}
