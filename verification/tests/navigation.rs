use std::cmp::Ordering;
use amp::line::first_word_offset;
use amp::navigation::{advance_over, start_of_next_token, start_of_previous_token};
use amp::position::Position;
use amp::token::{Category, Token};

fn at(line: usize, offset: usize) -> Position {
    Position { line, offset }
}

fn word(lexeme: &str) -> Token {
    Token { lexeme: lexeme.to_string(), category: Category::Other }
}

fn space(lexeme: &str) -> Token {
    Token { lexeme: lexeme.to_string(), category: Category::Whitespace }
}

fn amp_editor() -> Vec<Token> {
    vec![word("amp"), space(" "), word("editor")]
}

#[test]
fn positions_are_ordered_by_line_then_offset() {
    assert!(at(0, 9) < at(1, 0));
    assert!(at(1, 2) < at(1, 3));
    assert!(!(at(1, 3) < at(1, 3)));
    assert!(!(at(2, 0) < at(1, 9)));
    assert!(at(2, 0) > at(1, 9));
    assert!(!(at(1, 3) > at(1, 3)));
    assert!(at(1, 3) >= at(1, 3));
    assert!(at(1, 3) <= at(1, 3));
    assert!(at(1, 4) >= at(1, 3));
    assert!(!(at(0, 4) >= at(1, 3)));
    assert_eq!(at(1, 3).partial_cmp(&at(1, 3)), Some(Ordering::Equal));
    assert_eq!(at(0, 7).partial_cmp(&at(1, 3)), Some(Ordering::Less));
    assert_eq!(at(1, 7).partial_cmp(&at(1, 3)), Some(Ordering::Greater));
    assert_eq!(Position::new(), at(0, 0));
}

#[test]
fn advance_without_line_break_adds_the_length() {
    assert_eq!(advance_over(at(0, 0), "abc"), at(0, 3));
    assert_eq!(advance_over(at(2, 5), "editor"), at(2, 11));
    assert_eq!(advance_over(at(3, 4), ""), at(3, 4));
}

#[test]
fn advance_with_line_breaks_adds_lines_and_resets_the_offset() {
    assert_eq!(advance_over(at(1, 2), "a\nbc"), at(2, 2));
    assert_eq!(advance_over(at(0, 5), "\n"), at(1, 0));
    assert_eq!(advance_over(at(0, 5), "ab\n"), at(1, 0));
    assert_eq!(advance_over(at(4, 1), "\n\n  "), at(6, 2));
}

#[test]
fn advance_counts_characters_not_bytes() {
    assert_eq!(advance_over(at(0, 1), "\u{e9}t\u{e9}"), at(0, 4));
}

#[test]
fn previous_token_from_inside_a_word() {
    assert_eq!(start_of_previous_token(&amp_editor(), at(0, 7)), at(0, 4));
}

#[test]
fn previous_token_from_the_start_of_a_word_skips_whitespace() {
    assert_eq!(start_of_previous_token(&amp_editor(), at(0, 4)), at(0, 0));
}

#[test]
fn previous_token_from_the_origin_is_the_origin() {
    assert_eq!(start_of_previous_token(&amp_editor(), at(0, 0)), at(0, 0));
    assert_eq!(start_of_previous_token(&vec![space("  "), word("a")], at(0, 0)), at(0, 0));
}

#[test]
fn previous_token_after_the_last_token() {
    assert_eq!(start_of_previous_token(&amp_editor(), at(0, 10)), at(0, 4));
    assert_eq!(start_of_previous_token(&amp_editor(), at(5, 0)), at(0, 4));
    assert_eq!(start_of_previous_token(&vec![space("   ")], at(0, 3)), at(0, 0));
}

#[test]
fn previous_token_without_tokens_leaves_the_cursor() {
    assert_eq!(start_of_previous_token(&Vec::new(), at(2, 3)), at(2, 3));
}

#[test]
fn previous_token_over_lines() {
    let tokens = vec![word("amp"), space("\n  "), word("editor")];
    assert_eq!(start_of_previous_token(&tokens, at(1, 4)), at(1, 2));
    assert_eq!(start_of_previous_token(&tokens, at(1, 2)), at(0, 0));
}

#[test]
fn next_token_from_the_start() {
    assert_eq!(start_of_next_token(&amp_editor(), at(0, 0)), Some(at(0, 4)));
}

#[test]
fn next_token_from_whitespace() {
    assert_eq!(start_of_next_token(&amp_editor(), at(0, 3)), Some(at(0, 4)));
}

#[test]
fn next_token_without_a_following_word() {
    assert_eq!(start_of_next_token(&amp_editor(), at(0, 4)), None);
    assert_eq!(start_of_next_token(&amp_editor(), at(0, 10)), None);
    assert_eq!(start_of_next_token(&vec![word("a"), space("  ")], at(0, 0)), None);
    assert_eq!(start_of_next_token(&Vec::new(), at(0, 0)), None);
}

#[test]
fn next_token_over_lines() {
    let tokens = vec![word("a"), space("\n  "), word("b")];
    assert_eq!(start_of_next_token(&tokens, at(0, 0)), Some(at(1, 2)));
}

#[test]
fn next_token_between_adjacent_words() {
    let tokens = vec![word("foo"), word("("), word("bar")];
    assert_eq!(start_of_next_token(&tokens, at(0, 1)), Some(at(0, 3)));
    assert_eq!(start_of_next_token(&tokens, at(0, 3)), Some(at(0, 4)));
}

#[test]
fn token_tells_whitespace_apart() {
    assert!(space(" ").is_whitespace());
    assert!(!word("a").is_whitespace());
}

#[test]
fn first_word_after_indentation() {
    assert_eq!(first_word_offset("    amp", 0), Some(4));
    assert_eq!(first_word_offset("\t x", 0), Some(2));
    assert_eq!(first_word_offset("amp", 0), Some(0));
}

#[test]
fn first_word_of_a_later_line() {
    assert_eq!(first_word_offset("a\n  b", 1), Some(2));
    assert_eq!(first_word_offset("a\n\n\u{a0}\u{2003}b c", 2), Some(2));
}

#[test]
fn first_word_of_a_blank_line_is_none() {
    assert_eq!(first_word_offset("   ", 0), None);
    assert_eq!(first_word_offset("", 0), None);
    assert_eq!(first_word_offset("a\n \t\r\nb", 1), None);
}

#[test]
fn first_word_of_a_missing_line_is_none() {
    assert_eq!(first_word_offset("a", 3), None);
    assert_eq!(first_word_offset("a\n", 1), None);
    assert_eq!(first_word_offset("a\nb", 2), None);
}

#[test]
fn white_space_is_what_the_property_says() {
    for n in 0u32..=0x10ffff {
        let c = match char::from_u32(n) {
            Some(c) => c,
            None => continue,
        };
        let listed = (0x09..=0x0d).contains(&n)
            || n == 0x20
            || n == 0x85
            || n == 0xa0
            || n == 0x1680
            || (0x2000..=0x200a).contains(&n)
            || n == 0x2028
            || n == 0x2029
            || n == 0x202f
            || n == 0x205f
            || n == 0x3000;
        assert_eq!(c.is_whitespace(), listed, "code point {:x}", n);
        let mut text = String::new();
        text.push(c);
        assert_eq!(first_word_offset(&text, 0).is_none(), c.is_whitespace(), "code point {:x}", n);
    }
}
