use cli_grid::{byte_index, col_line, pad, HAlign, VAlign};

#[test]
fn test_byte_index_ascii() {
    let s = "abc";
    let result = byte_index(s, 2);
    let expected = 2;
    assert_eq!(result, expected);
}

#[test]
fn test_byte_index_unicode1() {
    let s = "aµc";
    let result = byte_index(s, 2);
    let expected = 3;
    assert_eq!(result, expected);
}

#[test]
fn test_byte_index_unicode2() {
    let s = "µ∆c";
    let result = byte_index(s, 2);
    let expected = 5;
    assert_eq!(result, expected);
}

#[test]
fn test_pad_left_empty() {
    let s = "";
    let result = pad(HAlign::Right, s, 3, '.');
    let expected = String::from("...");
    assert_eq!(result, expected);
}

#[test]
fn test_pad_right_empty() {
    let s = "";
    let result = pad(HAlign::Left, s, 3, '.');
    let expected = String::from("...");
    assert_eq!(result, expected);
}

#[test]
fn test_pad_left() {
    let s = "a";
    let result = pad(HAlign::Right, s, 3, '.');
    let expected = String::from("..a");
    assert_eq!(result, expected);
}

#[test]
fn test_pad_right() {
    let s = "a";
    let result = pad(HAlign::Left, s, 3, '.');
    let expected = String::from("a..");
    assert_eq!(result, expected);
}

#[test]
fn test_pad_center() {
    let s = "a";
    let result = pad(HAlign::Center, s, 3, '.');
    let expected = String::from(".a.");
    assert_eq!(result, expected);
}

#[test]
fn test_pad_fill1() {
    let s = "a";
    let result = pad(HAlign::Fill, s, 3, '.');
    let expected = String::from("aaa");
    assert_eq!(result, expected);
}

#[test]
fn test_pad_fill2() {
    let s = "ab";
    let result = pad(HAlign::Fill, s, 3, '.');
    let expected = String::from("aba");
    assert_eq!(result, expected);
}

#[test]
fn test_pad_left_unicode() {
    let s = "∆";
    let result = pad(HAlign::Right, s, 3, '.');
    let expected = String::from("..∆");
    assert_eq!(result, expected);
}

#[test]
fn test_pad_right_unicode() {
    let s = "∆";
    let result = pad(HAlign::Left, s, 3, '.');
    let expected = String::from("∆..");
    assert_eq!(result, expected);
}

#[test]
fn test_pad_center_unicode() {
    let s = "∆";
    let result = pad(HAlign::Center, s, 3, '.');
    let expected = String::from(".∆.");
    assert_eq!(result, expected);
}

#[test]
fn test_pad_fill_unicode() {
    let s = "∆";
    let result = pad(HAlign::Fill, s, 3, '.');
    let expected = String::from("∆∆∆");
    assert_eq!(result, expected);
}

#[test]
fn test_col_line_for_a_content_with_1_row_in_a_3_lines_column_left_top() {
    let h_align = HAlign::Left;
    let v_align = VAlign::Top;
    let col_width = 3;
    let col_lines = vec![String::from("a")];
    let max_lines = 3;
    let blank_char = '.';

    let line_index = 0;
    let result = col_line(
        h_align, v_align, col_width, &col_lines, max_lines, line_index, blank_char,
    );
    let expected = "a..";
    assert_eq!(result, expected);

    let line_index = 1;
    let result = col_line(
        h_align, v_align, col_width, &col_lines, max_lines, line_index, blank_char,
    );
    let expected = "...";
    assert_eq!(result, expected);

    let line_index = 2;
    let result = col_line(
        h_align, v_align, col_width, &col_lines, max_lines, line_index, blank_char,
    );
    let expected = "...";
    assert_eq!(result, expected);
}

#[test]
fn test_col_line_for_a_content_with_1_row_in_a_3_lines_column_left_middle() {
    let h_align = HAlign::Left;
    let v_align = VAlign::Middle;
    let col_width = 3;
    let col_lines = vec![String::from("a")];
    let max_lines = 3;
    let blank_char = '.';

    let line_index = 0;
    let result = col_line(
        h_align, v_align, col_width, &col_lines, max_lines, line_index, blank_char,
    );
    let expected = "...";
    assert_eq!(result, expected);

    let line_index = 1;
    let result = col_line(
        h_align, v_align, col_width, &col_lines, max_lines, line_index, blank_char,
    );
    let expected = "a..";
    assert_eq!(result, expected);

    let line_index = 2;
    let result = col_line(
        h_align, v_align, col_width, &col_lines, max_lines, line_index, blank_char,
    );
    let expected = "...";
    assert_eq!(result, expected);
}

#[test]
fn test_col_line_for_a_content_with_1_row_in_a_3_lines_column_left_bottom() {
    let h_align = HAlign::Left;
    let v_align = VAlign::Bottom;
    let col_width = 3;
    let col_lines = vec![String::from("a")];
    let max_lines = 3;
    let blank_char = '.';

    let line_index = 0;
    let result = col_line(
        h_align, v_align, col_width, &col_lines, max_lines, line_index, blank_char,
    );
    let expected = "...";
    assert_eq!(result, expected);

    let line_index = 1;
    let result = col_line(
        h_align, v_align, col_width, &col_lines, max_lines, line_index, blank_char,
    );
    let expected = "...";
    assert_eq!(result, expected);

    let line_index = 2;
    let result = col_line(
        h_align, v_align, col_width, &col_lines, max_lines, line_index, blank_char,
    );
    let expected = "a..";
    assert_eq!(result, expected);
}

#[test]
fn test_col_line_for_a_content_with_2_row_in_a_4_lines_column_left_top() {
    let h_align = HAlign::Left;
    let v_align = VAlign::Top;
    let col_width = 3;
    let col_lines = vec![String::from("a"), String::from("b")];
    let max_lines = 4;
    let blank_char = '.';

    let line_index = 0;
    let result = col_line(
        h_align, v_align, col_width, &col_lines, max_lines, line_index, blank_char,
    );
    let expected = "a..";
    assert_eq!(result, expected);

    let line_index = 1;
    let result = col_line(
        h_align, v_align, col_width, &col_lines, max_lines, line_index, blank_char,
    );
    let expected = "b..";
    assert_eq!(result, expected);

    let line_index = 2;
    let result = col_line(
        h_align, v_align, col_width, &col_lines, max_lines, line_index, blank_char,
    );
    let expected = "...";
    assert_eq!(result, expected);

    let line_index = 3;
    let result = col_line(
        h_align, v_align, col_width, &col_lines, max_lines, line_index, blank_char,
    );
    let expected = "...";
    assert_eq!(result, expected);
}

#[test]
fn test_col_line_for_a_content_with_2_row_in_a_4_lines_column_left_middle() {
    let h_align = HAlign::Left;
    let v_align = VAlign::Middle;
    let col_width = 3;
    let col_lines = vec![String::from("a"), String::from("b")];
    let max_lines = 4;
    let blank_char = '.';

    let line_index = 0;
    let result = col_line(
        h_align, v_align, col_width, &col_lines, max_lines, line_index, blank_char,
    );
    let expected = "...";
    assert_eq!(result, expected);

    let line_index = 1;
    let result = col_line(
        h_align, v_align, col_width, &col_lines, max_lines, line_index, blank_char,
    );
    let expected = "a..";
    assert_eq!(result, expected);

    let line_index = 2;
    let result = col_line(
        h_align, v_align, col_width, &col_lines, max_lines, line_index, blank_char,
    );
    let expected = "b..";
    assert_eq!(result, expected);

    let line_index = 3;
    let result = col_line(
        h_align, v_align, col_width, &col_lines, max_lines, line_index, blank_char,
    );
    let expected = "...";
    assert_eq!(result, expected);
}

#[test]
fn test_col_line_for_a_content_with_2_row_in_a_4_lines_column_left_bottom() {
    let h_align = HAlign::Left;
    let v_align = VAlign::Bottom;
    let col_width = 3;
    let col_lines = vec![String::from("a"), String::from("b")];
    let max_lines = 4;
    let blank_char = '.';

    let line_index = 0;
    let result = col_line(
        h_align, v_align, col_width, &col_lines, max_lines, line_index, blank_char,
    );
    let expected = "...";
    assert_eq!(result, expected);

    let line_index = 1;
    let result = col_line(
        h_align, v_align, col_width, &col_lines, max_lines, line_index, blank_char,
    );
    let expected = "...";
    assert_eq!(result, expected);

    let line_index = 2;
    let result = col_line(
        h_align, v_align, col_width, &col_lines, max_lines, line_index, blank_char,
    );
    let expected = "a..";
    assert_eq!(result, expected);

    let line_index = 3;
    let result = col_line(
        h_align, v_align, col_width, &col_lines, max_lines, line_index, blank_char,
    );
    let expected = "b..";
    assert_eq!(result, expected);
}
