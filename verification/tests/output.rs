use scriptparse::output::{describe_ref, fmt_pos, fmt_ref, fmt_usize, Repeat};
use scriptparse::span::{Pos, SrcRef};

fn range(l1: usize, c1: usize, l2: usize, c2: usize) -> SrcRef {
    SrcRef::Range { start: Pos { line: l1, col: c1 }, end: Pos { line: l2, col: c2 } }
}

#[test]
fn repeated_characters_render() {
    assert_eq!(Repeat('^', 3).render(), "^^^");
    assert_eq!(Repeat(' ', 0).render(), "");
    assert_eq!(Repeat('-', 1).render(), "-");
}

#[test]
fn numbers_render_in_decimal() {
    assert_eq!(fmt_usize(0), "0");
    assert_eq!(fmt_usize(7), "7");
    assert_eq!(fmt_usize(42), "42");
    assert_eq!(fmt_usize(1234567890), "1234567890");
}

#[test]
fn positions_render_as_line_colon_column() {
    assert_eq!(fmt_pos(&Pos { line: 3, col: 14 }), "3:14");
}

#[test]
fn sentinels_describe_themselves() {
    assert_eq!(describe_ref(&SrcRef::Empty), "empty span");
    assert_eq!(describe_ref(&SrcRef::End), "end of input");
    assert_eq!(describe_ref(&range(2, 5, 2, 9)), "2:5");
}

#[test]
fn rendering_without_source_is_the_bare_description() {
    assert_eq!(fmt_ref(SrcRef::End, None, 0), "end of input\n");
    assert_eq!(fmt_ref(range(3, 1, 3, 2), None, 2), "3:1\n");
}

#[test]
fn rendering_without_position_falls_back() {
    assert_eq!(fmt_ref(SrcRef::End, Some("print x;"), 1), "   |end of input|\n");
}

#[test]
fn rendering_with_source_shows_line_and_carets() {
    let src = "var x = 1;\nprint x;";
    let out = fmt_ref(range(2, 1, 2, 5), Some(src), 0);
    assert_eq!(out, "|2:1| print x;\n      ^^^^^\n");
}

#[test]
fn rendering_is_indented_by_depth() {
    let src = "abc";
    let out = fmt_ref(range(1, 2, 1, 2), Some(src), 1);
    // three leading spaces, then |1:2| abc; caret under column 2 shifted
    // by the prefix width 3 + 3 + 2.
    assert_eq!(out, "   |1:2| abc\n          ^\n");
}

#[test]
fn missing_lines_render_a_placeholder() {
    let src = "one\ntwo";
    let out = fmt_ref(range(5, 1, 5, 2), Some(src), 0);
    assert_eq!(out, "|5:1| <none>\n      ^^\n");
}

#[test]
fn multi_line_spans_get_a_single_caret() {
    let src = "aa\nbb";
    let out = fmt_ref(range(1, 1, 2, 2), Some(src), 0);
    assert_eq!(out, "|1:1| aa\n      ^\n");
}
