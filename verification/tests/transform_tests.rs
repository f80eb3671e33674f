use catr::config::Config;
use catr::numbering::format_line_number;
use catr::transform::transform_line;

fn flags(
    show_tabs: bool,
    show_ends: bool,
    show_nonprinting: bool,
) -> Config {
    Config {
        files: Vec::new(),
        number_lines: false,
        number_nonblank_lines: false,
        show_tabs,
        show_ends,
        show_nonprinting,
        squeeze_blank: false,
    }
}

#[test]
fn tab_becomes_caret_i() {
    let cfg = flags(true, false, false);
    assert_eq!(transform_line(&cfg, "a\tb"), "a^Ib");
}

#[test]
fn tabs_kept_without_flag() {
    let cfg = flags(false, false, false);
    assert_eq!(transform_line(&cfg, "a\tb"), "a\tb");
}

#[test]
fn end_marker_appended_once() {
    let cfg = flags(false, true, false);
    assert_eq!(transform_line(&cfg, "x"), "x$");
    assert_eq!(transform_line(&cfg, ""), "$");
}

#[test]
fn control_char_caret_escaped() {
    let cfg = flags(false, false, true);
    assert_eq!(transform_line(&cfg, "\x01"), "^A");
    assert_eq!(transform_line(&cfg, "\x1e"), "^^");
}

#[test]
fn delete_char_escaped() {
    let cfg = flags(false, false, true);
    assert_eq!(transform_line(&cfg, "\x7f"), "^?");
}

#[test]
fn printable_char_unchanged() {
    let cfg = flags(false, false, true);
    assert_eq!(transform_line(&cfg, "A"), "A");
}

#[test]
fn high_bytes_meta_decimal() {
    let cfg = flags(false, false, true);
    assert_eq!(transform_line(&cfg, "\u{80}"), "M-128");
    assert_eq!(transform_line(&cfg, "\u{ff}"), "M-255");
}

#[test]
fn tab_escaped_by_nonprinting_alone() {
    let cfg = flags(false, false, true);
    assert_eq!(transform_line(&cfg, "a\tb"), "a^Ib");
}

#[test]
fn tabs_then_end_then_escape() {
    let cfg = flags(true, true, true);
    assert_eq!(transform_line(&cfg, "a\t\u{81}"), "a^IM-129$");
}

#[test]
fn line_number_field_width() {
    assert_eq!(format_line_number(1), "     1\t");
    assert_eq!(format_line_number(42), "    42\t");
    assert_eq!(format_line_number(999999), "999999\t");
    assert_eq!(format_line_number(1234567), "1234567\t");
}
