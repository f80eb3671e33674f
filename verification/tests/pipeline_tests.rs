use catr::config::Config;
use catr::pipeline::process_lines;
use catr::pipeline::run;

fn base_config() -> Config {
    Config {
        files: Vec::new(),
        number_lines: false,
        number_nonblank_lines: false,
        show_tabs: false,
        show_ends: false,
        show_nonprinting: false,
        squeeze_blank: false,
    }
}

fn lines(v: &[&str]) -> Vec<String> {
    v.iter().map(|s| s.to_string()).collect()
}

#[test]
fn squeeze_collapses_blank_runs() {
    let mut cfg = base_config();
    cfg.squeeze_blank = true;
    let out = process_lines(&cfg, &lines(&["a", "", "", "", "b"]));
    assert_eq!(out, lines(&["a", "", "b"]));
}

#[test]
fn without_squeeze_all_lines_pass() {
    let cfg = base_config();
    let out = process_lines(&cfg, &lines(&["a", "", "", "", "b"]));
    assert_eq!(out, lines(&["a", "", "", "", "b"]));
}

#[test]
fn number_all_lines() {
    let mut cfg = base_config();
    cfg.number_lines = true;
    let out = process_lines(&cfg, &lines(&["foo", "", "bar"]));
    assert_eq!(out, lines(&["     1\tfoo", "     2\t", "     3\tbar"]));
}

#[test]
fn number_nonblank_lines() {
    let mut cfg = base_config();
    cfg.number_nonblank_lines = true;
    let out = process_lines(&cfg, &lines(&["foo", "", "bar"]));
    assert_eq!(out, lines(&["     1\tfoo", "", "     2\tbar"]));
}

#[test]
fn squeeze_checked_before_end_marker() {
    // The squeeze check sees the raw blank lines even though the end marker
    // makes every one of them non-empty; were the end marker applied first,
    // nothing would be squeezed and three `$` lines would come out.
    let mut cfg = base_config();
    cfg.squeeze_blank = true;
    cfg.show_ends = true;
    let out = process_lines(&cfg, &lines(&["", "", ""]));
    assert_eq!(out, lines(&["$"]));
}

#[test]
fn nonblank_numbering_sees_raw_blankness() {
    // A blank line stays a bare blank line under non-blank numbering even
    // when the end marker has made the transformed line non-empty; were the
    // check made after the transforms, the middle line would be numbered.
    let mut cfg = base_config();
    cfg.number_nonblank_lines = true;
    cfg.show_ends = true;
    let out = process_lines(&cfg, &lines(&["a", "", "b"]));
    assert_eq!(out, lines(&["     1\ta$", "", "     2\tb$"]));
}

#[test]
fn numbering_prefix_not_escaped() {
    // The escape step runs before numbering: the tab of the numbering prefix
    // stays a literal tab even under show-nonprinting.
    let mut cfg = base_config();
    cfg.number_lines = true;
    cfg.show_nonprinting = true;
    let out = process_lines(&cfg, &lines(&["\x01"]));
    assert_eq!(out, lines(&["     1\t^A"]));
}

#[test]
fn squeeze_keeps_separated_blanks() {
    let mut cfg = base_config();
    cfg.squeeze_blank = true;
    let out = process_lines(&cfg, &lines(&["", "a", "", "b", ""]));
    assert_eq!(out, lines(&["", "a", "", "b", ""]));
}

#[test]
fn run_continues_after_failed_input() {
    let cfg = base_config();
    let inputs = vec![None, Some(lines(&["hi", "there"]))];
    let (out, failed) = run(&cfg, &inputs);
    assert_eq!(out, lines(&["hi", "there"]));
    assert!(failed);
}

#[test]
fn run_without_failures_reports_none() {
    let cfg = base_config();
    let inputs = vec![Some(lines(&["a"])), Some(lines(&["b"]))];
    let (out, failed) = run(&cfg, &inputs);
    assert_eq!(out, lines(&["a", "b"]));
    assert!(!failed);
}

#[test]
fn counter_resets_per_input() {
    let mut cfg = base_config();
    cfg.number_nonblank_lines = true;
    let inputs = vec![Some(lines(&["x"])), Some(lines(&["y"]))];
    let (out, failed) = run(&cfg, &inputs);
    assert_eq!(out, lines(&["     1\tx", "     1\ty"]));
    assert!(!failed);
}

#[test]
fn blank_flag_resets_per_input() {
    let mut cfg = base_config();
    cfg.squeeze_blank = true;
    let inputs = vec![Some(lines(&["", ""])), Some(lines(&["", ""]))];
    let (out, failed) = run(&cfg, &inputs);
    assert_eq!(out, lines(&["", ""]));
    assert!(!failed);
}
