use catr::config::Config;
use catr::pipeline::process_lines;

fn lines(v: &[&str]) -> Vec<String> {
    v.iter().map(|s| s.to_string()).collect()
}

fn from_switches(
    show_all: bool,
    ve: bool,
    vt: bool,
    show_ends: bool,
    show_tabs: bool,
    show_nonprinting: bool,
) -> Config {
    Config::from_flags(
        Vec::new(),
        show_all,
        false,
        ve,
        show_ends,
        false,
        false,
        vt,
        show_tabs,
        show_nonprinting,
    )
}

#[test]
fn show_all_expands_to_three_flags() {
    let cfg = from_switches(true, false, false, false, false, false);
    assert!(cfg.show_tabs);
    assert!(cfg.show_ends);
    assert!(cfg.show_nonprinting);
    assert!(!cfg.number_lines);
    assert!(!cfg.number_nonblank_lines);
    assert!(!cfg.squeeze_blank);
}

#[test]
fn show_all_matches_independent_flags_on_output() {
    let with_show_all = from_switches(true, false, false, false, false, false);
    let with_three = from_switches(false, false, false, true, true, true);
    let input = lines(&["a\tb", "", "\x02x", "\u{9c}", "plain"]);
    assert_eq!(
        process_lines(&with_show_all, &input),
        process_lines(&with_three, &input)
    );
}

#[test]
fn ve_switch_implies_ends_and_nonprinting() {
    let cfg = from_switches(false, true, false, false, false, false);
    assert!(!cfg.show_tabs);
    assert!(cfg.show_ends);
    assert!(cfg.show_nonprinting);
}

#[test]
fn vt_switch_implies_tabs_and_nonprinting() {
    let cfg = from_switches(false, false, true, false, false, false);
    assert!(cfg.show_tabs);
    assert!(!cfg.show_ends);
    assert!(cfg.show_nonprinting);
}

#[test]
fn elementary_flags_pass_through() {
    let cfg = Config::from_flags(
        vec!["f".to_string()],
        false,
        true,
        false,
        false,
        false,
        true,
        false,
        false,
        false,
    );
    assert_eq!(cfg.files, vec!["f".to_string()]);
    assert!(cfg.number_nonblank_lines);
    assert!(!cfg.number_lines);
    assert!(cfg.squeeze_blank);
    assert!(!cfg.show_tabs);
    assert!(!cfg.show_ends);
    assert!(!cfg.show_nonprinting);
}
