use codex_pet_limit_rings::config::{parse_args, parse_i32, same_text, PathChoice, DEFAULT_SIZE};

fn args(list: &[&str]) -> Vec<String> {
    list.iter().map(|s| s.to_string()).collect()
}

#[test]
fn parse_i32_like_std() {
    for s in ["0", "7", "+5", "-0", "-12", "007", "2147483647", "-2147483648", "2147483648",
        "-2147483649", "", "-", "+", "12a", " 1", "1 ", "+-3", "99999999999999999999", "١"] {
        assert_eq!(parse_i32(s), s.parse::<i32>().ok(), "{s:?}");
    }
}

#[test]
fn same_text_compares_characters() {
    assert!(same_text("--size", "--size"));
    assert!(!same_text("--size", "--sizes"));
    assert!(!same_text("--size", "--sIze"));
}

#[test]
fn defaults_without_arguments() {
    let c = parse_args(&args(&[])).unwrap();
    assert!(c.codex_home.is_none());
    assert!(matches!(c.logs, PathChoice::InCodexHome));
    assert_eq!(c.size, DEFAULT_SIZE);
    assert!(!c.show_without_pet);
    assert_eq!(c.offset_x, None);
    assert!(c.scale_x.is_empty());
}

#[test]
fn options_are_read() {
    let c = parse_args(&args(&[
        "--size", "300", "--show-without-pet", "--offset-x", "8", "--offset-y", "-4",
        "--preview", "out.png", "--scale-x", "1.25", "--scale-y", "0.9", "--scale-x", "1.5",
    ]))
    .unwrap();
    assert_eq!(c.size, 300);
    assert!(c.show_without_pet);
    assert_eq!(c.offset_x, Some(8));
    assert_eq!(c.offset_y, Some(-4));
    assert_eq!(c.preview.as_deref(), Some("out.png"));
    assert_eq!(c.scale_x, vec!["1.25".to_string(), "1.5".to_string()]);
    assert_eq!(c.scale_y, vec!["0.9".to_string()]);
}

#[test]
fn codex_home_resets_earlier_paths() {
    let c = parse_args(&args(&["--logs", "a.sqlite", "--codex-home", "C:/h"])).unwrap();
    assert_eq!(c.codex_home.as_deref(), Some("C:/h"));
    assert!(matches!(c.logs, PathChoice::InCodexHome));
    let c2 = parse_args(&args(&["--codex-home", "C:/h", "--logs", "a.sqlite", "--auth", "x.json", "--state", "s.json"])).unwrap();
    assert!(matches!(&c2.logs, PathChoice::Given(p) if p == "a.sqlite"));
    assert!(matches!(&c2.auth, PathChoice::Given(p) if p == "x.json"));
    assert!(matches!(&c2.state, PathChoice::Given(p) if p == "s.json"));
}

#[test]
fn later_size_wins() {
    assert_eq!(parse_args(&args(&["--size", "1", "--size", "2"])).unwrap().size, 2);
}

#[test]
fn refused_command_lines() {
    assert!(parse_args(&args(&["--help"])).is_none());
    assert!(parse_args(&args(&["--size", "10", "-h"])).is_none());
    assert!(parse_args(&args(&["--bogus"])).is_none());
    assert!(parse_args(&args(&["--size"])).is_none());
    assert!(parse_args(&args(&["--size", "big"])).is_none());
    assert!(parse_args(&args(&["--logs"])).is_none());
    assert!(parse_args(&args(&["--offset-x", "1.5"])).is_none());
}

#[test]
fn preview_without_value_is_cleared() {
    let c = parse_args(&args(&["--preview", "a.png", "--preview"])).unwrap();
    assert!(c.preview.is_none());
    // The value after --preview is taken whatever it looks like.
    let c2 = parse_args(&args(&["--preview", "--help"])).unwrap();
    assert_eq!(c2.preview.as_deref(), Some("--help"));
}
