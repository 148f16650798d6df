use ai_commit::prompt::build_prompt;
use ai_commit::text::trim;

#[test]
fn trim_removes_surrounding_whitespace() {
    assert_eq!(trim(" \t fix stuff \n"), "fix stuff");
}

#[test]
fn trim_keeps_inner_whitespace() {
    assert_eq!(trim("  a  b  "), "a  b");
}

#[test]
fn trim_of_whitespace_only_is_empty() {
    assert_eq!(trim(" \r\n\t "), "");
}

#[test]
fn trim_of_empty_is_empty() {
    assert_eq!(trim(""), "");
}

#[test]
fn trim_without_whitespace_is_identity() {
    assert_eq!(trim("abc"), "abc");
}

#[test]
fn trim_handles_unicode_whitespace() {
    assert_eq!(trim("\u{3000}\u{a0}ok\u{2028}"), "ok");
}

#[test]
fn trim_matches_std_trim_on_samples() {
    for s in ["", " ", "x", " x", "x ", "\u{1680} mixed \u{205f}", "\t\na b\r\n"] {
        assert_eq!(trim(s), s.trim());
    }
}

#[test]
fn prompt_has_exact_template() {
    let p = build_prompt("a.txt\nb.txt", "+foo");
    assert_eq!(
        p,
        "Generate a concise Git commit message based on these changed files:\n\
         a.txt\nb.txt\nAnd their changes:\n+foo"
    );
}

#[test]
fn prompt_is_deterministic_across_calls() {
    let a = build_prompt("f1\nf2", "+x\n-y");
    let b = build_prompt("f1\nf2", "+x\n-y");
    assert_eq!(a, b);
}

#[test]
fn prompt_of_empty_inputs() {
    let p = build_prompt("", "");
    assert_eq!(
        p,
        "Generate a concise Git commit message based on these changed files:\n\nAnd their changes:\n"
    );
}
