use rusted::filter::{CompiledFilter, Filter};

fn strings(items: &[&str]) -> Vec<String> {
    items.iter().map(|s| s.to_string()).collect()
}

fn filter(head: usize, tail: usize, removal: &[&str], replace: &[(&str, &str)]) -> Filter {
    Filter {
        trim_lines_head: head,
        trim_lines_tail: tail,
        filter_patterns: strings(removal),
        replace_patterns: replace.iter().map(|(p, r)| (p.to_string(), r.to_string())).collect(),
    }
}

fn compiled(head: usize, tail: usize, removal: &[&str], replace: &[(&str, &str)]) -> CompiledFilter {
    filter(head, tail, removal, replace).compile().unwrap()
}

#[test]
fn replacement_runs_before_removal() {
    let out = compiled(1, 1, &["L3"], &[("L", "X")]).apply("L1\nL2\nL3\nL4\nL5");
    assert_eq!(out.text, "X2\nX3\nX4");
    assert!(!out.nothing_left);
}

#[test]
fn trimming_more_than_there_is_leaves_nothing() {
    let out = compiled(2, 5, &[], &[]).apply("a\nb\nc\nd");
    assert_eq!(out.text, "");
    assert!(out.nothing_left);
}

#[test]
fn line_count_is_length_less_head_less_tail() {
    let raw = "1\n2\n3\n4\n5\n6\n7";
    for h in 0..9 {
        for t in 0..9 {
            let out = compiled(h, t, &["never"], &[]).apply(raw);
            if h + t < 7 {
                let expected: Vec<String> = (h + 1..=7 - t).map(|n| n.to_string()).collect();
                assert_eq!(out.text, expected.join("\n"), "h={h} t={t}");
                assert_eq!(out.text.lines().count(), 7 - h - t);
                assert!(!out.nothing_left);
            } else {
                assert_eq!(out.text, "", "h={h} t={t}");
                assert!(out.nothing_left);
            }
        }
    }
}

#[test]
fn tail_equal_to_what_is_left_leaves_nothing() {
    let out = compiled(1, 2, &[], &[]).apply("a\nb\nc");
    assert_eq!(out.text, "");
    assert!(out.nothing_left);
}

#[test]
fn empty_input_leaves_nothing() {
    let out = compiled(0, 0, &[], &[]).apply("");
    assert_eq!(out.text, "");
    assert!(out.nothing_left);
}

#[test]
fn empty_filter_keeps_lines_and_trims_them() {
    let out = compiled(0, 0, &[], &[]).apply("a  \r\nb\t\n\nc \n");
    assert_eq!(out.text, "a\nb\n\nc");
    assert!(!out.nothing_left);
}

#[test]
fn matching_lines_are_removed() {
    let out = compiled(0, 0, &["^!", "uptime"], &[]).apply("!\nhostname r1\nuptime is 3 days\n! x\nend");
    assert_eq!(out.text, "hostname r1\nend");
}

#[test]
fn removal_is_decided_on_the_rewritten_line() {
    // the rules make a line match that did not, and another stop matching
    let out = compiled(0, 0, &["^secret"], &[("^password", "secret"), ("^secret key", "key")])
        .apply("password 1\nsecret key 2\nuser 3");
    assert_eq!(out.text, "key 2\nuser 3");
    let out = compiled(0, 0, &["^secret"], &[("^secret", "public")]).apply("secret 1\nuser 3");
    assert_eq!(out.text, "public 1\nuser 3");
}

#[test]
fn removal_is_decided_before_trimming() {
    let out = compiled(0, 0, &[" $"], &[]).apply("a \nb");
    assert_eq!(out.text, "b");
}

#[test]
fn rules_apply_in_listed_order() {
    let out = compiled(0, 0, &[], &[("a", "b"), ("b", "c")]).apply("aab");
    assert_eq!(out.text, "ccc");
    let out = compiled(0, 0, &[], &[("b", "c"), ("a", "b")]).apply("aab");
    assert_eq!(out.text, "bbc");
}

#[test]
fn every_match_in_a_line_is_replaced() {
    let out = compiled(0, 0, &[], &[("[0-9]+", "N")]).apply("a1b22c333\n4");
    assert_eq!(out.text, "aNbNcN\nN");
}

#[test]
fn replacement_may_name_capture_groups() {
    let out = compiled(0, 0, &[], &[("(\\w+)=(\\w+)", "$2=$1")]).apply("key=value");
    assert_eq!(out.text, "value=key");
}

#[test]
fn head_is_trimmed_by_position() {
    // the first line would be removed anyway: the head still takes two lines
    let out = compiled(2, 0, &["^x"], &[]).apply("x1\na\nb\nx2\nc");
    assert_eq!(out.text, "b\nc");
}

#[test]
fn tail_is_trimmed_from_what_is_left() {
    // the last line is removed, so the tail takes the two before it
    let out = compiled(0, 2, &["^x"], &[]).apply("a\nb\nc\nx");
    assert_eq!(out.text, "a");
    let out = compiled(0, 2, &["^x"], &[]).apply("x\nx\na\nx");
    assert_eq!(out.text, "");
    assert!(out.nothing_left);
}

#[test]
fn head_larger_than_input_leaves_nothing() {
    let out = compiled(10, 0, &[], &[]).apply("a\nb");
    assert_eq!(out.text, "");
    assert!(out.nothing_left);
    let out = compiled(usize::MAX, usize::MAX, &[], &[]).apply("a\nb");
    assert_eq!(out.text, "");
    assert!(out.nothing_left);
}

#[test]
fn rewrite_and_removes_are_the_steps_of_apply() {
    let f = compiled(0, 0, &["^b"], &[("a", "b")]);
    assert_eq!(f.rewrite("aXa"), "bXb");
    assert!(f.removes("bX"));
    assert!(!f.removes("aX"));
    assert!(!compiled(0, 0, &[], &[]).removes("anything"));
    assert_eq!(compiled(0, 0, &[], &[]).rewrite("same"), "same");
}

#[test]
fn compile_keeps_counts_and_order() {
    let f = compiled(3, 4, &["a", "b"], &[("c", "1"), ("d", "2"), ("e", "3")]);
    assert_eq!(f.trim_lines_head, 3);
    assert_eq!(f.trim_lines_tail, 4);
    let removal: Vec<&str> = f.filter_regexes.iter().map(|r| r.as_str()).collect();
    assert_eq!(removal, vec!["a", "b"]);
    let replace: Vec<(&str, &str)> =
        f.replacements.iter().map(|(r, s)| (r.as_str(), s.as_str())).collect();
    assert_eq!(replace, vec![("c", "1"), ("d", "2"), ("e", "3")]);
}

#[test]
fn compile_names_the_first_bad_pattern() {
    let err = filter(0, 0, &["ok", "a(", "b["], &[("c(", "x")]).compile().unwrap_err();
    assert_eq!(err.pattern, "a(");
    assert_eq!(err.reason, regex::Regex::new("a(").unwrap_err().to_string());
    assert!(err.reason.contains("unclosed group"));
}

#[test]
fn removal_patterns_are_compiled_before_replacements() {
    let err = filter(0, 0, &["ok", "b["], &[("c(", "x")]).compile().unwrap_err();
    assert_eq!(err.pattern, "b[");
    let err = filter(0, 0, &["ok"], &[("fine", "x"), ("c(", "y"), ("d[", "z")]).compile().unwrap_err();
    assert_eq!(err.pattern, "c(");
    assert_eq!(err.reason, regex::Regex::new("c(").unwrap_err().to_string());
}

#[test]
fn pattern_that_is_too_big_is_refused() {
    let err = filter(0, 0, &["\\w{1000}"], &[]).compile().unwrap_err();
    assert_eq!(err.pattern, "\\w{1000}");
    assert!(err.reason.contains("size limit"));
}

#[test]
fn pattern_error_is_worded() {
    let err = filter(0, 0, &["a("], &[]).compile().unwrap_err();
    let cause = regex::Regex::new("a(").unwrap_err().to_string();
    assert_eq!(err.message(), format!("failed to compile regex: 'a(': {cause}"));
}
