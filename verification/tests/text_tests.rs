use rusted::text::{char_is_whitespace, join, lines, trim_end};

fn std_lines(s: &str) -> Vec<String> {
    s.lines().map(|l| l.to_string()).collect()
}

const SAMPLES: [&str; 24] = [
    "",
    "a",
    "a\n",
    "a\nb",
    "a\nb\n",
    "\n",
    "\n\n",
    "a\n\nb",
    "a\r\nb",
    "a\r\nb\r\n",
    "a\r",
    "a\rb",
    "a\r\r\nb",
    "\r\n",
    "\r",
    "\r\r",
    "\n\r",
    "a\n\rb\r",
    "interface Gi0/1\r\n description up\r\n!\r\n",
    "tr\u{e4}iling \u{2003}\nsp\u{e4}ce\t \n",
    "\u{85}\n\u{2028}x\u{2029}\n",
    "  only spaces  ",
    "no newline at the end \u{3000}",
    "a\n\n\n",
];

#[test]
fn lines_of_the_empty_text_are_none() {
    assert_eq!(lines(""), Vec::<String>::new());
}

#[test]
fn lines_end_at_line_feeds() {
    assert_eq!(lines("L1\nL2\nL3"), vec!["L1", "L2", "L3"]);
}

#[test]
fn final_line_feed_makes_no_line() {
    assert_eq!(lines("a\nb\n"), vec!["a", "b"]);
    assert_eq!(lines("\n"), vec![""]);
    assert_eq!(lines("a\n\n"), vec!["a", ""]);
}

#[test]
fn carriage_return_before_line_feed_is_dropped() {
    assert_eq!(lines("a\r\nb\r\n"), vec!["a", "b"]);
    assert_eq!(lines("a\r\r\nb"), vec!["a\r", "b"]);
}

#[test]
fn lone_carriage_return_stays() {
    assert_eq!(lines("a\rb"), vec!["a\rb"]);
    assert_eq!(lines("a\r"), vec!["a\r"]);
    assert_eq!(lines("\r"), vec!["\r"]);
    assert_eq!(lines("x\n\ry\r"), vec!["x", "\ry\r"]);
}

#[test]
fn lines_agree_with_std() {
    for s in SAMPLES {
        assert_eq!(lines(s), std_lines(s), "lines of {s:?}");
    }
}

#[test]
fn whitespace_is_what_std_calls_whitespace() {
    for code in 0u32..=0x10FFFF {
        if let Some(c) = char::from_u32(code) {
            assert_eq!(char_is_whitespace(c), c.is_whitespace(), "U+{code:04X}");
        }
    }
}

#[test]
fn trim_end_takes_trailing_whitespace_only() {
    assert_eq!(trim_end("  a b \t "), "  a b");
    assert_eq!(trim_end("a"), "a");
    assert_eq!(trim_end(""), "");
    assert_eq!(trim_end(" \t\r\n"), "");
    assert_eq!(trim_end("x\u{a0}\u{2003}\u{3000}"), "x");
    assert_eq!(trim_end("x\u{200b}"), "x\u{200b}");
}

#[test]
fn trim_end_agrees_with_std() {
    for s in SAMPLES {
        assert_eq!(trim_end(s), s.trim_end(), "trim_end of {s:?}");
    }
}

#[test]
fn join_puts_a_line_feed_between_lines() {
    let v: Vec<String> = vec!["a".into(), "b".into(), "c".into()];
    assert_eq!(join(&v, 3), "a\nb\nc");
    assert_eq!(join(&v, 2), "a\nb");
    assert_eq!(join(&v, 1), "a");
    assert_eq!(join(&v, 0), "");
}

#[test]
fn join_keeps_empty_lines() {
    let v: Vec<String> = vec!["".into(), "".into(), "x".into(), "".into()];
    assert_eq!(join(&v, 4), "\n\nx\n");
    assert_eq!(join(&v, 2), "\n");
}

#[test]
fn join_agrees_with_std() {
    for s in SAMPLES {
        let v = std_lines(s);
        assert_eq!(join(&v, v.len()), v.join("\n"), "join of {v:?}");
    }
}
