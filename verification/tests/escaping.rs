use escpos_lib::escape;

#[test]
fn escape_replaces_both_prefixes() {
    assert_eq!(escape("a\u{1b}b\u{1d}c"), "a?b?c");
    assert_eq!(escape("\u{1b}@"), "?@");
    assert_eq!(escape("\u{1d}V0"), "?V0");
    assert_eq!(escape("\u{1b}\u{1b}\u{1d}\u{1d}"), "????");
}

#[test]
fn escape_keeps_harmless_text() {
    assert_eq!(escape(""), "");
    assert_eq!(escape("Hello, world!"), "Hello, world!");
    assert_eq!(escape("line\nfeed\ttab"), "line\nfeed\ttab");
    assert_eq!(escape("?"), "?");
    assert_eq!(escape("\u{1a}\u{1c}\u{1e}"), "\u{1a}\u{1c}\u{1e}");
}

#[test]
fn escape_keeps_characters_beyond_ascii() {
    assert_eq!(escape("Grüße \u{1b} 日本語 \u{1d} 🖨"), "Grüße ? 日本語 ? 🖨");
    assert_eq!(escape("\u{11b}\u{11d}\u{1b1b}"), "\u{11b}\u{11d}\u{1b1b}");
}

#[test]
fn escape_is_idempotent_on_samples() {
    for sample in ["", "plain", "\u{1b}", "a\u{1d}b", "ü\u{1b}ü", "???", "\u{1b}\u{1d}\u{1b}"] {
        let once = escape(sample);
        assert_eq!(escape(&once), once);
    }
}

#[test]
fn escape_keeps_length_and_positions() {
    let sample = "x\u{1b}y\u{1d}zäö\u{1b}";
    let escaped = escape(sample);
    let before: Vec<char> = sample.chars().collect();
    let after: Vec<char> = escaped.chars().collect();
    assert_eq!(before.len(), after.len());
    for (old, new) in before.iter().zip(after.iter()) {
        if *old == '\u{1b}' || *old == '\u{1d}' {
            assert_eq!(*new, '?');
        } else {
            assert_eq!(new, old);
        }
    }
}

#[test]
fn escaped_bytes_hold_no_command_prefix() {
    let mut sample = String::new();
    for code in 0u32..0x800 {
        if let Some(c) = char::from_u32(code) {
            sample.push(c);
        }
    }
    sample.push_str("\u{1b1b}\u{1d1d}\u{1b1d}\u{101b}\u{1f5a8}");
    let escaped = escape(&sample);
    assert!(escaped.bytes().all(|byte| byte != 0x1b && byte != 0x1d));
    assert_eq!(escaped.chars().count(), sample.chars().count());
}
