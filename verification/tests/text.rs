use zk_vault::text::{blank, white_space};

#[test]
fn blank_accepts_nothing_but_white_space() {
    assert!(blank(""));
    assert!(blank(" "));
    assert!(blank(" \t\r\n"));
    assert!(blank("\u{a0}\u{1680}\u{2003}\u{2028}\u{2029}\u{202f}\u{205f}\u{3000}\u{85}"));
    assert!(!blank("a"));
    assert!(!blank("  a  "));
    assert!(!blank("\t\tk1"));
    assert!(!blank("a@x.com"));
}

#[test]
fn blank_rejects_look_alikes_of_white_space() {
    // None of these carries the White_Space property.
    assert!(!blank("\u{200b}"));
    assert!(!blank("\u{180e}"));
    assert!(!blank("\u{feff}"));
    assert!(!blank("\u{0}"));
    assert!(!blank("\u{1f}"));
    assert!(!blank(" \u{200b} "));
}

#[test]
fn white_space_agrees_with_std_on_every_char() {
    let mut seen = 0u32;
    for n in 0u32..=0x10ffff {
        if let Some(c) = char::from_u32(n) {
            assert_eq!(white_space(c), c.is_whitespace(), "U+{:04X}", n);
            if white_space(c) {
                seen += 1;
            }
        }
    }
    assert_eq!(seen, 25);
}

#[test]
fn blank_agrees_with_trim_on_short_texts() {
    let samples = [' ', '\n', '\u{a0}', '\u{3000}', 'x', '\u{200b}', '@'];
    for a in samples {
        for b in samples {
            for c in samples {
                let text: String = [a, b, c].iter().collect();
                assert_eq!(blank(&text), text.trim().is_empty(), "{:?}", text);
            }
        }
    }
}
