use chat_server::text::{chars_of, is_whitespace, split_first_word, trim, trim_end, trim_start};

#[test]
fn whitespace_agrees_with_std_on_every_char() {
    for u in 0u32..=0x10FFFF {
        if let Some(c) = char::from_u32(u) {
            assert_eq!(is_whitespace(c), c.is_whitespace(), "U+{:04X}", u);
        }
    }
}

#[test]
fn trims_agree_with_std() {
    let samples = [
        "",
        " ",
        "\n",
        "abc",
        "  abc  ",
        "\t\r\nabc def\r\n",
        "\u{3000}wide\u{2003}",
        "\u{85}x\u{a0}",
        "a\u{200b}",
        "   \u{2028}\u{2029}  ",
        "ü ñ é",
    ];
    for s in samples.iter() {
        assert_eq!(trim_end(s), s.trim_end());
        assert_eq!(trim_start(s), s.trim_start());
        assert_eq!(trim(s), s.trim());
    }
}

#[test]
fn trim_is_idempotent_on_samples() {
    for s in ["  a b  ", "\t", "x", "\u{3000} y \u{3000}"].iter() {
        assert_eq!(trim(trim(s)), trim(s));
    }
}

fn split_like_std(s: &str) -> (String, String) {
    let mut parts = s.splitn(2, ' ');
    let a = parts.next().unwrap_or("").trim().to_string();
    let b = parts.next().unwrap_or("").trim().to_string();
    (a, b)
}

#[test]
fn split_first_word_agrees_with_splitn() {
    let samples = ["", "msg", "msg bob hi", "  lead", "a  b  c ", "tab\tnot space", " ", "x "];
    for s in samples.iter() {
        let (a, b) = split_first_word(s);
        let (ea, eb) = split_like_std(s);
        assert_eq!(a, ea, "head of {:?}", s);
        assert_eq!(b, eb, "tail of {:?}", s);
    }
}

#[test]
fn chars_of_keeps_every_char() {
    assert_eq!(chars_of("aü\u{1F600}"), vec!['a', 'ü', '\u{1F600}']);
    assert!(chars_of("").is_empty());
}
