use jrny::parser::text::{glyph, split_first, trim, whitespace, Glyph};
use jrny::{CONF, ENV, ENV_EX};

#[test]
fn glyph_reads_short_keys() {
    assert!(matches!(glyph("a"), Glyph::One('a')));
    assert!(matches!(glyph("é"), Glyph::One('é')));
    assert!(matches!(glyph("--"), Glyph::Two('-', '-')));
    assert!(matches!(glyph("/*"), Glyph::Two('/', '*')));
    assert!(matches!(glyph(""), Glyph::Other));
    assert!(matches!(glyph("abc"), Glyph::Other));
}

#[test]
fn whitespace_is_what_unicode_calls_white_space() {
    for c in ['\t', '\n', '\u{b}', '\u{c}', '\r', ' ', '\u{85}', '\u{a0}', '\u{1680}', '\u{2000}',
        '\u{2005}', '\u{200a}', '\u{2028}', '\u{2029}', '\u{202f}', '\u{205f}', '\u{3000}']
    {
        assert!(whitespace(c), "{:?}", c);
    }
    for c in ['a', ';', '\u{8}', '\u{e}', '\u{1f}', '!', '\u{84}', '\u{86}', '\u{9f}', '\u{a1}',
        '\u{180e}', '\u{1fff}', '\u{200b}', '\u{2027}', '\u{202a}', '\u{2060}', '\u{feff}',
        '\u{3001}']
    {
        assert!(!whitespace(c), "{:?}", c);
    }
}

#[test]
fn whitespace_agrees_with_std_everywhere() {
    for n in 0..=0x10FFFFu32 {
        if let Some(c) = char::from_u32(n) {
            assert_eq!(whitespace(c), c.is_whitespace(), "{:?}", c);
        }
    }
}

#[test]
fn trim_cuts_both_ends() {
    assert_eq!(trim("  a b \n"), "a b");
    assert_eq!(trim("a"), "a");
    assert_eq!(trim(""), "");
    assert_eq!(trim(" \t\r\n"), "");
    assert_eq!(trim("\u{3000}é \u{a0}ü\u{2003}"), "é \u{a0}ü");
    let text = " \u{2028}select 'x  ' ;  ";
    assert_eq!(trim(text), text.trim());
}

#[test]
fn split_first_takes_one_character() {
    assert_eq!(split_first("abc"), Some(("a", "bc")));
    assert_eq!(split_first("a"), Some(("a", "")));
    assert_eq!(split_first("éa"), Some(("é", "a")));
    assert_eq!(split_first("日本"), Some(("日", "本")));
    assert_eq!(split_first("\u{1F600};"), Some(("\u{1F600}", ";")));
    assert_eq!(split_first("e\u{301}"), Some(("e", "\u{301}")));
    assert_eq!(split_first(""), None);
}

#[test]
fn default_file_names() {
    assert_eq!(CONF, "jrny.toml");
    assert_eq!(ENV, "jrny-env.toml");
    assert_eq!(ENV_EX, "jrny-env.example.toml");
}
