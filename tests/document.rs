use cjk_font_selector::template::generate_xml;
use cjk_font_selector::text::trim;

const EXPECTED: &str = r#"<?xml version="1.0"?>
<!DOCTYPE fontconfig SYSTEM "fonts.dtd">
<fontconfig>
    <match target="pattern">
        <test qual="any" name="family">
            <string>serif</string>
        </test>
        <edit name="family" mode="prepend" binding="strong">
            <string>B</string>
        </edit>
    </match>
    <match target="pattern">
        <test qual="any" name="family">
            <string>sans-serif</string>
        </test>
        <edit name="family" mode="prepend" binding="strong">
            <string>A</string>
        </edit>
    </match>
    <match target="pattern">
        <test qual="any" name="family">
            <string>monospace</string>
        </test>
        <edit name="family" mode="prepend" binding="strong">
            <string>C</string>
        </edit>
    </match>
</fontconfig>
"#;

#[test]
fn document_binds_each_generic_family() {
    assert_eq!(generate_xml("A", "B", "C"), EXPECTED);
}

#[test]
fn document_has_exactly_three_strong_prepend_rules() {
    let doc = generate_xml("Noto Sans CJK JP", "Noto Serif CJK JP", "Noto Sans Mono CJK JP");
    assert_eq!(doc.matches("<match target=\"pattern\">").count(), 3);
    assert_eq!(doc.matches("mode=\"prepend\" binding=\"strong\"").count(), 3);
    let serif = doc.find("<string>serif</string>").unwrap();
    let sans = doc.find("<string>sans-serif</string>").unwrap();
    let mono = doc.find("<string>monospace</string>").unwrap();
    assert!(serif < sans && sans < mono);
    assert!(doc[serif..sans].contains("<string>Noto Serif CJK JP</string>"));
    assert!(doc[sans..mono].contains("<string>Noto Sans CJK JP</string>"));
    assert!(doc[mono..].contains("<string>Noto Sans Mono CJK JP</string>"));
}

#[test]
fn rendering_twice_gives_identical_bytes() {
    let first = generate_xml("A", "B", "C");
    let second = generate_xml("A", "B", "C");
    assert_eq!(first.as_bytes(), second.as_bytes());
}

#[test]
fn rerun_on_the_same_contents_gives_the_same_document() {
    let run = || generate_xml(&trim(" A\n"), &trim("B\n"), &trim("\tC"));
    let first = run();
    let second = run();
    assert_eq!(first, second);
    assert_eq!(first, EXPECTED);
}

#[test]
fn names_are_inserted_without_escaping() {
    let doc = generate_xml("a&b", "<x>", "\"q\"");
    assert!(doc.contains("<string>a&b</string>"));
    assert!(doc.contains("<string><x></string>"));
    assert!(doc.contains("<string>\"q\"</string>"));
}

#[test]
fn empty_names_give_empty_strings() {
    let doc = generate_xml("", "", "");
    assert_eq!(doc.matches("<string></string>").count(), 3);
}
