use cli_music::text::escape_js;

#[test]
fn plain_text_passes_through() {
    assert_eq!(escape_js("Blue in Green"), "Blue in Green");
}

#[test]
fn backslashes_are_doubled() {
    assert_eq!(escape_js("a\\b"), "a\\\\b");
}

#[test]
fn quotes_are_escaped() {
    assert_eq!(escape_js("say \"hi\""), "say \\\"hi\\\"");
}

#[test]
fn line_breaks_become_escape_sequences() {
    assert_eq!(escape_js("a\nb\rc"), "a\\nb\\rc");
}

#[test]
fn nul_characters_are_dropped() {
    assert_eq!(escape_js("a\0b"), "ab");
}

#[test]
fn everything_at_once() {
    assert_eq!(escape_js("\\\"\n\r\0x"), "\\\\\\\"\\n\\r" .to_owned() + "x");
}

#[test]
fn empty_input_stays_empty() {
    assert_eq!(escape_js(""), "");
}
