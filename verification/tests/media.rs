use fedistar::media::media_window_label;

#[test]
fn the_label_is_the_address_in_base64_without_padding() {
    assert_eq!(media_window_label("https://example.com/a.png"), "aHR0cHM6Ly9leGFtcGxlLmNvbS9hLnBuZw");
    assert_eq!(media_window_label("a"), "YQ");
    assert_eq!(media_window_label("ab"), "YWI");
    assert_eq!(media_window_label("abc"), "YWJj");
    assert_eq!(media_window_label(""), "");
}

#[test]
fn the_label_uses_the_standard_alphabet() {
    assert_eq!(media_window_label("??>>"), "Pz8+Pg");
    assert_eq!(media_window_label("~~~"), "fn5+");
}
