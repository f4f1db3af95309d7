use winbar::windows_api::WindowsApi;

#[test]
fn utf16_of_plain_text() {
    assert_eq!(WindowsApi::str_to_u16_slice("Winbar!"), vec![87, 105, 110, 98, 97, 114, 33]);
    assert_eq!(WindowsApi::str_to_u16_slice(""), Vec::<u16>::new());
}

#[test]
fn utf16_surrogates() {
    assert_eq!(WindowsApi::str_to_u16_slice("\u{1F600}"), vec![0xD83D, 0xDE00]);
    assert_eq!(WindowsApi::str_to_u16_slice("\u{10000}"), vec![0xD800, 0xDC00]);
    assert_eq!(WindowsApi::str_to_u16_slice("\u{10FFFF}"), vec![0xDBFF, 0xDFFF]);
    assert_eq!(WindowsApi::str_to_u16_slice("\u{FFFF}"), vec![0xFFFF]);
    assert_eq!(WindowsApi::str_to_u16_slice("a\u{E9}\u{20AC}"), vec![0x61, 0xE9, 0x20AC]);
}

#[test]
fn utf16_agrees_with_the_standard_library() {
    for text in ["", "plain", "2024-01-01 12:00:00 PM", "äöü ß €", "日本語", "a\u{1F600}b\u{10FFFF}"] {
        assert_eq!(WindowsApi::str_to_u16_slice(text), text.encode_utf16().collect::<Vec<u16>>());
    }
}
