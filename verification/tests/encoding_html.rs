use laberry_core::encoding::{
    percent_decode_bytes, percent_encode_bytes, percent_encode_header_value,
    percent_encode_query_component, url_decode_component_lossy, url_encode_component,
    utf8_width_exec,
};
use laberry_core::html::{escape_html, escape_html_lines};

#[test]
fn escape_html_replaces_the_five_markup_characters() {
    assert_eq!(escape_html("a & b"), "a &amp; b");
    assert_eq!(escape_html("<b>\"x\"</b>"), "&lt;b&gt;&quot;x&quot;&lt;/b&gt;");
    assert_eq!(escape_html("it's"), "it&#39;s");
    assert_eq!(escape_html(""), "");
    assert_eq!(escape_html("plain текст"), "plain текст");
}

#[test]
fn escape_html_output_holds_no_markup() {
    let out = escape_html("<script>alert('x' & \"y\")</script>");
    assert!(!out.contains('<'));
    assert!(!out.contains('>'));
    assert!(!out.contains('"'));
    assert!(!out.contains('\''));
}

#[test]
fn escape_html_lines_turns_every_line_break_into_br() {
    assert_eq!(escape_html_lines("a\r\nb\rc\nd"), "a<br>b<br>c<br>d");
    assert_eq!(escape_html_lines("<x>\n"), "&lt;x&gt;<br>");
    assert_eq!(escape_html_lines("\n\n"), "<br><br>");
}

#[test]
fn query_component_keeps_unreserved_and_escapes_the_rest() {
    assert_eq!(percent_encode_query_component("AZaz09-._~"), "AZaz09-._~");
    assert_eq!(percent_encode_query_component("a b/c?d=e&f"), "a%20b%2Fc%3Fd%3De%26f");
    assert_eq!(percent_encode_query_component("я"), "%D1%8F");
    assert_eq!(percent_encode_query_component(""), "");
}

#[test]
fn url_encode_component_uses_upper_hex() {
    assert_eq!(url_encode_component("Готово!"), "%D0%93%D0%BE%D1%82%D0%BE%D0%B2%D0%BE%21");
    assert_eq!(url_encode_component("a+b"), "a%2Bb");
}

#[test]
fn header_value_encoding_matches_query_encoding() {
    for s in ["report (1).pdf", "файл.txt", "x;y=z", "~ok~"] {
        assert_eq!(percent_encode_header_value(s), percent_encode_query_component(s));
    }
    assert_eq!(percent_encode_header_value("a b"), "a%20b");
}

#[test]
fn percent_encode_bytes_each_byte() {
    let out: String = percent_encode_bytes(&[0x00, b'a', 0xFF]).into_iter().collect();
    assert_eq!(out, "%00a%FF");
}

#[test]
fn percent_decode_bytes_decodes_valid_escapes_only() {
    assert_eq!(percent_decode_bytes(b"a%41b"), b"aAb".to_vec());
    assert_eq!(percent_decode_bytes(b"%zz"), b"%zz".to_vec());
    assert_eq!(percent_decode_bytes(b"%4"), b"%4".to_vec());
    assert_eq!(percent_decode_bytes(b"%6a%6A"), b"jj".to_vec());
}

#[test]
fn url_decode_component_lossy_examples() {
    assert_eq!(url_decode_component_lossy("%D1%84%D0%B0%D0%B9%D0%BB.txt"), "файл.txt");
    assert_eq!(url_decode_component_lossy("100%"), "100%");
    assert_eq!(url_decode_component_lossy("a+b"), "a+b");
    // An invalid UTF-8 sequence becomes the replacement character.
    assert_eq!(url_decode_component_lossy("%FF"), "\u{FFFD}");
}

#[test]
fn url_decode_inverts_encode() {
    for s in ["", "hello world", "Привет, мир!", "a%b&c=d", "emoji 🎉", "~._-"] {
        assert_eq!(url_decode_component_lossy(&percent_encode_query_component(s)), s);
        assert_eq!(url_decode_component_lossy(&url_encode_component(s)), s);
    }
}

#[test]
fn encoded_text_uses_only_the_safe_alphabet() {
    let out = percent_encode_query_component("any text: <>&'\"\u{0}\u{7f}ё");
    assert!(out
        .chars()
        .all(|c| c.is_ascii_alphanumeric() || "-._~%".contains(c)));
}

#[test]
fn utf8_widths() {
    assert_eq!(utf8_width_exec('a'), 1);
    assert_eq!(utf8_width_exec('ж'), 2);
    assert_eq!(utf8_width_exec('€'), 3);
    assert_eq!(utf8_width_exec('🎉'), 4);
}
