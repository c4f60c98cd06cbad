use laberry_core::embeds::{
    attr_value, attr_value_in, extract_description, extract_image, extract_meta,
    extract_site_name, extract_title, fallback_preview, host_check, is_disallowed_ip,
    is_previewable_content_type, meta_in_tags, page_preview, preview_target,
    preview_target_from, HostCheck,
};

#[test]
fn disallowed_addresses() {
    for v4 in [[10, 1, 2, 3], [172, 16, 0, 1], [172, 31, 255, 255], [192, 168, 1, 1], [127, 0, 0, 1], [169, 254, 0, 5], [224, 0, 0, 1], [0, 0, 0, 0]] {
        assert!(is_disallowed_ip(&v4), "{:?}", v4);
    }
    for v4 in [[8, 8, 8, 8], [172, 32, 0, 1], [1, 1, 1, 1]] {
        assert!(!is_disallowed_ip(&v4), "{:?}", v4);
    }
    fn v6(head: &[u8], tail: &[u8]) -> [u8; 16] {
        let mut o = [0u8; 16];
        o[..head.len()].copy_from_slice(head);
        o[16 - tail.len()..].copy_from_slice(tail);
        o
    }
    assert!(is_disallowed_ip(&v6(&[], &[1])));
    assert!(is_disallowed_ip(&[0u8; 16]));
    assert!(is_disallowed_ip(&v6(&[0xfd, 0x00], &[1])));
    assert!(is_disallowed_ip(&v6(&[0xfe, 0x80], &[1])));
    assert!(is_disallowed_ip(&v6(&[0xff, 0x02], &[1])));
    let public = v6(&[0x20, 0x01, 0x48, 0x60], &[0x88, 0x88]);
    assert!(!is_disallowed_ip(&public));
}

#[test]
fn host_checks() {
    assert_eq!(host_check("LOCALHOST", None), HostCheck::Refused);
    assert_eq!(host_check("printer.local", None), HostCheck::Refused);
    assert_eq!(host_check("10.0.0.1", Some(&[10, 0, 0, 1])), HostCheck::Refused);
    assert_eq!(host_check("8.8.8.8", Some(&[8, 8, 8, 8])), HostCheck::Allowed);
    assert_eq!(host_check("example.com", None), HostCheck::NeedsLookup);
}

#[test]
fn preview_targets() {
    assert_eq!(preview_target("https://example.com/a?b=c"), Some(("example.com".to_string(), 443)));
    assert_eq!(preview_target("http://example.com:8080/"), Some(("example.com".to_string(), 8080)));
    assert_eq!(preview_target("HTTP://Example.COM"), Some(("example.com".to_string(), 80)));
    assert_eq!(preview_target("ftp://example.com/"), None);
    assert_eq!(preview_target("not a url"), None);
    assert_eq!(preview_target("mailto:a@b.c"), None);
    assert_eq!(
        preview_target_from(Some(("https".to_string(), Some("h".to_string()), None))),
        Some(("h".to_string(), 443))
    );
    assert_eq!(preview_target_from(Some(("http".to_string(), None, Some(80)))), None);
    assert_eq!(preview_target_from(None), None);
}

#[test]
fn content_types() {
    assert!(is_previewable_content_type("text/html; charset=utf-8"));
    assert!(is_previewable_content_type("Application/XHTML+XML"));
    assert!(is_previewable_content_type(""));
    assert!(!is_previewable_content_type("image/png"));
}

#[test]
fn fallback() {
    let p = fallback_preview("https://x.y/z", "x.y");
    assert_eq!((p.url.as_str(), p.title.as_str(), p.description.as_str(), p.image.as_str(), p.site_name.as_str()), ("https://x.y/z", "x.y", "", "", "x.y"));
}

#[test]
fn attributes() {
    let tag = r#"<meta PROPERTY="og:title" content='Hello'  name="">"#;
    assert_eq!(attr_value(tag, "property").as_deref(), Some("og:title"));
    assert_eq!(attr_value(tag, "content").as_deref(), Some("Hello"));
    assert_eq!(attr_value(tag, "name"), None);
    assert_eq!(attr_value(tag, "missing"), None);
    let attrs = vec![("a".to_string(), "".to_string()), ("A".to_string(), "2".to_string())];
    assert_eq!(attr_value_in(&attrs, "a").as_deref(), Some("2"));
    let tags = vec![
        r#"<meta name="description" content="  first   one ">"#.to_string(),
        r#"<meta property="og:image" content="/i.png">"#.to_string(),
    ];
    assert_eq!(meta_in_tags(&tags, "DESCRIPTION").as_deref(), Some("first one"));
    assert_eq!(meta_in_tags(&tags, "og:image").as_deref(), Some("/i.png"));
    assert_eq!(meta_in_tags(&tags, "og:title"), None);
}

const PAGE: &str = r#"<html><head>
<title>
  Plain   Title
</title>
<meta property="og:title" content="">
<meta name="twitter:title" content="Tweet   Title">
<meta name="description" content="A page">
<meta property="twitter:image" content="https://x.y/t.png">
<meta property="og:site_name" content="XY">
</head></html>"#;

#[test]
fn page_metadata() {
    assert_eq!(extract_meta(PAGE, "og:title"), None);
    assert_eq!(extract_title(PAGE).as_deref(), Some("Tweet Title"));
    assert_eq!(extract_title("<TITLE> a\n b </TITLE>").as_deref(), Some("a b"));
    assert_eq!(extract_title("<p>none</p>"), None);
    assert_eq!(extract_description(PAGE).as_deref(), Some("A page"));
    assert_eq!(extract_image(PAGE).as_deref(), Some("https://x.y/t.png"));
    assert_eq!(extract_site_name(PAGE, "x.y"), "XY");
    assert_eq!(extract_site_name("", "x.y"), "x.y");
}

#[test]
fn page_previews() {
    let p = page_preview("https://x.y/", "x.y", PAGE);
    assert_eq!(p.title, "Tweet Title");
    assert_eq!(p.description, "A page");
    assert_eq!(p.image, "https://x.y/t.png");
    assert_eq!(p.site_name, "XY");
    let p = page_preview("https://x.y/", "x.y", "<p>nothing</p>");
    assert_eq!((p.title.as_str(), p.description.as_str(), p.image.as_str(), p.site_name.as_str()), ("x.y", "", "", "x.y"));
}
