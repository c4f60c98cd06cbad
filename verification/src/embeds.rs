//! Link previews: which hosts may be fetched, and the title, description,
//! image and site name read from a page's `<meta>` and `<title>` tags.

use vstd::prelude::*;
use crate::patterns::{
    captures_all, find_all, group, group_at, groups_view, opt_view, regex_capture_groups,
    regex_matches,
};
use crate::text::{
    ascii_lower, chars_eq, chars_of, ends_with, ends_with_lit, eq_lit, is_whitespace, is_ws,
    starts_with, starts_with_lit, string_of, to_ascii_lower, trim, trim_chars,
};

verus! {

/// The most bytes of a page read for a preview.
pub const MAX_HTML_BYTES: usize = 524288;

/// A link preview.
pub struct PreviewResponse {
    pub url: String,
    pub title: String,
    pub description: String,
    pub image: String,
    pub site_name: String,
}

// ---------------------------------------------------------------------------
// Hosts
// ---------------------------------------------------------------------------

/// IPv4 addresses a preview may not fetch from: private (10/8, 172.16/12,
/// 192.168/16), loopback (127/8), link-local (169.254/16), multicast
/// (224/4) and unspecified (0.0.0.0).
pub open spec fn v4_disallowed(o: Seq<u8>) -> bool {
    ||| o[0] == 10
    ||| (o[0] == 172 && 16 <= o[1] && o[1] <= 31)
    ||| (o[0] == 192 && o[1] == 168)
    ||| o[0] == 127
    ||| (o[0] == 169 && o[1] == 254)
    ||| (224 <= o[0] && o[0] <= 239)
    ||| (o[0] == 0 && o[1] == 0 && o[2] == 0 && o[3] == 0)
}

pub open spec fn all_zero(o: Seq<u8>, from: int, to: int) -> bool {
    forall|i: int| from <= i < to ==> #[trigger] o[i] == 0
}

/// IPv6 addresses a preview may not fetch from: loopback (::1), multicast
/// (ff00::/8), unspecified (::), unique local (fc00::/7) and link-local
/// unicast (fe80::/10).
pub open spec fn v6_disallowed(o: Seq<u8>) -> bool {
    ||| (all_zero(o, 0, 15) && o[15] == 1)
    ||| o[0] == 0xff
    ||| all_zero(o, 0, 16)
    ||| (o[0] & 0xfe) == 0xfc
    ||| (o[0] == 0xfe && (o[1] & 0xc0) == 0x80)
}

/// Whether an address (4 or 16 octets) is one a preview may not fetch from.
pub open spec fn ip_disallowed(o: Seq<u8>) -> bool {
    if o.len() == 4 {
        v4_disallowed(o)
    } else {
        v6_disallowed(o)
    }
}

fn zero_run(o: &[u8], from: usize, to: usize) -> (r: bool)
    requires
        from <= to <= o@.len(),
    ensures
        r == all_zero(o@, from as int, to as int),
{
    let mut i = from;
    while i < to
        invariant
            from <= i <= to <= o@.len(),
            forall|k: int| from <= k < i ==> #[trigger] o@[k] == 0,
        decreases to - i,
    {
        if o[i] != 0 {
            return false;
        }
        i = i + 1;
    }
    true
}

pub fn is_disallowed_ip(octets: &[u8]) -> (r: bool)
    requires
        octets@.len() == 4 || octets@.len() == 16,
    ensures
        r == ip_disallowed(octets@),
{
    let o = octets;
    if o.len() == 4 {
        o[0] == 10 || (o[0] == 172 && 16 <= o[1] && o[1] <= 31) || (o[0] == 192 && o[1] == 168)
            || o[0] == 127 || (o[0] == 169 && o[1] == 254) || (224 <= o[0] && o[0] <= 239) || (o[0]
            == 0 && o[1] == 0 && o[2] == 0 && o[3] == 0)
    } else {
        (zero_run(o, 0, 15) && o[15] == 1) || o[0] == 0xff || zero_run(o, 0, 16) || (o[0] & 0xfe)
            == 0xfc || (o[0] == 0xfe && (o[1] & 0xc0) == 0x80)
    }
}

/// What is decided of a host before any lookup.
#[derive(PartialEq, Eq, Structural, Clone, Copy, Debug)]
pub enum HostCheck {
    /// Never fetched.
    Refused,
    /// An address literal that may be fetched.
    Allowed,
    /// A name whose addresses must each be checked.
    NeedsLookup,
}

/// `localhost` and `.local` names are refused, as are disallowed address
/// literals; other literals are allowed; other names need a lookup.
pub open spec fn host_check_spec(host: Seq<char>, literal: Option<Seq<u8>>) -> HostCheck {
    let h = ascii_lower(host);
    if h == "localhost"@ || crate::text::ends_with(h, ".local"@) {
        HostCheck::Refused
    } else {
        match literal {
            Some(o) => if ip_disallowed(o) {
                HostCheck::Refused
            } else {
                HostCheck::Allowed
            },
            None => HostCheck::NeedsLookup,
        }
    }
}

/// An address literal in a private, loopback, link-local, multicast or
/// unspecified range is never fetched, and neither is a local host name.
pub proof fn law_private_hosts_refused(host: Seq<char>, literal: Option<Seq<u8>>)
    requires
        (literal matches Some(o) && ip_disallowed(o)) || ascii_lower(host) == "localhost"@
            || crate::text::ends_with(ascii_lower(host), ".local"@),
    ensures
        host_check_spec(host, literal) == HostCheck::Refused,
{
}

/// Judges a host from its text and, when it is an address literal, its
/// octets (four for IPv4, sixteen for IPv6).
pub fn host_check(host: &str, literal: Option<&[u8]>) -> (r: HostCheck)
    requires
        literal matches Some(o) ==> (o@.len() == 4 || o@.len() == 16),
    ensures
        r == host_check_spec(
            host@,
            match literal {
                Some(o) => Some(o@),
                None => None,
            },
        ),
{
    let h = to_ascii_lower(chars_of(host).as_slice());
    if eq_lit(h.as_slice(), "localhost") || ends_with_lit(h.as_slice(), ".local") {
        return HostCheck::Refused;
    }
    match literal {
        Some(o) => if is_disallowed_ip(o) {
            HostCheck::Refused
        } else {
            HostCheck::Allowed
        },
        None => HostCheck::NeedsLookup,
    }
}

/// The parts of a URL that decide whether it is fetched: scheme, host and
/// port (the scheme's default when none is written).
pub uninterp spec fn url_parts(input: Seq<char>) -> Option<(Seq<char>, Option<Seq<char>>, Option<u16>)>;

/// `url::Url::parse(input)` and, on success, its `scheme()`, `host_str()` and
/// `port_or_known_default()`. What the parser accepts is left to the name
/// `url_parts`.
#[verifier::external_body]
fn parse_url(input: &str) -> (r: Option<(String, Option<String>, Option<u16>)>)
    ensures
        match r {
            Some((s, h, p)) => url_parts(input@) == Some(
                (
                    s@,
                    match h {
                        Some(x) => Some(x@),
                        None => None,
                    },
                    p,
                ),
            ),
            None => url_parts(input@) is None,
        },
{
    match url::Url::parse(input) {
        Ok(u) => Some((
            u.scheme().to_string(),
            u.host_str().map(|h| h.to_string()),
            u.port_or_known_default(),
        )),
        Err(_) => None,
    }
}

/// The host and port a preview fetches from, given a URL's parts: only
/// `http` and `https` URLs with a host are fetched, on the written port or
/// the scheme's default.
pub open spec fn preview_target_spec(parts: Option<(Seq<char>, Option<Seq<char>>, Option<u16>)>) -> Option<(Seq<char>, u16)> {
    match parts {
        None => None,
        Some((scheme, host, port)) => if scheme != "http"@ && scheme != "https"@ {
            None
        } else {
            match host {
                None => None,
                Some(h) => Some(
                    (
                        h,
                        match port {
                            Some(p) => p,
                            None => if scheme == "https"@ {
                                443u16
                            } else {
                                80u16
                            },
                        },
                    ),
                ),
            }
        },
    }
}

/// Picks the host and port to fetch from a URL's parts.
pub fn preview_target_from(parts: Option<(String, Option<String>, Option<u16>)>) -> (r: Option<(String, u16)>)
    ensures
        match r {
            Some((h, p)) => preview_target_spec(
                match parts {
                    Some((s, h, p)) => Some(
                        (
                            s@,
                            match h {
                                Some(x) => Some(x@),
                                None => None,
                            },
                            p,
                        ),
                    ),
                    None => None,
                },
            ) == Some((h@, p)),
            None => preview_target_spec(
                match parts {
                    Some((s, h, p)) => Some(
                        (
                            s@,
                            match h {
                                Some(x) => Some(x@),
                                None => None,
                            },
                            p,
                        ),
                    ),
                    None => None,
                },
            ) is None,
        },
{
    match parts {
        None => None,
        Some((scheme, host, port)) => {
            let s = chars_of(scheme.as_str());
            let https = eq_lit(s.as_slice(), "https");
            if !eq_lit(s.as_slice(), "http") && !https {
                return None;
            }
            match host {
                None => None,
                Some(h) => {
                    let p = match port {
                        Some(p) => p,
                        None => if https {
                            443u16
                        } else {
                            80u16
                        },
                    };
                    Some((h, p))
                },
            }
        },
    }
}

/// The host and port a preview of `url` fetches from, if any.
pub fn preview_target(url: &str) -> (r: Option<(String, u16)>)
    ensures
        match r {
            Some((h, p)) => preview_target_spec(url_parts(url@)) == Some((h@, p)),
            None => preview_target_spec(url_parts(url@)) is None,
        },
{
    preview_target_from(parse_url(url))
}

/// Response types whose body is read for a preview: HTML, XHTML, or none
/// stated.
pub open spec fn previewable_content_type(ct: Seq<char>) -> bool {
    let c = ascii_lower(ct);
    starts_with(c, "text/html"@) || starts_with(c, "application/xhtml+xml"@) || c.len() == 0
}

pub fn is_previewable_content_type(ct: &str) -> (r: bool)
    ensures
        r == previewable_content_type(ct@),
{
    let c = to_ascii_lower(chars_of(ct).as_slice());
    starts_with_lit(c.as_slice(), "text/html") || starts_with_lit(
        c.as_slice(),
        "application/xhtml+xml",
    ) || c.len() == 0
}

/// The preview of a page that could not be read: the host stands for title
/// and site name.
pub fn fallback_preview(url: &str, host: &str) -> (p: PreviewResponse)
    ensures
        p.url@ == url@,
        p.title@ == host@,
        p.description@ == Seq::<char>::empty(),
        p.image@ == Seq::<char>::empty(),
        p.site_name@ == host@,
{
    PreviewResponse {
        url: String::from_str(url),
        title: String::from_str(host),
        description: String::new(),
        image: String::new(),
        site_name: String::from_str(host),
    }
}

// ---------------------------------------------------------------------------
// Reading the page
// ---------------------------------------------------------------------------

/// The pattern of a `<meta ...>` tag.
pub open spec fn meta_tag_pattern() -> Seq<char> {
    r"(?is)<meta\s+[^>]*>"@
}

/// The pattern of a quoted attribute: its name in group 1, its value in
/// group 3 when double-quoted and in group 4 when single-quoted.
pub open spec fn attribute_pattern() -> Seq<char> {
    r#"(?is)\b([a-zA-Z_:][a-zA-Z0-9_:.\-]*)\s*=\s*("([^"]*)"|'([^']*)')"#@
}

/// The pattern of a `<title>` element, its text in group 1.
pub open spec fn title_pattern() -> Seq<char> {
    r"(?is)<title[^>]*>(.*?)</title>"@
}

/// A text, or empty where there is none.
pub open spec fn text_or_empty(o: Option<Seq<char>>) -> Seq<char> {
    match o {
        Some(t) => t,
        None => Seq::empty(),
    }
}

/// The `<meta ...>` tags of a page, in order; none where the pattern does
/// not compile.
pub open spec fn meta_tags(html: Seq<char>) -> Seq<Seq<char>> {
    match regex_matches(meta_tag_pattern(), html) {
        Some(t) => t,
        None => Seq::empty(),
    }
}

/// An attribute from the groups of its match: its name, and the
/// double-quoted value, else the single-quoted one, else empty.
pub open spec fn attribute_of_groups(g: Seq<Option<Seq<char>>>) -> (Seq<char>, Seq<char>) {
    (
        text_or_empty(group_at(g, 1)),
        match group_at(g, 3) {
            Some(v) => v,
            None => text_or_empty(group_at(g, 4)),
        },
    )
}

/// The quoted attributes of a tag, in order, as name and value; none where
/// the pattern does not compile.
pub open spec fn tag_attributes(tag: Seq<char>) -> Seq<(Seq<char>, Seq<char>)> {
    match regex_capture_groups(attribute_pattern(), tag) {
        Some(ms) => ms.map_values(|g: Seq<Option<Seq<char>>>| attribute_of_groups(g)),
        None => Seq::empty(),
    }
}

/// The text of the first `<title>` element, empty where its group is
/// missing; `None` where there is no such element.
pub open spec fn title_text(html: Seq<char>) -> Option<Seq<char>> {
    match regex_capture_groups(title_pattern(), html) {
        Some(ms) => if ms.len() > 0 {
            Some(text_or_empty(group_at(ms[0], 1)))
        } else {
            None
        },
        None => None,
    }
}

/// `s` with each run of whitespace replaced by one space, the run before it
/// being whitespace when `in_run`.
pub open spec fn collapse_from(s: Seq<char>, in_run: bool) -> Seq<char>
    decreases s.len(),
{
    if s.len() == 0 {
        Seq::empty()
    } else if is_ws(s[0]) {
        if in_run {
            collapse_from(s.drop_first(), true)
        } else {
            seq![' '] + collapse_from(s.drop_first(), true)
        }
    } else {
        seq![s[0]] + collapse_from(s.drop_first(), false)
    }
}

/// The text with each run of whitespace replaced by one space.
pub open spec fn collapse_whitespace(s: Seq<char>) -> Seq<char> {
    collapse_from(s, false)
}

fn opt_text_or_empty(o: Option<String>) -> (r: String)
    ensures
        r@ == text_or_empty(opt_view(o)),
{
    match o {
        Some(t) => t,
        None => String::new(),
    }
}

/// The `<meta ...>` tags of a page, in order.
fn find_meta_tags(html: &str) -> (r: Vec<String>)
    ensures
        r@.map_values(|t: String| t@) == meta_tags(html@),
{
    match find_all(r"(?is)<meta\s+[^>]*>", html) {
        Some(v) => v,
        None => {
            let v: Vec<String> = Vec::new();
            proof {
                assert(v@.map_values(|t: String| t@) =~= Seq::<Seq<char>>::empty());
            }
            v
        },
    }
}

/// An attribute from the groups of its match.
fn attribute_from_groups(g: &Vec<Option<String>>) -> (r: (String, String))
    ensures
        (r.0@, r.1@) == attribute_of_groups(groups_view(*g)),
{
    let name = opt_text_or_empty(group(g, 1));
    let value = match group(g, 3) {
        Some(v) => v,
        None => opt_text_or_empty(group(g, 4)),
    };
    (name, value)
}

/// The quoted attributes of a tag, in order, as name and value.
fn find_tag_attributes(tag: &str) -> (r: Vec<(String, String)>)
    ensures
        r@.len() == tag_attributes(tag@).len(),
        forall|i: int|
            0 <= i < r@.len() ==> (#[trigger] r@[i]).0@ == tag_attributes(tag@)[i].0 && r@[i].1@
                == tag_attributes(tag@)[i].1,
{
    let mut out: Vec<(String, String)> = Vec::new();
    match captures_all(r#"(?is)\b([a-zA-Z_:][a-zA-Z0-9_:.\-]*)\s*=\s*("([^"]*)"|'([^']*)')"#, tag) {
        Some(ms) => {
            let ghost gv = ms@.map_values(|c: Vec<Option<String>>| groups_view(c));
            let mut i: usize = 0;
            while i < ms.len()
                invariant
                    i <= ms.len(),
                    gv == ms@.map_values(|c: Vec<Option<String>>| groups_view(c)),
                    regex_capture_groups(attribute_pattern(), tag@) == Some(gv),
                    out@.len() == i,
                    forall|j: int|
                        0 <= j < i ==> (#[trigger] out@[j]).0@ == attribute_of_groups(gv[j]).0
                            && out@[j].1@ == attribute_of_groups(gv[j]).1,
                decreases ms.len() - i,
            {
                out.push(attribute_from_groups(&ms[i]));
                proof {
                    assert(gv[i as int] == groups_view(ms@[i as int]));
                }
                i = i + 1;
            }
        },
        None => {},
    }
    out
}

/// The text of a page's first `<title>` element.
fn find_title_text(html: &str) -> (r: Option<String>)
    ensures
        opt_view(r) == title_text(html@),
{
    match captures_all(r"(?is)<title[^>]*>(.*?)</title>", html) {
        Some(ms) => {
            if ms.len() > 0 {
                proof {
                    assert(ms@.map_values(|c: Vec<Option<String>>| groups_view(c))[0] == groups_view(
                        ms@[0],
                    ));
                }
                Some(opt_text_or_empty(group(&ms[0], 1)))
            } else {
                None
            }
        },
        None => None,
    }
}

/// Replaces each run of whitespace in the text by one space.
pub fn collapse_whitespace_exec(s: &str) -> (r: String)
    ensures
        r@ == collapse_whitespace(s@),
{
    let c = chars_of(s);
    let mut out: Vec<char> = Vec::new();
    let mut in_run = false;
    let mut i: usize = 0;
    proof {
        assert(c@.skip(0) =~= c@);
    }
    while i < c.len()
        invariant
            i <= c.len(),
            c@ == s@,
            collapse_whitespace(s@) == out@ + collapse_from(c@.skip(i as int), in_run),
        decreases c.len() - i,
    {
        let ch = c[i];
        proof {
            assert(c@.skip(i as int)[0] == ch);
            assert(c@.skip(i as int).drop_first() =~= c@.skip(i + 1));
        }
        let ghost before = out@;
        if is_whitespace(ch) {
            if !in_run {
                out.push(' ');
                proof {
                    assert(before + (seq![' '] + collapse_from(c@.skip(i + 1), true)) =~= out@
                        + collapse_from(c@.skip(i + 1), true));
                }
            }
            in_run = true;
        } else {
            out.push(ch);
            in_run = false;
            proof {
                assert(before + (seq![ch] + collapse_from(c@.skip(i + 1), false)) =~= out@
                    + collapse_from(c@.skip(i + 1), false));
            }
        }
        i = i + 1;
    }
    proof {
        assert(c@.skip(c@.len() as int) =~= Seq::<char>::empty());
        assert(out@ + Seq::<char>::empty() =~= out@);
    }
    string_of(out.as_slice())
}

/// The value of the first attribute named `key` (either case) with a
/// non-empty value.
pub open spec fn attr_in(attrs: Seq<(Seq<char>, Seq<char>)>, key: Seq<char>) -> Option<Seq<char>>
    decreases attrs.len(),
{
    if attrs.len() == 0 {
        None
    } else if ascii_lower(attrs[0].0) == ascii_lower(key) && attrs[0].1.len() > 0 {
        Some(attrs[0].1)
    } else {
        attr_in(attrs.drop_first(), key)
    }
}

pub open spec fn pair_views(v: Seq<(String, String)>) -> Seq<(Seq<char>, Seq<char>)> {
    v.map_values(|p: (String, String)| (p.0@, p.1@))
}

/// Picks a tag's attribute value from its attributes.
pub fn attr_value_in(attrs: &[(String, String)], key: &str) -> (r: Option<String>)
    ensures
        match r {
            Some(v) => attr_in(pair_views(attrs@), key@) == Some(v@),
            None => attr_in(pair_views(attrs@), key@) is None,
        },
{
    let k = to_ascii_lower(chars_of(key).as_slice());
    let ghost all = pair_views(attrs@);
    let mut i: usize = 0;
    proof {
        assert(all.skip(0) =~= all);
    }
    while i < attrs.len()
        invariant
            i <= attrs.len(),
            all == pair_views(attrs@),
            k@ == ascii_lower(key@),
            attr_in(all, key@) == attr_in(all.skip(i as int), key@),
        decreases attrs.len() - i,
    {
        let name = to_ascii_lower(chars_of(attrs[i].0.as_str()).as_slice());
        proof {
            assert(all.skip(i as int)[0] == all[i as int]);
            assert(all.skip(i as int).drop_first() =~= all.skip(i + 1));
        }
        let value = chars_of(attrs[i].1.as_str());
        if chars_eq(name.as_slice(), k.as_slice()) && value.len() > 0 {
            return Some(String::from_str(attrs[i].1.as_str()));
        }
        i = i + 1;
    }
    None
}

/// The value of a tag's attribute.
pub fn attr_value(tag: &str, key: &str) -> (r: Option<String>)
    ensures
        match r {
            Some(v) => attr_in(tag_attributes(tag@), key@) == Some(v@),
            None => attr_in(tag_attributes(tag@), key@) is None,
        },
{
    let attrs = find_tag_attributes(tag);
    proof {
        assert(pair_views(attrs@) =~= tag_attributes(tag@));
    }
    attr_value_in(attrs.as_slice(), key)
}

/// The content of the first `<meta>` tag whose `property` or `name` is
/// `wanted` (either case) and whose `content`, with its whitespace collapsed
/// and trimmed, is not empty.
pub open spec fn meta_in(tags: Seq<Seq<char>>, wanted: Seq<char>) -> Option<Seq<char>>
    decreases tags.len(),
{
    if tags.len() == 0 {
        None
    } else {
        let tag = tags[0];
        let w = ascii_lower(wanted);
        let prop = ascii_lower(
            match attr_in(tag_attributes(tag), "property"@) {
                Some(v) => v,
                None => seq![],
            },
        );
        let name = ascii_lower(
            match attr_in(tag_attributes(tag), "name"@) {
                Some(v) => v,
                None => seq![],
            },
        );
        let found = if prop != w && name != w {
            None
        } else {
            match attr_in(tag_attributes(tag), "content"@) {
                Some(c) => {
                    let cleaned = trim(collapse_whitespace(trim(c)));
                    if cleaned.len() > 0 {
                        Some(cleaned)
                    } else {
                        None
                    }
                },
                None => None,
            }
        };
        match found {
            Some(v) => Some(v),
            None => meta_in(tags.drop_first(), wanted),
        }
    }
}

fn opt_lower(v: Option<String>) -> (r: Vec<char>)
    ensures
        r@ == ascii_lower(
            match v {
                Some(s) => s@,
                None => seq![],
            },
        ),
{
    match v {
        Some(s) => to_ascii_lower(chars_of(s.as_str()).as_slice()),
        None => Vec::new(),
    }
}

pub open spec fn string_views(v: Seq<String>) -> Seq<Seq<char>> {
    v.map_values(|s: String| s@)
}

/// Reads a meta value from a page's `<meta>` tags.
pub fn meta_in_tags(tags: &[String], wanted: &str) -> (r: Option<String>)
    ensures
        match r {
            Some(v) => meta_in(string_views(tags@), wanted@) == Some(v@),
            None => meta_in(string_views(tags@), wanted@) is None,
        },
{
    let w = to_ascii_lower(chars_of(wanted).as_slice());
    let ghost all = string_views(tags@);
    let mut i: usize = 0;
    proof {
        assert(all.skip(0) =~= all);
    }
    while i < tags.len()
        invariant
            i <= tags.len(),
            all == string_views(tags@),
            w@ == ascii_lower(wanted@),
            meta_in(all, wanted@) == meta_in(all.skip(i as int), wanted@),
        decreases tags.len() - i,
    {
        let tag = tags[i].as_str();
        proof {
            assert(all.skip(i as int)[0] == all[i as int]);
            assert(all[i as int] == tag@);
            assert(all.skip(i as int).drop_first() =~= all.skip(i + 1));
        }
        let prop = opt_lower(attr_value(tag, "property"));
        let name = opt_lower(attr_value(tag, "name"));
        if chars_eq(prop.as_slice(), w.as_slice()) || chars_eq(name.as_slice(), w.as_slice()) {
            if let Some(content) = attr_value(tag, "content") {
                let t = string_of(trim_chars(chars_of(content.as_str()).as_slice()).as_slice());
                let collapsed = collapse_whitespace_exec(t.as_str());
                let cleaned = trim_chars(chars_of(collapsed.as_str()).as_slice());
                if cleaned.len() > 0 {
                    return Some(string_of(cleaned.as_slice()));
                }
            }
        }
        i = i + 1;
    }
    None
}

/// The content of a page's `<meta>` tag with the given property or name.
pub fn extract_meta(html: &str, wanted: &str) -> (r: Option<String>)
    ensures
        match r {
            Some(v) => meta_in(meta_tags(html@), wanted@) == Some(v@),
            None => meta_in(meta_tags(html@), wanted@) is None,
        },
{
    let tags = find_meta_tags(html);
    proof {
        assert(string_views(tags@) =~= tags@.map_values(|t: String| t@));
    }
    meta_in_tags(tags.as_slice(), wanted)
}

pub open spec fn meta_of(html: Seq<char>, wanted: Seq<char>) -> Option<Seq<char>> {
    meta_in(meta_tags(html), wanted)
}

/// A page's title: `og:title`, else `twitter:title`, else the `<title>`
/// element's text with its whitespace collapsed, when not empty.
pub open spec fn title_spec(html: Seq<char>) -> Option<Seq<char>> {
    if meta_of(html, "og:title"@) is Some {
        meta_of(html, "og:title"@)
    } else if meta_of(html, "twitter:title"@) is Some {
        meta_of(html, "twitter:title"@)
    } else {
        match title_text(html) {
            Some(raw) => {
                let cleaned = trim(collapse_whitespace(trim(raw)));
                if cleaned.len() > 0 {
                    Some(cleaned)
                } else {
                    None
                }
            },
            None => None,
        }
    }
}

pub fn extract_title(html: &str) -> (r: Option<String>)
    ensures
        match r {
            Some(v) => title_spec(html@) == Some(v@),
            None => title_spec(html@) is None,
        },
{
    if let Some(v) = extract_meta(html, "og:title") {
        return Some(v);
    }
    if let Some(v) = extract_meta(html, "twitter:title") {
        return Some(v);
    }
    let found = find_title_text(html);
    if let Some(raw) = found {
        let t = string_of(trim_chars(chars_of(raw.as_str()).as_slice()).as_slice());
        let collapsed = collapse_whitespace_exec(t.as_str());
        let cleaned = trim_chars(chars_of(collapsed.as_str()).as_slice());
        if cleaned.len() > 0 {
            return Some(string_of(cleaned.as_slice()));
        }
    }
    None
}

/// A page's description: `og:description`, else `description`, else
/// `twitter:description`.
pub open spec fn description_spec(html: Seq<char>) -> Option<Seq<char>> {
    if meta_of(html, "og:description"@) is Some {
        meta_of(html, "og:description"@)
    } else if meta_of(html, "description"@) is Some {
        meta_of(html, "description"@)
    } else {
        meta_of(html, "twitter:description"@)
    }
}

pub fn extract_description(html: &str) -> (r: Option<String>)
    ensures
        match r {
            Some(v) => description_spec(html@) == Some(v@),
            None => description_spec(html@) is None,
        },
{
    if let Some(v) = extract_meta(html, "og:description") {
        return Some(v);
    }
    if let Some(v) = extract_meta(html, "description") {
        return Some(v);
    }
    extract_meta(html, "twitter:description")
}

/// A page's image: `og:image`, else `twitter:image`.
pub open spec fn image_spec(html: Seq<char>) -> Option<Seq<char>> {
    if meta_of(html, "og:image"@) is Some {
        meta_of(html, "og:image"@)
    } else {
        meta_of(html, "twitter:image"@)
    }
}

/// The meta tags a preview reads, in the order it prefers them: the image is
/// `og:image`, else `twitter:image`; the description `og:description`, else
/// `description`, else `twitter:description`; a title from the tags is
/// `og:title`, else `twitter:title`. A page with none of a field's tags
/// has no value for it from them.
pub proof fn law_preview_meta_order(html: Seq<char>)
    ensures
        meta_of(html, "og:image"@) matches Some(v) ==> image_spec(html) == Some(v),
        meta_of(html, "og:image"@) is None ==> image_spec(html) == meta_of(html, "twitter:image"@),
        meta_of(html, "og:description"@) matches Some(v) ==> description_spec(html) == Some(v),
        meta_of(html, "og:description"@) is None && meta_of(html, "description"@) is Some
            ==> description_spec(html) == meta_of(html, "description"@),
        meta_of(html, "og:description"@) is None && meta_of(html, "description"@) is None
            ==> description_spec(html) == meta_of(html, "twitter:description"@),
        meta_of(html, "og:title"@) matches Some(v) ==> title_spec(html) == Some(v),
        meta_of(html, "og:title"@) is None && meta_of(html, "twitter:title"@) is Some
            ==> title_spec(html) == meta_of(html, "twitter:title"@),
{
}

pub fn extract_image(html: &str) -> (r: Option<String>)
    ensures
        match r {
            Some(v) => image_spec(html@) == Some(v@),
            None => image_spec(html@) is None,
        },
{
    if let Some(v) = extract_meta(html, "og:image") {
        return Some(v);
    }
    extract_meta(html, "twitter:image")
}

/// A page's site name: `og:site_name`, else the host.
pub fn extract_site_name(html: &str, fallback_host: &str) -> (r: String)
    ensures
        r@ == match meta_of(html@, "og:site_name"@) {
            Some(v) => v,
            None => fallback_host@,
        },
{
    match extract_meta(html, "og:site_name") {
        Some(v) => v,
        None => String::from_str(fallback_host),
    }
}

/// The preview of a page that was read: its title (else the host), its
/// description and image (else empty) and its site name.
pub fn page_preview(url: &str, host: &str, html: &str) -> (p: PreviewResponse)
    ensures
        p.url@ == url@,
        p.title@ == match title_spec(html@) {
            Some(t) => t,
            None => host@,
        },
        p.description@ == match description_spec(html@) {
            Some(t) => t,
            None => seq![],
        },
        p.image@ == match image_spec(html@) {
            Some(t) => t,
            None => seq![],
        },
        p.site_name@ == match meta_of(html@, "og:site_name"@) {
            Some(v) => v,
            None => host@,
        },
{
    let title = match extract_title(html) {
        Some(t) => t,
        None => String::from_str(host),
    };
    let description = match extract_description(html) {
        Some(t) => t,
        None => String::new(),
    };
    let image = match extract_image(html) {
        Some(t) => t,
        None => String::new(),
    };
    let site_name = extract_site_name(html, host);
    PreviewResponse { url: String::from_str(url), title, description, image, site_name }
}

} // verus!
