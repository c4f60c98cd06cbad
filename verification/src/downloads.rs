//! Client application downloads: platform names, the entries of the
//! download list and the `Content-Disposition` of a download.

use vstd::prelude::*;
use vstd::utf8::encode_utf8;
use crate::encoding::{percent_encode, percent_encode_header_value};
use crate::text::{
    ascii_lower, chars_eq, chars_of, eq_lit, is_alnum, is_ascii_alnum, is_whitespace, is_ws, push_all,
    push_lit, string_of, to_ascii_lower, trim, trim_chars,
};

verus! {

/// One platform's entry in the download list.
pub struct AppDownloadView {
    pub platform: String,
    pub title: String,
    pub version: String,
    pub original_name: Option<String>,
    pub file_size: Option<i64>,
    pub uploaded_at: Option<String>,
    pub available: bool,
    pub download_url: Option<String>,
}

/// The platform a path segment names, if it names one.
pub open spec fn normalize_platform_spec(raw: Seq<char>) -> Option<Seq<char>> {
    let p = ascii_lower(trim(raw));
    if p == "android"@ || p == "mobile"@ || p == "apk"@ {
        Some("android"@)
    } else if p == "pc"@ || p == "windows"@ || p == "desktop"@ {
        Some("pc"@)
    } else {
        None
    }
}

/// The names of the two platforms: `android`, `mobile` and `apk` name the
/// Android build, and `pc`, `windows` and `desktop` the PC build, with any
/// surrounding whitespace and in any ASCII letter case; nothing else names a
/// platform.
pub proof fn law_platform_names(raw: Seq<char>)
    ensures
        ({
            let p = ascii_lower(trim(raw));
            &&& (p == "android"@ || p == "mobile"@ || p == "apk"@) ==> normalize_platform_spec(raw)
                == Some("android"@)
            &&& (p == "pc"@ || p == "windows"@ || p == "desktop"@) ==> normalize_platform_spec(raw)
                == Some("pc"@)
            &&& !(p == "android"@ || p == "mobile"@ || p == "apk"@ || p == "pc"@ || p == "windows"@
                || p == "desktop"@) ==> normalize_platform_spec(raw) is None
        }),
{
    reveal_strlit("android");
    reveal_strlit("mobile");
    reveal_strlit("apk");
    reveal_strlit("pc");
    reveal_strlit("windows");
    reveal_strlit("desktop");
    let p = ascii_lower(trim(raw));
    if p == "pc"@ || p == "windows"@ || p == "desktop"@ {
        assert(p != "android"@ && p != "mobile"@ && p != "apk"@) by {
            if p.len() == "android"@.len() {
                assert(p[0] != "android"@[0]);
            }
            if p.len() == "mobile"@.len() {
                assert(p[0] != "mobile"@[0]);
            }
            if p.len() == "apk"@.len() {
                assert(p[0] != "apk"@[0]);
            }
        }
    }
}

pub fn normalize_platform(raw: &str) -> (r: Option<&'static str>)
    ensures
        match r {
            Some(p) => normalize_platform_spec(raw@) == Some(p@),
            None => normalize_platform_spec(raw@) is None,
        },
{
    let t = trim_chars(chars_of(raw).as_slice());
    let p = to_ascii_lower(t.as_slice());
    let p = p.as_slice();
    if eq_lit(p, "android") || eq_lit(p, "mobile") || eq_lit(p, "apk") {
        Some("android")
    } else if eq_lit(p, "pc") || eq_lit(p, "windows") || eq_lit(p, "desktop") {
        Some("pc")
    } else {
        None
    }
}

/// The title shown for a platform.
pub open spec fn platform_title_spec(platform: Seq<char>) -> Seq<char> {
    if platform == "android"@ {
        "Мобильная версия"@
    } else if platform == "pc"@ {
        "ПК клиент"@
    } else {
        "Клиент"@
    }
}

/// Each platform a download link names has its own title: the Android
/// build is the mobile version, the PC build the PC client.
pub proof fn law_platform_titles(raw: Seq<char>)
    ensures
        normalize_platform_spec(raw) == Some("android"@) ==> platform_title_spec(
            normalize_platform_spec(raw)->0,
        ) == "Мобильная версия"@,
        normalize_platform_spec(raw) == Some("pc"@) ==> platform_title_spec(
            normalize_platform_spec(raw)->0,
        ) == "ПК клиент"@,
        normalize_platform_spec(raw) is None || platform_title_spec(normalize_platform_spec(raw)->0)
            != "Клиент"@,
{
    reveal_strlit("android");
    reveal_strlit("pc");
    reveal_strlit("Мобильная версия");
    reveal_strlit("ПК клиент");
    reveal_strlit("Клиент");
    assert("android"@ != "pc"@) by {
        assert("android"@.len() != "pc"@.len());
    }
    assert("Мобильная версия"@ != "Клиент"@) by {
        assert("Мобильная версия"@.len() != "Клиент"@.len());
    }
    assert("ПК клиент"@ != "Клиент"@) by {
        assert("ПК клиент"@.len() != "Клиент"@.len());
    }
}

pub fn platform_title(platform: &str) -> (r: &'static str)
    ensures
        r@ == platform_title_spec(platform@),
{
    let p = chars_of(platform);
    if eq_lit(p.as_slice(), "android") {
        "Мобильная версия"
    } else if eq_lit(p.as_slice(), "pc") {
        "ПК клиент"
    } else {
        "Клиент"
    }
}

/// What a character of an original file name becomes in the ASCII download
/// name: kept when an ASCII letter, digit, `.`, `_` or `-`; `_` for
/// whitespace; dropped otherwise.
pub open spec fn ascii_name_piece(c: char) -> Seq<char> {
    if is_ascii_alnum(c) || c == '.' || c == '_' || c == '-' {
        seq![c]
    } else if is_ws(c) {
        seq!['_']
    } else {
        seq![]
    }
}

pub open spec fn ascii_name_pieces(s: Seq<char>) -> Seq<char>
    decreases s.len(),
{
    if s.len() == 0 {
        seq![]
    } else {
        ascii_name_pieces(s.drop_last()) + ascii_name_piece(s.last())
    }
}

/// The ASCII file name offered for a download, with a per-platform default
/// when nothing of the original name survives.
pub open spec fn ascii_download_filename_spec(original: Seq<char>, platform: Seq<char>) -> Seq<char> {
    let out = ascii_name_pieces(original);
    if out.len() > 0 {
        out
    } else if platform == "android"@ {
        "laberry.apk"@
    } else if platform == "pc"@ {
        "laberry-client.bin"@
    } else {
        "laberry-download.bin"@
    }
}

pub fn ascii_download_filename(original: &str, platform: &str) -> (r: String)
    ensures
        r@ == ascii_download_filename_spec(original@, platform@),
{
    let s = chars_of(original);
    let mut out: Vec<char> = Vec::new();
    let mut i: usize = 0;
    while i < s.len()
        invariant
            i <= s.len(),
            out@ == ascii_name_pieces(s@.take(i as int)),
        decreases s.len() - i,
    {
        let ch = s[i];
        let ghost before = out@;
        if is_alnum(ch) || ch == '.' || ch == '_' || ch == '-' {
            out.push(ch);
        } else if is_whitespace(ch) {
            out.push('_');
        }
        proof {
            let t = s@.take(i + 1);
            assert(t.drop_last() =~= s@.take(i as int));
            assert(t.last() == ch);
            assert(out@ =~= before + ascii_name_piece(ch));
        }
        i = i + 1;
    }
    proof {
        assert(s@.take(s@.len() as int) =~= s@);
    }
    if out.len() > 0 {
        return string_of(out.as_slice());
    }
    let p = chars_of(platform);
    if eq_lit(p.as_slice(), "android") {
        string_of(chars_of("laberry.apk").as_slice())
    } else if eq_lit(p.as_slice(), "pc") {
        string_of(chars_of("laberry-client.bin").as_slice())
    } else {
        string_of(chars_of("laberry-download.bin").as_slice())
    }
}

/// The `Content-Disposition` value of a download: an ASCII fallback name and
/// the percent-encoded original name.
pub open spec fn download_disposition_spec(original: Seq<char>, platform: Seq<char>) -> Seq<char> {
    "attachment; filename=\""@ + ascii_download_filename_spec(original, platform)
        + "\"; filename*=UTF-8''"@ + percent_encode(encode_utf8(original))
}

pub fn download_disposition(original_name: &str, platform: &str) -> (r: String)
    ensures
        r@ == download_disposition_spec(original_name@, platform@),
{
    let fallback = ascii_download_filename(original_name, platform);
    let encoded = percent_encode_header_value(original_name);
    let mut out = chars_of("attachment; filename=\"");
    push_all(&mut out, chars_of(fallback.as_str()).as_slice());
    push_lit(&mut out, "\"; filename*=UTF-8''");
    push_all(&mut out, chars_of(encoded.as_str()).as_slice());
    string_of(out.as_slice())
}

/// The download list entry of a platform with no active build.
pub fn unavailable_download(platform: &str) -> (v: AppDownloadView)
    ensures
        v.platform@ == platform@,
        v.title@ == platform_title_spec(platform@),
        v.version@ == Seq::<char>::empty(),
        v.original_name is None,
        v.file_size is None,
        v.uploaded_at is None,
        !v.available,
        v.download_url is None,
{
    AppDownloadView {
        platform: String::from_str(platform),
        title: String::from_str(platform_title(platform)),
        version: String::new(),
        original_name: None,
        file_size: None,
        uploaded_at: None,
        available: false,
        download_url: None,
    }
}

/// The path a platform's latest build is downloaded from.
pub open spec fn download_url_spec(platform: Seq<char>) -> Seq<char> {
    "/api/downloads/"@ + platform + "/file"@
}

/// The download list entry of a platform's active build.
pub fn available_download(
    platform: &str,
    version: String,
    original_name: Option<String>,
    file_size: Option<i64>,
    uploaded_at: Option<String>,
) -> (v: AppDownloadView)
    ensures
        v.platform@ == platform@,
        v.title@ == platform_title_spec(platform@),
        v.version == version,
        v.original_name == original_name,
        v.file_size == file_size,
        v.uploaded_at == uploaded_at,
        v.available,
        v.download_url matches Some(u) && u@ == download_url_spec(platform@),
{
    let mut url = chars_of("/api/downloads/");
    push_all(&mut url, chars_of(platform).as_slice());
    push_lit(&mut url, "/file");
    AppDownloadView {
        platform: String::from_str(platform),
        title: String::from_str(platform_title(platform)),
        version,
        original_name,
        file_size,
        uploaded_at,
        available: true,
        download_url: Some(string_of(url.as_slice())),
    }
}

/// One stored build of the client application.
#[derive(Debug)]
pub struct BuildRow {
    pub id: i64,
    pub platform: String,
    pub version: String,
    pub original_name: String,
    pub mime_type: String,
    /// Bytes.
    pub file_size: i64,
    pub storage_path: String,
    pub uploaded_at: String,
    pub is_active: bool,
}

/// The stored builds, in the order they were uploaded.
#[derive(Debug)]
pub struct BuildTable {
    pub rows: Vec<BuildRow>,
}

/// A build taken out of the download list.
pub open spec fn hidden_build(r: BuildRow) -> BuildRow {
    BuildRow { is_active: false, ..r }
}

/// The builds after a new one is published: every build of its platform
/// hidden, and the new build added as the active one.
pub open spec fn publish_spec(rows: Seq<BuildRow>, new_row: BuildRow) -> Seq<BuildRow> {
    rows.map_values(
        |r: BuildRow|
            if r.platform@ == new_row.platform@ {
                hidden_build(r)
            } else {
                r
            },
    ).push(BuildRow { is_active: true, ..new_row })
}

impl BuildTable {
    /// Publishes a build: the builds of its platform are hidden and the new
    /// one becomes the active one.
    pub fn publish(&mut self, new_row: BuildRow)
        ensures
            final(self).rows@ == publish_spec(old(self).rows@, new_row),
    {
        let p = chars_of(new_row.platform.as_str());
        let mut i: usize = 0;
        while i < self.rows.len()
            invariant
                i <= self.rows.len(),
                self.rows.len() == old(self).rows.len(),
                p@ == new_row.platform@,
                forall|j: int|
                    0 <= j < i ==> #[trigger] self.rows@[j] == (if old(self).rows@[j].platform@
                        == new_row.platform@ {
                        hidden_build(old(self).rows@[j])
                    } else {
                        old(self).rows@[j]
                    }),
                forall|j: int| i <= j < self.rows.len() ==> #[trigger] self.rows@[j] == old(self).rows@[j],
            decreases self.rows.len() - i,
        {
            let q = chars_of(self.rows[i].platform.as_str());
            if chars_eq(q.as_slice(), p.as_slice()) {
                self.rows[i].is_active = false;
            }
            i = i + 1;
        }
        let mut row = new_row;
        row.is_active = true;
        self.rows.push(row);
        proof {
            assert(self.rows@ =~= publish_spec(old(self).rows@, new_row));
        }
    }
}

/// The notice the panel shows once a build is published.
pub open spec fn build_published_notice() -> Seq<char> {
    "Файл приложения загружен"@
}

/// The name a build's file is stored under: a fresh token and its extension.
pub fn build_file_name(token: &str, ext: &str) -> (r: String)
    ensures
        r@ == token@ + "."@ + ext@,
{
    let mut out = chars_of(token);
    push_lit(&mut out, ".");
    push_all(&mut out, chars_of(ext).as_slice());
    string_of(out.as_slice())
}

impl BuildTable {
    /// Stores a checked upload as the new active build of its platform: its
    /// MIME type follows from its extension and its size is the number of
    /// bytes received. Returns the notice the panel shows.
    pub fn publish_upload(
        &mut self,
        id: i64,
        platform: &str,
        version: String,
        original_name: String,
        ext: &str,
        file_size: usize,
        storage_path: String,
        uploaded_at: String,
    ) -> (notice: &'static str)
        requires
            file_size <= crate::admin::MAX_DOWNLOAD_BYTES,
        ensures
            notice@ == build_published_notice(),
            final(self).rows@ == publish_spec(old(self).rows@, final(self).rows@.last()),
            final(self).rows@.len() == old(self).rows@.len() + 1,
            ({
                let r = final(self).rows@.last();
                &&& r.id == id
                &&& r.platform@ == platform@
                &&& r.version@ == version@
                &&& r.original_name@ == original_name@
                &&& r.mime_type@ == crate::admin::download_mime_spec(ext@)
                &&& r.file_size == file_size
                &&& r.storage_path@ == storage_path@
                &&& r.uploaded_at@ == uploaded_at@
                &&& r.is_active
            }),
    {
        let row = BuildRow {
            id,
            platform: String::from_str(platform),
            version,
            original_name,
            mime_type: String::from_str(crate::admin::admin_download_mime(ext)),
            file_size: file_size as i64,
            storage_path,
            uploaded_at,
            is_active: true,
        };
        self.publish(row);
        "Файл приложения загружен"
    }
}

/// After a build is published, it is the one active build of its platform,
/// and the builds of other platforms are as they were.
pub proof fn law_single_active_build(rows: Seq<BuildRow>, new_row: BuildRow)
    ensures
        ({
            let after = publish_spec(rows, new_row);
            &&& after.len() == rows.len() + 1
            &&& after.last().is_active && after.last().id == new_row.id
            &&& forall|i: int|
                0 <= i < after.len() - 1 && (#[trigger] after[i]).platform@ == new_row.platform@
                    ==> !after[i].is_active
            &&& forall|i: int|
                0 <= i < rows.len() && (#[trigger] rows[i]).platform@ != new_row.platform@ ==> after[i]
                    == rows[i]
        }),
{
}

} // verus!
