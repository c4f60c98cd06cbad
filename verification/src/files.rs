//! Uploads and downloads of chat files: the streaming state of an upload,
//! the checks and deduplication that follow it, the limits and pixel hash of
//! images, who may fetch a file, and the byte ranges and headers a download
//! is served with.

use vstd::prelude::*;
use vstd::utf8::encode_utf8;
use crate::encoding::{
    lemma_encode_utf8_take, percent_encode, percent_encode_query_component,
    utf8_width_exec,
};
use crate::filetype::{
    inline_safe, inline_safe_spec, is_normalizable_raster_image, normalizable_raster_spec,
    sanitize_filename, sanitize_filename_spec,
};
use crate::sha256::{Sha256, hex_lower, sha256_spec};
use crate::text::{
    after_char, ascii_lower, before_char, chars_of, ends_with, ends_with_lit, eq_lit, has_char,
    nat_text, parse_i64, parse_i64_spec, parse_u64, parse_u64_spec, push_all, push_lit,
    split_once_char, starts_with, starts_with_lit, string_of, to_ascii_lower, trim, trim_chars,
    u64_text, i64_text, int_text, all_digits, without_plus, lemma_digits_value_nonneg,
};

verus! {

/// The largest upload accepted, in bytes.
pub const MAX_UPLOAD_BYTES: i64 = 52428800;

/// How many leading bytes of an upload are kept for type detection.
pub const HEAD_BYTES: usize = 512;

// ---------------------------------------------------------------------------
// Receiving an upload
// ---------------------------------------------------------------------------

/// What has been received of an upload: its size, its first bytes and the
/// running hash of its content.
pub struct UploadProgress {
    file_size: i64,
    head: Vec<u8>,
    hasher: Sha256,
    received: Ghost<Seq<u8>>,
}

impl View for UploadProgress {
    type V = Seq<u8>;

    closed spec fn view(&self) -> Seq<u8> {
        self.received@
    }
}

impl UploadProgress {
    /// The fields agree with the bytes received, which stay within the limit.
    pub closed spec fn wf(&self) -> bool {
        let r = self.received@;
        &&& self.file_size as int == r.len()
        &&& r.len() <= MAX_UPLOAD_BYTES
        &&& self.head@ == r.take(if r.len() < HEAD_BYTES { r.len() as int } else { HEAD_BYTES as int })
        &&& self.hasher.wf()
        &&& self.hasher@ == r
    }

    pub fn new() -> (p: Self)
        ensures
            p.wf(),
            p@ == Seq::<u8>::empty(),
    {
        let p = UploadProgress {
            file_size: 0,
            head: Vec::new(),
            hasher: Sha256::new(),
            received: Ghost(Seq::empty()),
        };
        proof {
            assert(p.head@ =~= p.received@.take(0));
        }
        p
    }

    /// The number of bytes received.
    pub fn size(&self) -> (n: i64)
        requires
            self.wf(),
        ensures
            n as int == self@.len(),
    {
        self.file_size
    }

    /// Takes the next chunk of the upload. Returns `false`, and takes
    /// nothing, when the upload would exceed `MAX_UPLOAD_BYTES`.
    pub fn add_chunk(&mut self, chunk: &[u8]) -> (ok: bool)
        requires
            old(self).wf(),
        ensures
            ok <==> old(self)@.len() + chunk@.len() <= MAX_UPLOAD_BYTES,
            ok ==> final(self).wf() && final(self)@ == old(self)@ + chunk@,
            !ok ==> *final(self) == *old(self),
    {
        let room = (MAX_UPLOAD_BYTES - self.file_size) as usize;
        if chunk.len() > room {
            return false;
        }
        let ghost r0 = self.received@;
        self.file_size = self.file_size + chunk.len() as i64;
        self.hasher.update(chunk);
        let ghost fs = self.file_size;
        let ghost hs = self.hasher;
        let mut k: usize = 0;
        while self.head.len() < HEAD_BYTES && k < chunk.len()
            invariant
                self.file_size == fs,
                self.hasher == hs,
                k <= chunk.len(),
                self.head@.len() <= HEAD_BYTES,
                self.head@ == (r0 + chunk@.take(k as int)).take(self.head@.len() as int),
                self.head@.len() < HEAD_BYTES ==> self.head@.len() == r0.len() + k,
                self.head@.len() >= r0.len() || self.head@.len() == HEAD_BYTES,
                r0.len() < HEAD_BYTES ==> self.head@.len() == r0.len() + k,
            decreases chunk.len() - k,
        {
            self.head.push(chunk[k]);
            k = k + 1;
            proof {
                let t = r0 + chunk@.take(k as int);
                assert(self.head@ =~= t.take(self.head@.len() as int));
            }
        }
        self.received = Ghost(r0 + chunk@);
        proof {
            let r = r0 + chunk@;
            let n: int = if r.len() < HEAD_BYTES { r.len() as int } else { HEAD_BYTES as int };
            assert(self.head@ =~= r.take(n)) by {
                if r0.len() >= HEAD_BYTES {
                } else {
                    assert(self.head@.len() == n);
                    assert forall|j: int| 0 <= j < n implies self.head@[j] == r[j] by {
                        let t = r0 + chunk@.take(k as int);
                        assert(self.head@[j] == t[j]);
                    }
                }
            }
        }
        true
    }

    /// The first bytes of the upload, kept for type detection.
    pub fn head(&self) -> (h: &[u8])
        requires
            self.wf(),
        ensures
            h@ == self@.take(
                if self@.len() < HEAD_BYTES {
                    self@.len() as int
                } else {
                    HEAD_BYTES as int
                },
            ),
    {
        self.head.as_slice()
    }

    /// The SHA-256 of the content, in lower-case hexadecimal.
    pub fn content_hash(self) -> (s: String)
        requires
            self.wf(),
        ensures
            s@ == hex_lower(sha256_spec(self@)),
    {
        self.hasher.finalize_hex()
    }
}

/// The chat an upload names, read as `str::parse::<i64>` reads it.
pub fn parse_chat_id(text: &str) -> (r: Option<i64>)
    ensures
        match r {
            Some(v) => parse_i64_spec(text@) == Some(v as int),
            None => parse_i64_spec(text@) is None,
        },
{
    parse_i64(chars_of(text).as_slice())
}

/// The chat an upload goes to, when the upload is complete: a chat was named,
/// a file was sent and it is not empty.
pub fn finished_upload_chat(chat_id: Option<i64>, got_file: bool, file_size: i64) -> (r: Option<i64>)
    ensures
        r == (if chat_id is Some && got_file && file_size > 0 {
            chat_id
        } else {
            None
        }),
{
    match chat_id {
        Some(c) => if got_file && file_size > 0 {
            Some(c)
        } else {
            None
        },
        None => None,
    }
}

/// The chat a `chat_id` field names, as `str::parse::<i64>` reads its text.
pub open spec fn chat_id_of(text: Seq<char>) -> Option<i64> {
    match parse_i64_spec(text) {
        Some(v) => Some(v as i64),
        None => None,
    }
}

/// One step of reading an upload form.
#[derive(Debug)]
pub enum UploadEvent {
    /// A `chat_id` field, with its text, or `None` when the text could not
    /// be read.
    ChatIdField(Option<String>),
    /// A `file` field begins.
    FileField,
    /// The next bytes of the file field.
    Chunk(Vec<u8>),
    /// A field of any other name.
    OtherField,
    /// Reading the form failed.
    StreamError,
    /// The form has ended.
    End,
    /// Whether the user may post to the chat named by `CheckAccess`.
    Access(bool),
}

/// What to do after a step.
#[derive(PartialEq, Eq, Structural, Clone, Copy, Debug)]
pub enum UploadAction {
    /// Read on.
    Continue,
    /// Answer with this HTTP status; what was received is discarded.
    Refuse(u16),
    /// Find out whether the user may post to this chat, and report it.
    CheckAccess(i64),
    /// Store the upload in this chat.
    Store(i64),
}

/// Where the reading of an upload form stands.
#[derive(PartialEq, Eq, Structural, Clone, Copy, Debug)]
pub enum UploadPhase {
    Receiving,
    AwaitingAccess(i64),
    Closed,
}

/// What is known of an upload form so far.
pub struct UploadState {
    pub chat_id: Option<i64>,
    pub got_file: bool,
    pub received: Seq<u8>,
    pub phase: UploadPhase,
}

/// The reading of an upload form: the chat named, whether a file came, the
/// file's bytes so far and the phase.
pub struct UploadForm {
    chat_id: Option<i64>,
    got_file: bool,
    progress: UploadProgress,
    phase: UploadPhase,
}

impl View for UploadForm {
    type V = UploadState;

    closed spec fn view(&self) -> UploadState {
        UploadState {
            chat_id: self.chat_id,
            got_file: self.got_file,
            received: self.progress@,
            phase: self.phase,
        }
    }
}

/// The state after a refusal or the end.
pub open spec fn closed_state(s: UploadState) -> UploadState {
    UploadState { phase: UploadPhase::Closed, ..s }
}

/// One step of reading an upload form. A second file field, a failed read,
/// and a form that ends without a chat, a file or any bytes are answered
/// 400; bytes beyond `MAX_UPLOAD_BYTES` are answered 413 as they arrive,
/// before the form ends; only a complete form is checked for access, and a
/// refused check is answered 403. Events that do not belong to the phase
/// change nothing.
pub open spec fn upload_step_spec(s: UploadState, e: UploadEvent) -> (UploadState, UploadAction) {
    match s.phase {
        UploadPhase::Receiving => match e {
            UploadEvent::ChatIdField(t) => match t {
                Some(t) => (UploadState { chat_id: chat_id_of(t@), ..s }, UploadAction::Continue),
                None => (s, UploadAction::Continue),
            },
            UploadEvent::FileField => if s.got_file {
                (closed_state(s), UploadAction::Refuse(400))
            } else {
                (UploadState { got_file: true, ..s }, UploadAction::Continue)
            },
            UploadEvent::Chunk(c) => if s.received.len() + c@.len() > MAX_UPLOAD_BYTES {
                (closed_state(s), UploadAction::Refuse(413))
            } else {
                (UploadState { received: s.received + c@, ..s }, UploadAction::Continue)
            },
            UploadEvent::StreamError => (closed_state(s), UploadAction::Refuse(400)),
            UploadEvent::End => match s.chat_id {
                Some(c) => if s.got_file && s.received.len() > 0 {
                    (UploadState { phase: UploadPhase::AwaitingAccess(c), ..s }, UploadAction::CheckAccess(c))
                } else {
                    (closed_state(s), UploadAction::Refuse(400))
                },
                None => (closed_state(s), UploadAction::Refuse(400)),
            },
            _ => (s, UploadAction::Continue),
        },
        UploadPhase::AwaitingAccess(c) => match e {
            UploadEvent::Access(ok) => if ok {
                (closed_state(s), UploadAction::Store(c))
            } else {
                (closed_state(s), UploadAction::Refuse(403))
            },
            _ => (s, UploadAction::Continue),
        },
        UploadPhase::Closed => (s, UploadAction::Continue),
    }
}

/// The order of an upload's refusals: 413 only while the file's bytes come
/// in, whatever else the form holds; 400 for an incomplete form only when
/// it ends; and 403 only after a complete form, for a refused access check.
pub proof fn law_upload_refusal_order(s: UploadState, e: UploadEvent)
    ensures
        upload_step_spec(s, e).1 == UploadAction::Refuse(413) ==> s.phase == UploadPhase::Receiving
            && e is Chunk && s.received.len() + e->Chunk_0@.len() > MAX_UPLOAD_BYTES,
        s.phase == UploadPhase::Receiving && e is Chunk && s.received.len() + e->Chunk_0@.len()
            > MAX_UPLOAD_BYTES ==> upload_step_spec(s, e).1 == UploadAction::Refuse(413),
        upload_step_spec(s, e).1 == UploadAction::Refuse(403) ==> s.phase is AwaitingAccess
            && e matches UploadEvent::Access(false),
        upload_step_spec(s, e).0.phase is AwaitingAccess && !(s.phase is AwaitingAccess) ==> s.phase
            == UploadPhase::Receiving && e is End && s.chat_id == Some(
            upload_step_spec(s, e).0.phase->AwaitingAccess_0,
        ) && s.got_file && s.received.len() > 0,
        upload_step_spec(s, e).1 == UploadAction::Refuse(400) ==> s.phase == UploadPhase::Receiving
            && (e is FileField || e is StreamError || e is End),
{
}

impl UploadForm {
    pub closed spec fn wf(&self) -> bool {
        self.progress.wf()
    }

    pub fn new() -> (f: Self)
        ensures
            f.wf(),
            f@ == (UploadState {
                chat_id: None,
                got_file: false,
                received: Seq::empty(),
                phase: UploadPhase::Receiving,
            }),
    {
        UploadForm { chat_id: None, got_file: false, progress: UploadProgress::new(), phase: UploadPhase::Receiving }
    }

    /// Takes one event of the form and says what to do next.
    pub fn step(&mut self, e: UploadEvent) -> (a: UploadAction)
        requires
            old(self).wf(),
        ensures
            final(self).wf(),
            (final(self)@, a) == upload_step_spec(old(self)@, e),
    {
        match self.phase {
            UploadPhase::Receiving => match e {
                UploadEvent::ChatIdField(t) => {
                    if let Some(t) = t {
                        self.chat_id = parse_chat_id(t.as_str());
                    }
                    UploadAction::Continue
                },
                UploadEvent::FileField => {
                    if self.got_file {
                        self.phase = UploadPhase::Closed;
                        UploadAction::Refuse(400)
                    } else {
                        self.got_file = true;
                        UploadAction::Continue
                    }
                },
                UploadEvent::Chunk(c) => {
                    if self.progress.add_chunk(c.as_slice()) {
                        UploadAction::Continue
                    } else {
                        self.phase = UploadPhase::Closed;
                        UploadAction::Refuse(413)
                    }
                },
                UploadEvent::StreamError => {
                    self.phase = UploadPhase::Closed;
                    UploadAction::Refuse(400)
                },
                UploadEvent::End => {
                    let size = self.progress.size();
                    match finished_upload_chat(self.chat_id, self.got_file, size) {
                        Some(c) => {
                            self.phase = UploadPhase::AwaitingAccess(c);
                            UploadAction::CheckAccess(c)
                        },
                        None => {
                            self.phase = UploadPhase::Closed;
                            UploadAction::Refuse(400)
                        },
                    }
                },
                _ => UploadAction::Continue,
            },
            UploadPhase::AwaitingAccess(c) => match e {
                UploadEvent::Access(ok) => {
                    self.phase = UploadPhase::Closed;
                    if ok {
                        UploadAction::Store(c)
                    } else {
                        UploadAction::Refuse(403)
                    }
                },
                _ => UploadAction::Continue,
            },
            UploadPhase::Closed => UploadAction::Continue,
        }
    }

    /// What was received of the file, taken out of the form.
    pub fn into_progress(self) -> (p: UploadProgress)
        requires
            self.wf(),
        ensures
            p.wf(),
            p@ == self@.received,
    {
        self.progress
    }

    /// What was received of the file.
    pub fn progress(&self) -> (p: &UploadProgress)
        requires
            self.wf(),
        ensures
            p.wf(),
            p@ == self@.received,
    {
        &self.progress
    }
}

// ---------------------------------------------------------------------------
// Images
// ---------------------------------------------------------------------------

/// The widest or tallest image that is decoded.
pub const MAX_IMAGE_DIM: u32 = 12000;

/// The most pixels an image that is decoded may have.
pub const MAX_IMAGE_PIXELS: u64 = 80000000;

/// Whether an image of these dimensions is decoded at all.
pub open spec fn image_size_ok_spec(width: u32, height: u32) -> bool {
    width <= MAX_IMAGE_DIM && height <= MAX_IMAGE_DIM && width * height <= MAX_IMAGE_PIXELS
}

pub fn image_size_ok(width: u32, height: u32) -> (r: bool)
    ensures
        r == image_size_ok_spec(width, height),
{
    if width > MAX_IMAGE_DIM || height > MAX_IMAGE_DIM {
        return false;
    }
    assert((width as u64) * (height as u64) <= 144000000) by (nonlinear_arith)
        requires
            width <= 12000,
            height <= 12000,
    ;
    (width as u64) * (height as u64) <= MAX_IMAGE_PIXELS
}

/// Whether an upload gets a hash of its decoded pixels: a raster type that
/// is normalised, of a size that is decoded.
pub fn normalized_hash_wanted(mime: &str, width: u32, height: u32) -> (r: bool)
    ensures
        r == (normalizable_raster_spec(mime@) && image_size_ok_spec(width, height)),
{
    is_normalizable_raster_image(mime) && image_size_ok(width, height)
}

/// The four bytes of a 32-bit value, most significant first.
pub open spec fn be32(x: u32) -> Seq<u8> {
    seq![(x >> 24u32) as u8, (x >> 16u32) as u8, (x >> 8u32) as u8, x as u8]
}

/// The label that starts the hashed form of an image.
pub open spec fn image_hash_label() -> Seq<u8> {
    "laberry-normalized-image-v1\\0"@.map_values(|c: char| c as u8)
}

/// The hash of an image's decoded pixels that finds the same picture saved
/// differently: SHA-256, in lower-case hexadecimal, of the label, the width
/// and height as big-endian 32-bit values, and the RGBA bytes row by row.
pub fn normalized_image_hash(width: u32, height: u32, rgba: &[u8]) -> (s: String)
    ensures
        s@ == hex_lower(sha256_spec(image_hash_label() + be32(width) + be32(height) + rgba@)),
{
    let label = chars_of("laberry-normalized-image-v1\\0");
    let mut label_bytes: Vec<u8> = Vec::new();
    let mut i: usize = 0;
    while i < label.len()
        invariant
            i <= label@.len(),
            label_bytes@ == label@.take(i as int).map_values(|c: char| c as u8),
        decreases label@.len() - i,
    {
        label_bytes.push(label[i] as u8);
        proof {
            assert(label@.take(i + 1) =~= label@.take(i as int).push(label@[i as int]));
        }
        i = i + 1;
    }
    proof {
        assert(label@.take(label@.len() as int) =~= label@);
    }
    let w: [u8; 4] = [(width >> 24u32) as u8, (width >> 16u32) as u8, (width >> 8u32) as u8, width as u8];
    let h: [u8; 4] = [(height >> 24u32) as u8, (height >> 16u32) as u8, (height >> 8u32) as u8, height as u8];
    let mut hasher = Sha256::new();
    hasher.update(label_bytes.as_slice());
    hasher.update(&w);
    hasher.update(&h);
    hasher.update(rgba);
    proof {
        assert(w@ =~= be32(width));
        assert(h@ =~= be32(height));
    }
    hasher.finalize_hex()
}

// ---------------------------------------------------------------------------
// Deduplication
// ---------------------------------------------------------------------------

/// A stored file with the same content, and whether its bytes are still on
/// disk.
#[derive(Clone, Copy, Debug)]
pub struct DupCandidate {
    pub id: i64,
    pub present: bool,
}

/// How an upload relates to files already stored.
pub struct DedupeDecision {
    /// The stored file the upload duplicates.
    pub duplicate_of: Option<i64>,
    /// Which hash found it: `content_hash` or `normalized_hash`.
    pub duplicate_by: Option<&'static str>,
    /// The new record shares the stored bytes (exact content match only).
    pub raw_shared: bool,
    /// Candidates whose bytes are gone and which are to be marked expired.
    pub expired: Vec<i64>,
}

/// Decides which stored file, if any, an upload duplicates. An exact content
/// match whose bytes are present wins and shares the stored bytes; otherwise
/// a present match by normalised image hash is recorded without sharing
/// bytes. Matches whose bytes are gone are expired.
pub fn dedupe_decision(by_content: Option<DupCandidate>, by_normalized: Option<DupCandidate>) -> (d:
    DedupeDecision)
    ensures
        match by_content {
            Some(c) if c.present => d.duplicate_of == Some(c.id) && d.duplicate_by == Some(
                "content_hash",
            ) && d.raw_shared && d.expired@ == Seq::<i64>::empty(),
            _ => {
                let gone: Seq<i64> = match by_content {
                    Some(c) => seq![c.id],
                    None => seq![],
                };
                &&& !d.raw_shared
                &&& match by_normalized {
                    Some(n) if n.present => d.duplicate_of == Some(n.id) && d.duplicate_by
                        == Some("normalized_hash") && d.expired@ == gone,
                    Some(n) => d.duplicate_of is None && d.duplicate_by is None && d.expired@
                        == gone.push(n.id),
                    None => d.duplicate_of is None && d.duplicate_by is None && d.expired@ == gone,
                }
            },
        },
{
    let mut expired: Vec<i64> = Vec::new();
    if let Some(c) = by_content {
        if c.present {
            return DedupeDecision {
                duplicate_of: Some(c.id),
                duplicate_by: Some("content_hash"),
                raw_shared: true,
                expired,
            };
        }
        expired.push(c.id);
    }
    if let Some(n) = by_normalized {
        if n.present {
            return DedupeDecision {
                duplicate_of: Some(n.id),
                duplicate_by: Some("normalized_hash"),
                raw_shared: false,
                expired,
            };
        }
        expired.push(n.id);
    }
    DedupeDecision { duplicate_of: None, duplicate_by: None, raw_shared: false, expired }
}

// ---------------------------------------------------------------------------
// Who may fetch a file
// ---------------------------------------------------------------------------

/// The chat a file belongs to, as stored.
pub struct ChatInfo {
    pub server_id: Option<i64>,
    pub is_private: bool,
    pub kind: Option<String>,
}

/// What is known of a user's relation to a chat.
pub struct ChatMembership {
    /// Member of the chat's server.
    pub in_server: bool,
    /// Listed among the chat's participants.
    pub in_participants: bool,
    /// One of the two users of a direct conversation kept under that chat.
    pub in_dm_pair: bool,
    /// The voice channel the user is in now, if any.
    pub voice_channel: Option<i64>,
}

/// Whether a chat's kind is voice (an absent kind is text).
pub open spec fn is_voice_kind(kind: Option<String>) -> bool {
    match kind {
        Some(k) => k@ == "voice"@,
        None => false,
    }
}

/// Whether a user may use a chat's files: a voice chat only while the user is
/// in it; a chat of a server (id above zero) for the server's members; any
/// other chat for its participants or the two users of its direct
/// conversation.
pub open spec fn chat_access_spec(chat: Option<ChatInfo>, chat_id: i64, m: ChatMembership) -> bool {
    match chat {
        None => false,
        Some(c) => {
            &&& (is_voice_kind(c.kind) ==> m.voice_channel == Some(chat_id))
            &&& match c.server_id {
                Some(sid) if sid > 0 => m.in_server,
                _ => m.in_participants || m.in_dm_pair,
            }
        },
    }
}

/// The files of a voice chat are open only to a user who is in that voice
/// channel, whatever else the user is a member of.
pub proof fn law_voice_files_need_presence(chat: ChatInfo, chat_id: i64, m: ChatMembership)
    requires
        is_voice_kind(chat.kind),
        m.voice_channel != Some(chat_id),
    ensures
        !chat_access_spec(Some(chat), chat_id, m),
{
}

pub fn can_access_chat(chat: Option<ChatInfo>, chat_id: i64, m: ChatMembership) -> (r: bool)
    ensures
        r == chat_access_spec(chat, chat_id, m),
{
    match chat {
        None => false,
        Some(c) => {
            let voice = match &c.kind {
                Some(k) => eq_lit(chars_of(k.as_str()).as_slice(), "voice"),
                None => false,
            };
            if voice {
                match m.voice_channel {
                    Some(v) => if v != chat_id {
                        return false;
                    },
                    None => {
                        return false;
                    },
                }
            }
            match c.server_id {
                Some(sid) => if sid > 0 {
                    m.in_server
                } else {
                    m.in_participants || m.in_dm_pair
                },
                None => m.in_participants || m.in_dm_pair,
            }
        },
    }
}

/// The claims of a file download token.
#[derive(Clone, Copy, Debug)]
pub struct DownloadClaims {
    pub uid: i64,
    pub file_id: i64,
    pub token_version: i64,
}

/// The stored state of the user a download token names.
#[derive(Clone, Copy, Debug)]
pub struct TokenUser {
    pub token_version: i64,
    pub is_banned: bool,
}

/// Why a file request is refused.
#[derive(PartialEq, Eq, Structural, Clone, Copy, Debug)]
pub enum FileAuthError {
    Unauthorized,
    Forbidden,
}

/// The user a file request acts for: the signed-in user, else the user of a
/// valid download token for that very file, whose account is not banned and
/// whose tokens have not been revoked since.
pub open spec fn file_user_spec(
    me: Option<i64>,
    token_given: bool,
    claims: Option<DownloadClaims>,
    file_id: i64,
    user: Option<TokenUser>,
) -> Result<i64, FileAuthError> {
    match me {
        Some(id) => Ok(id),
        None => if !token_given {
            Err(FileAuthError::Unauthorized)
        } else {
            match claims {
                None => Err(FileAuthError::Unauthorized),
                Some(c) => if c.file_id != file_id {
                    Err(FileAuthError::Forbidden)
                } else {
                    match user {
                        None => Err(FileAuthError::Unauthorized),
                        Some(u) => if u.is_banned {
                            Err(FileAuthError::Forbidden)
                        } else if u.token_version != c.token_version {
                            Err(FileAuthError::Unauthorized)
                        } else {
                            Ok(c.uid)
                        },
                    }
                },
            }
        },
    }
}

pub fn resolve_file_user(
    me: Option<i64>,
    token_given: bool,
    claims: Option<DownloadClaims>,
    file_id: i64,
    user: Option<TokenUser>,
) -> (r: Result<i64, FileAuthError>)
    ensures
        r == file_user_spec(me, token_given, claims, file_id, user),
{
    if let Some(id) = me {
        return Ok(id);
    }
    if !token_given {
        return Err(FileAuthError::Unauthorized);
    }
    let c = match claims {
        Some(c) => c,
        None => {
            return Err(FileAuthError::Unauthorized);
        },
    };
    if c.file_id != file_id {
        return Err(FileAuthError::Forbidden);
    }
    let u = match user {
        Some(u) => u,
        None => {
            return Err(FileAuthError::Unauthorized);
        },
    };
    if u.is_banned {
        return Err(FileAuthError::Forbidden);
    }
    if u.token_version != c.token_version {
        return Err(FileAuthError::Unauthorized);
    }
    Ok(c.uid)
}

// ---------------------------------------------------------------------------
// Links
// ---------------------------------------------------------------------------

/// The URLs a file link response offers.
pub struct FileLinks {
    pub download_url: Option<String>,
    pub raw_url: Option<String>,
    pub preview_url: String,
}

pub open spec fn file_url_spec(file_id: i64, suffix: Seq<char>, token: Seq<char>) -> Seq<char> {
    "/api/files/"@ + int_text(file_id as int) + suffix + "?dl="@ + percent_encode(encode_utf8(token))
}

fn file_url(file_id: i64, suffix: &str, encoded_token: &[char]) -> (r: String)
    ensures
        r@ == "/api/files/"@ + int_text(file_id as int) + suffix@ + "?dl="@ + encoded_token@,
{
    let mut out = chars_of("/api/files/");
    push_all(&mut out, i64_text(file_id).as_slice());
    push_lit(&mut out, suffix);
    push_lit(&mut out, "?dl=");
    push_all(&mut out, encoded_token);
    string_of(out.as_slice())
}

/// The download, raw and preview URLs of a file for a download token; the
/// first two only while the original bytes are available.
pub fn file_links(file_id: i64, token: &str, original_available: bool) -> (l: FileLinks)
    ensures
        l.preview_url@ == file_url_spec(file_id, "/preview"@, token@),
        original_available ==> (l.download_url matches Some(u) && u@ == file_url_spec(
            file_id,
            ""@,
            token@,
        )),
        original_available ==> (l.raw_url matches Some(u) && u@ == file_url_spec(
            file_id,
            "/raw"@,
            token@,
        )),
        !original_available ==> l.download_url is None && l.raw_url is None,
{
    let q = percent_encode_query_component(token);
    let qc = chars_of(q.as_str());
    let preview = file_url(file_id, "/preview", qc.as_slice());
    if original_available {
        FileLinks {
            download_url: Some(file_url(file_id, "", qc.as_slice())),
            raw_url: Some(file_url(file_id, "/raw", qc.as_slice())),
            preview_url: preview,
        }
    } else {
        FileLinks { download_url: None, raw_url: None, preview_url: preview }
    }
}

// ---------------------------------------------------------------------------
// Serving
// ---------------------------------------------------------------------------

/// How much of a file a response carries.
#[derive(PartialEq, Eq, Structural, Clone, Copy, Debug)]
pub enum RangePlan {
    /// The range starts past the end: 416 with `bytes */total`.
    Unsatisfiable,
    /// The whole file: 200.
    Full,
    /// Bytes `start..=end`: 206.
    Partial { start: u64, end: u64 },
}

/// The start, end and partial flag a `Range` header sets, before the
/// final checks; `total` is the file's size, above zero.
pub open spec fn range_fields(header: Option<Seq<char>>, total: int) -> (int, int, bool) {
    let dflt = (0int, total - 1, false);
    match header {
        None => dflt,
        Some(h) => if !starts_with(h, "bytes="@) || !has_char(h.skip(6), '-') {
            dflt
        } else {
            let rest = h.skip(6);
            let a = trim(before_char(rest, '-'));
            let b = trim(after_char(rest, '-'));
            let first: (int, bool) = if a.len() > 0 {
                match parse_u64_spec(a) {
                    Some(v) => (v, true),
                    None => (0, false),
                }
            } else if b.len() > 0 {
                match parse_u64_spec(b) {
                    Some(v) => if v > 0 {
                        (total - (if v < total { v } else { total }), true)
                    } else {
                        (0, false)
                    },
                    None => (0, false),
                }
            } else {
                (0, false)
            };
            let second: (int, bool) = if a.len() > 0 && b.len() > 0 {
                match parse_u64_spec(b) {
                    Some(v) => (v, true),
                    None => (total - 1, first.1),
                }
            } else {
                (total - 1, first.1)
            };
            let end = if second.0 >= total {
                total - 1
            } else {
                second.0
            };
            (first.0, end, second.1)
        },
    }
}

/// What a `Range` header asks of a file of `total` bytes: a start past the
/// end cannot be satisfied; an inverted range, or none, gives the whole file.
pub open spec fn range_plan_spec(header: Option<Seq<char>>, total: int) -> RangePlan {
    let f = range_fields(header, total);
    if f.0 >= total {
        RangePlan::Unsatisfiable
    } else if f.0 > f.1 || !f.2 {
        RangePlan::Full
    } else {
        RangePlan::Partial { start: f.0 as u64, end: f.1 as u64 }
    }
}

pub fn plan_byte_range(header: Option<&str>, total: u64) -> (r: RangePlan)
    requires
        total > 0,
    ensures
        r == range_plan_spec(
            match header {
                Some(h) => Some(h@),
                None => None,
            },
            total as int,
        ),
        r matches RangePlan::Partial { start, end } ==> start <= end < total,
{
    let mut start: u64 = 0;
    let mut end: u64 = total - 1;
    let mut partial = false;
    let ghost hv = match header {
        Some(h) => Some(h@),
        None => None,
    };
    if let Some(rh) = header {
        let h = chars_of(rh);
        if starts_with_lit(h.as_slice(), "bytes=") {
            proof {
                reveal_strlit("bytes=");
            }
            let rest = crate::text::slice_chars(h.as_slice(), 6, h.len());
            proof {
                assert(h@.skip(6) =~= rest@);
            }
            if let Some((a0, b0)) = split_once_char(rest.as_slice(), '-') {
                let a = trim_chars(a0.as_slice());
                let b = trim_chars(b0.as_slice());
                if a.len() > 0 {
                    if let Some(v) = parse_u64(a.as_slice()) {
                        start = v;
                        partial = true;
                    }
                } else if b.len() > 0 {
                    if let Some(v) = parse_u64(b.as_slice()) {
                        if v > 0 {
                            let v = if v < total {
                                v
                            } else {
                                total
                            };
                            start = total - v;
                            partial = true;
                        }
                    }
                }
                if b.len() > 0 && a.len() > 0 {
                    if let Some(v) = parse_u64(b.as_slice()) {
                        end = v;
                        partial = true;
                    }
                }
                if end >= total {
                    end = total - 1;
                }
            }
        }
    }
    proof {
        let f = range_fields(hv, total as int);
        assert(f == (start as int, end as int, partial));
    }
    if start >= total {
        return RangePlan::Unsatisfiable;
    }
    if start > end || !partial {
        return RangePlan::Full;
    }
    RangePlan::Partial { start, end }
}

/// The number of bytes a response carries (none when unsatisfiable).
pub open spec fn plan_length_spec(plan: RangePlan, total: int) -> int {
    match plan {
        RangePlan::Unsatisfiable => 0,
        RangePlan::Full => total,
        RangePlan::Partial { start, end } => end - start + 1,
    }
}

pub fn plan_length(plan: RangePlan, total: u64) -> (n: u64)
    requires
        plan matches RangePlan::Partial { start, end } ==> start <= end < total,
    ensures
        n as int == plan_length_spec(plan, total as int),
{
    match plan {
        RangePlan::Unsatisfiable => 0,
        RangePlan::Full => total,
        RangePlan::Partial { start, end } => end - start + 1,
    }
}

/// A served range never reaches past the file: a partial answer covers
/// `start..=end` inside the file, and no answer carries more bytes than the
/// file has.
pub proof fn law_range_within_file(header: Option<Seq<char>>, total: int)
    requires
        0 < total <= u64::MAX,
    ensures
        range_plan_spec(header, total) matches RangePlan::Partial { start, end } ==> start <= end
            < total,
        0 <= plan_length_spec(range_plan_spec(header, total), total) <= total,
{
    match header {
        Some(h) => {
            if starts_with(h, "bytes="@) && has_char(h.skip(6), '-') {
                let rest = h.skip(6);
                let a = trim(before_char(rest, '-'));
                let b = trim(after_char(rest, '-'));
                if all_digits(without_plus(a)) {
                    lemma_digits_value_nonneg(without_plus(a));
                }
                if all_digits(without_plus(b)) {
                    lemma_digits_value_nonneg(without_plus(b));
                }
            }
        },
        None => {},
    }
}

/// The `Content-Range` value of a response, when it has one.
pub open spec fn content_range_spec(plan: RangePlan, total: int) -> Option<Seq<char>> {
    match plan {
        RangePlan::Unsatisfiable => Some("bytes */"@ + nat_text(total as nat)),
        RangePlan::Full => None,
        RangePlan::Partial { start, end } => Some(
            "bytes "@ + nat_text(start as nat) + "-"@ + nat_text(end as nat) + "/"@ + nat_text(
                total as nat,
            ),
        ),
    }
}

pub fn content_range(plan: RangePlan, total: u64) -> (r: Option<String>)
    ensures
        match r {
            Some(s) => content_range_spec(plan, total as int) == Some(s@),
            None => content_range_spec(plan, total as int) is None,
        },
{
    match plan {
        RangePlan::Unsatisfiable => {
            let mut out = chars_of("bytes */");
            push_all(&mut out, u64_text(total).as_slice());
            Some(string_of(out.as_slice()))
        },
        RangePlan::Full => None,
        RangePlan::Partial { start, end } => {
            let mut out = chars_of("bytes ");
            push_all(&mut out, u64_text(start).as_slice());
            push_lit(&mut out, "-");
            push_all(&mut out, u64_text(end).as_slice());
            push_lit(&mut out, "/");
            push_all(&mut out, u64_text(total).as_slice());
            Some(string_of(out.as_slice()))
        },
    }
}

/// The `Content-Disposition` of a served file: inline only when asked for
/// and safe for the type, with the sanitised name plain and percent-encoded.
pub open spec fn disposition_spec(original_name: Seq<char>, mime: Seq<char>, inline: bool) -> Seq<char> {
    let safe = sanitize_filename_spec(original_name);
    let kind = if inline && inline_safe_spec(mime) {
        "inline"@
    } else {
        "attachment"@
    };
    kind + "; filename=\""@ + safe + "\"; filename*=UTF-8''"@ + percent_encode(encode_utf8(safe))
}

/// An inline request for an audio or video file, or any type safe to show,
/// is answered `inline`; any other request, `attachment`. Either way the
/// sanitised name follows.
pub proof fn law_inline_disposition(name: Seq<char>, mime: Seq<char>, inline: bool)
    ensures
        inline && (starts_with(ascii_lower(mime), "audio/"@) || starts_with(ascii_lower(mime), "video/"@))
            ==> starts_with(disposition_spec(name, mime, inline), "inline; filename=\""@),
        inline && inline_safe_spec(mime) ==> starts_with(
            disposition_spec(name, mime, inline),
            "inline; filename=\""@,
        ),
        !(inline && inline_safe_spec(mime)) ==> starts_with(
            disposition_spec(name, mime, inline),
            "attachment; filename=\""@,
        ),
        starts_with(
            disposition_spec(name, mime, inline).skip(
                if inline && inline_safe_spec(mime) {
                    18int
                } else {
                    22int
                },
            ),
            sanitize_filename_spec(name),
        ),
{
    crate::filetype::law_inline_safe_types(mime);
    reveal_strlit("inline");
    reveal_strlit("attachment");
    reveal_strlit("; filename=\"");
    reveal_strlit("inline; filename=\"");
    reveal_strlit("attachment; filename=\"");
    let d = disposition_spec(name, mime, inline);
    let safe = sanitize_filename_spec(name);
    let kind = if inline && inline_safe_spec(mime) {
        "inline"@
    } else {
        "attachment"@
    };
    let head = kind + "; filename=\""@;
    let rest = "\"; filename*=UTF-8''"@ + percent_encode(encode_utf8(safe));
    assert(d =~= head + safe + rest);
    assert(d.subrange(0, head.len() as int) =~= head);
    assert(d.skip(head.len() as int).subrange(0, safe.len() as int) =~= safe);
    assert("inline"@ + "; filename=\""@ =~= "inline; filename=\""@);
    assert("attachment"@ + "; filename=\""@ =~= "attachment; filename=\""@);
    if inline && inline_safe_spec(mime) {
        assert(starts_with(d, "inline; filename=\""@));
    } else {
        assert(starts_with(d, "attachment; filename=\""@));
    }
}

pub fn content_disposition(original_name: &str, mime: &str, inline: bool) -> (r: String)
    ensures
        r@ == disposition_spec(original_name@, mime@, inline),
{
    let safe = sanitize_filename(original_name);
    let encoded = percent_encode_query_component(safe.as_str());
    let mut out = if inline && inline_safe(mime) {
        chars_of("inline")
    } else {
        chars_of("attachment")
    };
    push_lit(&mut out, "; filename=\"");
    push_all(&mut out, chars_of(safe.as_str()).as_slice());
    push_lit(&mut out, "\"; filename*=UTF-8''");
    push_all(&mut out, chars_of(encoded.as_str()).as_slice());
    string_of(out.as_slice())
}

/// How a stored file is answered: the HTTP status, the headers by name and
/// value in order, and the bytes to send as offset and length.
#[derive(Debug)]
pub struct ServeReply {
    pub status: u16,
    pub headers: Vec<(String, String)>,
    pub body: Option<(u64, u64)>,
}

/// The headers every answer for a present file ends with.
pub open spec fn common_tail() -> Seq<(Seq<char>, Seq<char>)> {
    seq![("x-content-type-options"@, "nosniff"@), ("accept-ranges"@, "bytes"@)]
}

/// How a stored file of `size` bytes (`None` where it is missing) is
/// answered: a missing or empty file is 404 with nothing else; a range past
/// the end is 416 with `Content-Range`; a valid range is 206 with its bytes;
/// anything else is 200 with the whole file. Every answer for a present file
/// carries the type, the disposition, `nosniff` and `Accept-Ranges: bytes`.
pub open spec fn serve_spec(
    size: Option<u64>,
    range: Option<Seq<char>>,
    name: Seq<char>,
    mime: Seq<char>,
    inline: bool,
) -> (u16, Seq<(Seq<char>, Seq<char>)>, Option<(int, int)>) {
    match size {
        None => (404, Seq::empty(), None),
        Some(total) => if total == 0 {
            (404, Seq::empty(), None)
        } else {
            let plan = range_plan_spec(range, total as int);
            let ct = ("content-type"@, mime);
            let cd = ("content-disposition"@, disposition_spec(name, mime, inline));
            let len = plan_length_spec(plan, total as int);
            let cl = ("content-length"@, nat_text(len as nat));
            match plan {
                RangePlan::Unsatisfiable => (
                    416,
                    seq![("content-range"@, content_range_spec(plan, total as int)->0), ct, cd]
                        + common_tail(),
                    None,
                ),
                RangePlan::Full => (200, seq![ct, cd, cl] + common_tail(), Some((0, total as int))),
                RangePlan::Partial { start, end } => (
                    206,
                    seq![ct, cd, ("content-range"@, content_range_spec(plan, total as int)->0), cl]
                        + common_tail(),
                    Some((start as int, len)),
                ),
            }
        },
    }
}

pub open spec fn header_views(h: Seq<(String, String)>) -> Seq<(Seq<char>, Seq<char>)> {
    h.map_values(|p: (String, String)| (p.0@, p.1@))
}

fn header(name: &str, value: String) -> (r: (String, String))
    ensures
        r.0@ == name@,
        r.1@ == value@,
{
    (String::from_str(name), value)
}

/// Plans the answer for a stored file from its size (`None` where it is
/// missing), the request's `Range` header, and how the file is to be shown.
pub fn serve_reply(size: Option<u64>, range: Option<&str>, name: &str, mime: &str, inline: bool) -> (r:
    ServeReply)
    ensures
        ({
            let (status, headers, body) = serve_spec(
                size,
                match range {
                    Some(h) => Some(h@),
                    None => None,
                },
                name@,
                mime@,
                inline,
            );
            &&& r.status == status
            &&& header_views(r.headers@) == headers
            &&& match r.body {
                Some((off, n)) => body == Some((off as int, n as int)),
                None => body is None,
            }
        }),
{
    let total = match size {
        Some(t) => t,
        None => {
            let h: Vec<(String, String)> = Vec::new();
            proof {
                assert(header_views(h@) =~= Seq::<(Seq<char>, Seq<char>)>::empty());
            }
            return ServeReply { status: 404, headers: h, body: None };
        },
    };
    if total == 0 {
        let h: Vec<(String, String)> = Vec::new();
        proof {
            assert(header_views(h@) =~= Seq::<(Seq<char>, Seq<char>)>::empty());
        }
        return ServeReply { status: 404, headers: h, body: None };
    }
    let plan = plan_byte_range(range, total);
    let len = plan_length(plan, total);
    let mut h: Vec<(String, String)> = Vec::new();
    let status: u16;
    let body: Option<(u64, u64)>;
    match plan {
        RangePlan::Unsatisfiable => {
            let cr = content_range(plan, total);
            h.push(header("content-range", cr.unwrap()));
            h.push(header("content-type", String::from_str(mime)));
            h.push(header("content-disposition", content_disposition(name, mime, inline)));
            status = 416;
            body = None;
        },
        RangePlan::Full => {
            h.push(header("content-type", String::from_str(mime)));
            h.push(header("content-disposition", content_disposition(name, mime, inline)));
            h.push(header("content-length", string_of(u64_text(len).as_slice())));
            status = 200;
            body = Some((0, total));
        },
        RangePlan::Partial { start, end } => {
            let cr = content_range(plan, total);
            h.push(header("content-type", String::from_str(mime)));
            h.push(header("content-disposition", content_disposition(name, mime, inline)));
            h.push(header("content-range", cr.unwrap()));
            h.push(header("content-length", string_of(u64_text(len).as_slice())));
            status = 206;
            body = Some((start, len));
        },
    }
    let ghost before = header_views(h@);
    h.push(header("x-content-type-options", String::from_str("nosniff")));
    h.push(header("accept-ranges", String::from_str("bytes")));
    proof {
        assert(header_views(h@) =~= before + common_tail());
    }
    ServeReply { status, headers: h, body }
}


// ---------------------------------------------------------------------------
// Archives
// ---------------------------------------------------------------------------

/// Whether a file is listed as a ZIP archive: by its type or its name.
pub open spec fn is_zip_listing_spec(effective_mime: Seq<char>, original_name: Seq<char>) -> bool {
    let m = ascii_lower(effective_mime);
    m == "application/zip"@ || m == "application/x-zip-compressed"@ || ends_with(
        ascii_lower(original_name),
        ".zip"@,
    )
}

pub fn is_zip_listing(effective_mime: &str, original_name: &str) -> (r: bool)
    ensures
        r == is_zip_listing_spec(effective_mime@, original_name@),
{
    let m = to_ascii_lower(chars_of(effective_mime).as_slice());
    let n = to_ascii_lower(chars_of(original_name).as_slice());
    eq_lit(m.as_slice(), "application/zip") || eq_lit(m.as_slice(), "application/x-zip-compressed")
        || ends_with_lit(n.as_slice(), ".zip")
}

/// The most entries of an archive listed.
pub const ARCHIVE_LIST_LIMIT: usize = 5000;

/// The longest entry path listed, in bytes.
pub const ARCHIVE_NAME_BYTES: usize = 512;

/// An entry of an archive listing.
pub struct ArchiveEntry {
    pub path: String,
    pub size: u64,
    pub is_dir: bool,
}

/// `s` with every `from` replaced by `to`.
pub open spec fn replace_char(s: Seq<char>, from: char, to: char) -> Seq<char> {
    s.map_values(|c: char| if c == from { to } else { c })
}

/// The length of the longest prefix of `s` whose UTF-8 encoding is exactly
/// `n` bytes, if there is one.
pub open spec fn prefix_of_bytes(s: Seq<char>, n: nat, k: int) -> bool {
    0 <= k <= s.len() && encode_utf8(s.take(k)).len() == n
}

/// How an archive entry is listed: skipped when its name is empty; its path
/// with the platform separator made `/`, cut to 512 bytes (refused when the
/// cut would split a character); a directory when flagged so or when the
/// path ends in `/`, with size 0.
pub open spec fn archive_entry_ok(name: Seq<char>, sep: char, dir_flag: bool, size: u64, e: ArchiveEntry) -> bool {
    let p = replace_char(name, sep, '/');
    let path_ok = if encode_utf8(p).len() > ARCHIVE_NAME_BYTES {
        exists|k: int| prefix_of_bytes(p, ARCHIVE_NAME_BYTES as nat, k) && e.path@ == p.take(k)
    } else {
        e.path@ == p
    };
    &&& path_ok
    &&& e.is_dir == (dir_flag || ends_with(e.path@, "/"@))
    &&& e.size == (if e.is_dir { 0 } else { size })
}

pub fn archive_entry(name: &str, sep: char, dir_flag: bool, size: u64) -> (r: Result<Option<ArchiveEntry>, ()>)
    ensures
        name@.len() == 0 ==> r == Ok::<Option<ArchiveEntry>, ()>(None),
        name@.len() > 0 ==> match r {
            Ok(Some(e)) => archive_entry_ok(name@, sep, dir_flag, size, e),
            Ok(None) => false,
            Err(_) => {
                let p = replace_char(name@, sep, '/');
                encode_utf8(p).len() > ARCHIVE_NAME_BYTES && !exists|k: int|
                    prefix_of_bytes(p, ARCHIVE_NAME_BYTES as nat, k)
            },
        },
{
    let s = chars_of(name);
    if s.len() == 0 {
        return Ok(None);
    }
    let mut p: Vec<char> = Vec::new();
    let mut i: usize = 0;
    while i < s.len()
        invariant
            i <= s.len(),
            p@ == replace_char(s@.take(i as int), sep, '/'),
        decreases s.len() - i,
    {
        if s[i] == sep {
            p.push('/');
        } else {
            p.push(s[i]);
        }
        i = i + 1;
        proof {
            assert(p@ =~= replace_char(s@.take(i as int), sep, '/'));
        }
    }
    proof {
        assert(s@.take(s@.len() as int) =~= s@);
    }
    // Find how many characters fit in the byte budget.
    let mut bytes: usize = 0;
    let mut k: usize = 0;
    proof {
        assert(p@.take(0) =~= Seq::<char>::empty());
    }
    while k < p.len() && bytes < ARCHIVE_NAME_BYTES
        invariant
            k <= p.len(),
            bytes as int == encode_utf8(p@.take(k as int)).len(),
            bytes <= ARCHIVE_NAME_BYTES + 4,
            forall|j: int| 0 <= j < k ==> encode_utf8(p@.take(j)).len() < ARCHIVE_NAME_BYTES,
        decreases p.len() - k,
    {
        proof {
            lemma_encode_utf8_take(p@, k as int);
            vstd::utf8::char_is_scalar(p@[k as int]);
        }
        bytes = bytes + utf8_width_exec(p[k]);
        k = k + 1;
    }
    let ghost pv = p@;
    let path: Vec<char>;
    if k == p.len() && bytes <= ARCHIVE_NAME_BYTES {
        proof {
            assert(p@.take(p@.len() as int) =~= p@);
        }
        path = p;
    } else if bytes == ARCHIVE_NAME_BYTES {
        proof {
            assert(encode_utf8(pv).len() > ARCHIVE_NAME_BYTES) by {
                lemma_utf8_prefix_le(pv, k as int, pv.len() as int);
                if k == pv.len() {
                    assert(pv.take(pv.len() as int) =~= pv);
                } else {
                    lemma_utf8_prefix_le(pv, k + 1, pv.len() as int);
                    lemma_encode_utf8_take(pv, k as int);
                    vstd::utf8::char_is_scalar(pv[k as int]);
                    assert(pv.take(pv.len() as int) =~= pv);
                }
            }
            assert(prefix_of_bytes(pv, ARCHIVE_NAME_BYTES as nat, k as int));
        }
        path = crate::text::slice_chars(p.as_slice(), 0, k);
        proof {
            assert(path@ =~= pv.take(k as int));
        }
    } else {
        proof {
            assert(bytes > ARCHIVE_NAME_BYTES);
            assert(encode_utf8(pv).len() > ARCHIVE_NAME_BYTES) by {
                lemma_utf8_prefix_le(pv, k as int, pv.len() as int);
                assert(pv.take(pv.len() as int) =~= pv);
            }
            assert forall|j: int| prefix_of_bytes(pv, ARCHIVE_NAME_BYTES as nat, j) implies false by {
                if j < k {
                } else if j > k {
                    lemma_utf8_prefix_le(pv, k as int, j);
                } else {
                }
            }
        }
        return Err(());
    }
    let is_dir = dir_flag || ends_with_lit(path.as_slice(), "/");
    let sz = if is_dir {
        0
    } else {
        size
    };
    Ok(Some(ArchiveEntry { path: string_of(path.as_slice()), size: sz, is_dir }))
}

/// Longer prefixes take at least as many bytes.
proof fn lemma_utf8_prefix_le(s: Seq<char>, a: int, b: int)
    requires
        0 <= a <= b <= s.len(),
    ensures
        encode_utf8(s.take(a)).len() <= encode_utf8(s.take(b)).len(),
    decreases b - a,
{
    if a < b {
        lemma_utf8_prefix_le(s, a, b - 1);
        lemma_encode_utf8_take(s, b - 1);
    }
}

} // verus!
