//! Appearance vocabulary and the managed image assets: which files the app
//! may own, how an image is recognised from its own bytes, and how images
//! travel to the frontend as `data:` URLs.
//!
//! The numeric part of an appearance (opacities, blur, luminance) is floating
//! point and is handled by the host; the textual part is normalized here.
pub mod base64;

use vstd::prelude::*;
use crate::text::{ascii_lower, concat2, contains_char, find_first, first_index_of, find_last, has_prefix, is_hex_digit, last_index_of, lower_ascii, owned, starts_with, str_eq, trim, trim_exec};
use crate::maintenance::receipt::uuid_canonical_form;
use crate::appearance::base64::{b64_decode, b64_encode, base64, base64_decode, base64_round_trip};

verus! {

/// Largest background image persisted, in bytes (32 MiB).
pub const MAX_BACKGROUND_BYTES: u64 = 33554432;
/// Largest avatar persisted, in bytes (8 MiB).
pub const MAX_AVATAR_BYTES: u64 = 8388608;
/// Largest avatar source the picker reads (24 MiB): a photo is read to be
/// normalized, never kept.
pub const MAX_AVATAR_SOURCE_BYTES: u64 = 25165824;
/// Edge length of a persisted avatar, in pixels.
pub const AVATAR_EDGE_PX: u32 = 256;

/// Rejection phrases the frontend maps to localized copy.
pub const ERROR_IMAGE_TOO_LARGE: &'static str = "selected image is too large";
pub const ERROR_IMAGE_UNSUPPORTED: &'static str = "unsupported image";
pub const ERROR_IMAGE_UNREADABLE: &'static str = "selected image could not be read";

#[derive(Clone, Copy, Debug, PartialEq, Eq, Structural)]
pub enum BackgroundType {
    Glass,
    Solid,
    Gradient,
    Image,
    Wallpaper,
}

#[derive(Clone, Copy, Debug, PartialEq, Eq, Structural)]
pub enum TextContrast {
    Auto,
    Light,
    Dark,
    /// A user-chosen text colour decides the palette direction.
    Custom,
}

#[derive(Clone, Copy, Debug, PartialEq, Eq, Structural)]
pub enum ResolvedContrast {
    Light,
    Dark,
}

impl ResolvedContrast {
    /// The name the frontend reads.
    pub fn as_str(self) -> (r: &'static str)
        ensures
            r@ == match self {
                ResolvedContrast::Light => "light"@,
                ResolvedContrast::Dark => "dark"@,
            },
    {
        match self {
            ResolvedContrast::Light => "light",
            ResolvedContrast::Dark => "dark",
        }
    }
}

#[derive(Clone, Copy, Debug, PartialEq, Eq, Structural)]
pub enum ImageFit {
    Cover,
    Contain,
    Stretch,
}

#[derive(Clone, Copy, Debug, PartialEq, Eq, Structural)]
pub enum ImagePosition {
    Center,
    Top,
    Bottom,
}

/// The two kinds of managed image.
#[derive(Clone, Copy, Debug, PartialEq, Eq, Structural)]
pub enum AssetKind {
    Background,
    Avatar,
}

/// File-name prefix of each kind.
pub open spec fn kind_prefix(kind: AssetKind) -> Seq<char> {
    match kind {
        AssetKind::Background => "background-"@,
        AssetKind::Avatar => "avatar-"@,
    }
}

impl AssetKind {
    /// File-name prefix of this kind.
    pub fn prefix(self) -> (r: &'static str)
        ensures
            r@ == kind_prefix(self),
    {
        match self {
            AssetKind::Background => "background-",
            AssetKind::Avatar => "avatar-",
        }
    }

    /// Largest payload this kind may persist.
    pub fn max_bytes(self) -> (r: u64)
        ensures
            r == match self {
                AssetKind::Background => MAX_BACKGROUND_BYTES,
                AssetKind::Avatar => MAX_AVATAR_BYTES,
            },
    {
        match self {
            AssetKind::Background => MAX_BACKGROUND_BYTES,
            AssetKind::Avatar => MAX_AVATAR_BYTES,
        }
    }

    /// Largest source file that may be read for this kind.
    pub fn max_source_bytes(self) -> (r: u64)
        ensures
            r == match self {
                AssetKind::Background => MAX_BACKGROUND_BYTES,
                AssetKind::Avatar => MAX_AVATAR_SOURCE_BYTES,
            },
    {
        match self {
            AssetKind::Background => MAX_BACKGROUND_BYTES,
            AssetKind::Avatar => MAX_AVATAR_SOURCE_BYTES,
        }
    }

    /// The size cap of a pick: the persisted cap when the file is stored, the
    /// (larger, for an avatar) source cap when it is only read.
    pub fn pick_cap(self, persist: bool) -> (r: u64)
        ensures
            r == if persist { self.max_bytes_spec() } else { self.max_source_bytes_spec() },
    {
        if persist { self.max_bytes() } else { self.max_source_bytes() }
    }

    pub open spec fn max_bytes_spec(self) -> u64 {
        match self {
            AssetKind::Background => MAX_BACKGROUND_BYTES,
            AssetKind::Avatar => MAX_AVATAR_BYTES,
        }
    }

    pub open spec fn max_source_bytes_spec(self) -> u64 {
        match self {
            AssetKind::Background => MAX_BACKGROUND_BYTES,
            AssetKind::Avatar => MAX_AVATAR_SOURCE_BYTES,
        }
    }
}

/// An image handed to the frontend.
#[derive(Clone, Debug)]
pub struct AssetPayload {
    pub asset_id: Option<String>,
    pub available: bool,
    pub data_url: Option<String>,
}

/// One of the managed image extensions.
pub open spec fn managed_extension(ext: Seq<char>) -> bool {
    ext == "png"@ || ext == "jpg"@ || ext == "jpeg"@ || ext == "webp"@
}

/// A managed asset id is a bare file name (no `/` or `\`) with the kind's
/// prefix, shorter than 96 bytes in UTF-8, ending in `.<ext>` with a managed
/// image extension after its last dot.
pub open spec fn managed_asset_id(value: Seq<char>, kind: AssetKind) -> bool {
    &&& !value.contains('/')
    &&& !value.contains('\\')
    &&& has_prefix(value, kind_prefix(kind))
    &&& vstd::utf8::encode_utf8(value).len() < 96
    &&& last_index_of(value, '.') matches Some(dot) && managed_extension(value.skip(dot + 1))
}

fn managed_extension_exec(ext: &str) -> (r: bool)
    ensures
        r == managed_extension(ext@),
{
    str_eq(ext, "png") || str_eq(ext, "jpg") || str_eq(ext, "jpeg") || str_eq(ext, "webp")
}

/// True when `value` can only name a file inside the managed asset directory
/// for `kind`.
pub fn is_managed_asset_id(value: &str, kind: AssetKind) -> (r: bool)
    ensures
        r == managed_asset_id(value@, kind),
{
    if contains_char(value, '/') || contains_char(value, '\\') {
        return false;
    }
    if !starts_with(value, kind.prefix()) {
        return false;
    }
    if value.as_bytes().len() >= 96 {
        return false;
    }
    match find_last(value, '.') {
        None => false,
        Some(dot) => {
            proof {
                crate::text::lemma_last_index_of(value@, '.');
            }
            let n = value.unicode_len();
            let ext = value.substring_char(dot + 1, n);
            assert(ext@ =~= value@.skip(dot + 1));
            managed_extension_exec(ext)
        },
    }
}

/// Drops an avatar reference that is not a managed avatar id.
pub fn normalize_avatar_asset_id(value: &mut Option<String>)
    ensures
        match *old(value) {
            Some(id) => if managed_asset_id(id@, AssetKind::Avatar) {
                *final(value) == Some(id)
            } else {
                *final(value) is None
            },
            None => *final(value) is None,
        },
{
    let keep = match value {
        Some(id) => is_managed_asset_id(id.as_str(), AssetKind::Avatar),
        None => false,
    };
    if !keep {
        *value = None;
    }
}

/// A colour is normalized to its lower-case `#rrggbb` form when, trimmed, it
/// is `#` and six hex digits; anything else becomes the fallback.
pub open spec fn normalized_color_spec(value: Seq<char>, fallback: Seq<char>) -> Seq<char> {
    let t = trim(value);
    if t.len() == 7 && t[0] == '#' && (forall|i: int| 1 <= i < 7 ==> #[trigger] is_hex_digit(t[i])) {
        t.map_values(|c: char| ascii_lower(c))
    } else {
        fallback
    }
}

/// Normalizes one colour field.
pub fn normalized_color(value: &str, fallback: &str) -> (r: String)
    ensures
        r@ == normalized_color_spec(value@, fallback@),
{
    let t = trim_exec(value);
    if t.unicode_len() != 7 || t.get_char(0) != '#' {
        return owned(fallback);
    }
    let mut i: usize = 1;
    while i < 7
        invariant
            t@ == trim(value@),
            t@[0] == '#',
            t@.len() == 7,
            1 <= i <= 7,
            forall|j: int| 1 <= j < i ==> #[trigger] is_hex_digit(t@[j]),
        decreases 7 - i,
    {
        let c = t.get_char(i);
        if !(('0' <= c && c <= '9') || ('a' <= c && c <= 'f') || ('A' <= c && c <= 'F')) {
            assert(!is_hex_digit(t@[i as int]));
            return owned(fallback);
        }
        i = i + 1;
    }
    lower_ascii(t)
}

/// The image kinds recognised from their own bytes.
pub open spec fn signature_spec(bytes: Seq<u8>, allow_bmp: bool) -> Option<(Seq<char>, Seq<char>)> {
    if bytes.len() >= 8 && bytes.take(8) == seq![0x89u8, 0x50u8, 0x4eu8, 0x47u8, 0x0du8, 0x0au8, 0x1au8, 0x0au8] {
        Some(("png"@, "image/png"@))
    } else if bytes.len() >= 3 && bytes.take(3) == seq![0xffu8, 0xd8u8, 0xffu8] {
        Some(("jpg"@, "image/jpeg"@))
    } else if bytes.len() >= 12 && bytes.take(4) == seq![0x52u8, 0x49u8, 0x46u8, 0x46u8]
        && bytes.subrange(8, 12) == seq![0x57u8, 0x45u8, 0x42u8, 0x50u8] {
        Some(("webp"@, "image/webp"@))
    } else if allow_bmp && bytes.len() >= 2 && bytes.take(2) == seq![0x42u8, 0x4du8] {
        Some(("bmp"@, "image/bmp"@))
    } else {
        None
    }
}

fn bytes_at(bytes: &[u8], at: usize, expected: &[u8]) -> (r: bool)
    requires
        at + expected@.len() <= bytes@.len(),
    ensures
        r == (bytes@.subrange(at as int, at + expected@.len()) == expected@),
{
    let n = bytes.len();
    let mut i: usize = 0;
    while i < expected.len()
        invariant
            n == bytes@.len(),
            at + expected@.len() <= bytes@.len(),
            i <= expected@.len(),
            forall|j: int| 0 <= j < i ==> bytes@[at + j] == #[trigger] expected@[j],
        decreases expected.len() - i,
    {
        if bytes[at + i] != expected[i] {
            assert(bytes@.subrange(at as int, at + expected@.len())[i as int] != expected@[i as int]);
            return false;
        }
        i = i + 1;
    }
    assert(bytes@.subrange(at as int, at + expected@.len()) =~= expected@);
    true
}

/// Identifies an image from its own bytes: PNG, JPEG, WebP, and BMP when
/// allowed. Returns the normalized extension and the media type.
pub fn image_signature(bytes: &[u8], allow_bmp: bool) -> (r: Result<(&'static str, &'static str), String>)
    ensures
        match signature_spec(bytes@, allow_bmp) {
            Some((ext, mime)) => r matches Ok((e, m)) && e@ == ext && m@ == mime,
            None => r matches Err(msg) && msg@ == ERROR_IMAGE_UNSUPPORTED@,
        },
{
    let n = bytes.len();
    let png: [u8; 8] = [0x89, 0x50, 0x4e, 0x47, 0x0d, 0x0a, 0x1a, 0x0a];
    let jpg: [u8; 3] = [0xff, 0xd8, 0xff];
    let riff: [u8; 4] = [0x52, 0x49, 0x46, 0x46];
    let webp: [u8; 4] = [0x57, 0x45, 0x42, 0x50];
    let bmp: [u8; 2] = [0x42, 0x4d];
    assert(png@ == seq![0x89u8, 0x50u8, 0x4eu8, 0x47u8, 0x0du8, 0x0au8, 0x1au8, 0x0au8]);
    assert(jpg@ == seq![0xffu8, 0xd8u8, 0xffu8]);
    assert(riff@ == seq![0x52u8, 0x49u8, 0x46u8, 0x46u8]);
    assert(webp@ == seq![0x57u8, 0x45u8, 0x42u8, 0x50u8]);
    assert(bmp@ == seq![0x42u8, 0x4du8]);
    assert(bytes@.subrange(0, 8) =~= bytes@.take(8) || n < 8);
    if n >= 8 && bytes_at(bytes, 0, png.as_slice()) {
        assert(bytes@.subrange(0, 8) =~= bytes@.take(8));
        return Ok(("png", "image/png"));
    }
    assert(n >= 8 ==> bytes@.subrange(0, 8) =~= bytes@.take(8));
    if n >= 3 && bytes_at(bytes, 0, jpg.as_slice()) {
        assert(bytes@.subrange(0, 3) =~= bytes@.take(3));
        return Ok(("jpg", "image/jpeg"));
    }
    assert(n >= 3 ==> bytes@.subrange(0, 3) =~= bytes@.take(3));
    if n >= 12 && bytes_at(bytes, 0, riff.as_slice()) && bytes_at(bytes, 8, webp.as_slice()) {
        assert(bytes@.subrange(0, 4) =~= bytes@.take(4));
        return Ok(("webp", "image/webp"));
    }
    assert(n >= 12 ==> bytes@.subrange(0, 4) =~= bytes@.take(4));
    if allow_bmp && n >= 2 && bytes_at(bytes, 0, bmp.as_slice()) {
        assert(bytes@.subrange(0, 2) =~= bytes@.take(2));
        return Ok(("bmp", "image/bmp"));
    }
    assert(n >= 2 ==> bytes@.subrange(0, 2) =~= bytes@.take(2));
    Err(owned(ERROR_IMAGE_UNSUPPORTED))
}

/// The file name of a path: the text after its last `\` or `/`.
pub open spec fn file_name_of(path: Seq<char>) -> Seq<char>
    decreases path.len(),
{
    if path.len() == 0 {
        path
    } else if path.last() == '\\' || path.last() == '/' {
        Seq::empty()
    } else {
        file_name_of(path.drop_last()).push(path.last())
    }
}

/// The extension of a file name as `Path::extension` reads it: the text after
/// the last dot, when that dot is not the name's first character.
pub open spec fn extension_of(name: Seq<char>) -> Seq<char> {
    match last_index_of(name, '.') {
        Some(dot) => if dot > 0 { name.skip(dot + 1) } else { Seq::empty() },
        None => Seq::empty(),
    }
}

fn file_name(path: &str) -> (r: &str)
    ensures
        r@ == file_name_of(path@),
{
    let n = path.unicode_len();
    let mut start: usize = 0;
    let mut i: usize = 0;
    assert(path@.take(0) =~= Seq::<char>::empty());
    while i < n
        invariant
            n == path@.len(),
            start <= i <= n,
            file_name_of(path@.take(i as int)) == path@.subrange(start as int, i as int),
        decreases n - i,
    {
        let c = path.get_char(i);
        assert(path@.take(i + 1).drop_last() =~= path@.take(i as int));
        assert(path@.take(i + 1).last() == c);
        if c == '\\' || c == '/' {
            start = i + 1;
            assert(path@.subrange(start as int, i + 1) =~= Seq::<char>::empty());
        } else {
            assert(path@.subrange(start as int, i + 1) =~= path@.subrange(start as int, i as int).push(c));
        }
        i = i + 1;
    }
    assert(path@.take(n as int) =~= path@);
    path.substring_char(start, n)
}

/// Whether a file's own extension (already lower-cased) names the kind that
/// the signature found: the same name, or `jpeg` for a JPEG.
pub open spec fn extension_agrees(own: Seq<char>, kind: Seq<char>) -> bool {
    own == kind || (own == "jpeg"@ && kind == "jpg"@)
}

fn extension_agrees_exec(own: &str, kind: &str) -> (r: bool)
    ensures
        r == extension_agrees(own@, kind@),
{
    str_eq(own, kind) || (str_eq(own, "jpeg") && str_eq(kind, "jpg"))
}

/// Accepts a picked file only when its bytes are a supported image and its
/// own extension (ASCII case ignored) agrees with the kind the bytes carry.
/// Returns the normalized extension and the media type the bytes declare.
pub fn supported_image(path: &str, bytes: &[u8], allow_bmp: bool) -> (r: Result<(&'static str, &'static str), String>)
    ensures
        match signature_spec(bytes@, allow_bmp) {
            None => r matches Err(msg) && msg@ == ERROR_IMAGE_UNSUPPORTED@,
            Some((ext, mime)) => {
                let own = extension_of(file_name_of(path@)).map_values(|c: char| ascii_lower(c));
                if extension_agrees(own, ext) {
                    r matches Ok((e, m)) && e@ == ext && m@ == mime
                } else {
                    r matches Err(msg) && msg@ == ERROR_IMAGE_UNSUPPORTED@ + " extension"@
                }
            },
        },
{
    let name = file_name(path);
    let ext: &str = match find_last(name, '.') {
        Some(dot) => {
            proof { crate::text::lemma_last_index_of(name@, '.'); }
            if dot > 0 {
                let n = name.unicode_len();
                let e = name.substring_char(dot + 1, n);
                assert(e@ =~= name@.skip(dot + 1));
                e
            } else {
                proof { reveal_strlit(""); }
                ""
            }
        },
        None => {
            proof { reveal_strlit(""); }
            ""
        },
    };
    assert(ext@ == extension_of(file_name_of(path@)));
    let lower = lower_ascii(ext);
    let (normalized, mime) = image_signature(bytes, allow_bmp)?;
    if !extension_agrees_exec(lower.as_str(), normalized) {
        return Err(concat2(ERROR_IMAGE_UNSUPPORTED, " extension"));
    }
    Ok((normalized, mime))
}

/// A payload for an image that could not be loaded.
pub fn unavailable(asset_id: Option<String>) -> (p: AssetPayload)
    ensures
        p.asset_id == asset_id,
        !p.available,
        p.data_url is None,
{
    AssetPayload { asset_id, available: false, data_url: None }
}

/// `data:<mime>;base64,<encoded bytes>`.
pub open spec fn data_url_spec(mime: Seq<char>, bytes: Seq<u8>) -> Seq<char> {
    "data:"@ + mime + ";base64,"@ + b64_encode(bytes)
}

/// Encodes bytes as a `data:` URL of the given media type.
pub fn data_url(mime: &str, bytes: &[u8]) -> (r: String)
    ensures
        r@ == data_url_spec(mime@, bytes@),
{
    let a = concat2("data:", mime);
    let b = concat2(a.as_str(), ";base64,");
    let encoded = base64(bytes);
    let r = concat2(b.as_str(), encoded.as_str());
    assert(r@ =~= data_url_spec(mime@, bytes@));
    r
}

/// A payload for a stored image.
pub fn payload(asset_id: String, mime: &str, bytes: Vec<u8>) -> (p: AssetPayload)
    ensures
        p.asset_id == Some(asset_id),
        p.available,
        p.data_url matches Some(u) && u@ == data_url_spec(mime@, bytes@),
{
    let url = data_url(mime, bytes.as_slice());
    AssetPayload { asset_id: Some(asset_id), available: true, data_url: Some(url) }
}


/// The media type of an accepted `data:` URL header.
pub open spec fn data_url_mime(header: Seq<char>) -> Option<Seq<char>> {
    if header == "data:image/png;base64"@ {
        Some("image/png"@)
    } else if header == "data:image/jpeg;base64"@ {
        Some("image/jpeg"@)
    } else if header == "data:image/webp;base64"@ {
        Some("image/webp"@)
    } else {
        None
    }
}

/// What a `data:` URL decodes to: the bytes after the first comma and the
/// media type its header declares, or the rejection phrase.
pub open spec fn data_url_decoding(value: Seq<char>) -> Result<(Seq<u8>, Seq<char>), Seq<char>> {
    match first_index_of(value, ',') {
        None => Err(ERROR_IMAGE_UNREADABLE@),
        Some(comma) => match data_url_mime(value.take(comma)) {
            None => Err(ERROR_IMAGE_UNSUPPORTED@),
            Some(mime) => match b64_decode(value.skip(comma + 1)) {
                Some(bytes) => if bytes.len() > 0 { Ok((bytes, mime)) } else { Err(ERROR_IMAGE_UNREADABLE@) },
                None => Err(ERROR_IMAGE_UNREADABLE@),
            },
        },
    }
}

/// Splits and decodes a base64 `data:image/...` URL. Only the three media
/// types the product itself produces are accepted, the `;base64` marker is
/// required, and the decoded image must not be empty.
pub fn decode_image_data_url(value: &str) -> (r: Result<(Vec<u8>, &'static str), String>)
    ensures
        match data_url_decoding(value@) {
            Ok((bytes, mime)) => r matches Ok((b, m)) && b@ == bytes && m@ == mime,
            Err(msg) => r matches Err(e) && e@ == msg,
        },
{
    let comma = match find_first(value, ',') {
        Some(c) => c,
        None => return Err(owned(ERROR_IMAGE_UNREADABLE)),
    };
    proof {
        crate::text::lemma_first_index_of(value@, ',');
    }
    let n = value.unicode_len();
    let header = value.substring_char(0, comma);
    let encoded = value.substring_char(comma + 1, n);
    assert(header@ =~= value@.take(comma as int));
    assert(encoded@ =~= value@.skip(comma + 1));
    let mime: &'static str = if str_eq(header, "data:image/png;base64") {
        "image/png"
    } else if str_eq(header, "data:image/jpeg;base64") {
        "image/jpeg"
    } else if str_eq(header, "data:image/webp;base64") {
        "image/webp"
    } else {
        return Err(owned(ERROR_IMAGE_UNSUPPORTED));
    };
    let bytes = match base64_decode(encoded) {
        Some(b) => b,
        None => return Err(owned(ERROR_IMAGE_UNREADABLE)),
    };
    if bytes.len() == 0 {
        return Err(owned(ERROR_IMAGE_UNREADABLE));
    }
    Ok((bytes, mime))
}

/// The media types the product stores images as.
pub open spec fn produced_mime(mime: Seq<char>) -> bool {
    mime == "image/png"@ || mime == "image/jpeg"@ || mime == "image/webp"@
}

/// A `data:` URL the product writes for a non-empty image of one of its media
/// types decodes back to exactly those bytes and that media type.
pub proof fn data_url_round_trip(mime: Seq<char>, bytes: Seq<u8>)
    requires
        produced_mime(mime),
        bytes.len() > 0,
    ensures
        data_url_decoding(data_url_spec(mime, bytes)) == Ok::<(Seq<u8>, Seq<char>), Seq<char>>((bytes, mime)),
{
    reveal_strlit("data:");
    reveal_strlit(";base64,");
    reveal_strlit("image/png");
    reveal_strlit("image/jpeg");
    reveal_strlit("image/webp");
    reveal_strlit("data:image/png;base64");
    reveal_strlit("data:image/jpeg;base64");
    reveal_strlit("data:image/webp;base64");
    let url = data_url_spec(mime, bytes);
    let head = "data:"@ + mime + ";base64"@;
    let comma = head.len() as int;
    assert(url =~= head + seq![','] + b64_encode(bytes)) by {
        reveal_strlit(";base64");
    }
    assert forall|j: int| 0 <= j < comma implies url[j] != ',' by {
        assert(url[j] == head[j]);
    }
    crate::text::lemma_first_index_unique(url, ',', comma);
    assert(url.take(comma) =~= head);
    assert(url.skip(comma + 1) =~= b64_encode(bytes));
    base64_round_trip(bytes);
    if mime == "image/png"@ {
        assert(head =~= "data:image/png;base64"@);
    } else if mime == "image/jpeg"@ {
        assert(head =~= "data:image/jpeg;base64"@);
        assert(head != "data:image/png;base64"@) by {
            assert(head.len() != "data:image/png;base64"@.len());
        }
    } else {
        assert(head =~= "data:image/webp;base64"@);
        assert(head != "data:image/png;base64"@) by {
            assert(head[11] != "data:image/png;base64"@[11]);
        }
        assert(head != "data:image/jpeg;base64"@) by {
            assert(head[11] != "data:image/jpeg;base64"@[11]);
        }
    }
}

/// Why a payload the frontend produced may not be stored, or the stored
/// file's extension and media type.
pub open spec fn stored_image_verdict(kind: AssetKind, value: Seq<char>) -> Result<(Seq<u8>, Seq<char>, Seq<char>), Seq<char>> {
    match data_url_decoding(value) {
        Err(msg) => Err(msg),
        Ok((bytes, declared)) => if bytes.len() > kind.max_bytes_spec() {
            Err(ERROR_IMAGE_TOO_LARGE@)
        } else {
            match signature_spec(bytes, false) {
                None => Err(ERROR_IMAGE_UNSUPPORTED@),
                Some((ext, mime)) => if mime != declared {
                    Err(ERROR_IMAGE_UNSUPPORTED@ + ": payload declares "@ + declared + " but contains "@ + mime)
                } else {
                    Ok((bytes, ext, mime))
                },
            }
        },
    }
}

/// Checks a normalized image before it is stored: a strict `data:` URL,
/// within the kind's persisted cap, whose own signature is a supported image
/// of exactly the declared media type.
pub fn prepare_managed_asset(kind: AssetKind, value: &str) -> (r: Result<(Vec<u8>, &'static str, &'static str), String>)
    ensures
        match stored_image_verdict(kind, value@) {
            Ok((bytes, ext, mime)) => r matches Ok((b, e, m)) && b@ == bytes && e@ == ext && m@ == mime,
            Err(msg) => r matches Err(e) && e@ == msg,
        },
{
    let (bytes, declared) = decode_image_data_url(value)?;
    if bytes.len() as u64 > kind.max_bytes() {
        return Err(owned(ERROR_IMAGE_TOO_LARGE));
    }
    let (extension, mime) = image_signature(bytes.as_slice(), false)?;
    if !str_eq(mime, declared) {
        let a = concat2(ERROR_IMAGE_UNSUPPORTED, ": payload declares ");
        let b = concat2(a.as_str(), declared);
        let c = concat2(b.as_str(), " but contains ");
        let d = concat2(c.as_str(), mime);
        assert(d@ =~= ERROR_IMAGE_UNSUPPORTED@ + ": payload declares "@ + declared@ + " but contains "@ + mime@);
        return Err(d);
    }
    Ok((bytes, extension, mime))
}

/// The hyphenated lower-case text of a UUID: 36 characters, each a
/// lower-case hexadecimal digit or `-`.
pub open spec fn uuid_text(s: Seq<char>) -> bool {
    s.len() == 36 && forall|i: int| 0 <= i < 36 ==> #[trigger] uuid_char(s[i])
}

pub open spec fn uuid_char(c: char) -> bool {
    ('0' <= c && c <= '9') || ('a' <= c && c <= 'f') || c == '-'
}

/// A fresh identifier from `uuid::Uuid::new_v4`, printed with `Display`
/// (the hyphenated lower-case form). Which identifier comes out is left open
/// (it is random); of every outcome it holds that the text is a hyphenated
/// lower-case UUID that parses back to itself and is not the nil UUID (a
/// version-4 UUID has version bits set).
#[verifier::external_body]
fn random_uuid() -> (r: String)
    ensures
        uuid_text(r@),
        uuid_canonical_form(r@) == Some((r@, false)),
{
    uuid::Uuid::new_v4().to_string()
}

/// `<prefix><id>.<extension>`, the managed file name of a new asset.
pub open spec fn asset_name_spec(kind: AssetKind, id: Seq<char>, extension: Seq<char>) -> Seq<char> {
    kind_prefix(kind) + id + "."@ + extension
}

/// Names a new managed asset after a fresh random identifier: a canonical,
/// non-nil UUID. With a managed image extension the name is one that
/// `is_managed_asset_id` accepts for the kind.
pub fn new_asset_id(kind: AssetKind, extension: &str) -> (r: String)
    ensures
        exists|id: Seq<char>| r@ == #[trigger] asset_name_spec(kind, id, extension@) && uuid_text(id)
            && uuid_canonical_form(id) == Some((id, false)),
        managed_extension(extension@) ==> managed_asset_id(r@, kind),
{
    let id = random_uuid();
    let a = concat2(kind.prefix(), id.as_str());
    let b = concat2(a.as_str(), ".");
    let r = concat2(b.as_str(), extension);
    proof {
        reveal_strlit(".");
        assert(r@ =~= asset_name_spec(kind, id@, extension@));
        if managed_extension(extension@) {
            lemma_managed_name(kind, id@, extension@);
        }
    }
    r
}

proof fn lemma_managed_name(kind: AssetKind, id: Seq<char>, extension: Seq<char>)
    requires
        uuid_text(id),
        managed_extension(extension),
    ensures
        managed_asset_id(asset_name_spec(kind, id, extension), kind),
{
    reveal_strlit("background-");
    reveal_strlit("avatar-");
    reveal_strlit(".");
    reveal_strlit("png");
    reveal_strlit("jpg");
    reveal_strlit("jpeg");
    reveal_strlit("webp");
    let p = kind_prefix(kind);
    let name = asset_name_spec(kind, id, extension);
    let dot: int = p.len() as int + 36;
    assert(name.len() == p.len() + 37 + extension.len());
    assert forall|i: int| 0 <= i < name.len() implies #[trigger] name[i] != '/' && name[i] != '\\'
        && '\0' <= name[i] && name[i] <= '\u{7f}' && (i > dot ==> name[i] != '.') by {
        if i < p.len() {
            assert(name[i] == p[i]);
        } else if i < dot {
            assert(name[i] == id[i - p.len()]);
            assert(uuid_char(id[i - p.len()]));
        } else if i > dot {
            assert(name[i] == extension[i - dot - 1]);
        }
    }
    assert(!name.contains('/'));
    assert(!name.contains('\\'));
    assert(name[dot] == '.');
    crate::text::lemma_last_index_unique(name, '.', dot);
    assert(name.skip(dot + 1) =~= extension);
    assert(has_prefix(name, p)) by {
        assert(name.take(p.len() as int) =~= p);
    }
    assert(vstd::utf8::is_ascii_chars(name));
    vstd::utf8::is_ascii_chars_encode_utf8(name);
}

/// The kind a managed file name belongs to, decided by its prefix; `None`
/// for anything that is not a managed asset id of that kind.
pub open spec fn managed_kind(asset_id: Seq<char>) -> Option<AssetKind> {
    if has_prefix(asset_id, "background-"@) {
        if managed_asset_id(asset_id, AssetKind::Background) { Some(AssetKind::Background) } else { None }
    } else if has_prefix(asset_id, "avatar-"@) {
        if managed_asset_id(asset_id, AssetKind::Avatar) { Some(AssetKind::Avatar) } else { None }
    } else {
        None
    }
}

/// Before a managed file is deleted, its id must be a managed id of the kind
/// its prefix names.
pub fn removable_asset_kind(asset_id: &str) -> (r: Result<AssetKind, String>)
    ensures
        match managed_kind(asset_id@) {
            Some(k) => r == Ok::<AssetKind, String>(k),
            None => r matches Err(e) && e@ == "invalid managed asset id"@,
        },
{
    let kind = if starts_with(asset_id, AssetKind::Background.prefix()) {
        AssetKind::Background
    } else if starts_with(asset_id, AssetKind::Avatar.prefix()) {
        AssetKind::Avatar
    } else {
        return Err("invalid managed asset id".to_string());
    };
    if !is_managed_asset_id(asset_id, kind) {
        return Err("invalid managed asset id".to_string());
    }
    Ok(kind)
}

/// A managed asset may be discarded only when no profile and not the avatar
/// reference it.
pub fn discard_check(referenced: &Vec<String>, asset_id: &str) -> (r: Result<(), String>)
    ensures
        r is Ok <==> !(exists|i: int| 0 <= i < referenced@.len() && #[trigger] referenced@[i]@ == asset_id@),
        r matches Err(e) ==> e@ == "managed asset is still in use"@,
{
    let mut i: usize = 0;
    while i < referenced.len()
        invariant
            i <= referenced@.len(),
            forall|j: int| 0 <= j < i ==> #[trigger] referenced@[j]@ != asset_id@,
        decreases referenced.len() - i,
    {
        if str_eq(referenced[i].as_str(), asset_id) {
            return Err("managed asset is still in use".to_string());
        }
        i = i + 1;
    }
    Ok(())
}

/// The referenced ids before an edit that nothing references after it, in
/// their original order: the files to delete.
pub open spec fn released_assets(before: Seq<Seq<char>>, after: Seq<Seq<char>>) -> Seq<Seq<char>> {
    before.filter(|id: Seq<char>| !after.contains(id))
}

/// Lists the managed files an edit released (background images of any
/// profile and the avatar are considered together).
pub fn replaced_assets(before: &Vec<String>, after: &Vec<String>) -> (r: Vec<String>)
    ensures
        r@.map_values(|s: String| s@) == released_assets(before@.map_values(|s: String| s@), after@.map_values(|s: String| s@)),
{
    let ghost b = before@.map_values(|s: String| s@);
    let ghost a = after@.map_values(|s: String| s@);
    let mut r: Vec<String> = Vec::new();
    let mut i: usize = 0;
    assert(b.take(0).filter(|id: Seq<char>| !a.contains(id)) =~= Seq::<Seq<char>>::empty());
    while i < before.len()
        invariant
            i <= before@.len(),
            b == before@.map_values(|s: String| s@),
            a == after@.map_values(|s: String| s@),
            r@.map_values(|s: String| s@) == b.take(i as int).filter(|id: Seq<char>| !a.contains(id)),
        decreases before.len() - i,
    {
        let id = before[i].as_str();
        let mut kept = false;
        let mut j: usize = 0;
        while j < after.len()
            invariant
                j <= after@.len(),
                a == after@.map_values(|s: String| s@),
                kept == exists|k: int| 0 <= k < j && #[trigger] after@[k]@ == id@,
            decreases after.len() - j,
        {
            if str_eq(after[j].as_str(), id) {
                kept = true;
            }
            j = j + 1;
        }
        proof {
            assert(b.take(i + 1).drop_last() =~= b.take(i as int));
            assert(b.take(i + 1).last() == id@);
            reveal(Seq::filter);
            if kept {
                let k = choose|k: int| 0 <= k < after@.len() && #[trigger] after@[k]@ == id@;
                assert(a[k] == id@);
            } else {
                assert forall|k: int| 0 <= k < a.len() implies a[k] != id@ by {
                    assert(a[k] == after@[k]@);
                }
            }
        }
        if !kept {
            let copy = owned(id);
            let ghost before_r = r@.map_values(|s: String| s@);
            r.push(copy);
            assert(r@.map_values(|s: String| s@) =~= before_r.push(id@));
        }
        i = i + 1;
    }
    assert(b.take(i as int) =~= b);
    r
}

/// Whether the selected background can be shown: the built-in materials
/// always can; an image needs a managed background id whose file is present
/// (`image_file_present` is the host's check of that file); the wallpaper
/// needs the current wallpaper file (`wallpaper_present`).
pub fn background_available(kind: BackgroundType, image_asset_id: Option<&str>, image_file_present: bool, wallpaper_present: bool) -> (r: bool)
    ensures
        r == match kind {
            BackgroundType::Glass | BackgroundType::Solid | BackgroundType::Gradient => true,
            BackgroundType::Image => image_asset_id matches Some(id) && managed_asset_id(id@, AssetKind::Background)
                && image_file_present,
            BackgroundType::Wallpaper => wallpaper_present,
        },
{
    match kind {
        BackgroundType::Glass | BackgroundType::Solid | BackgroundType::Gradient => true,
        BackgroundType::Image => match image_asset_id {
            Some(id) => is_managed_asset_id(id, AssetKind::Background) && image_file_present,
            None => false,
        },
        BackgroundType::Wallpaper => wallpaper_present,
    }
}

/// Whether the avatar can be shown: a managed avatar id whose file is present.
pub fn avatar_available(asset_id: Option<&str>, file_present: bool) -> (r: bool)
    ensures
        r == (asset_id matches Some(id) && managed_asset_id(id@, AssetKind::Avatar) && file_present),
{
    match asset_id {
        Some(id) => is_managed_asset_id(id, AssetKind::Avatar) && file_present,
        None => false,
    }
}

} // verus!
