use vstd::prelude::*;
use base64::Engine as _;
use crate::context::opt_view;
use crate::error::{result_view, AppError, ErrorView};

verus! {

/// The MIME type that `infer` recognises in a buffer, if any.
pub uninterp spec fn mime_of(data: Seq<u8>) -> Option<Seq<char>>;

/// The standard, padded base64 encoding of a buffer.
pub uninterp spec fn base64_of(data: Seq<u8>) -> Seq<char>;

/// Relies on `infer::get`: the MIME type of the first known signature that
/// the buffer matches, which depends on the bytes alone.
#[verifier::external_body]
fn sniff_mime(data: &Vec<u8>) -> (r: Option<String>)
    ensures
        opt_view(r) == mime_of(data@),
{
    match infer::get(data) {
        Some(kind) => Some(kind.mime_type().to_string()),
        None => None,
    }
}

/// Relies on `base64::engine::general_purpose::STANDARD.encode`, which
/// panics only when the encoded length overflows `usize`.
#[verifier::external_body]
fn encode_base64(data: &Vec<u8>) -> (r: String)
    requires
        data@.len() <= usize::MAX / 2,
    ensures
        r@ == base64_of(data@),
{
    base64::engine::general_purpose::STANDARD.encode(data)
}

/// Relies on `uuid::Uuid::new_v4` and its `Display`: a fresh random
/// identifier in hyphenated form, 36 characters long.
#[verifier::external_body]
fn new_uuid() -> (r: String)
    ensures
        r@.len() == 36,
{
    uuid::Uuid::new_v4().to_string()
}

/// The directory that uploaded images are stored in.
pub const UPLOAD_DIR: &'static str = "images/chat/";

/// The extension used when a file name has none.
pub const DEFAULT_EXT: &'static str = "jpg";

/// The part of `s` after its last dot; all of `s` when it holds none.
pub open spec fn after_last_dot(s: Seq<char>) -> Seq<char>
    decreases s.len(),
{
    if s.len() == 0 {
        s
    } else if s.last() == '.' {
        Seq::empty()
    } else {
        after_last_dot(s.drop_last()).push(s.last())
    }
}

/// The extension of a file name, or the default one when it is empty.
pub open spec fn ext_or_default(name: Seq<char>) -> Seq<char> {
    if after_last_dot(name).len() == 0 {
        DEFAULT_EXT@
    } else {
        after_last_dot(name)
    }
}

proof fn lemma_after_last_dot(s: Seq<char>, i: int)
    requires
        0 <= i <= s.len(),
        i > 0 ==> s[i - 1] == '.',
        forall|j: int| i <= j < s.len() ==> s[j] != '.',
    ensures
        after_last_dot(s) == s.subrange(i, s.len() as int),
    decreases s.len(),
{
    if s.len() == 0 {
    } else if s.last() == '.' {
        assert(s.subrange(i, s.len() as int) =~= Seq::<char>::empty());
    } else {
        let d = s.drop_last();
        assert forall|j: int| i <= j < d.len() implies d[j] != '.' by {
            assert(d[j] == s[j]);
        }
        lemma_after_last_dot(d, i);
        assert(d.subrange(i, d.len() as int).push(s.last()) =~= s.subrange(i, s.len() as int));
    }
}

/// The extension of an uploaded file's name: the text after its last dot,
/// the whole name when it has no dot, and "jpg" when that text is empty.
pub fn get_ext_file_or_default(filename: &str) -> (r: Result<String, AppError>)
    ensures
        r matches Ok(ext) && ext@ == ext_or_default(filename@),
{
    let n = filename.unicode_len();
    let mut i: usize = n;
    while i > 0 && filename.get_char(i - 1) != '.'
        invariant
            n == filename@.len(),
            i <= n,
            forall|j: int| i <= j < n ==> filename@[j] != '.',
        decreases i,
    {
        i = i - 1;
    }
    proof {
        lemma_after_last_dot(filename@, i as int);
    }
    let ext = filename.substring_char(i, n);
    if n - i == 0 {
        Ok(String::from_str(DEFAULT_EXT))
    } else {
        Ok(String::from_str(ext))
    }
}

/// The file name an upload is stored under: the name the client gave, or a
/// fresh identifier with the default extension.
pub fn get_filename_or_default(file_name: Option<String>) -> (r: Result<String, AppError>)
    ensures
        match file_name {
            Some(n) => r matches Ok(s) && s == n,
            None => r matches Ok(s) && s@.len() == 40 && s@.subrange(36, 40) == ".jpg"@,
        },
{
    match file_name {
        Some(n) => Ok(n),
        None => {
            let id = new_uuid();
            let r = id.concat(".jpg");
            proof {
                reveal_strlit(".jpg");
                assert(r@.subrange(36, 40) =~= ".jpg"@);
            }
            Ok(r)
        },
    }
}

/// The name an accepted upload is stored under.
pub open spec fn upload_file_name(id: Seq<char>, ext: Seq<char>) -> Seq<char> {
    "chat-"@ + id + "."@ + ext
}

/// Where an accepted upload is written, first under a temporary name and then
/// moved to its final path.
#[derive(Debug, Clone)]
pub struct UploadTarget {
    pub path: String,
    pub tmp_path: String,
}

/// A fresh place for an upload with extension `ext`.
pub fn plan_upload(ext: &str) -> (r: UploadTarget)
    ensures
        exists|id: Seq<char>|
            id.len() == 36 && r.path@ == UPLOAD_DIR@ + upload_file_name(id, ext@) && r.tmp_path@
                == UPLOAD_DIR@ + ".tmp-"@ + upload_file_name(id, ext@),
{
    let id = new_uuid();
    let name = String::from_str("chat-").concat(id.as_str()).concat(".").concat(ext);
    let path = String::from_str(UPLOAD_DIR).concat(name.as_str());
    let tmp_path = String::from_str(UPLOAD_DIR).concat(".tmp-").concat(name.as_str());
    assert(path@ =~= UPLOAD_DIR@ + upload_file_name(id@, ext@));
    assert(tmp_path@ =~= UPLOAD_DIR@ + ".tmp-"@ + upload_file_name(id@, ext@));
    UploadTarget { path, tmp_path }
}

/// The prefix of every image MIME type.
pub const IMAGE_PREFIX: &'static str = "image/";

/// Whether `prefix` opens `s`.
pub fn starts_with(s: &str, prefix: &str) -> (r: bool)
    ensures
        r == prefix@.is_prefix_of(s@),
{
    let n = prefix.unicode_len();
    if n > s.unicode_len() {
        return false;
    }
    let mut i: usize = 0;
    while i < n
        invariant
            n == prefix@.len(),
            n <= s@.len(),
            i <= n,
            forall|j: int| 0 <= j < i ==> prefix@[j] == s@[j],
        decreases n - i,
    {
        if prefix.get_char(i) != s.get_char(i) {
            return false;
        }
        i = i + 1;
    }
    assert(prefix@ =~= s@.subrange(0, n as int));
    true
}

/// Whether a recognised type is an image type.
pub open spec fn is_image(mime: Seq<char>) -> bool {
    IMAGE_PREFIX@.is_prefix_of(mime)
}

/// The outcome of checking the recognised type of an uploaded file.
pub open spec fn upload_check(mime: Option<Seq<char>>) -> Result<Seq<char>, ErrorView> {
    match mime {
        None => Err(ErrorView::BadRequest("Unknown file type"@)),
        Some(m) => if is_image(m) {
            Ok(m)
        } else {
            Err(ErrorView::BadRequest("Uploaded file is not an image"@))
        },
    }
}

/// Accepts the recognised type of an uploaded file when it is an image type.
pub fn check_upload_mime(mime: Option<String>) -> (r: Result<String, AppError>)
    ensures
        result_view(r) == upload_check(opt_view(mime)),
{
    match mime {
        None => Err(AppError::BadRequest(String::from_str("Unknown file type"))),
        Some(m) => if starts_with(m.as_str(), IMAGE_PREFIX) {
            Ok(m)
        } else {
            Err(AppError::BadRequest(String::from_str("Uploaded file is not an image")))
        },
    }
}

/// The outcome of validating uploaded bytes: nothing to store for an empty
/// upload, otherwise the check of its recognised type.
pub open spec fn upload_outcome(data: Seq<u8>) -> Result<Option<Seq<char>>, ErrorView> {
    if data.len() == 0 {
        Ok(None)
    } else {
        match upload_check(mime_of(data)) {
            Ok(m) => Ok(Some(m)),
            Err(e) => Err(e),
        }
    }
}

/// Validates an uploaded file: `Ok(None)` when it is empty and is skipped,
/// `Ok(Some(mime))` for an image, and a bad request otherwise.
pub fn validate_upload(data: &Vec<u8>) -> (r: Result<Option<String>, AppError>)
    ensures
        match r {
            Ok(m) => upload_outcome(data@) == Ok::<Option<Seq<char>>, ErrorView>(opt_view(m)),
            Err(e) => upload_outcome(data@) == Err::<Option<Seq<char>>, ErrorView>(e@),
        },
{
    if data.len() == 0 {
        return Ok(None);
    }
    match check_upload_mime(sniff_mime(data)) {
        Ok(m) => Ok(Some(m)),
        Err(e) => Err(e),
    }
}

/// The outcome of checking the recognised type of an attachment to encode.
pub open spec fn attachment_check(mime: Option<Seq<char>>) -> Result<Seq<char>, ErrorView> {
    match mime {
        None => Err(ErrorView::Internal("Unknown file type"@)),
        Some(m) => if is_image(m) {
            Ok(m)
        } else {
            Err(ErrorView::Internal("Not an image"@))
        },
    }
}

/// Accepts the recognised type of an attachment when it is an image type.
pub fn check_attachment_mime(mime: Option<String>) -> (r: Result<String, AppError>)
    ensures
        result_view(r) == attachment_check(opt_view(mime)),
{
    match mime {
        None => Err(AppError::InternalError(String::from_str("Unknown file type"))),
        Some(m) => if starts_with(m.as_str(), IMAGE_PREFIX) {
            Ok(m)
        } else {
            Err(AppError::InternalError(String::from_str("Not an image")))
        },
    }
}

/// An inline data URL: `data:<mime>;base64,<encoded>`.
pub open spec fn data_url(mime: Seq<char>, encoded: Seq<char>) -> Seq<char> {
    "data:"@ + mime + ";base64,"@ + encoded
}

/// The inline data URL of an image whose type and encoding are known.
pub fn data_url_of(mime: &str, encoded: &str) -> (r: String)
    ensures
        r@ == data_url(mime@, encoded@),
{
    String::from_str("data:").concat(mime).concat(";base64,").concat(encoded)
}

/// The outcome of encoding an attachment's bytes as an inline image.
pub open spec fn image_url_outcome(data: Seq<u8>) -> Result<Seq<char>, ErrorView> {
    match attachment_check(mime_of(data)) {
        Ok(m) => Ok(data_url(m, base64_of(data))),
        Err(e) => Err(e),
    }
}

/// Encodes an image's bytes as an inline data URL carrying its MIME type;
/// bytes of an unknown or non-image type are refused.
pub fn encode_image_to_base64(data: &Vec<u8>) -> (r: Result<String, AppError>)
    requires
        data@.len() <= usize::MAX / 2,
    ensures
        result_view(r) == image_url_outcome(data@),
{
    match check_attachment_mime(sniff_mime(data)) {
        Ok(m) => {
            let encoded = encode_base64(data);
            Ok(data_url_of(m.as_str(), encoded.as_str()))
        },
        Err(e) => Err(e),
    }
}

} // verus!
