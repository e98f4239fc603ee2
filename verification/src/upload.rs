//! Upload handling rules: the per-request outcome, the canonical response
//! record both response shapes are built from, the randomized storage name
//! for an uploaded file, and the request body size cap.

use vstd::prelude::*;
use crate::ocr::{OCRBoxItem, OCRResult};

verus! {

/// Hard cap on an upload request body, enforced before any processing.
pub const MAX_BODY_BYTES: u64 = 100 * 1024 * 1024;

/// Name of the upload directory under the system temporary directory.
pub const UPLOAD_DIR_NAME: &'static str = "macocr_uploads";

/// Whether a request body of `len` bytes is accepted at all.
pub fn body_within_limit(len: u64) -> (r: bool)
    ensures
        r == (len <= MAX_BODY_BYTES),
{
    len <= MAX_BODY_BYTES
}

/// The receive step's decision: a request carries an upload only when a
/// multipart field was present and its payload is non-empty. A missing
/// field and a zero-length one alike mean no file was received.
pub fn payload_received(data: Option<&[u8]>) -> (r: bool)
    ensures
        r == match data {
            Some(d) => d@.len() > 0,
            None => false,
        },
{
    match data {
        Some(d) => d.len() > 0,
        None => false,
    }
}

/// How one upload request ended. A non-image upload is not an error exit:
/// it is a completed request whose response says `success: false`.
#[derive(Debug)]
pub enum UploadOutcome {
    /// The multipart body held no field.
    NoFile,
    /// The upload file could not be created.
    CreateFailed,
    /// The upload file could not be written.
    WriteFailed,
    /// The bytes are not an image; recognition was not attempted.
    NotImage,
    /// The bytes are an image and recognition ran.
    Recognized(OCRResult),
}

/// The canonical per-request response record; the JSON and the HTML
/// response are both rendered from it.
#[derive(Debug)]
pub struct UploadResponse {
    pub success: bool,
    pub message: String,
    pub ocr_result: String,
    pub image_width: u32,
    pub image_height: u32,
    pub ocr_boxes: Vec<OCRBoxItem>,
}

/// Builds the one canonical response record for an upload outcome.
pub fn build_response(outcome: UploadOutcome) -> (r: UploadResponse)
    ensures
        match outcome {
            UploadOutcome::NoFile => !r.success && r.message@ == "No file received"@,
            UploadOutcome::CreateFailed => !r.success && r.message@ == "Unable to create file"@,
            UploadOutcome::WriteFailed => !r.success && r.message@ == "Failed to write file"@,
            UploadOutcome::NotImage => !r.success && r.message@
                == "The file type is not an image"@,
            UploadOutcome::Recognized(res) => r.success && r.message@
                == "File uploaded successfully"@ && r.ocr_result == res.text && r.image_width
                == res.image_width && r.image_height == res.image_height && r.ocr_boxes
                == res.boxes,
        },
        !r.success ==> r.ocr_result@.len() == 0 && r.image_width == 0 && r.image_height == 0
            && r.ocr_boxes@.len() == 0,
{
    match outcome {
        UploadOutcome::NoFile => UploadResponse {
            success: false,
            message: String::from_str("No file received"),
            ocr_result: String::new(),
            image_width: 0,
            image_height: 0,
            ocr_boxes: Vec::new(),
        },
        UploadOutcome::CreateFailed => UploadResponse {
            success: false,
            message: String::from_str("Unable to create file"),
            ocr_result: String::new(),
            image_width: 0,
            image_height: 0,
            ocr_boxes: Vec::new(),
        },
        UploadOutcome::WriteFailed => UploadResponse {
            success: false,
            message: String::from_str("Failed to write file"),
            ocr_result: String::new(),
            image_width: 0,
            image_height: 0,
            ocr_boxes: Vec::new(),
        },
        UploadOutcome::NotImage => UploadResponse {
            success: false,
            message: String::from_str("The file type is not an image"),
            ocr_result: String::new(),
            image_width: 0,
            image_height: 0,
            ocr_boxes: Vec::new(),
        },
        UploadOutcome::Recognized(res) => UploadResponse {
            success: true,
            message: String::from_str("File uploaded successfully"),
            ocr_result: res.text,
            image_width: res.image_width,
            image_height: res.image_height,
            ocr_boxes: res.boxes,
        },
    }
}

/// A character of a hyphenated identifier: lowercase hex digit or hyphen.
pub open spec fn is_uuid_char(c: char) -> bool {
    c == '-' || (48 <= c as u32 && c as u32 <= 57) || (97 <= c as u32 && c as u32 <= 102)
}

/// The shape of a freshly drawn random identifier's text form.
pub open spec fn uuid_shape(s: Seq<char>) -> bool {
    s.len() == 36 && forall|i: int| 0 <= i < s.len() ==> is_uuid_char(#[trigger] s[i])
}

/// Relies on uuid::Uuid::new_v4 and its Display impl: the hyphenated
/// form, 36 characters of lowercase hex digits and hyphens. The value is
/// random; nothing more is assumed of it.
#[verifier::external_body]
fn fresh_uuid_string() -> (r: String)
    ensures
        uuid_shape(r@),
{
    uuid::Uuid::new_v4().to_string()
}

/// Scans `s` right to left from index `i` for an extension dot, as a
/// path's final component is searched: a `/` ends the search, and a dot
/// at the start of the component does not begin an extension.
pub open spec fn spec_ext_from(s: Seq<char>, i: int) -> Option<Seq<char>>
    decreases i + 1,
{
    if i < 0 {
        None
    } else if s[i] == '/' {
        None
    } else if s[i] == '.' {
        if i == 0 || s[i - 1] == '/' {
            None
        } else {
            Some(s.subrange(i + 1, s.len() as int))
        }
    } else {
        spec_ext_from(s, i - 1)
    }
}

/// The extension of a file name: what follows the last dot of its final
/// component, unless that dot starts the component.
pub open spec fn spec_extension(s: Seq<char>) -> Option<Seq<char>> {
    spec_ext_from(s, s.len() - 1)
}

/// Extracts the extension of a file name, if any.
pub fn extension_of(name: &str) -> (r: Option<String>)
    ensures
        match r {
            Some(e) => spec_extension(name@) == Some(e@),
            None => spec_extension(name@) == None::<Seq<char>>,
        },
{
    let n = name.unicode_len();
    let mut i: usize = n;
    while i > 0
        invariant
            n == name@.len(),
            i <= n,
            spec_extension(name@) == spec_ext_from(name@, i as int - 1),
        decreases i,
    {
        let c = name.get_char(i - 1);
        if c == '/' {
            return None;
        } else if c == '.' {
            if i == 1 {
                return None;
            }
            let p = name.get_char(i - 2);
            if p == '/' {
                return None;
            }
            let piece = name.substring_char(i, n);
            return Some(String::from_str(piece));
        }
        i = i - 1;
    }
    None
}

/// The storage name for an upload: the random identifier, keeping the
/// original name's non-empty extension if it has one.
pub open spec fn spec_upload_name(u: Seq<char>, original: Seq<char>) -> Seq<char> {
    match spec_extension(original) {
        Some(e) => if e.len() == 0 {
            u
        } else {
            u + "."@ + e
        },
        None => u,
    }
}

/// Joins a fresh identifier with the original name's extension.
pub fn make_upload_name(fresh_part: &str, original: &str) -> (r: String)
    ensures
        r@ == spec_upload_name(fresh_part@, original@),
{
    match extension_of(original) {
        Some(e) => {
            if e.as_str().unicode_len() == 0 {
                String::from_str(fresh_part)
            } else {
                let mut out = String::from_str(fresh_part);
                out.append(".");
                out.append(e.as_str());
                out
            }
        },
        None => String::from_str(fresh_part),
    }
}

/// The properties of a found extension: the character before it is a dot
/// that does not start the component, the extension is the suffix after
/// that dot, and nothing in it is a dot or a separator. The scan
/// hypothesis says the positions above `i` were already walked past.
proof fn lemma_ext_from_props(s: Seq<char>, i: int, e: Seq<char>)
    requires
        i < s.len(),
        forall|j: int| i < j < s.len() ==> s[j] != '.' && s[j] != '/',
        spec_ext_from(s, i) == Some(e),
    ensures
        1 <= s.len() - e.len() - 1,
        s[s.len() - e.len() - 1] == '.',
        s[s.len() - e.len() - 2] != '/',
        e =~= s.subrange(s.len() - e.len(), s.len() as int),
        forall|j: int| s.len() - e.len() <= j < s.len() ==> s[j] != '.' && s[j] != '/',
    decreases i + 1,
{
    if i >= 0 && s[i] != '/' && s[i] != '.' {
        lemma_ext_from_props(s, i - 1, e);
    }
}

/// The extension scan walks straight past characters that are neither a
/// dot nor a separator.
proof fn lemma_ext_scan_skips(s: Seq<char>, hi: int, lo: int)
    requires
        -1 <= lo <= hi < s.len(),
        forall|j: int| lo < j <= hi ==> s[j] != '.' && s[j] != '/',
    ensures
        spec_ext_from(s, hi) == spec_ext_from(s, lo),
    decreases hi - lo,
{
    if hi > lo {
        lemma_ext_scan_skips(s, hi - 1, lo);
    }
}

/// The stored name keeps the upload's extension: when the original name
/// has a non-empty extension, the randomized storage name has exactly the
/// same one.
pub proof fn lemma_upload_name_keeps_extension(u: Seq<char>, original: Seq<char>, e: Seq<char>)
    requires
        uuid_shape(u),
        spec_extension(original) == Some(e),
        e.len() > 0,
    ensures
        spec_extension(spec_upload_name(u, original)) == Some(e),
{
    reveal_strlit(".");
    let name = spec_upload_name(u, original);
    assert(name == u + "."@ + e);
    lemma_ext_from_props(original, original.len() - 1, e);
    assert(!is_uuid_char('.'));
    assert(!is_uuid_char('/'));
    assert(name[36] == '.');
    assert forall|j: int| 36 < j < name.len() implies name[j] != '.' && name[j] != '/' by {
        assert(name[j] == e[j - 37]);
        assert(e[j - 37] == original[original.len() - e.len() + (j - 37)]);
    }
    lemma_ext_scan_skips(name, name.len() - 1, 36);
    assert(name[35] == u[35] && is_uuid_char(u[35]));
    assert(spec_ext_from(name, 36) == Some(name.subrange(37, name.len() as int)));
    assert(name.subrange(37, name.len() as int) =~= e);
}

/// A randomized storage name for one uploaded file: a fresh identifier,
/// with the original upload name's extension preserved when present.
pub fn fresh_upload_name(original: &str) -> (r: String)
    ensures
        exists|u: Seq<char>| uuid_shape(u) && r@ == spec_upload_name(u, original@),
{
    let fresh = fresh_uuid_string();
    let r = make_upload_name(fresh.as_str(), original);
    proof {
        assert(uuid_shape(fresh@) && r@ == spec_upload_name(fresh@, original@));
    }
    r
}

} // verus!
