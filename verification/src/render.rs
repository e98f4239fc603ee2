//! Response rendering: content negotiation over the `Accept` header and
//! the HTML pages. The JSON shape is carried by `UploadResponse` itself;
//! the HTML page embeds the HTML-escaped transcript.

use vstd::prelude::*;
use crate::text::{contains_seq, html_escape, spec_escape, str_contains};
use crate::upload::UploadResponse;

verus! {

pub const FORM_PAGE_HEAD: &'static str = "<!doctype html>\n<html>\n<head>\n<meta charset=\"utf-8\">\n<meta name=\"viewport\" content=\"width=device-width, initial-scale=1.0\">\n<title>macocr</title>\n</head>\n<body>\n<h1>macocr v";

pub const FORM_PAGE_TAIL: &'static str = "</h1>\n<form action=\"/upload\" method=\"post\" enctype=\"multipart/form-data\">\n<label>\nChoose file:\n<input type=\"file\" name=\"file\" required>\n</label>\n<br><br>\n<input type=\"submit\" value=\"Upload file\">\n</form>\n</body>\n</html>\n";

pub const RESULT_PAGE_HEAD: &'static str = "<!doctype html>\n<html>\n<head>\n<meta charset=\"utf-8\">\n<meta name=\"viewport\" content=\"width=device-width, initial-scale=1.0\">\n<title>OCR Result</title>\n</head>\n<body>\n<h1>";

pub const RESULT_PAGE_MID: &'static str = "</h1>\n<pre>";

pub const RESULT_PAGE_TAIL: &'static str = "</pre>\n</body>\n</html>\n";

/// Whether the request asked for JSON: its `Accept` header, if any,
/// mentions `application/json`.
pub fn wants_json(accept: Option<&str>) -> (r: bool)
    ensures
        r == match accept {
            Some(a) => contains_seq(a@, "application/json"@),
            None => false,
        },
{
    match accept {
        Some(a) => str_contains(a, "application/json"),
        None => false,
    }
}

/// The upload form page, with the version string embedded.
pub open spec fn spec_form_page(version: Seq<char>) -> Seq<char> {
    FORM_PAGE_HEAD@ + version + FORM_PAGE_TAIL@
}

/// Renders the upload form page.
pub fn form_page(version: &str) -> (r: String)
    ensures
        r@ == spec_form_page(version@),
{
    let mut out = String::new();
    out.append(FORM_PAGE_HEAD);
    out.append(version);
    out.append(FORM_PAGE_TAIL);
    out
}

/// The page's heading: the result marker on success, else the message.
pub open spec fn spec_page_title(success: bool, message: Seq<char>) -> Seq<char> {
    if success {
        "OCR Result:"@
    } else {
        message
    }
}

/// The HTML response page for one upload outcome: the heading, then the
/// HTML-escaped transcript.
pub open spec fn spec_upload_page(success: bool, message: Seq<char>, transcript: Seq<char>) -> Seq<
    char,
> {
    RESULT_PAGE_HEAD@ + spec_page_title(success, message) + RESULT_PAGE_MID@ + spec_escape(
        transcript,
    ) + RESULT_PAGE_TAIL@
}

/// Renders the HTML response page from the canonical response record.
pub fn upload_page(resp: &UploadResponse) -> (r: String)
    ensures
        r@ == spec_upload_page(resp.success, resp.message@, resp.ocr_result@),
{
    let mut out = String::new();
    out.append(RESULT_PAGE_HEAD);
    if resp.success {
        out.append("OCR Result:");
    } else {
        out.append(resp.message.as_str());
    }
    out.append(RESULT_PAGE_MID);
    let escaped = html_escape(resp.ocr_result.as_str());
    out.append(escaped.as_str());
    out.append(RESULT_PAGE_TAIL);
    out
}

} // verus!
