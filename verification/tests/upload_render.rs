use macocr::classify::classify_bytes;
use macocr::cli::export_name;
use macocr::ocr::{OCRBoxItem, OCRResult};
use macocr::render::{form_page, upload_page, wants_json};
use macocr::text::html_escape;
use macocr::upload::{
    body_within_limit, build_response, extension_of, fresh_upload_name, make_upload_name,
    payload_received, UploadOutcome, MAX_BODY_BYTES,
};

#[test]
fn body_limit_is_100_mib() {
    assert_eq!(MAX_BODY_BYTES, 104_857_600);
    assert!(body_within_limit(0));
    assert!(body_within_limit(MAX_BODY_BYTES));
    assert!(!body_within_limit(MAX_BODY_BYTES + 1));
}

#[test]
fn empty_payload_counts_as_no_file() {
    assert!(!payload_received(None));
    assert!(!payload_received(Some(b"")));
    assert!(payload_received(Some(b"x")));
}

#[test]
fn no_file_response_json_shape() {
    let resp = build_response(UploadOutcome::NoFile);
    assert!(!resp.success);
    assert_eq!(resp.message, "No file received");
    assert_eq!(resp.ocr_result, "");
    assert_eq!(resp.image_width, 0);
    assert_eq!(resp.image_height, 0);
    assert!(resp.ocr_boxes.is_empty());
}

#[test]
fn no_file_response_html_shape() {
    let resp = build_response(UploadOutcome::NoFile);
    let page = upload_page(&resp);
    assert!(page.starts_with("<!doctype html>"));
    assert!(page.contains("<h1>No file received</h1>"));
}

#[test]
fn write_failures_report_file_system_errors() {
    let create = build_response(UploadOutcome::CreateFailed);
    assert!(!create.success);
    assert_eq!(create.message, "Unable to create file");
    let write = build_response(UploadOutcome::WriteFailed);
    assert!(!write.success);
    assert_eq!(write.message, "Failed to write file");
}

#[test]
fn non_image_upload_is_soft_failure() {
    assert!(!classify_bytes(b"some plain text upload"));
    let resp = build_response(UploadOutcome::NotImage);
    assert!(!resp.success);
    assert_eq!(resp.message, "The file type is not an image");
    assert_eq!(resp.ocr_result, "");
    let page = upload_page(&resp);
    assert!(page.contains("<h1>The file type is not an image</h1>"));
}

#[test]
fn successful_upload_response_carries_result() {
    let result = OCRResult::new(
        String::from("line one\n"),
        320,
        240,
        vec![OCRBoxItem::new(String::from("line one"), 1, 2, 3, 4)],
    );
    let resp = build_response(UploadOutcome::Recognized(result));
    assert!(resp.success);
    assert_eq!(resp.message, "File uploaded successfully");
    assert_eq!(resp.ocr_result, "line one\n");
    assert_eq!(resp.image_width, 320);
    assert_eq!(resp.image_height, 240);
    assert_eq!(resp.ocr_boxes.len(), 1);
    let page = upload_page(&resp);
    assert!(page.contains("<h1>OCR Result:</h1>"));
    assert!(page.contains("<pre>line one\n</pre>"));
}

#[test]
fn transcript_is_escaped_in_html() {
    assert_eq!(html_escape("a&b<c>d"), "a&amp;b&lt;c&gt;d");
    let result = OCRResult::new(String::from("<script>&\n"), 10, 10, Vec::new());
    let resp = build_response(UploadOutcome::Recognized(result));
    let page = upload_page(&resp);
    assert!(page.contains("<pre>&lt;script&gt;&amp;\n</pre>"));
    assert!(!page.contains("<pre><script>"));
}

#[test]
fn accept_header_negotiation() {
    assert!(wants_json(Some("application/json")));
    assert!(wants_json(Some("text/html, application/json;q=0.9")));
    assert!(!wants_json(Some("text/html")));
    assert!(!wants_json(None));
}

#[test]
fn form_page_embeds_version() {
    let page = form_page("1.2.3");
    assert!(page.starts_with("<!doctype html>"));
    assert!(page.contains("<h1>macocr v1.2.3</h1>"));
    assert!(page.contains("<form action=\"/upload\" method=\"post\" enctype=\"multipart/form-data\">"));
    assert!(page.contains("<input type=\"file\" name=\"file\" required>"));
}

#[test]
fn extension_extraction() {
    assert_eq!(extension_of("photo.png"), Some(String::from("png")));
    assert_eq!(extension_of("archive.tar.gz"), Some(String::from("gz")));
    assert_eq!(extension_of("trailing."), Some(String::from("")));
    assert_eq!(extension_of(".gitignore"), None);
    assert_eq!(extension_of("noext"), None);
    assert_eq!(extension_of("dir/file.txt"), Some(String::from("txt")));
    assert_eq!(extension_of("dir.d/file"), None);
}

#[test]
fn upload_name_preserves_extension() {
    assert_eq!(make_upload_name("fresh", "photo.png"), "fresh.png");
    assert_eq!(make_upload_name("fresh", "noext"), "fresh");
    assert_eq!(make_upload_name("fresh", "trailing."), "fresh");
}

#[test]
fn fresh_upload_names_are_uuid_shaped() {
    let named = fresh_upload_name("photo.png");
    assert_eq!(named.len(), 40);
    assert!(named.ends_with(".png"));
    assert!(named[..36]
        .chars()
        .all(|c| c == '-' || c.is_ascii_hexdigit()));
    let bare = fresh_upload_name("upload");
    assert_eq!(bare.len(), 36);
    assert!(!bare.contains('.'));
    // Two draws almost surely differ; equal draws would defeat the
    // randomized-name scheme.
    assert_ne!(fresh_upload_name("a.png"), fresh_upload_name("a.png"));
}

#[test]
fn export_names_sit_beside_the_input() {
    assert_eq!(export_name("path/to/img.png"), Some(String::from("img.txt")));
    assert_eq!(export_name("noext"), Some(String::from("noext.txt")));
    assert_eq!(export_name("a.tar.gz"), Some(String::from("a.tar.txt")));
    assert_eq!(export_name(".hidden"), Some(String::from(".hidden.txt")));
    assert_eq!(export_name(""), None);
    assert_eq!(export_name("dir/"), None);
}
