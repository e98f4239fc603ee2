use macocr::classify::classify_bytes;
use macocr::dims::probe_dimensions;
use macocr::geometry::{map_quad_to_box, BoundingBox, NormPoint, NormQuad, NORM_DENOM};
use macocr::ocr::{recognize, EngineError, Observation};

fn full_quad() -> NormQuad {
    NormQuad {
        top_left: NormPoint { x: 0, y: NORM_DENOM },
        top_right: NormPoint { x: NORM_DENOM, y: NORM_DENOM },
        bottom_right: NormPoint { x: NORM_DENOM, y: 0 },
        bottom_left: NormPoint { x: 0, y: 0 },
    }
}

fn make_png(w: u32, h: u32) -> Vec<u8> {
    let img = image::RgbaImage::new(w, h);
    let mut buf: Vec<u8> = Vec::new();
    img.write_to(&mut std::io::Cursor::new(&mut buf), image::ImageFormat::Png)
        .unwrap();
    buf
}

#[test]
fn unit_square_round_trip() {
    let b = map_quad_to_box(&full_quad(), 100, 200);
    assert_eq!(b, BoundingBox { x: 0, y: 0, w: 100, h: 200 });
}

#[test]
fn quarter_box_maps_exactly() {
    // Corners at (0.25, 0.25)..(0.75, 0.5) of a 100 x 200 image.
    let q = NormQuad {
        top_left: NormPoint { x: 250_000, y: 500_000 },
        top_right: NormPoint { x: 750_000, y: 500_000 },
        bottom_right: NormPoint { x: 750_000, y: 250_000 },
        bottom_left: NormPoint { x: 250_000, y: 250_000 },
    };
    let b = map_quad_to_box(&q, 100, 200);
    assert_eq!(b, BoundingBox { x: 25, y: 100, w: 50, h: 50 });
}

#[test]
fn boxes_stay_inside_image() {
    let q = NormQuad {
        top_left: NormPoint { x: 999_999, y: 999_999 },
        top_right: NormPoint { x: NORM_DENOM, y: 999_998 },
        bottom_right: NormPoint { x: 999_997, y: 1 },
        bottom_left: NormPoint { x: 3, y: 0 },
    };
    let b = map_quad_to_box(&q, 640, 480);
    assert!(b.x + b.w <= 640);
    assert!(b.y + b.h <= 480);
}

#[test]
fn degenerate_dimensions_collapse_boxes() {
    let b = map_quad_to_box(&full_quad(), 0, 0);
    assert_eq!(b, BoundingBox { x: 0, y: 0, w: 0, h: 0 });
}

#[test]
fn classifies_png_as_image() {
    assert!(classify_bytes(&make_png(3, 2)));
}

#[test]
fn classifies_text_as_non_image() {
    assert!(!classify_bytes(b"hello, this is plain text"));
    assert!(!classify_bytes(b""));
}

#[test]
fn probes_real_dimensions() {
    assert_eq!(probe_dimensions(&make_png(7, 5)), (7, 5));
}

#[test]
fn probe_failure_gives_zero_dimensions() {
    assert_eq!(probe_dimensions(b"definitely not an image"), (0, 0));
}

fn stub_observations() -> Vec<Observation> {
    vec![
        Observation { text: String::from("Hello"), corners: full_quad() },
        Observation {
            text: String::from("World"),
            corners: NormQuad {
                top_left: NormPoint { x: 0, y: 500_000 },
                top_right: NormPoint { x: 500_000, y: 500_000 },
                bottom_right: NormPoint { x: 500_000, y: 0 },
                bottom_left: NormPoint { x: 0, y: 0 },
            },
        },
    ]
}

#[test]
fn assembles_transcript_and_boxes() {
    let png = make_png(10, 20);
    let r = recognize(&png, Ok(stub_observations()));
    assert_eq!(r.text, "Hello\nWorld\n");
    assert_eq!(r.image_width, 10);
    assert_eq!(r.image_height, 20);
    assert_eq!(r.boxes.len(), 2);
    assert_eq!(r.boxes[0].text, "Hello");
    assert_eq!(
        (r.boxes[0].x, r.boxes[0].y, r.boxes[0].w, r.boxes[0].h),
        (0, 0, 10, 20)
    );
    assert_eq!(r.boxes[1].text, "World");
    assert_eq!(
        (r.boxes[1].x, r.boxes[1].y, r.boxes[1].w, r.boxes[1].h),
        (0, 10, 5, 10)
    );
}

#[test]
fn engine_failure_yields_empty_result() {
    let r = recognize(
        b"not an image",
        Err(EngineError { detail: String::from("engine unavailable") }),
    );
    assert_eq!(r.text, "");
    assert_eq!(r.image_width, 0);
    assert_eq!(r.image_height, 0);
    assert_eq!(r.boxes.len(), 0);
}

#[test]
fn recognition_is_deterministic() {
    let png = make_png(4, 4);
    let a = recognize(&png, Ok(stub_observations()));
    let b = recognize(&png, Ok(stub_observations()));
    assert_eq!(a.text, b.text);
    assert_eq!(a.image_width, b.image_width);
    assert_eq!(a.image_height, b.image_height);
    assert_eq!(a.boxes.len(), b.boxes.len());
    for i in 0..a.boxes.len() {
        assert_eq!(a.boxes[i].text, b.boxes[i].text);
        assert_eq!(a.boxes[i].x, b.boxes[i].x);
        assert_eq!(a.boxes[i].y, b.boxes[i].y);
        assert_eq!(a.boxes[i].w, b.boxes[i].w);
        assert_eq!(a.boxes[i].h, b.boxes[i].h);
    }
}
