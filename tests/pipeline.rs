use std::io::Cursor;
use yells_at::bitmap::Bitmap;
use yells_at::compose::{composite, fit_thumbnail};
use yells_at::decode::{decode, image_format_from_content_type, load_template, ImageFormat};
use yells_at::error::ErrorKind;
use yells_at::extract::{extract_avatar_url, extract_from_body};
use yells_at::resolve::{
    finish_generation, public_profile_url, Action, AvatarLookup, FetchOutcome, FetchResponse,
    Stage,
};

fn solid(width: u32, height: u32, px: [u8; 4]) -> Bitmap {
    let mut pixels = Vec::new();
    for _ in 0..(width * height) {
        pixels.extend_from_slice(&px);
    }
    Bitmap::from_rgba(width, height, pixels).unwrap()
}

fn png_bytes(width: u32, height: u32, px: [u8; 4]) -> Vec<u8> {
    let img = image::RgbaImage::from_pixel(width, height, image::Rgba(px));
    let mut out = Cursor::new(Vec::new());
    image::DynamicImage::ImageRgba8(img)
        .write_to(&mut out, image::ImageOutputFormat::Png)
        .unwrap();
    out.into_inner()
}

fn ok_response(content_type: Option<&str>, body: Vec<u8>) -> FetchOutcome {
    FetchOutcome::Received(FetchResponse {
        status: 200,
        content_type: content_type.map(String::from),
        body,
    })
}

fn expect_fetch(action: Action) -> (String, Option<String>) {
    match action {
        Action::Fetch(req) => (req.url, req.accept),
        Action::Finish(_) => panic!("expected a fetch"),
    }
}

fn expect_finish(action: Action) -> Result<Option<Bitmap>, ErrorKind> {
    match action {
        Action::Finish(r) => r,
        Action::Fetch(req) => panic!("expected the end, got a fetch of {}", req.url),
    }
}

const PROFILE_PAGE: &str =
    r#"<html><head><meta property="og:image" content="https://img.example/a.png"></head></html>"#;

#[test]
fn no_og_image_gives_none() {
    assert_eq!(extract_avatar_url("<html><head><title>hi</title></head><body></body></html>"), None);
    assert_eq!(extract_avatar_url(""), None);
    assert_eq!(extract_avatar_url(r#"<meta property="og:title" content="https://a.example/">"#), None);
}

#[test]
fn first_og_image_wins() {
    let html = r#"<html><head>
        <meta property="og:image" content="https://img.example/first.png">
        <meta property="og:image" content="https://img.example/second.png">
        </head></html>"#;
    assert_eq!(extract_avatar_url(html), Some("https://img.example/first.png".to_string()));
}

#[test]
fn not_a_url_gives_none() {
    assert_eq!(extract_avatar_url(r#"<meta property="og:image" content="not a url">"#), None);
    assert_eq!(extract_avatar_url(r#"<meta property="og:image" content="/relative.png">"#), None);
}

#[test]
fn first_og_image_without_content_gives_none() {
    let html = r#"<meta property="og:image"><meta property="og:image" content="https://img.example/b.png">"#;
    assert_eq!(extract_avatar_url(html), None);
}

#[test]
fn malformed_markup_still_extracts() {
    let html = r#"<html><head><meta property="og:image" content="https://img.example/a.png"><div><p></span>"#;
    assert_eq!(extract_avatar_url(html), Some("https://img.example/a.png".to_string()));
}

#[test]
fn body_is_read_lossily() {
    let mut body = vec![0xff, 0xfe];
    body.extend_from_slice(PROFILE_PAGE.as_bytes());
    assert_eq!(extract_from_body(&body), Some("https://img.example/a.png".to_string()));
}

#[test]
fn profile_url_is_one_escaped_segment() {
    assert_eq!(public_profile_url("octocat"), Some("https://github.com/octocat".to_string()));
    assert_eq!(public_profile_url("a b"), Some("https://github.com/a%20b".to_string()));
}

#[test]
fn content_types_map_exactly() {
    assert_eq!(image_format_from_content_type(Some("image/png")), Some(ImageFormat::Png));
    assert_eq!(image_format_from_content_type(Some("image/jpeg")), Some(ImageFormat::Jpeg));
    assert_eq!(image_format_from_content_type(None), None);
    assert_eq!(image_format_from_content_type(Some("image/png; charset=utf-8")), None);
    assert_eq!(image_format_from_content_type(Some("IMAGE/PNG")), None);
    assert_eq!(image_format_from_content_type(Some("text/html")), None);
    assert_eq!(image_format_from_content_type(Some("")), None);
}

#[test]
fn unsupported_type_is_not_decoded() {
    let garbage = b"definitely not an image";
    assert!(matches!(decode(garbage, None), Ok(None)));
    assert!(matches!(decode(garbage, Some("IMAGE/PNG")), Ok(None)));
    assert!(matches!(decode(garbage, Some("image/png; charset=utf-8")), Ok(None)));
}

#[test]
fn corrupt_bytes_are_a_decode_fault() {
    assert_eq!(decode(b"not a png", Some("image/png")).err(), Some(ErrorKind::Decode));
    assert_eq!(decode(b"not a jpeg", Some("image/jpeg")).err(), Some(ErrorKind::Decode));
}

#[test]
fn png_decodes_to_its_size() {
    let bytes = png_bytes(7, 5, [1, 2, 3, 255]);
    let img = decode(&bytes, Some("image/png")).unwrap().unwrap();
    assert_eq!((img.width(), img.height()), (7, 5));
    assert_eq!(img.pixels().len(), 7 * 5 * 4);
    assert_eq!(&img.pixels()[0..4], &[1, 2, 3, 255]);
}

#[test]
fn template_must_decode() {
    assert_eq!(load_template(b"broken").err(), Some(ErrorKind::StartupResource));
    let t = load_template(&png_bytes(3, 2, [0, 0, 0, 255])).unwrap();
    assert_eq!((t.width(), t.height()), (3, 2));
}

#[test]
fn bitmap_needs_four_bytes_per_pixel() {
    assert!(Bitmap::from_rgba(2, 2, vec![0; 15]).is_none());
    assert!(Bitmap::from_rgba(2, 2, vec![0; 16]).is_some());
    assert!(Bitmap::from_rgba(0, 9, vec![]).is_some());
}

#[test]
fn thumbnail_fits_the_box() {
    let square = fit_thumbnail(&solid(200, 200, [9, 9, 9, 255]));
    assert_eq!((square.width(), square.height()), (60, 60));
    let wide = fit_thumbnail(&solid(200, 100, [9, 9, 9, 255]));
    assert_eq!((wide.width(), wide.height()), (60, 30));
    let tall = fit_thumbnail(&solid(90, 300, [9, 9, 9, 255]));
    assert_eq!((tall.width(), tall.height()), (18, 60));
    let odd = fit_thumbnail(&solid(1000, 7, [9, 9, 9, 255]));
    assert_eq!((odd.width(), odd.height()), (60, 1));
}

#[test]
fn small_avatar_is_not_enlarged() {
    let small = fit_thumbnail(&solid(30, 20, [5, 6, 7, 255]));
    assert_eq!((small.width(), small.height()), (30, 20));
    assert_eq!(&small.pixels()[0..4], &[5, 6, 7, 255]);
}

#[test]
fn composite_keeps_template_size_and_outside_pixels() {
    let template = solid(100, 80, [0, 0, 255, 255]);
    let avatar = solid(200, 200, [255, 0, 0, 255]);
    let out = composite(&avatar, &template);
    assert_eq!((out.width(), out.height()), (100, 80));
    let px = |x: usize, y: usize| out.pixels()[(y * 100 + x) * 4..(y * 100 + x) * 4 + 4].to_vec();
    assert_eq!(px(0, 0), vec![255, 0, 0, 255]);
    assert_eq!(px(59, 59), vec![255, 0, 0, 255]);
    assert_eq!(px(60, 0), vec![0, 0, 255, 255]);
    assert_eq!(px(0, 60), vec![0, 0, 255, 255]);
    assert_eq!(px(99, 79), vec![0, 0, 255, 255]);
    assert_eq!(template.pixels()[0..4], [0, 0, 255, 255]);
}

#[test]
fn composite_with_small_template() {
    let template = solid(10, 10, [0, 255, 0, 255]);
    let out = composite(&solid(200, 100, [255, 255, 255, 255]), &template);
    assert_eq!((out.width(), out.height()), (10, 10));
    assert!(out.pixels().chunks(4).all(|p| p == [255, 255, 255, 255]));
}

#[test]
fn transparent_avatar_leaves_template() {
    let template = solid(70, 70, [10, 20, 30, 255]);
    let out = composite(&solid(50, 50, [200, 0, 0, 0]), &template);
    assert_eq!(out.pixels(), template.pixels());
}

#[test]
fn scenario_profile_not_found() {
    let (mut lookup, action) = AvatarLookup::start("ghost");
    let (url, accept) = expect_fetch(action);
    assert_eq!(url, "https://github.com/ghost");
    assert_eq!(accept.as_deref(), Some("text/html"));
    let done = lookup.advance(FetchOutcome::Received(FetchResponse {
        status: 404,
        content_type: Some("text/html".to_string()),
        body: b"Not Found".to_vec(),
    }));
    assert!(matches!(expect_finish(done), Ok(None)));
    assert_eq!(lookup.stage(), Stage::Done);
}

#[test]
fn scenario_avatar_composited() {
    let template = solid(120, 90, [0, 0, 0, 255]);
    let (mut lookup, action) = AvatarLookup::start("octocat");
    expect_fetch(action);
    let next = lookup.advance(ok_response(Some("text/html"), PROFILE_PAGE.as_bytes().to_vec()));
    let (url, accept) = expect_fetch(next);
    assert_eq!(url, "https://img.example/a.png");
    assert_eq!(accept, None);
    assert_eq!(lookup.stage(), Stage::Avatar);
    let done = lookup.advance(ok_response(Some("image/png"), png_bytes(200, 200, [250, 10, 10, 255])));
    let found = expect_finish(done);
    let out = finish_generation(found, &template).unwrap().unwrap();
    assert_eq!((out.width(), out.height()), (120, 90));
    for (i, (a, b)) in out.pixels().chunks(4).zip(template.pixels().chunks(4)).enumerate() {
        let (x, y) = (i % 120, i / 120);
        if x >= 60 || y >= 60 {
            assert_eq!(a, b);
        } else {
            assert_eq!(a, [250, 10, 10, 255]);
        }
    }
}

#[test]
fn scenario_unsupported_avatar_type() {
    let (mut lookup, _) = AvatarLookup::start("octocat");
    expect_fetch(lookup.advance(ok_response(Some("text/html"), PROFILE_PAGE.as_bytes().to_vec())));
    let done = lookup.advance(ok_response(Some("text/html"), b"<html></html>".to_vec()));
    let template = solid(2, 2, [0, 0, 0, 255]);
    assert!(matches!(finish_generation(expect_finish(done), &template), Ok(None)));
}

#[test]
fn scenario_corrupt_avatar() {
    let (mut lookup, _) = AvatarLookup::start("octocat");
    expect_fetch(lookup.advance(ok_response(Some("text/html"), PROFILE_PAGE.as_bytes().to_vec())));
    let done = lookup.advance(ok_response(Some("image/png"), b"\x89PNG but not really".to_vec()));
    let template = solid(2, 2, [0, 0, 0, 255]);
    assert_eq!(finish_generation(expect_finish(done), &template).err(), Some(ErrorKind::Decode));
}

#[test]
fn profile_without_avatar() {
    let (mut lookup, _) = AvatarLookup::start("octocat");
    let done = lookup.advance(ok_response(Some("text/html"), b"<html><body>nobody</body></html>".to_vec()));
    assert!(matches!(expect_finish(done), Ok(None)));
}

#[test]
fn avatar_not_found() {
    let (mut lookup, _) = AvatarLookup::start("octocat");
    expect_fetch(lookup.advance(ok_response(None, PROFILE_PAGE.as_bytes().to_vec())));
    let done = lookup.advance(FetchOutcome::Received(FetchResponse {
        status: 500,
        content_type: Some("image/png".to_string()),
        body: png_bytes(4, 4, [1, 1, 1, 255]),
    }));
    assert!(matches!(expect_finish(done), Ok(None)));
}

#[test]
fn transport_faults_are_errors() {
    let (mut lookup, _) = AvatarLookup::start("octocat");
    assert_eq!(expect_finish(lookup.advance(FetchOutcome::TransportFailed)).err(), Some(ErrorKind::Transport));
    let (mut lookup, _) = AvatarLookup::start("octocat");
    expect_fetch(lookup.advance(ok_response(Some("text/html"), PROFILE_PAGE.as_bytes().to_vec())));
    assert_eq!(expect_finish(lookup.advance(FetchOutcome::TransportFailed)).err(), Some(ErrorKind::Transport));
}

#[test]
fn redirect_status_is_a_miss() {
    let (mut lookup, _) = AvatarLookup::start("octocat");
    let done = lookup.advance(FetchOutcome::Received(FetchResponse {
        status: 302,
        content_type: None,
        body: PROFILE_PAGE.as_bytes().to_vec(),
    }));
    assert!(matches!(expect_finish(done), Ok(None)));
}
