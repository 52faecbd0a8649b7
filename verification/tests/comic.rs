use image::GenericImageView;
use oxikcde::comic::{
    decoded_artwork, download, download_image, get_latest_comic_number, latest_number, record_url,
    Comic,
};
use oxikcde::failure::Failure;
use serde_json::Value;

const RECORD: &str = r#"{"month": "7", "num": 614, "link": "", "year": "2009", "news": "",
    "safe_title": "Woodpecker", "transcript": "", "alt": "If you don't have an extension cord",
    "img": "https://imgs.xkcd.com/comics/woodpecker.png", "title": "Woodpecker", "day": "24"}"#;

fn record(members: &[(&str, Value)]) -> Value {
    let mut map = serde_json::Map::new();
    for (name, value) in members {
        map.insert(name.to_string(), value.clone());
    }
    Value::Object(map)
}

fn text(text: &str) -> Value {
    Value::String(text.to_string())
}

fn full_record() -> Vec<(&'static str, Value)> {
    vec![
        ("month", text("7")),
        ("num", Value::from(614u64)),
        ("year", text("2009")),
        ("alt", text("If you don't have an extension cord")),
        ("img", text("https://imgs.xkcd.com/comics/woodpecker.png")),
        ("title", text("Woodpecker")),
        ("day", text("24")),
    ]
}

#[test]
fn comic_is_read_from_record() {
    let comic = download(Some(RECORD)).unwrap();
    assert_eq!(comic.number(), 614);
    assert_eq!(comic.alt_text(), "If you don't have an extension cord");
    assert_eq!(comic.date_uploaded(), "2009-07-24");
    assert_eq!(comic.image_url(), "https://imgs.xkcd.com/comics/woodpecker.png");
    assert!(!comic.is_interactive());
    assert_eq!(comic.title(), "614: Woodpecker");
}

#[test]
fn new_reads_the_same_comic_from_a_value() {
    let comic = Comic::new(&record(&full_record())).unwrap();
    assert_eq!(Ok(comic), download(Some(RECORD)));
}

#[test]
fn date_is_padded_to_two_digits() {
    let mut members = full_record();
    members[0] = ("month", text("12"));
    members[6] = ("day", text("3"));
    let comic = Comic::new(&record(&members)).unwrap();
    assert_eq!(comic.date_uploaded(), "2009-12-03");

    members[0] = ("month", text("+1"));
    members[6] = ("day", text("007"));
    let comic = Comic::new(&record(&members)).unwrap();
    assert_eq!(comic.date_uploaded(), "2009-01-07");

    members[0] = ("month", text("123"));
    members[6] = ("day", text("0"));
    members[2] = ("year", text("year"));
    let comic = Comic::new(&record(&members)).unwrap();
    assert_eq!(comic.date_uploaded(), "year-123-00");
}

#[test]
fn extra_parts_mark_the_comic_interactive() {
    let mut members = full_record();
    members.push(("extra_parts", record(&[("pre", text(""))])));
    let comic = Comic::new(&record(&members)).unwrap();
    assert!(comic.is_interactive());
    assert_eq!(comic.title(), "614: Woodpecker (interactive)");

    members.pop();
    members.push(("extra_parts", Value::Null));
    let comic = Comic::new(&record(&members)).unwrap();
    assert!(!comic.is_interactive());
    assert_eq!(comic.title(), "614: Woodpecker");

    members.pop();
    members.push(("extra_parts", Value::Bool(false)));
    assert!(Comic::new(&record(&members)).unwrap().is_interactive());
}

#[test]
fn record_without_a_member_is_no_comic() {
    for missing in 0..7 {
        let mut members = full_record();
        members.remove(missing);
        assert_eq!(Comic::new(&record(&members)), None);
    }
}

#[test]
fn record_with_a_member_of_another_form_is_no_comic() {
    for (index, value) in [
        (0, Value::from(7u64)),
        (0, text("July")),
        (0, text("")),
        (0, text("65536")),
        (1, text("614")),
        (1, Value::from(-1i64)),
        (1, Value::from(1.5)),
        (2, Value::from(2009u64)),
        (3, Value::Null),
        (4, Value::Bool(true)),
        (5, Value::Array(vec![])),
        (6, text("24th")),
    ] {
        let mut members = full_record();
        members[index].1 = value;
        assert_eq!(Comic::new(&record(&members)), None);
    }
}

#[test]
fn value_that_is_no_object_is_no_comic() {
    for value in [
        Value::Null,
        Value::Bool(true),
        text("comic"),
        Value::Array(vec![record(&full_record())]),
    ] {
        assert_eq!(Comic::new(&value), None);
        assert_eq!(latest_number(&value), None);
    }
}

#[test]
fn number_keeps_the_lower_16_bits() {
    let mut members = full_record();
    members[1] = ("num", Value::from(65535u64));
    assert_eq!(Comic::new(&record(&members)).unwrap().number(), 65535);
    members[1] = ("num", Value::from(65536u64 + 614));
    assert_eq!(Comic::new(&record(&members)).unwrap().number(), 614);
    members[1] = ("num", Value::from(u64::MAX));
    assert_eq!(Comic::new(&record(&members)).unwrap().number(), 65535);
    assert_eq!(latest_number(&record(&members)), Some(65535));
}

#[test]
fn download_without_response_is_a_transport_failure() {
    assert_eq!(download(None), Err(Failure::TransportFailure));
}

#[test]
fn download_of_malformed_response() {
    for response in [
        "",
        "<html>404 Not Found</html>",
        "{",
        "[]",
        "null",
        "{}",
        r#"{"num": 614}"#,
        r#"{"month": "7", "num": 614, "year": "2009", "alt": "", "img": "", "title": "",
            "day": ""}"#,
        r#"{"month": "7", "num": 614, "year": "2009", "alt": "", "img": "", "day": "1"}"#,
    ] {
        assert_eq!(download(Some(response)), Err(Failure::MalformedResponse), "{:?}", response);
    }
}

#[test]
fn latest_number_is_read_from_record() {
    assert_eq!(get_latest_comic_number(Some(RECORD)), Ok(614));
    assert_eq!(get_latest_comic_number(Some(r#"{"num": 3000}"#)), Ok(3000));
    assert_eq!(latest_number(&record(&full_record())), Some(614));
}

#[test]
fn latest_number_lookup_fails() {
    for response in [
        None,
        Some(""),
        Some("{}"),
        Some(r#"{"num": "614"}"#),
        Some("614"),
        Some("not json"),
    ] {
        assert_eq!(get_latest_comic_number(response), Err(Failure::LookupFailed));
    }
}

#[test]
fn record_url_of_comic_and_of_latest() {
    assert_eq!(record_url(None), "https://xkcd.com/info.0.json");
    assert_eq!(record_url(Some(614)), "https://xkcd.com/614/info.0.json");
    assert_eq!(record_url(Some(0)), "https://xkcd.com/0/info.0.json");
    assert_eq!(record_url(Some(65535)), "https://xkcd.com/65535/info.0.json");
}

fn png_2x1() -> Vec<u8> {
    let mut image = image::RgbImage::new(2, 1);
    image.put_pixel(0, 0, image::Rgb([255, 255, 255]));
    image.put_pixel(1, 0, image::Rgb([0, 0, 0]));
    let mut bytes = std::io::Cursor::new(Vec::new());
    image::DynamicImage::from(image)
        .write_to(&mut bytes, image::ImageFormat::Png)
        .unwrap();
    bytes.into_inner()
}

#[test]
fn artwork_is_decoded() {
    let bytes = png_2x1();
    let artwork = download_image(Some(&bytes)).unwrap();
    assert_eq!(artwork.dimensions(), (2, 1));
    assert_eq!(artwork.get_pixel(0, 0), image::Rgba([255, 255, 255, 255]));
    assert_eq!(artwork.get_pixel(1, 0), image::Rgba([0, 0, 0, 255]));
}

#[test]
fn artwork_that_is_no_image_fails_to_decode() {
    for bytes in [&b""[..], &b"not an image"[..], &png_2x1()[..20]] {
        assert_eq!(download_image(Some(bytes)).err(), Some(Failure::ArtworkDecodeFailure));
    }
}

#[test]
fn artwork_without_response_is_a_transport_failure() {
    assert_eq!(download_image(None).err(), Some(Failure::TransportFailure));
}

#[test]
fn decoded_artwork_keeps_the_image() {
    let decoded = decoded_artwork(image::load_from_memory(&png_2x1())).unwrap();
    assert_eq!(decoded.dimensions(), (2, 1));
    assert_eq!(
        decoded_artwork(image::load_from_memory(b"")).err(),
        Some(Failure::ArtworkDecodeFailure)
    );
}

#[test]
fn failure_messages() {
    assert_eq!(Failure::LookupFailed.message(), "Failed to determine latest comic number");
    for failure in [
        Failure::LookupFailed,
        Failure::TransportFailure,
        Failure::MalformedResponse,
        Failure::ArtworkDecodeFailure,
        Failure::PersistenceReadFailure,
    ] {
        assert!(failure.is_recoverable());
        assert!(!failure.message().is_empty());
    }
    assert!(!Failure::PersistenceWriteFailure.is_recoverable());
    assert!(!Failure::PersistenceWriteFailure.message().is_empty());
}
