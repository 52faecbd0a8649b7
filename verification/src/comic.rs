//! A comic of the archive, as the archive's record describes it.

use crate::failure::Failure;
use crate::text::{
    decimal, parse_number, parsed_number, push_char, push_decimal, push_two_digits, two_digits,
};
use vstd::prelude::*;
use vstd::string::StringExecFns;

verus! {

/// `serde_json::Value`, a JSON value. What is known of one is which of its
/// members are texts, which are numbers and which are not `null`.
#[verifier::external_type_specification]
#[verifier::external_body]
pub struct ExValue(serde_json::Value);

/// `serde_json::Error`, why a text is no JSON. Nothing is known of one.
#[verifier::external_type_specification]
#[verifier::external_body]
pub struct ExJsonError(serde_json::Error);

/// `image::ImageError`, why bytes are no image. Nothing is known of one.
#[verifier::external_type_specification]
#[verifier::external_body]
pub struct ExImageError(image::ImageError);

/// The members of a JSON object whose value is a string, by name. A JSON value
/// that is no object has none.
pub uninterp spec fn json_texts(json: serde_json::Value) -> Map<Seq<char>, Seq<char>>;

/// The members of a JSON object whose value is a whole number from 0 to
/// 2<sup>64</sup> - 1, by name.
pub uninterp spec fn json_numbers(json: serde_json::Value) -> Map<Seq<char>, u64>;

/// The names of the members of a JSON object whose value is not `null`.
pub uninterp spec fn json_filled(json: serde_json::Value) -> Set<Seq<char>>;

/// The JSON value that a text is read as, and `None` for a text that is no JSON.
pub uninterp spec fn parsed_json(text: Seq<char>) -> Option<serde_json::Value>;

/// `serde_json::from_str` for a `serde_json::Value`: the value that the text is
/// read as, or an error for a text that is no JSON.
#[verifier::external_body]
fn parse_json(text: &str) -> (json: Result<serde_json::Value, serde_json::Error>)
    ensures
        match json {
            Ok(json) => parsed_json(text@) == Some(json),
            Err(_) => parsed_json(text@) is None,
        },
{
    serde_json::from_str(text)
}

/// `serde_json::Value::as_str` of the member that indexing by `name` gives: the
/// text of the member where the value is an object with a string of that name.
#[verifier::external_body]
fn text_member(json: &serde_json::Value, name: &str) -> (text: Option<String>)
    ensures
        text is Some <==> json_texts(*json).contains_key(name@),
        text matches Some(text) ==> text@ == json_texts(*json)[name@],
{
    json[name].as_str().map(String::from)
}

/// `serde_json::Value::as_u64` of the member that indexing by `name` gives: the
/// number of the member where the value is an object with a whole number of that
/// name that 64 bits hold.
#[verifier::external_body]
fn number_member(json: &serde_json::Value, name: &str) -> (number: Option<u64>)
    ensures
        number is Some <==> json_numbers(*json).contains_key(name@),
        number matches Some(number) ==> number == json_numbers(*json)[name@],
{
    json[name].as_u64()
}

/// `serde_json::Value::is_null` of the member that indexing by `name` gives:
/// true unless the value is an object with a member of that name that is not
/// `null`.
#[verifier::external_body]
fn is_null_member(json: &serde_json::Value, name: &str) -> (null: bool)
    ensures
        null == !json_filled(*json).contains(name@),
{
    json[name].is_null()
}

/// `image::load_from_memory`: the image that the bytes encode, in a format that
/// is guessed from them, or an error. Nothing is claimed of the image.
#[verifier::external_body]
fn load_image(bytes: &[u8]) -> (image: Result<image::DynamicImage, image::ImageError>) {
    image::load_from_memory(bytes)
}

/// What a [`Comic`] holds, as plain values.
pub struct ComicView {
    pub name: Seq<char>,
    pub number: u16,
    pub alt_text: Seq<char>,
    pub date_uploaded: Seq<char>,
    pub interactive: bool,
    pub image_url: Seq<char>,
}

/// The date of a comic as it is shown: the year as the record gives it, then month
/// and day with two digits each, with `-` between them.
pub open spec fn upload_date(year: Seq<char>, month: u16, day: u16) -> Seq<char> {
    year + seq!['-'] + two_digits(month as nat) + seq!['-'] + two_digits(day as nat)
}

/// The number of a comic for the number in its record: the lower 16 bits.
pub open spec fn comic_number(number: u64) -> u16 {
    (number % 0x1_0000) as u16
}

/// The comic that a record describes, from the texts and numbers of the record and
/// the names of its members that are not `null`. The record must give `title`,
/// `alt`, `img`, `year`, `month` and `day` as texts, month and day as numbers in
/// decimal digits, and `num` as a number. The comic is interactive where the
/// record has a member `extra_parts`.
pub open spec fn comic_record(
    texts: Map<Seq<char>, Seq<char>>,
    numbers: Map<Seq<char>, u64>,
    filled: Set<Seq<char>>,
) -> Option<ComicView> {
    if texts.contains_key("alt"@) && texts.contains_key("title"@) && texts.contains_key("year"@)
        && texts.contains_key("month"@) && texts.contains_key("day"@) && texts.contains_key(
        "img"@,
    ) && numbers.contains_key("num"@) && parsed_number(texts["month"@]) is Some && parsed_number(
        texts["day"@],
    ) is Some {
        Some(
            ComicView {
                name: texts["title"@],
                number: comic_number(numbers["num"@]),
                alt_text: texts["alt"@],
                date_uploaded: upload_date(
                    texts["year"@],
                    parsed_number(texts["month"@])->0,
                    parsed_number(texts["day"@])->0,
                ),
                interactive: filled.contains("extra_parts"@),
                image_url: texts["img"@],
            },
        )
    } else {
        None
    }
}

/// The comic that a JSON value describes.
pub open spec fn comic_of(json: serde_json::Value) -> Option<ComicView> {
    comic_record(json_texts(json), json_numbers(json), json_filled(json))
}

/// The line that names a comic: its number, its title, and a note where it is
/// interactive.
pub open spec fn title_line(comic: ComicView) -> Seq<char> {
    decimal(comic.number as nat) + ": "@ + comic.name + if comic.interactive {
        " (interactive)"@
    } else {
        Seq::<char>::empty()
    }
}

/// The address of the record of comic `number`, or of the latest comic for `None`.
pub open spec fn record_address(number: Option<u16>) -> Seq<char> {
    match number {
        Some(number) => "https://xkcd.com/"@ + decimal(number as nat) + "/info.0.json"@,
        None => "https://xkcd.com/info.0.json"@,
    }
}

/// A comic of the archive.
#[derive(Debug, Clone, PartialEq, Eq)]
pub struct Comic {
    name: String,
    number: u16,
    alt_text: String,
    date_uploaded: String,
    interactive: bool,
    image_url: String,
}

impl View for Comic {
    type V = ComicView;

    closed spec fn view(&self) -> ComicView {
        ComicView {
            name: self.name@,
            number: self.number,
            alt_text: self.alt_text@,
            date_uploaded: self.date_uploaded@,
            interactive: self.interactive,
            image_url: self.image_url@,
        }
    }
}

/// The view of the comic, if there is one.
pub open spec fn view_of(comic: Option<Comic>) -> Option<ComicView> {
    match comic {
        Some(comic) => Some(comic@),
        None => None,
    }
}

impl Comic {
    /// The comic that a record of the archive describes, or `None` where the
    /// record lacks one of the members of a comic or gives one in another form.
    pub fn new(json: &serde_json::Value) -> (comic: Option<Comic>)
        ensures
            view_of(comic) == comic_of(*json),
    {
        let alt_text = text_member(json, "alt")?;
        let name = text_member(json, "title")?;
        let year = text_member(json, "year")?;
        let month = parse_number(text_member(json, "month")?.as_str())?;
        let day = parse_number(text_member(json, "day")?.as_str())?;
        let image_url = text_member(json, "img")?;
        let number = (number_member(json, "num")? % 0x1_0000) as u16;
        let ghost year_text = year@;
        let mut date_uploaded = year;
        push_char(&mut date_uploaded, '-');
        push_two_digits(&mut date_uploaded, month);
        push_char(&mut date_uploaded, '-');
        push_two_digits(&mut date_uploaded, day);
        proof {
            assert(date_uploaded@ =~= upload_date(year_text, month, day));
        }
        let interactive = !is_null_member(json, "extra_parts");
        Some(Comic { name, number, alt_text, date_uploaded, interactive, image_url })
    }

    pub fn number(&self) -> (number: u16)
        ensures
            number == self@.number,
    {
        self.number
    }

    pub fn alt_text(&self) -> (alt_text: &str)
        ensures
            alt_text@ == self@.alt_text,
    {
        self.alt_text.as_str()
    }

    pub fn date_uploaded(&self) -> (date: &str)
        ensures
            date@ == self@.date_uploaded,
    {
        self.date_uploaded.as_str()
    }

    pub fn image_url(&self) -> (url: &str)
        ensures
            url@ == self@.image_url,
    {
        self.image_url.as_str()
    }

    /// Whether the archive marks the comic as one with interactive parts.
    pub fn is_interactive(&self) -> (interactive: bool)
        ensures
            interactive == self@.interactive,
    {
        self.interactive
    }

    /// The line that names the comic.
    pub fn title(&self) -> (title: String)
        ensures
            title@ == title_line(self@),
    {
        let mut title = String::new();
        push_decimal(&mut title, self.number);
        title.append(": ");
        title.append(self.name.as_str());
        if self.interactive {
            title.append(" (interactive)");
        }
        proof {
            assert(title@ =~= title_line(self@));
        }
        title
    }
}

/// The address from which the record of a comic is fetched.
pub fn record_url(number: Option<u16>) -> (url: String)
    ensures
        url@ == record_address(number),
{
    match number {
        Some(number) => {
            let mut url = "https://xkcd.com/".to_owned();
            push_decimal(&mut url, number);
            url.append("/info.0.json");
            url
        },
        None => "https://xkcd.com/info.0.json".to_owned(),
    }
}

/// What the fetch of a comic gives for the record that was read from the response.
pub open spec fn downloaded(json: Option<serde_json::Value>) -> Result<ComicView, Failure> {
    match json {
        Some(json) => match comic_of(json) {
            Some(comic) => Ok(comic),
            None => Err(Failure::MalformedResponse),
        },
        None => Err(Failure::MalformedResponse),
    }
}

/// The view of the comic, or the failure.
pub open spec fn result_view(comic: Result<Comic, Failure>) -> Result<ComicView, Failure> {
    match comic {
        Ok(comic) => Ok(comic@),
        Err(failure) => Err(failure),
    }
}

/// The comic in the response of the archive. `None` stands for a request that got
/// no response. A response that is no JSON, or no record of a comic, is malformed.
pub fn download(response: Option<&str>) -> (comic: Result<Comic, Failure>)
    ensures
        result_view(comic) == match response {
            Some(text) => downloaded(parsed_json(text@)),
            None => Err(Failure::TransportFailure),
        },
{
    match response {
        Some(text) => match parse_json(text) {
            Ok(json) => match Comic::new(&json) {
                Some(comic) => Ok(comic),
                None => Err(Failure::MalformedResponse),
            },
            Err(_) => Err(Failure::MalformedResponse),
        },
        None => Err(Failure::TransportFailure),
    }
}

/// The number of the latest comic that a record of the archive gives.
pub open spec fn latest_of(json: serde_json::Value) -> Option<u16> {
    if json_numbers(json).contains_key("num"@) {
        Some(comic_number(json_numbers(json)["num"@]))
    } else {
        None
    }
}

/// The number of the comic that a record describes, where it gives one.
pub fn latest_number(json: &serde_json::Value) -> (number: Option<u16>)
    ensures
        number == latest_of(*json),
{
    match number_member(json, "num") {
        Some(number) => Some((number % 0x1_0000) as u16),
        None => None,
    }
}

/// The number of the latest comic, from the response of the archive to a request
/// for the latest record. `None` stands for a request that got no response. Any
/// response that does not give the number is a failed lookup.
pub fn get_latest_comic_number(response: Option<&str>) -> (number: Result<u16, Failure>)
    ensures
        number == match response {
            Some(text) => match parsed_json(text@) {
                Some(json) => match latest_of(json) {
                    Some(number) => Ok(number),
                    None => Err(Failure::LookupFailed),
                },
                None => Err(Failure::LookupFailed),
            },
            None => Err::<u16, Failure>(Failure::LookupFailed),
        },
{
    match response {
        Some(text) => match parse_json(text) {
            Ok(json) => match latest_number(&json) {
                Some(number) => Ok(number),
                None => Err(Failure::LookupFailed),
            },
            Err(_) => Err(Failure::LookupFailed),
        },
        None => Err(Failure::LookupFailed),
    }
}

/// The artwork for what decoding gave: the image, or a failure to decode.
pub fn decoded_artwork(decoded: Result<image::DynamicImage, image::ImageError>) -> (artwork: Result<
    image::DynamicImage,
    Failure,
>)
    ensures
        match decoded {
            Ok(image) => artwork == Ok::<image::DynamicImage, Failure>(image),
            Err(_) => artwork == Err::<image::DynamicImage, Failure>(Failure::ArtworkDecodeFailure),
        },
{
    match decoded {
        Ok(image) => Ok(image),
        Err(_) => Err(Failure::ArtworkDecodeFailure),
    }
}

/// The artwork in the response to the request for a comic's image. `None` stands
/// for a request that got no response. Bytes that are no image fail to decode.
pub fn download_image(response: Option<&[u8]>) -> (artwork: Result<image::DynamicImage, Failure>)
    ensures
        response is None ==> artwork == Err::<image::DynamicImage, Failure>(
            Failure::TransportFailure,
        ),
        response is Some ==> artwork is Ok || artwork == Err::<image::DynamicImage, Failure>(
            Failure::ArtworkDecodeFailure,
        ),
{
    match response {
        Some(bytes) => decoded_artwork(load_image(bytes)),
        None => Err(Failure::TransportFailure),
    }
}

} // verus!
