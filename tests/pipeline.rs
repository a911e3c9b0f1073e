use xkcd_grab::client::{Action, Args, OutFormat, XkcdClient};
use xkcd_grab::comic::{comic_from_body, Comic, ComicResponse, WireFields};
use xkcd_grab::decimal::to_decimal;
use xkcd_grab::error::XkcdError;
use xkcd_grab::image::{file_name_of_path, image_file_name};
use xkcd_grab::request::{build_url, BASE_URL};

const BARREL: &str = r#"{"month": "1", "num": 1, "link": "", "year": "2006", "news": "", "safe_title": "Barrel - Part 1", "transcript": "[[A boy sits in a barrel which is floating in an ocean.]]", "alt": "Don't we all.", "img": "https://imgs.xkcd.com/comics/barrel_cropped.jpg", "title": "Barrel - Part 1", "day": "1"}"#;

fn barrel_body() -> String {
    BARREL.to_string()
}

fn full_fields() -> WireFields {
    WireFields {
        month: Some("4".to_string()),
        num: Some(7),
        link: Some(String::new()),
        year: Some("2006".to_string()),
        news: Some(String::new()),
        safe_title: Some("Safe".to_string()),
        transcript: Some(String::new()),
        alt: Some("alt text".to_string()),
        img: Some("https://example.com/comics/foo.png".to_string()),
        title: Some("Title".to_string()),
        day: Some("1".to_string()),
    }
}

fn client(output: OutFormat, save: bool) -> XkcdClient {
    XkcdClient::new(Args { timeout: 30, output, num: None, save })
}

#[test]
fn decimal_text_of_numbers() {
    assert_eq!(to_decimal(0), "0");
    assert_eq!(to_decimal(7), "7");
    assert_eq!(to_decimal(10), "10");
    assert_eq!(to_decimal(1234567890), "1234567890");
    assert_eq!(to_decimal(u64::MAX), "18446744073709551615");
}

#[test]
fn url_for_latest_comic() {
    assert_eq!(build_url(BASE_URL, None), "https://xkcd.com/info.0.json");
}

#[test]
fn url_for_numbered_comic() {
    assert_eq!(build_url(BASE_URL, Some(614)), "https://xkcd.com/614/info.0.json");
    assert_eq!(build_url("http://h", Some(0)), "http://h/0/info.0.json");
}

#[test]
fn url_holds_identifier_once_and_ends_in_info() {
    for n in [0usize, 1, 9, 10, 99, 100, 2500, usize::MAX] {
        let u = build_url(BASE_URL, Some(n));
        let id = n.to_string();
        assert!(u.ends_with("info.0.json"));
        assert_eq!(u.matches(&format!("/{}/", id)).count(), 1);
    }
    assert!(build_url(BASE_URL, None).ends_with("/info.0.json"));
}

#[test]
fn default_args() {
    let a = Args::default();
    assert_eq!(a, Args { timeout: 30, output: OutFormat::Text, num: None, save: false });
}

#[test]
fn start_fetches_with_timeout() {
    let c = XkcdClient::new(Args { timeout: 5, output: OutFormat::Json, num: Some(42), save: false });
    match c.start() {
        Action::Fetch { url, timeout_secs } => {
            assert_eq!(url, "https://xkcd.com/42/info.0.json");
            assert_eq!(timeout_secs, 5);
        }
        _ => panic!("expected a fetch"),
    }
}

#[test]
fn from_fields_complete() {
    let r = ComicResponse::from_fields(full_fields()).ok().unwrap();
    assert_eq!(r.num, 7);
    assert_eq!(r.title, "Title");
    assert_eq!(r.day, "1");
    assert_eq!(r.img, "https://example.com/comics/foo.png");
}

#[test]
fn from_fields_missing_any_field_fails() {
    let clears: Vec<fn(&mut WireFields)> = vec![
        |f| f.month = None,
        |f| f.num = None,
        |f| f.link = None,
        |f| f.year = None,
        |f| f.news = None,
        |f| f.safe_title = None,
        |f| f.transcript = None,
        |f| f.alt = None,
        |f| f.img = None,
        |f| f.title = None,
        |f| f.day = None,
    ];
    for clear in clears {
        let mut f = full_fields();
        clear(&mut f);
        assert!(matches!(ComicResponse::from_fields(f), Err(XkcdError::Parse)));
    }
}

#[test]
fn parse_full_body() {
    let r = ComicResponse::try_from(barrel_body()).ok().unwrap();
    assert_eq!(r.title, "Barrel - Part 1");
    assert_eq!(r.num, 1);
    assert_eq!(r.alt, "Don't we all.");
    assert_eq!(r.month, "1");
    assert_eq!(r.year, "2006");
    assert_eq!(r.safe_title, "Barrel - Part 1");
}

#[test]
fn parse_missing_field_fails() {
    for key in ["month", "num", "link", "year", "news", "safe_title", "transcript", "alt", "img", "title", "day"] {
        let mut v: serde_json::Value = serde_json::from_str(&barrel_body()).unwrap();
        v.as_object_mut().unwrap().remove(key);
        let body = serde_json::to_string(&v).unwrap();
        assert!(matches!(ComicResponse::try_from(body), Err(XkcdError::Parse)), "{}", key);
    }
}

#[test]
fn parse_malformed_or_mistyped_fails() {
    assert!(matches!(ComicResponse::try_from("{".to_string()), Err(XkcdError::Parse)));
    assert!(matches!(ComicResponse::try_from("[]".to_string()), Err(XkcdError::Parse)));
    let text_num = barrel_body().replace("\"num\": 1", "\"num\": \"1\"");
    assert!(matches!(ComicResponse::try_from(text_num), Err(XkcdError::Parse)));
    let negative = barrel_body().replace("\"num\": 1", "\"num\": -1");
    assert!(matches!(ComicResponse::try_from(negative), Err(XkcdError::Parse)));
}

#[test]
fn mapping_builds_date_verbatim() {
    let mut f = full_fields();
    f.day = Some("1".to_string());
    f.month = Some("4".to_string());
    f.year = Some("2006".to_string());
    let c = Comic::from_response(ComicResponse::from_fields(f).ok().unwrap());
    assert_eq!(c.date, "1-4-2006");
    assert_eq!(c.title, "Title");
    assert_eq!(c.num, 7);
    assert_eq!(c.desc, "alt text");
    assert_eq!(c.img_url, "https://example.com/comics/foo.png");
    let mut g = full_fields();
    g.day = Some("01".to_string());
    g.month = Some("April".to_string());
    let d = Comic::from_response(ComicResponse::from_fields(g).ok().unwrap());
    assert_eq!(d.date, "01-April-2006");
}

#[test]
fn file_name_from_url() {
    assert_eq!(image_file_name("https://example.com/comics/foo.png").ok().unwrap(), "foo.png");
    assert_eq!(image_file_name("https://imgs.xkcd.com/comics/barrel_cropped.jpg").ok().unwrap(), "barrel_cropped.jpg");
}

#[test]
fn file_name_without_segments_fails() {
    assert!(matches!(image_file_name("https://example.com"), Err(XkcdError::Url)));
    assert!(matches!(image_file_name("https://example.com/comics/"), Err(XkcdError::Url)));
    assert!(matches!(image_file_name("not a url"), Err(XkcdError::Url)));
    assert!(matches!(image_file_name("mailto:someone@example.com"), Err(XkcdError::Url)));
}

#[test]
fn file_name_of_paths() {
    assert_eq!(file_name_of_path("/comics/foo.png").ok().unwrap(), "foo.png");
    assert_eq!(file_name_of_path("/foo").ok().unwrap(), "foo");
    assert!(matches!(file_name_of_path("/"), Err(XkcdError::Url)));
    assert!(matches!(file_name_of_path(""), Err(XkcdError::Url)));
    assert!(matches!(file_name_of_path("foo.png"), Err(XkcdError::Url)));
    assert!(matches!(file_name_of_path("/a/"), Err(XkcdError::Url)));
}

#[test]
fn text_output_of_barrel() {
    let c = client(OutFormat::Text, false);
    match c.on_metadata(Ok(barrel_body())) {
        Action::Print(s) => assert_eq!(
            s,
            "Title: Barrel - Part 1\n\
             Comic No: 1\n\
             Date: 1-1-2006\n\
             Description: Don't we all.\n\
             Image: https://imgs.xkcd.com/comics/barrel_cropped.jpg\n"
        ),
        _ => panic!("expected text output"),
    }
}

#[test]
fn json_output_of_barrel() {
    let c = client(OutFormat::Json, false);
    match c.on_metadata(Ok(barrel_body())) {
        Action::Print(s) => {
            assert_eq!(
                s,
                r#"{"title":"Barrel - Part 1","num":1,"date":"1-1-2006","desc":"Don't we all.","img_url":"https://imgs.xkcd.com/comics/barrel_cropped.jpg"}"#
            );
            let v: serde_json::Value = serde_json::from_str(&s).unwrap();
            assert_eq!(v["desc"], "Don't we all.");
            assert_eq!(v["num"], 1);
            assert_eq!(v.as_object().unwrap().len(), 5);
        }
        _ => panic!("expected json output"),
    }
}

#[test]
fn json_output_escapes_text() {
    let c = Comic {
        title: "say \"hi\"".to_string(),
        num: 12,
        date: "1-2-3".to_string(),
        desc: "a\\b\nc".to_string(),
        img_url: "u".to_string(),
    };
    assert_eq!(
        c.render_json().ok().unwrap(),
        r#"{"title":"say \"hi\"","num":12,"date":"1-2-3","desc":"a\\b\nc","img_url":"u"}"#
    );
}

#[test]
fn network_failure_ends_run_without_output() {
    let c = client(OutFormat::Text, false);
    assert!(matches!(c.on_metadata(Err(XkcdError::Network)), Action::Fail(XkcdError::Network)));
}

#[test]
fn bad_body_ends_run_with_parse_error() {
    let c = client(OutFormat::Json, true);
    assert!(matches!(c.on_metadata(Ok("{\"title\":\"x\"}".to_string())), Action::Fail(XkcdError::Parse)));
}

#[test]
fn save_requested_asks_for_image_first() {
    let c = client(OutFormat::Text, true);
    match c.on_metadata(Ok(barrel_body())) {
        Action::SaveImage { comic, file_name } => {
            assert_eq!(file_name, "barrel_cropped.jpg");
            assert_eq!(comic.date, "1-1-2006");
        }
        _ => panic!("expected an image save"),
    }
}

#[test]
fn save_with_unusable_url_fails_before_rendering() {
    let c = client(OutFormat::Text, true);
    let body = barrel_body().replace("https://imgs.xkcd.com/comics/barrel_cropped.jpg", "https://example.com");
    assert!(matches!(c.on_metadata(Ok(body)), Action::Fail(XkcdError::Url)));
}

#[test]
fn failed_image_write_is_not_rendered() {
    let c = client(OutFormat::Text, true);
    let comic = comic_from_body(barrel_body()).ok().unwrap();
    assert!(matches!(c.on_image_saved(&comic, Err(XkcdError::Io)), Action::Fail(XkcdError::Io)));
    match c.on_image_saved(&comic, Ok(())) {
        Action::Print(s) => assert!(s.starts_with("Title: Barrel - Part 1\n")),
        _ => panic!("expected text output"),
    }
}

#[test]
fn errors_describe_their_stage() {
    assert_eq!(XkcdError::Url.describe(), "image URL has no file name");
    assert_ne!(XkcdError::Network.describe(), XkcdError::Io.describe());
}

#[test]
fn json_output_escapes_control_characters() {
    let c = Comic {
        title: "a\tb\u{8}c\u{c}d\re".to_string(),
        num: 0,
        date: "\u{1}\u{1f}\u{7f}".to_string(),
        desc: "caf\u{e9} \u{1F600}".to_string(),
        img_url: "/".to_string(),
    };
    assert_eq!(
        c.render_json().ok().unwrap(),
        "{\"title\":\"a\\tb\\bc\\fd\\re\",\"num\":0,\"date\":\"\\u0001\\u001f\u{7f}\",\"desc\":\"caf\u{e9} \u{1F600}\",\"img_url\":\"/\"}"
    );
}

#[test]
fn json_output_without_save_prints_object() {
    let c = client(OutFormat::Json, false);
    let comic = comic_from_body(barrel_body()).ok().unwrap();
    match c.present(&comic) {
        Action::Print(s) => assert!(s.starts_with("{\"title\":\"Barrel - Part 1\",\"num\":1,")),
        _ => panic!("expected json output"),
    }
}

#[test]
fn body_that_is_not_an_object_fails() {
    assert!(matches!(comic_from_body("\"text\"".to_string()), Err(XkcdError::Parse)));
    assert!(matches!(comic_from_body(String::new()), Err(XkcdError::Parse)));
    let c = client(OutFormat::Text, false);
    assert!(matches!(c.on_metadata(Ok("null".to_string())), Action::Fail(XkcdError::Parse)));
}

#[test]
fn extra_members_are_ignored() {
    let body = barrel_body().replace("\"day\": \"1\"}", "\"day\": \"1\", \"extra\": [1, 2]}");
    let comic = comic_from_body(body).ok().unwrap();
    assert_eq!(comic.date, "1-1-2006");
}
