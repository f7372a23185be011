use wilma::parser::identity::{identity_from_href, parse_identity};
use wilma::parser::user::{parse_formkey as page_formkey, parse_name, parse_school, parse_user};
use wilma::parser::{check_tag_name, decode_field, extract_field, filter_line};
use wilma::text::{contains_text, decimal_text, parse_u32, same_text, split_on};
use wilma::utils::{parse_formkey, verify_url};
use wilma::wilma::reservation::{decode_time, RawTime, Reservation, Room, Time, Weekday};
use wilma::wilma::user::{User, UserType};
use wilma::wilma::IndexResponse;
use wilma::Error;

#[test]
fn it_works() {
    assert_eq!(2 + 2, 4);
}

#[test]
fn time_text_and_minutes_agree() {
    let from_text = decode_time(&RawTime::Text("13:55".to_string())).unwrap();
    let from_minutes = decode_time(&RawTime::Minutes(835)).unwrap();
    assert_eq!(from_text, from_minutes);
    assert_eq!(from_minutes, Time { hours: 13, minutes: 55 });
    assert_eq!(
        decode_time(&RawTime::Text("7:05".to_string())),
        decode_time(&RawTime::Minutes(425))
    );
}

#[test]
fn time_edges_of_the_day() {
    assert_eq!(decode_time(&RawTime::Minutes(0)), Ok(Time { hours: 0, minutes: 0 }));
    assert_eq!(decode_time(&RawTime::Minutes(1439)), Ok(Time { hours: 23, minutes: 59 }));
}

#[test]
fn time_decode_errors() {
    assert_eq!(decode_time(&RawTime::Text("1355".to_string())), Err(Error::InvalidTime));
    assert_eq!(decode_time(&RawTime::Text("a:55".to_string())), Err(Error::InvalidTime));
    assert_eq!(decode_time(&RawTime::Text("13:".to_string())), Err(Error::InvalidTime));
    assert_eq!(decode_time(&RawTime::Text("13:55:00".to_string())), Err(Error::InvalidTime));
    assert_eq!(decode_time(&RawTime::Other), Err(Error::InvalidTime));
    assert_eq!(Time::parse("+8:+05"), Ok(Time { hours: 8, minutes: 5 }));
}

#[test]
fn time_fmt_pads_minutes() {
    assert_eq!(Time { hours: 13, minutes: 50 }.fmt(), "13:50");
    assert_eq!(Time { hours: 9, minutes: 5 }.fmt(), "9:05");
    assert_eq!(Time { hours: 0, minutes: 0 }.fmt(), "0:00");
    let t = Time { hours: 17, minutes: 3 };
    assert_eq!(Time::parse(&t.fmt()), Ok(t));
}

#[test]
fn weekday_numbers() {
    let days = [
        Weekday::Monday,
        Weekday::Tuesday,
        Weekday::Wednesday,
        Weekday::Thursday,
        Weekday::Friday,
    ];
    for (i, d) in days.iter().enumerate() {
        let n = i as u32 + 1;
        assert_eq!(Weekday::from_number(n), Ok(*d));
        assert_eq!(d.number(), n);
    }
    assert_eq!(Weekday::from_number(0), Err(Error::InvalidWeekday));
    assert_eq!(Weekday::from_number(6), Err(Error::InvalidWeekday));
}

#[test]
fn weekday_names() {
    assert_eq!(Weekday::Monday.fmt(), "Monday");
    assert_eq!(Weekday::Friday.fmt(), "Friday");
    assert_eq!(Weekday::Wednesday.fmt_finnish(), "Keskiviikko");
    assert_eq!(Weekday::Thursday.fmt_finnish(), "Torstai");
}

#[test]
fn formkey_parts() {
    assert_eq!(
        parse_formkey("student:482:abc123"),
        Ok((UserType::Student, 482, "abc123".to_string()))
    );
    assert_eq!(parse_formkey("alien:1:x"), Ok((UserType::Unknown, 1, "x".to_string())));
    assert_eq!(parse_formkey("bad"), Err(Error::MalformedFormkey));
    assert_eq!(parse_formkey("teacher:7"), Err(Error::MalformedFormkey));
    assert_eq!(parse_formkey("teacher:x7:s"), Err(Error::InvalidUserId));
    assert_eq!(parse_formkey("teacher:-7:s"), Err(Error::InvalidUserId));
}

#[test]
fn user_type_names() {
    assert_eq!(UserType::from_name("teacher"), UserType::Teacher);
    assert_eq!(UserType::from("guardian"), UserType::Guardian);
    assert_eq!(UserType::from_name("passwd"), UserType::Passwd);
    assert_eq!(UserType::from_name("Teacher"), UserType::Unknown);
}

#[test]
fn find_line_first_match_and_absence() {
    let doc = "<html>\n<span class=\"a\">one</span>\n<span class=\"a\">two</span>\n</html>";
    assert_eq!(filter_line("class=\"a\"", doc), Some("<span class=\"a\">one</span>"));
    assert_eq!(filter_line("class=\"b\"", doc), None);
    assert_eq!(filter_line("html>\n<span", doc), None);
}

#[test]
fn field_decoding() {
    let line = "<div><span class=\"teacher\">Maija Meikäläinen</span><span>x</span></div>";
    assert_eq!(decode_field(line, "span", None), Ok("Maija Meikäläinen".to_string()));
    let input = "<input type=\"hidden\" name=\"formkey\" value=\"student:1:s\">";
    assert_eq!(decode_field(input, "input", Some("value")), Ok("student:1:s".to_string()));
    assert_eq!(decode_field(input, "input", Some("id")), Err(Error::FieldNotFound));
    assert_eq!(decode_field(input, "span", None), Err(Error::FieldNotFound));
    assert_eq!(extract_field("a\nb", "zzz", "span", None), Err(Error::LineNotFound));
}

#[test]
fn profile_page() {
    let page = "<html>\n<span class=\"teacher\">Matti Meikäläinen</span>\n\
                <span class=\"school\">Turun koulu</span>\n\
                <input type=\"hidden\" name=\"formkey\" value=\"student:482:abc123\" />\n</html>";
    assert_eq!(parse_name(page), Ok("Matti Meikäläinen".to_string()));
    assert_eq!(parse_school(page), Ok("Turun koulu".to_string()));
    assert_eq!(page_formkey(page), Ok("student:482:abc123".to_string()));
    let user = parse_user(page).unwrap();
    assert_eq!(user.name(), "Matti Meikäläinen");
    assert_eq!(user.school(), "Turun koulu");
    assert_eq!(user.formkey(), "student:482:abc123");
    assert_eq!(*user.user_type(), UserType::Student);
    assert_eq!(user.user_id(), "482");
    assert_eq!(parse_user("<html>\n</html>").err(), Some(Error::LineNotFound));
}

#[test]
fn user_from_fields() {
    let u = User::new("A".to_string(), "B".to_string(), "teacher:+07:k".to_string()).unwrap();
    assert_eq!(*u.user_type(), UserType::Teacher);
    assert_eq!(u.user_id(), "+07");
    let u = User::new("A".to_string(), "B".to_string(), "student:07:k".to_string()).unwrap();
    assert_eq!(u.user_id(), "07");
    assert_eq!(
        User::new("A".to_string(), "B".to_string(), "student:x:k".to_string()).err(),
        Some(Error::InvalidUserId)
    );
    assert!(User::new("A".to_string(), "B".to_string(), "teacher".to_string()).is_err());
}

#[test]
fn identity_suffix() {
    let page = "<p>\n<a class=\"text-style-link\" href=\"/5/profile\">Name</a>\n</p>";
    assert_eq!(parse_identity(page), Ok("5/profile".to_string()));
    assert_eq!(identity_from_href("!abc"), Ok("abc".to_string()));
    assert_eq!(identity_from_href(""), Err(Error::FieldNotFound));
    assert_eq!(parse_identity("<p></p>"), Err(Error::LineNotFound));
}

#[test]
fn text_helpers() {
    assert_eq!(verify_url("turku.inschool.fi"), "https://turku.inschool.fi");
    assert_eq!(split_on("a::b", ':'), vec!["a", "", "b"]);
    assert_eq!(split_on("", ':'), vec![""]);
    assert!(contains_text("abcdef", "cde"));
    assert!(contains_text("abc", ""));
    assert!(!contains_text("abc", "abcd"));
    assert!(same_text("ä", "ä"));
    assert_eq!(parse_u32("4294967295"), Some(4294967295));
    assert_eq!(parse_u32("4294967296"), None);
    assert_eq!(parse_u32("+"), None);
    assert_eq!(parse_u32(""), None);
    assert_eq!(decimal_text(0), "0");
    assert_eq!(decimal_text(4294967295), "4294967295");
}

#[test]
fn index_and_room_accessors() {
    let ix = IndexResponse::new("ok".to_string(), "abc".to_string(), 11);
    assert_eq!(ix.session_id(), "abc");
    assert_eq!(ix.login_result(), "ok");
    assert_eq!(ix.api_version(), 11);
    let r = Room::new("A1".to_string(), 3, "Room A1".to_string(), true);
    assert_eq!(r.caption(), "A1");
    assert_eq!(r.id(), 3);
    assert_eq!(r.long_caption(), "Room A1");
    assert!(r.schedule_visible());
}

#[test]
fn reservation_decoding() {
    let r = Reservation::decode(
        2,
        "7A".to_string(),
        None,
        &RawTime::Text("8:15".to_string()),
        &RawTime::Minutes(570),
        Vec::new(),
        1,
        2,
    )
    .unwrap();
    assert_eq!(r.weekday, Weekday::Tuesday);
    assert_eq!(r.start, Time { hours: 8, minutes: 15 });
    assert_eq!(r.end, Time { hours: 9, minutes: 30 });
    let bad = Reservation::decode(6, String::new(), None, &RawTime::Minutes(0), &RawTime::Minutes(0), Vec::new(), 0, 0);
    assert_eq!(bad.err(), Some(Error::InvalidWeekday));
    let bad = Reservation::decode(1, String::new(), None, &RawTime::Other, &RawTime::Minutes(0), Vec::new(), 0, 0);
    assert_eq!(bad.err(), Some(Error::InvalidTime));
}

#[test]
fn error_messages() {
    assert_eq!(Error::InvalidCredentials.message(), "Invalid credentials were provided.");
    assert_eq!(Error::FragmentTooLong.message(), "A line of the page is too long to be parsed.");
}

#[test]
fn tag_must_be_plain_name() {
    let line = "<div><span class=\"x\">t</span></div>";
    assert_eq!(decode_field(line, "span.x", None), Err(Error::FieldNotFound));
    assert_eq!(decode_field(line, ":not(span)", None), Err(Error::FieldNotFound));
    assert_eq!(decode_field(line, "", None), Err(Error::FieldNotFound));
    assert_eq!(decode_field(line, "span", None), Ok("t".to_string()));
    assert!(check_tag_name("h1"));
    assert!(!check_tag_name("1h"));
    assert!(!check_tag_name("a b"));
    let deep = ":not(".repeat(10000);
    assert_eq!(decode_field(line, &deep, None), Err(Error::FieldNotFound));
}
