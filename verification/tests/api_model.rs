use asvz_bot::api::{
    extract_lesson_id, plan_weekly_search, AsvzError, Count, Data, Error, EventList, Facility,
    Language, LessonData, LessonError, SearchResult, SportEntry, SportSearch,
};
use asvz_bot::clock::current_timestamp;
use asvz_bot::outcome::{exit_status_message, ExistStatus};

fn lesson(from: &str, until: &str, starts: &str, max: i64, count: i64) -> LessonData {
    LessonData {
        data: Data {
            enrollment_from: from.to_string(),
            enrollment_until: until.to_string(),
            starts: starts.to_string(),
            participants_max: max,
            participant_count: count,
            sport_name: "Fitness".to_string(),
            facilities: vec![Facility {
                facility_id: 45613,
                name_short: "SZ".to_string(),
                name: "Sport Center".to_string(),
                url: "https://www.asvz.ch/anlage/45613-sport-center".to_string(),
            }],
            instructors: vec![],
            language: Language {
                id: "1".to_string(),
                code: "de".to_string(),
                name: "Deutsch".to_string(),
            },
        },
    }
}

fn search_list(urls: &[&str]) -> EventList {
    EventList {
        results: urls
            .iter()
            .map(|u| SearchResult { nid: 1, title: "Fitness".to_string(), url: u.to_string() })
            .collect(),
        count: Count { total: urls.len() as i64, limit: 1, offset: 0 },
        facets: vec![],
    }
}

#[test]
fn datetime_parsing_exact_value() {
    // One day after the epoch: the parse really converts, it does not
    // echo its input.
    let d = lesson(
        "1970-01-02T00:00:00+0000",
        "1970-01-02T00:00:00+0000",
        "1970-01-02T00:00:00+0000",
        20,
        0,
    );
    assert_eq!(d.enroll_from_timestamp(), Some(86400));
    assert_eq!(d.enroll_until_timestamp(), Some(86400));
    // The site's usual shape, with a colon in the offset.
    let d2 = lesson(
        "2021-11-08T06:35:00+01:00",
        "2021-11-08T06:35:00+01:00",
        "2021-11-08T06:35:00+01:00",
        20,
        0,
    );
    assert_eq!(d2.enroll_from_timestamp(), Some(1636349700));
}

#[test]
fn datetime_parsing_rejects_garbage() {
    let d = lesson("yesterday", "2021-13-40T99:99:99+01:00", "x", 20, 0);
    assert_eq!(d.enroll_from_timestamp(), None);
    assert_eq!(d.enroll_until_timestamp(), None);
}

#[test]
fn search_result_lesson_id() {
    let list = search_list(&["https://schalter.asvz.ch/tn/lessons/196346"]);
    assert_eq!(list.lesson_id().unwrap().as_str(), "196346");
    let empty = search_list(&[]);
    assert!(empty.lesson_id().is_none());
    let no_id = search_list(&["https://www.asvz.ch/sport/122920-fitness"]);
    assert!(no_id.lesson_id().is_none());
    // The digits right after the first occurrence of the pattern.
    let tricky = search_list(&["x /tn/lessons/ /tn/lessons/77y"]);
    assert_eq!(tricky.lesson_id().unwrap().as_str(), "77");
}

#[test]
fn message_url_detection() {
    let id = extract_lesson_id("look: https://schalter.asvz.ch/tn/lessons/196346 !").unwrap();
    assert_eq!(id.as_str(), "196346");
    assert!(extract_lesson_id("no lesson here").is_none());
    assert!(extract_lesson_id("https://schalter.asvz.ch/tn/lessons/none").is_none());
}

#[test]
fn weekly_search_plan() {
    let d = lesson(
        "1970-01-02T00:00:00+0000",
        "1970-01-02T00:00:00+0000",
        "1970-01-02T00:00:00+0000",
        20,
        0,
    );
    let sports = SportSearch {
        results: vec![
            SportEntry { nid: 1, title: "Yoga".to_string() },
            SportEntry { nid: 122920, title: "Fitness".to_string() },
        ],
    };
    let q = plan_weekly_search(&d, &sports).unwrap();
    assert_eq!(q.sport_nid, 122920);
    assert_eq!(q.facility_id, "45613");
    // Exactly one week past the lesson's start.
    assert_eq!(q.date_ts, 86400 + 604800);
}

#[test]
fn weekly_search_plan_duplicate_titles_take_the_last() {
    let d = lesson(
        "1970-01-02T00:00:00+0000",
        "1970-01-02T00:00:00+0000",
        "1970-01-02T00:00:00+0000",
        20,
        0,
    );
    let sports = SportSearch {
        results: vec![
            SportEntry { nid: 1, title: "Fitness".to_string() },
            SportEntry { nid: 2, title: "Fitness".to_string() },
        ],
    };
    assert_eq!(plan_weekly_search(&d, &sports).unwrap().sport_nid, 2);
}

#[test]
fn weekly_search_plan_failures() {
    let sports = SportSearch { results: vec![] };
    let good = lesson(
        "1970-01-02T00:00:00+0000",
        "1970-01-02T00:00:00+0000",
        "1970-01-02T00:00:00+0000",
        20,
        0,
    );
    // Unknown sport.
    assert_eq!(plan_weekly_search(&good, &sports).unwrap_err(), AsvzError::UnexpectedFormat);
    // Unreadable start time.
    let bad_start = lesson(
        "1970-01-02T00:00:00+0000",
        "1970-01-02T00:00:00+0000",
        "later",
        20,
        0,
    );
    assert_eq!(plan_weekly_search(&bad_start, &sports).unwrap_err(), AsvzError::UnexpectedFormat);
    // No facility.
    let mut no_fac = good.clone();
    no_fac.data.facilities = vec![];
    assert_eq!(plan_weekly_search(&no_fac, &sports).unwrap_err(), AsvzError::UnexpectedFormat);
}

#[test]
fn error_messages() {
    assert_eq!(AsvzError::Http("boom".to_string()).message(), "Http error: boom");
    assert_eq!(
        AsvzError::UnexpectedFormat.message(),
        "Unexpected Response from the Server"
    );
    let le = LessonError { error_status: "404".to_string(), errors: vec![] };
    assert_eq!(
        AsvzError::Lesson(le).message(),
        "Unable to connect to Lesson: 404"
    );
    // The document's own messages are carried along.
    let le = LessonError {
        error_status: "404".to_string(),
        errors: vec![
            Error { message: "Lesson not found".to_string() },
            Error { message: "Try another id".to_string() },
        ],
    };
    assert_eq!(
        AsvzError::Lesson(le).message(),
        "Unable to connect to Lesson: 404; Lesson not found; Try another id"
    );
}

#[test]
fn exit_messages() {
    assert_eq!(
        exit_status_message(&ExistStatus::success("done".to_string())),
        "done\nJob existed successfully"
    );
    assert_eq!(
        exit_status_message(&ExistStatus::failure("no".to_string())),
        "no\nJob failed"
    );
    assert_eq!(
        exit_status_message(&ExistStatus::error("bad".to_string())),
        "bad\nJob canceled"
    );
}

#[test]
fn clock_runs_after_the_epoch() {
    // The wrapper converts a real clock reading; any fixed echo of its
    // input could not land in this range.
    let now = current_timestamp();
    assert!(now > 1_500_000_000);
    assert!(now < 253_402_300_799);
}
