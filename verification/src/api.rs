//! The remote site's data model, reduced to the fields the protocol reads,
//! and the classified errors of the two remote accessors.
//!
//! Fetching and JSON decoding happen outside the library; what arrives here
//! are plain records.  The enrollment window timestamps arrive as the
//! site's datetime strings and are converted behind one trusted wrapper.

use vstd::prelude::*;

use crate::ids::{digits_val, LessonID};
use crate::scan::captured_digits;

verus! {

/// The latest timestamp the protocol accepts (end of year 9999); keeps all
/// window arithmetic far from the integer bounds.
pub const MAX_TIMESTAMP: i64 = 253402300799;

/// The unix timestamp that the site's datetime string denotes, if it
/// parses; a function of the string alone.
pub uninterp spec fn parsed_timestamp(s: Seq<char>) -> Option<i64>;

/// Relies on chrono's `DateTime::parse_from_str` with format
/// `%Y-%m-%dT%H:%M:%S%z`, and `DateTime::timestamp`: both are pure
/// functions of the input string, so the result gets a name and callers
/// reason through it.
#[verifier::external_body]
fn parse_datetime_timestamp(s: &str) -> (r: Option<i64>)
    ensures
        r == parsed_timestamp(s@),
{
    chrono::DateTime::parse_from_str(s, "%Y-%m-%dT%H:%M:%S%z").ok().map(|d| d.timestamp())
}

/// A window timestamp the protocol works with: parsed and within range.
pub open spec fn valid_ts(s: Seq<char>) -> Option<i64> {
    match parsed_timestamp(s) {
        Some(t) => if 0 <= t && t <= MAX_TIMESTAMP {
            Some(t)
        } else {
            None
        },
        None => None,
    }
}

/// One facility holding a lesson.
#[derive(Debug, Clone, PartialEq)]
pub struct Facility {
    pub facility_id: i64,
    pub name_short: String,
    pub name: String,
    pub url: String,
}

/// One instructor of a lesson.
#[derive(Debug, Clone, PartialEq)]
pub struct Instructor {
    pub asvz_id: i64,
    pub name: String,
}

/// The language a lesson is held in.
#[derive(Debug, Clone, PartialEq)]
pub struct Language {
    pub id: String,
    pub code: String,
    pub name: String,
}

/// One message of a lesson error response.
#[derive(Debug, Clone, PartialEq)]
pub struct Error {
    pub message: String,
}

/// The error document the lesson endpoint returns in place of metadata.
#[derive(Debug, Clone, PartialEq)]
pub struct LessonError {
    pub error_status: String,
    pub errors: Vec<Error>,
}

/// The lesson fields the protocol consumes.
#[derive(Debug, Clone, PartialEq)]
pub struct Data {
    pub enrollment_from: String,
    pub enrollment_until: String,
    pub starts: String,
    pub participants_max: i64,
    pub participant_count: i64,
    pub sport_name: String,
    pub facilities: Vec<Facility>,
    pub instructors: Vec<Instructor>,
    pub language: Language,
}

/// The lesson metadata document.
#[derive(Debug, Clone, PartialEq)]
pub struct LessonData {
    pub data: Data,
}

impl LessonData {
    /// When the registration window closes, if the document's datetime
    /// string is readable and in range.
    pub fn enroll_until_timestamp(&self) -> (r: Option<i64>)
        ensures
            r == valid_ts(self.data.enrollment_until@),
    {
        match parse_datetime_timestamp(self.data.enrollment_until.as_str()) {
            Some(t) => if 0 <= t && t <= MAX_TIMESTAMP {
                Some(t)
            } else {
                None
            },
            None => None,
        }
    }

    /// When the registration window opens, if readable and in range.
    pub fn enroll_from_timestamp(&self) -> (r: Option<i64>)
        ensures
            r == valid_ts(self.data.enrollment_from@),
    {
        match parse_datetime_timestamp(self.data.enrollment_from.as_str()) {
            Some(t) => if 0 <= t && t <= MAX_TIMESTAMP {
                Some(t)
            } else {
                None
            },
            None => None,
        }
    }
}

/// A classified error of the remote accessors.
#[derive(Debug, Clone, PartialEq)]
pub enum AsvzError {
    /// The HTTP call itself failed; carries the transport's own text.
    Http(String),
    /// The retrying HTTP middleware failed; carries its text.
    HttpMiddleware(String),
    /// The lesson endpoint answered with an error document.
    Lesson(LessonError),
    /// The response had none of the known shapes.
    UnexpectedFormat,
}

/// The error document's own messages, each appended after a separator.
pub open spec fn lesson_error_items(es: Seq<Error>) -> Seq<char>
    decreases es.len(),
{
    if es.len() == 0 {
        Seq::<char>::empty()
    } else {
        lesson_error_items(es.drop_last()) + "; "@ + es.last().message@
    }
}

/// Renders a lesson error document: its status, then every carried
/// message.
fn lesson_error_message(e: &LessonError) -> (r: String)
    ensures
        r@ == "Unable to connect to Lesson: "@ + e.error_status@ + lesson_error_items(e.errors@),
{
    let mut r = "Unable to connect to Lesson: ".to_owned().concat(e.error_status.as_str());
    let n = e.errors.len();
    let mut i: usize = 0;
    proof {
        assert(e.errors@.take(0) =~= Seq::<Error>::empty());
        assert(r@ =~= "Unable to connect to Lesson: "@ + e.error_status@ + lesson_error_items(
            e.errors@.take(0),
        ));
    }
    while i < n
        invariant
            0 <= i <= n,
            n == e.errors@.len(),
            r@ == "Unable to connect to Lesson: "@ + e.error_status@ + lesson_error_items(
                e.errors@.take(i as int),
            ),
        decreases n - i,
    {
        proof {
            assert(e.errors@.take(i + 1).drop_last() =~= e.errors@.take(i as int));
            assert(e.errors@.take(i + 1).last() == e.errors@[i as int]);
        }
        r.append("; ");
        r.append(e.errors[i].message.as_str());
        proof {
            assert(r@ =~= "Unable to connect to Lesson: "@ + e.error_status@
                + lesson_error_items(e.errors@.take(i + 1)));
        }
        i = i + 1;
    }
    proof {
        assert(e.errors@.take(n as int) =~= e.errors@);
    }
    r
}

impl AsvzError {
    /// The operator-facing description of the error.
    pub open spec fn msg(&self) -> Seq<char> {
        match self {
            AsvzError::Http(s) => "Http error: "@ + s@,
            AsvzError::HttpMiddleware(s) => "Http error: "@ + s@,
            AsvzError::Lesson(e) => "Unable to connect to Lesson: "@ + e.error_status@
                + lesson_error_items(e.errors@),
            AsvzError::UnexpectedFormat => "Unexpected Response from the Server"@,
        }
    }

    pub fn message(&self) -> (r: String)
        ensures
            r@ == self.msg(),
    {
        match self {
            AsvzError::Http(s) => "Http error: ".to_owned().concat(s.as_str()),
            AsvzError::HttpMiddleware(s) => "Http error: ".to_owned().concat(s.as_str()),
            AsvzError::Lesson(e) => lesson_error_message(e),
            AsvzError::UnexpectedFormat => "Unexpected Response from the Server".to_owned(),
        }
    }
}

/// The digits of the lesson id inside a search result url, when they name
/// a well-formed id.
pub open spec fn url_lesson_id(url: Seq<char>) -> Option<Seq<char>> {
    match captured_digits(url, "/tn/lessons/"@, false) {
        Some(d) => if digits_val(d) <= u64::MAX {
            Some(d)
        } else {
            None
        },
        None => None,
    }
}

/// The digits of the first lesson url inside a chat message, when they
/// name a well-formed id.
pub open spec fn message_lesson_id(text: Seq<char>) -> Option<Seq<char>> {
    match captured_digits(text, "https://schalter.asvz.ch/tn/lessons/"@, false) {
        Some(d) => if digits_val(d) <= u64::MAX {
            Some(d)
        } else {
            None
        },
        None => None,
    }
}

/// Recognizes a lesson url pasted into a chat message.
pub fn extract_lesson_id(text: &str) -> (r: Option<LessonID>)
    ensures
        match r {
            Some(id) => message_lesson_id(text@) == Some(id@),
            None => message_lesson_id(text@) is None,
        },
{
    proof {
        reveal_strlit("https://schalter.asvz.ch/tn/lessons/");
    }
    match crate::scan::find_digit_capture(text, "https://schalter.asvz.ch/tn/lessons/", false) {
        Some(digits) => {
            proof {
                crate::scan::lemma_captured_digits_shape(
                    text@,
                    "https://schalter.asvz.ch/tn/lessons/"@,
                    false,
                );
            }
            match LessonID::from_str(digits.as_str()) {
                Ok(id) => Some(id),
                Err(_) => None,
            }
        },
        None => None,
    }
}

/// The consumed part of one search result.
#[derive(Debug, Clone, PartialEq)]
pub struct SearchResult {
    pub nid: i64,
    pub title: String,
    pub url: String,
}

impl SearchResult {
    /// The lesson id named by this result's url.
    pub fn lesson_id(&self) -> (r: Option<LessonID>)
        ensures
            match r {
                Some(id) => url_lesson_id(self.url@) == Some(id@),
                None => url_lesson_id(self.url@) is None,
            },
    {
        proof {
            reveal_strlit("/tn/lessons/");
        }
        match crate::scan::find_digit_capture(self.url.as_str(), "/tn/lessons/", false) {
            Some(digits) => {
                proof {
                    crate::scan::lemma_captured_digits_shape(self.url@, "/tn/lessons/"@, false);
                }
                match LessonID::from_str(digits.as_str()) {
                    Ok(id) => Some(id),
                    Err(_) => None,
                }
            },
            None => None,
        }
    }
}

/// The count block of a search response.
#[derive(Debug, Clone, PartialEq)]
pub struct Count {
    pub total: i64,
    pub limit: i64,
    pub offset: i64,
}

/// One facet term of a search response.
#[derive(Debug, Clone, PartialEq)]
pub struct Term {
    pub label: String,
    pub tid: String,
    pub count: i64,
    pub query_id: String,
    pub facet_id: String,
    pub sid: String,
    pub active: Option<bool>,
}

/// One facet block of a search response.
#[derive(Debug, Clone, PartialEq)]
pub struct Facet {
    pub id: String,
    pub label: String,
    pub terms: Vec<Term>,
}

/// One selected filter echoed by the search endpoint.
#[derive(Debug, Clone, PartialEq)]
pub struct Selected {
    pub label: Option<String>,
    pub tid: Option<String>,
    pub count: Option<i64>,
    pub query_id: Option<String>,
    pub facet_id: Option<String>,
    pub sid: String,
    pub type_field: String,
    pub key: String,
}

/// The value block echoed by the search endpoint.
#[derive(Debug, Clone, PartialEq)]
pub struct Values {
    pub date: i64,
    pub sort: String,
    pub availability: i64,
    pub livestream: i64,
    pub without_fitness: i64,
}

/// A search response: the result list with its bookkeeping blocks.
#[derive(Debug, Clone, PartialEq)]
pub struct EventList {
    pub results: Vec<SearchResult>,
    pub count: Count,
    pub facets: Vec<Facet>,
}

impl EventList {
    /// The lesson id of the first result, as the chain consumes it.
    pub fn lesson_id(&self) -> (r: Option<LessonID>)
        ensures
            match r {
                Some(id) => self.results@.len() > 0 && url_lesson_id(self.results@[0].url@)
                    == Some(id@),
                None => self.results@.len() == 0 || url_lesson_id(self.results@[0].url@) is None,
            },
    {
        if self.results.len() == 0 {
            None
        } else {
            self.results[0].lesson_id()
        }
    }
}

/// The consumed part of one sport search result.
#[derive(Debug, Clone, PartialEq)]
pub struct SportEntry {
    pub nid: i64,
    pub title: String,
}

/// The id of the last entry carrying `name` as its title; the lookup that
/// a name-to-id map built from the entries would answer.
pub open spec fn sport_nid_of(rs: Seq<SportEntry>, name: Seq<char>) -> Option<i64>
    decreases rs.len(),
{
    if rs.len() == 0 {
        None
    } else if rs.last().title@ == name {
        Some(rs.last().nid)
    } else {
        sport_nid_of(rs.drop_last(), name)
    }
}

/// A sport search response.
#[derive(Debug, Clone, PartialEq)]
pub struct SportSearch {
    pub results: Vec<SportEntry>,
}

impl SportSearch {
    /// Looks a sport's numeric id up by its display name.
    pub fn sport_nid(&self, name: &String) -> (r: Option<i64>)
        ensures
            r == sport_nid_of(self.results@, name@),
    {
        let n = self.results.len();
        let mut i: usize = n;
        proof {
            assert(self.results@.take(n as int) =~= self.results@);
        }
        while i > 0
            invariant
                0 <= i <= n,
                n == self.results@.len(),
                sport_nid_of(self.results@, name@) == sport_nid_of(
                    self.results@.take(i as int),
                    name@,
                ),
            decreases i,
        {
            i = i - 1;
            proof {
                assert(self.results@.take(i + 1).drop_last() =~= self.results@.take(i as int));
                assert(self.results@.take(i + 1).last() == self.results@[i as int]);
            }
            if self.results[i].title.eq(name) {
                return Some(self.results[i].nid);
            }
        }
        proof {
            assert(self.results@.take(0) =~= Seq::<SportEntry>::empty());
        }
        None
    }
}

/// Seconds in one week: the offset of the chain's forward search.
pub const WEEK_SECS: i64 = 604800;

/// The plan of the forward search for next week's occurrence: the same
/// sport, the same facility, one week after this lesson's start.
#[derive(Debug, Clone, PartialEq)]
pub struct SearchQuery {
    pub sport_nid: i64,
    pub facility_id: String,
    pub date_ts: i64,
}

/// Computes the forward-search query from a lesson's metadata and the
/// sport directory; fails exactly where a field cannot be read.
pub fn plan_weekly_search(data: &LessonData, sports: &SportSearch) -> (r: Result<
    SearchQuery,
    AsvzError,
>)
    ensures
        match r {
            Ok(q) => {
                &&& valid_ts(data.data.starts@) matches Some(t) && q.date_ts == t + WEEK_SECS
                &&& data.data.facilities@.len() > 0
                &&& captured_digits(data.data.facilities@[0].url@, "/anlage/"@, true) == Some(
                    q.facility_id@,
                )
                &&& sport_nid_of(sports.results@, data.data.sport_name@) == Some(q.sport_nid)
            },
            Err(e) => {
                &&& e == AsvzError::UnexpectedFormat
                &&& {
                    ||| valid_ts(data.data.starts@) is None
                    ||| data.data.facilities@.len() == 0
                    ||| captured_digits(data.data.facilities@[0].url@, "/anlage/"@, true) is None
                    ||| sport_nid_of(sports.results@, data.data.sport_name@) is None
                }
            },
        },
{
    let start_ts = match parse_datetime_timestamp(data.data.starts.as_str()) {
        Some(t) => if 0 <= t && t <= MAX_TIMESTAMP {
            t
        } else {
            return Err(AsvzError::UnexpectedFormat);
        },
        None => {
            return Err(AsvzError::UnexpectedFormat);
        },
    };
    if data.data.facilities.len() == 0 {
        return Err(AsvzError::UnexpectedFormat);
    }
    proof {
        reveal_strlit("/anlage/");
    }
    let facility_id = match crate::scan::find_digit_capture(
        data.data.facilities[0].url.as_str(),
        "/anlage/",
        true,
    ) {
        Some(d) => d,
        None => {
            return Err(AsvzError::UnexpectedFormat);
        },
    };
    let sport_nid = match sports.sport_nid(&data.data.sport_name) {
        Some(nid) => nid,
        None => {
            return Err(AsvzError::UnexpectedFormat);
        },
    };
    Ok(SearchQuery { sport_nid, facility_id, date_ts: start_ts + WEEK_SECS })
}

} // verus!
