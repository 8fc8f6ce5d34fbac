//! The request path: checking the ZIP parameter, then turning the outcome of
//! the dataset query into a reply. The query itself is made by the caller,
//! with the ZIP code bound as a parameter, between the two steps.
use vstd::prelude::*;

use crate::page::{page_text, simple_page};
use crate::temperature::{celsius_hundredths, fahrenheit_to_celsius};

verus! {

/// A lookup result follows.
pub const STATUS_OK: u16 = 200;

/// The ZIP parameter is missing or is not a ZIP code.
pub const STATUS_BAD_REQUEST: u16 = 400;

/// No zone is mapped to the ZIP code.
pub const STATUS_NOT_FOUND: u16 = 404;

/// The dataset could not be queried.
pub const STATUS_INTERNAL_ERROR: u16 = 500;

/// The number of digits in a ZIP code.
pub const ZIP_LEN: usize = 5;

/// A zone record of the dataset: its identifier and its minimum temperature,
/// in hundredths of a degree Fahrenheit.
pub struct Zone {
    pub id: String,
    pub min_temp_f: i64,
}

/// A zone record as plain values.
pub struct ZoneView {
    pub id: Seq<char>,
    pub min_temp_f: int,
}

impl View for Zone {
    type V = ZoneView;

    open spec fn view(&self) -> ZoneView {
        ZoneView { id: self.id@, min_temp_f: self.min_temp_f as int }
    }
}

/// The dataset could not be reached or the query failed; `message` is the
/// detail, for the server's log only.
pub struct DataError {
    pub message: String,
}

/// What a successful lookup answers: the zone and its minimum temperature
/// on both scales, in hundredths of a degree.
pub struct LookupResult {
    pub zone: String,
    pub min_temp_f: i64,
    pub min_temp_c: i64,
}

/// A lookup result as plain values.
pub struct LookupView {
    pub zone: Seq<char>,
    pub min_temp_f: int,
    pub min_temp_c: int,
}

impl View for LookupResult {
    type V = LookupView;

    open spec fn view(&self) -> LookupView {
        LookupView {
            zone: self.zone@,
            min_temp_f: self.min_temp_f as int,
            min_temp_c: self.min_temp_c as int,
        }
    }
}

/// The body of a reply: a lookup result, sent as JSON, or an HTML page.
pub enum Body {
    Json(LookupResult),
    Html(String),
}

/// A reply body as plain values.
pub enum BodyView {
    Json(LookupView),
    Html(Seq<char>),
}

impl View for Body {
    type V = BodyView;

    open spec fn view(&self) -> BodyView {
        match self {
            Body::Json(l) => BodyView::Json(l@),
            Body::Html(s) => BodyView::Html(s@),
        }
    }
}

/// An HTTP status code and the body that goes with it.
pub struct Reply {
    pub status: u16,
    pub body: Body,
}

/// A reply as plain values.
pub struct ReplyView {
    pub status: u16,
    pub body: BodyView,
}

impl View for Reply {
    type V = ReplyView;

    open spec fn view(&self) -> ReplyView {
        ReplyView { status: self.status, body: self.body@ }
    }
}

/// What to do with a request: query the dataset for a ZIP code, or answer at once.
pub enum Step {
    Lookup(String),
    Respond(Reply),
}

/// A first step as plain values.
pub enum StepView {
    Lookup(Seq<char>),
    Respond(ReplyView),
}

impl View for Step {
    type V = StepView;

    open spec fn view(&self) -> StepView {
        match self {
            Step::Lookup(z) => StepView::Lookup(z@),
            Step::Respond(r) => StepView::Respond(r@),
        }
    }
}

/// An ASCII decimal digit.
pub open spec fn is_digit(c: char) -> bool {
    '0' <= c && c <= '9'
}

/// A ZIP code is five decimal digits.
pub open spec fn zip_is_valid(s: Seq<char>) -> bool {
    s.len() == ZIP_LEN && forall|i: int| 0 <= i < s.len() ==> is_digit(#[trigger] s[i])
}

/// The page for a request without a well-formed ZIP code.
pub open spec fn bad_request_text() -> Seq<char> {
    page_text("Bad Request"@, "A ZIP code of five digits is required."@)
}

/// The page for a ZIP code that no zone is mapped to.
pub open spec fn not_found_text() -> Seq<char> {
    page_text("Not Found"@, "The requested ZIP code could not be found."@)
}

/// The page for a failed query.
pub open spec fn internal_error_text() -> Seq<char> {
    page_text("Internal Server Error"@, "The hardiness zone could not be looked up."@)
}

/// The privacy-policy page.
pub open spec fn privacy_policy_text() -> Seq<char> {
    page_text("Privacy Policy"@, "This site does not collect any personal information."@)
}

/// A reply carrying an HTML page.
pub open spec fn html_reply(status: u16, text: Seq<char>) -> ReplyView {
    ReplyView { status, body: BodyView::Html(text) }
}

/// The first step for a request whose ZIP parameter is `param`.
pub open spec fn plan_for(param: Option<Seq<char>>) -> StepView {
    match param {
        Some(q) => if zip_is_valid(q) {
            StepView::Lookup(q)
        } else {
            StepView::Respond(html_reply(STATUS_BAD_REQUEST, bad_request_text()))
        },
        None => StepView::Respond(html_reply(STATUS_BAD_REQUEST, bad_request_text())),
    }
}

/// The lookup result for a zone record.
pub open spec fn result_for(zone: ZoneView) -> LookupView {
    LookupView {
        zone: zone.id,
        min_temp_f: zone.min_temp_f,
        min_temp_c: celsius_hundredths(zone.min_temp_f),
    }
}

/// The reply to the outcome of a query: the record found, none, or a failure
/// with its detail.
pub open spec fn reply_for(outcome: Result<Option<ZoneView>, Seq<char>>) -> ReplyView {
    match outcome {
        Ok(Some(zone)) => ReplyView { status: STATUS_OK, body: BodyView::Json(result_for(zone)) },
        Ok(None) => html_reply(STATUS_NOT_FOUND, not_found_text()),
        Err(_) => html_reply(STATUS_INTERNAL_ERROR, internal_error_text()),
    }
}

/// The ZIP parameter as plain values.
pub open spec fn param_view(param: Option<&str>) -> Option<Seq<char>> {
    match param {
        Some(q) => Some(q@),
        None => None,
    }
}

/// The outcome of a query as plain values.
pub open spec fn outcome_view(outcome: Result<Option<Zone>, DataError>) -> Result<
    Option<ZoneView>,
    Seq<char>,
> {
    match outcome {
        Ok(Some(zone)) => Ok(Some(zone@)),
        Ok(None) => Ok(None),
        Err(e) => Err(e.message@),
    }
}

/// Whether `q` is a ZIP code: exactly five decimal digits.
pub fn is_valid_zip(q: &str) -> (r: bool)
    ensures
        r == zip_is_valid(q@),
{
    let len = q.unicode_len();
    if len != ZIP_LEN {
        return false;
    }
    let mut i: usize = 0;
    while i < len
        invariant
            len == q@.len(),
            i <= len,
            forall|j: int| 0 <= j < i ==> is_digit(#[trigger] q@[j]),
        decreases len - i,
    {
        let c = q.get_char(i);
        if !('0' <= c && c <= '9') {
            return false;
        }
        i = i + 1;
    }
    true
}

/// The page for a request without a well-formed ZIP code.
pub fn bad_request_page() -> (r: String)
    ensures
        r@ == bad_request_text(),
{
    simple_page("Bad Request", "A ZIP code of five digits is required.")
}

/// The page for a ZIP code that no zone is mapped to.
pub fn not_found_page() -> (r: String)
    ensures
        r@ == not_found_text(),
{
    simple_page("Not Found", "The requested ZIP code could not be found.")
}

/// The page for a failed query. It never holds the failure's detail.
pub fn internal_error_page() -> (r: String)
    ensures
        r@ == internal_error_text(),
{
    simple_page("Internal Server Error", "The hardiness zone could not be looked up.")
}

/// The static privacy-policy page.
pub fn privacy_policy_page() -> (r: String)
    ensures
        r@ == privacy_policy_text(),
{
    simple_page("Privacy Policy", "This site does not collect any personal information.")
}

impl LookupResult {
    /// The result for a zone record, with its minimum temperature converted
    /// to Celsius.
    pub fn from_zone(zone: &Zone) -> (r: LookupResult)
        ensures
            r@ == result_for(zone@),
    {
        LookupResult {
            zone: zone.id.clone(),
            min_temp_f: zone.min_temp_f,
            min_temp_c: fahrenheit_to_celsius(zone.min_temp_f),
        }
    }
}

/// Decides the first step for a request whose ZIP parameter is `param`:
/// a well-formed ZIP code goes to the dataset unchanged, anything else, or
/// no parameter at all, is answered with status 400.
pub fn plan_lookup(param: Option<&str>) -> (r: Step)
    ensures
        r@ == plan_for(param_view(param)),
{
    match param {
        Some(q) => {
            if is_valid_zip(q) {
                Step::Lookup(String::from_str(q))
            } else {
                Step::Respond(Reply { status: STATUS_BAD_REQUEST, body: Body::Html(bad_request_page()) })
            }
        },
        None => Step::Respond(Reply { status: STATUS_BAD_REQUEST, body: Body::Html(bad_request_page()) }),
    }
}

/// Turns the outcome of the dataset query into the reply: 200 with the
/// lookup result when a zone was found, 404 with a page when none was, 500
/// with a generic page when the query failed.
pub fn lookup_reply(outcome: Result<Option<Zone>, DataError>) -> (r: Reply)
    ensures
        r@ == reply_for(outcome_view(outcome)),
{
    match outcome {
        Ok(Some(zone)) => Reply { status: STATUS_OK, body: Body::Json(LookupResult::from_zone(&zone)) },
        Ok(None) => Reply { status: STATUS_NOT_FOUND, body: Body::Html(not_found_page()) },
        Err(_) => Reply { status: STATUS_INTERNAL_ERROR, body: Body::Html(internal_error_page()) },
    }
}

/// A well-formed ZIP code is looked up as it was given, and when the dataset
/// maps it to a zone the reply is 200 with that zone's identifier.
pub proof fn lemma_mapped_zip_is_served(zip: Seq<char>, zone: ZoneView)
    requires
        zip_is_valid(zip),
    ensures
        plan_for(Some(zip)) == StepView::Lookup(zip),
        reply_for(Ok(Some(zone))).status == STATUS_OK,
        reply_for(Ok(Some(zone))).body matches BodyView::Json(l) && l.zone == zone.id,
{
}

/// A well-formed ZIP code is looked up as it was given, and when the dataset
/// maps it to no zone the reply is 404.
pub proof fn lemma_unmapped_zip_not_found(zip: Seq<char>)
    requires
        zip_is_valid(zip),
    ensures
        plan_for(Some(zip)) == StepView::Lookup(zip),
        reply_for(Ok(None)).status == STATUS_NOT_FOUND,
{
}

/// A parameter holding anything but a digit (a quote, a semicolon, a space)
/// never reaches the query: the request is answered with 400 at once.
pub proof fn lemma_non_digit_never_queried(q: Seq<char>, i: int)
    requires
        0 <= i < q.len(),
        !is_digit(q[i]),
    ensures
        plan_for(Some(q)) == StepView::Respond(html_reply(STATUS_BAD_REQUEST, bad_request_text())),
{
}

/// A failed query is answered with 500 and a page that is the same whatever
/// the failure's detail, so no detail reaches the client.
pub proof fn lemma_failure_hides_detail(a: Seq<char>, b: Seq<char>)
    ensures
        reply_for(Err(a)) == reply_for(Err(b)),
        reply_for(Err(a)).status == STATUS_INTERNAL_ERROR,
{
}

} // verus!
