//! Query parameters for filtering and paging, and dates taken from input.
use crate::error::{AppNotice, BAD_REQUEST};
use crate::outside::{date_time_refusal, parse_date_time};
use chrono::{NaiveDate, NaiveDateTime};
use vstd::prelude::*;

verus! {

/// `chrono::NaiveDate`: a calendar date.
#[verifier::external_type_specification]
#[verifier::external_body]
pub struct ExNaiveDate(NaiveDate);

/// `chrono::NaiveDateTime`: a date with a time of day.
#[verifier::external_type_specification]
#[verifier::external_body]
pub struct ExNaiveDateTime(NaiveDateTime);

/// The number of results where the request names none.
pub const DEFAULT_LIMIT: i64 = 10;

/// The greatest number of results that a request can ask for.
pub const MAX_LIMIT: i64 = 150;

/// The common query parameters for filtering, paging and sorting.
pub struct QueryParams {
    /// Search term for filtering results.
    pub search: Option<String>,
    /// The maximum number of results to return.
    pub limit: Option<i64>,
    /// The current page number.
    pub page: Option<i64>,
    /// Number of results per page.
    pub per_page: Option<i64>,
    /// Filter by status.
    pub status: Option<String>,
    /// Filter by stage.
    pub stage: Option<String>,
    /// The column to sort by.
    pub order_col: Option<String>,
    /// The sorting direction: `asc` or `desc`.
    pub order_dir: Option<String>,
    /// Start date, inclusive.
    pub start_date: Option<NaiveDate>,
    /// End date, inclusive.
    pub end_date: Option<NaiveDate>,
}

/// The smaller of `value` and the greatest limit, with `value` defaulting
/// to the default limit.
pub open spec fn capped(value: Option<i64>) -> i64 {
    let v = match value {
        Some(n) => n,
        None => DEFAULT_LIMIT,
    };
    if v <= MAX_LIMIT {
        v
    } else {
        MAX_LIMIT
    }
}

/// The characters of an optional text, empty where it is absent.
pub open spec fn text_or_empty(s: Option<String>) -> Seq<char> {
    match s {
        Some(t) => t@,
        None => Seq::empty(),
    }
}

fn cap(value: Option<i64>) -> (r: i64)
    ensures
        r == capped(value),
{
    let v = match value {
        Some(n) => n,
        None => DEFAULT_LIMIT,
    };
    if v <= MAX_LIMIT {
        v
    } else {
        MAX_LIMIT
    }
}

impl Default for QueryParams {
    fn default() -> (r: Self)
        ensures
            r.search is None,
            r.limit is None,
            r.page is None,
            r.per_page is None,
            r.status is None,
            r.stage is None,
            r.order_col is None,
            r.order_dir is None,
            r.start_date is None,
            r.end_date is None,
    {
        QueryParams {
            search: None,
            limit: None,
            page: None,
            per_page: None,
            status: None,
            stage: None,
            order_col: None,
            order_dir: None,
            start_date: None,
            end_date: None,
        }
    }
}

impl QueryParams {
    /// The search term, if there is one.
    pub fn search(&self) -> (r: Option<String>)
        ensures
            r is Some <==> self.search is Some,
            r is Some ==> r->0@ == self.search->0@,
    {
        match &self.search {
            Some(s) => Some(s.clone()),
            None => None,
        }
    }

    /// The search term, empty where there is none.
    pub fn search_query(&self) -> (r: String)
        ensures
            r@ == text_or_empty(self.search),
    {
        match &self.search {
            Some(s) => s.clone(),
            None => String::new(),
        }
    }

    /// The search term between two `%`, for a `LIKE` pattern.
    pub fn search_query_like(&self) -> (r: String)
        ensures
            r@ == "%"@ + text_or_empty(self.search) + "%"@,
    {
        let mut out = String::from_str("%");
        out.append(self.search_query().as_str());
        out.append("%");
        out
    }

    /// The number of results to return: 10 by default, 150 at most.
    pub fn limit(&self) -> (r: i64)
        ensures
            r == capped(self.limit),
    {
        cap(self.limit)
    }

    /// The current page, which is the first by default.
    pub fn curr_page(&self) -> (r: i64)
        ensures
            r == (match self.page {
                Some(p) => p,
                None => 1,
            }),
    {
        match self.page {
            Some(p) => p,
            None => 1,
        }
    }

    /// The number of results per page: 10 by default, 150 at most.
    pub fn per_page(&self) -> (r: i64)
        ensures
            r == capped(self.per_page),
    {
        cap(self.per_page)
    }
}

/// The text that is parsed for the date `date`: the date at midnight.
pub open spec fn midnight_text(date: Seq<char>) -> Seq<char> {
    date + " 00:00:00"@
}

/// The message for a date that does not parse, for the reason `why`.
pub open spec fn invalid_date_text(field_name: Seq<char>, date: Seq<char>, why: Seq<char>) -> Seq<
    char,
> {
    "Invalid "@ + field_name + " input value("@ + date
        + "), please make sure it's valid date; "@ + why
}

/// The format in which a date at midnight is parsed.
pub open spec fn midnight_format() -> Seq<char> {
    "%Y-%m-%d %H:%M:%S"@
}

/// What a handler gets once the date text has been parsed with the outcome
/// `parsed`: the date at midnight, or a warning that names the field, the
/// input and the parser's reason.
pub fn date_outcome<T>(date: &str, field_name: &str, parsed: Result<T, String>) -> (r: Result<
    T,
    AppNotice,
>)
    ensures
        match parsed {
            Ok(v) => r == Ok::<T, AppNotice>(v),
            Err(why) => r is Err && r->Err_0.status == BAD_REQUEST && r->Err_0.message@
                == invalid_date_text(field_name@, date@, why@),
        },
{
    match parsed {
        Ok(v) => Ok(v),
        Err(why) => {
            let mut text = String::from_str("Invalid ");
            text.append(field_name);
            text.append(" input value(");
            text.append(date);
            text.append("), please make sure it's valid date; ");
            text.append(why.as_str());
            Err(AppNotice::warning(text))
        },
    }
}

/// The moment at midnight of the day that `date` names as `YYYY-MM-DD`.
/// The date, followed by the time `00:00:00`, is parsed as a date and time;
/// where that is refused, the result is a warning that names the field, the
/// input and the reason.
pub fn date_from_unsafe_input(date: &str, field_name: &str) -> (r: Result<NaiveDateTime, AppNotice>)
    ensures
        match date_time_refusal(midnight_text(date@), midnight_format()) {
            None => r is Ok,
            Some(why) => r is Err && r->Err_0.status == BAD_REQUEST && r->Err_0.message@
                == invalid_date_text(field_name@, date@, why),
        },
{
    let mut text = String::from_str(date);
    text.append(" 00:00:00");
    let parsed = parse_date_time(text.as_str(), "%Y-%m-%d %H:%M:%S");
    date_outcome(date, field_name, parsed)
}

/// One header as a name and a value.
#[derive(Debug, Clone)]
pub struct HttpHeaderItem {
    pub name: String,
    pub value: String,
}

} // verus!
