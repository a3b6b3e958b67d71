//! From the raw parameters of a list request to a bounded specification
//! of what to list: which page, how many per page, searched for what,
//! sorted by which field, created between which days.

use chrono::Datelike;
use vstd::prelude::*;
use vstd::string::*;

use crate::calendar::{is_calendar_date, CalendarDate};
use crate::text::{lists, lists_text, same_text};

verus! {

/// The page that is listed when none, or none that exists, is asked for.
pub const DEFAULT_PAGE: u64 = 1;

/// The page size that is used when none, or none that makes sense, is asked for.
pub const DEFAULT_PER_PAGE: u64 = 10;

/// The largest page size that is ever served.
pub const MAX_PER_PAGE: u64 = 100;

/// The field that every resource can be sorted by, and is sorted by when
/// nothing else applies.
pub open spec fn default_sort_field() -> Seq<char> {
    "created_at"@
}

/// The one value of `sort_order` that selects ascending order.
pub open spec fn ascending_word() -> Seq<char> {
    "asc"@
}

/// The form in which days are written: `YYYY-MM-DD`.
pub open spec fn date_format() -> Seq<char> {
    "%Y-%m-%d"@
}

/// The raw parameters of a list request, all optional.
#[derive(Debug)]
pub struct PaginationQuery {
    pub page: Option<i64>,
    pub limit: Option<i64>,
    pub search: Option<String>,
    pub sort_by: Option<String>,
    pub sort_order: Option<String>,
    pub start_date: Option<String>,
    pub end_date: Option<String>,
}

/// What a `PaginationQuery` stands for in contracts.
pub struct QueryModel {
    pub page: Option<i64>,
    pub limit: Option<i64>,
    pub search: Option<Seq<char>>,
    pub sort_by: Option<Seq<char>>,
    pub sort_order: Option<Seq<char>>,
    pub start_date: Option<Seq<char>>,
    pub end_date: Option<Seq<char>>,
}

/// The characters of an optional text.
pub open spec fn text_in(text: Option<String>) -> Option<Seq<char>> {
    match text {
        Some(t) => Some(t@),
        None => None,
    }
}

impl View for PaginationQuery {
    type V = QueryModel;

    open spec fn view(&self) -> QueryModel {
        QueryModel {
            page: self.page,
            limit: self.limit,
            search: text_in(self.search),
            sort_by: text_in(self.sort_by),
            sort_order: text_in(self.sort_order),
            start_date: text_in(self.start_date),
            end_date: text_in(self.end_date),
        }
    }
}

/// Ascending or descending.
#[derive(Clone, Copy, Debug, PartialEq, Eq, Structural)]
pub enum SortDirection {
    Asc,
    Desc,
}

/// One of the two day parameters of a list request.
#[derive(Clone, Copy, Debug, PartialEq, Eq, Structural)]
pub enum DateField {
    StartDate,
    EndDate,
}

/// Why a list request is turned down before anything is looked up.
#[derive(Clone, Copy, Debug, PartialEq, Eq, Structural)]
pub enum ValidationFailure {
    /// The named parameter is not a day written as `YYYY-MM-DD`.
    InvalidDateFormat(DateField),
}

/// What a resource is called and what it lets its lists be searched and
/// sorted by. Every resource can be sorted by `created_at`; `sortable` names
/// the other fields.
#[derive(Debug)]
pub struct ResourceDescriptor {
    pub plural: String,
    pub searchable: Vec<String>,
    pub sortable: Vec<String>,
}

impl ResourceDescriptor {
    /// `field` is `created_at` or one of the resource's sortable fields.
    pub open spec fn allows_sort(&self, field: Seq<char>) -> bool {
        field == default_sort_field() || lists(self.sortable@, field)
    }

    /// Whether lists of this resource may be sorted by `field`.
    pub fn can_sort_by(&self, field: &str) -> (allowed: bool)
        ensures
            allowed == self.allows_sort(field@),
    {
        same_text(field, "created_at") || lists_text(&self.sortable, field)
    }
}

/// Users are searched by name and email, and sorted by name or creation.
pub fn user_resource() -> (resource: ResourceDescriptor)
    ensures
        resource.plural@ == "Users"@,
        resource.searchable@.len() == 2,
        resource.searchable@[0]@ == "name"@,
        resource.searchable@[1]@ == "email"@,
        resource.sortable@.len() == 1,
        resource.sortable@[0]@ == "name"@,
{
    let mut searchable: Vec<String> = Vec::new();
    searchable.push("name".to_owned());
    searchable.push("email".to_owned());
    let mut sortable: Vec<String> = Vec::new();
    sortable.push("name".to_owned());
    ResourceDescriptor { plural: "Users".to_owned(), searchable, sortable }
}

/// Posts are searched by title, and sorted by title or creation.
pub fn post_resource() -> (resource: ResourceDescriptor)
    ensures
        resource.plural@ == "Posts"@,
        resource.searchable@.len() == 1,
        resource.searchable@[0]@ == "title"@,
        resource.sortable@.len() == 1,
        resource.sortable@[0]@ == "title"@,
{
    let mut searchable: Vec<String> = Vec::new();
    searchable.push("title".to_owned());
    let mut sortable: Vec<String> = Vec::new();
    sortable.push("title".to_owned());
    ResourceDescriptor { plural: "Posts".to_owned(), searchable, sortable }
}

/// The page to list: the one asked for, or the first where none or one
/// below 1 was asked for.
pub open spec fn normal_page(page: Option<i64>) -> int {
    match page {
        Some(p) => if p < 1 {
            1
        } else {
            p as int
        },
        None => 1,
    }
}

/// The page size to use: the one asked for if it lies between 1 and 100;
/// 100 for a larger one; 10 for none or one below 1.
pub open spec fn normal_per_page(limit: Option<i64>) -> int {
    match limit {
        Some(l) => if l > 100 {
            100
        } else if l < 1 {
            10
        } else {
            l as int
        },
        None => 10,
    }
}

/// The text to search for: none where none or an empty one was given.
pub open spec fn normal_search(search: Option<Seq<char>>) -> Option<Seq<char>> {
    match search {
        Some(s) => if s.len() == 0 {
            None
        } else {
            Some(s)
        },
        None => None,
    }
}

/// The field and direction to sort by.
///
/// Without `sort_by` the field is `created_at`. A field that the resource
/// allows is taken, ascending if `sort_order` is exactly `asc` and descending
/// otherwise. A field that it does not allow is replaced by `created_at`,
/// descending, whatever `sort_order` says.
pub open spec fn normal_sort(
    sort_by: Option<Seq<char>>,
    sort_order: Option<Seq<char>>,
    resource: ResourceDescriptor,
) -> (Seq<char>, SortDirection) {
    let wanted = match sort_by {
        Some(f) => f,
        None => default_sort_field(),
    };
    if resource.allows_sort(wanted) {
        (
            wanted,
            if sort_order == Some(ascending_word()) {
                SortDirection::Asc
            } else {
                SortDirection::Desc
            },
        )
    } else {
        (default_sort_field(), SortDirection::Desc)
    }
}

/// The year, month and day that `chrono::NaiveDate::parse_from_str` reads
/// from `text` by `format`, or `None` where it reports an error.
pub uninterp spec fn parsed_date(text: Seq<char>, format: Seq<char>) -> Option<(i32, u32, u32)>;

/// Calls `chrono::NaiveDate::parse_from_str` and takes year, month and day
/// of the date it returns.
///
/// Trusted: the result is the named one.
#[verifier::external_body]
fn parse_date(text: &str, format: &str) -> (parts: Option<(i32, u32, u32)>)
    ensures
        parts == parsed_date(text@, format@),
{
    match chrono::NaiveDate::parse_from_str(text, format) {
        Ok(date) => Some((date.year(), date.month(), date.day())),
        Err(_) => None,
    }
}

/// Year, month and day of an optional day.
pub open spec fn parts_in(day: Option<CalendarDate>) -> Option<(int, int, int)> {
    match day {
        Some(d) => Some((d.spec_year(), d.spec_month(), d.spec_day())),
        None => None,
    }
}

/// The day that a parser's reading stands for: the reading itself where it
/// names a day that exists, none otherwise.
pub open spec fn day_read(parts: Option<(i32, u32, u32)>) -> Option<(int, int, int)> {
    match parts {
        Some(p) => if is_calendar_date(p.0 as int, p.1 as int, p.2 as int) {
            Some((p.0 as int, p.1 as int, p.2 as int))
        } else {
            None
        },
        None => None,
    }
}

/// The day that `text` names when it is read as `YYYY-MM-DD`.
pub open spec fn day_named(text: Seq<char>) -> Option<(int, int, int)> {
    day_read(parsed_date(text, date_format()))
}

/// Turns a parser's reading into a day, if it names one that exists.
pub fn day_from_parts(parts: Option<(i32, u32, u32)>) -> (day: Option<CalendarDate>)
    ensures
        parts_in(day) == day_read(parts),
        day matches Some(d) ==> d.is_valid(),
{
    match parts {
        Some((year, month, day)) => CalendarDate::new(year, month, day),
        None => None,
    }
}

/// Reads `text` as a day written `YYYY-MM-DD`.
pub fn parse_day(text: &str) -> (day: Option<CalendarDate>)
    ensures
        parts_in(day) == day_named(text@),
        day matches Some(d) ==> d.is_valid(),
{
    day_from_parts(parse_date(text, "%Y-%m-%d"))
}

/// What to list, normalised: every value in its bounds. Built by
/// `ListQuerySpec::from_query` and read through its methods.
#[derive(Debug)]
pub struct ListQuerySpec {
    page: u64,
    per_page: u64,
    search: Option<String>,
    sort_field: String,
    sort_direction: SortDirection,
    date_from: Option<CalendarDate>,
    date_to: Option<CalendarDate>,
}

/// What a `ListQuerySpec` stands for in contracts.
pub struct ListModel {
    pub page: int,
    pub per_page: int,
    pub search: Option<Seq<char>>,
    pub sort_field: Seq<char>,
    pub sort_direction: SortDirection,
    pub date_from: Option<(int, int, int)>,
    pub date_to: Option<(int, int, int)>,
}

impl View for ListQuerySpec {
    type V = ListModel;

    closed spec fn view(&self) -> ListModel {
        ListModel {
            page: self.page as int,
            per_page: self.per_page as int,
            search: text_in(self.search),
            sort_field: self.sort_field@,
            sort_direction: self.sort_direction,
            date_from: parts_in(self.date_from),
            date_to: parts_in(self.date_to),
        }
    }
}

impl ListModel {
    /// Every value is in its bounds: a page from 1, a page size from 1 to
    /// 100, no empty search text, a sort field that `resource` allows, and
    /// days that exist.
    pub open spec fn is_bounded(self, resource: ResourceDescriptor) -> bool {
        &&& 1 <= self.page
        &&& 1 <= self.per_page <= MAX_PER_PAGE
        &&& self.search matches Some(s) ==> s.len() > 0
        &&& resource.allows_sort(self.sort_field)
        &&& self.date_from matches Some(d) ==> is_calendar_date(d.0, d.1, d.2)
        &&& self.date_to matches Some(d) ==> is_calendar_date(d.0, d.1, d.2)
    }
}

/// The specification that a query normalises to for `resource`, or the
/// reason why it is turned down. A start day that cannot be read is reported
/// before an end day that cannot.
pub open spec fn normalized(query: QueryModel, resource: ResourceDescriptor) -> Result<
    ListModel,
    ValidationFailure,
> {
    if query.start_date matches Some(text) && day_named(text) is None {
        Err(ValidationFailure::InvalidDateFormat(DateField::StartDate))
    } else if query.end_date matches Some(text) && day_named(text) is None {
        Err(ValidationFailure::InvalidDateFormat(DateField::EndDate))
    } else {
        let sort = normal_sort(query.sort_by, query.sort_order, resource);
        Ok(
            ListModel {
                page: normal_page(query.page),
                per_page: normal_per_page(query.limit),
                search: normal_search(query.search),
                sort_field: sort.0,
                sort_direction: sort.1,
                date_from: match query.start_date {
                    Some(text) => day_named(text),
                    None => None,
                },
                date_to: match query.end_date {
                    Some(text) => day_named(text),
                    None => None,
                },
            },
        )
    }
}

/// `found` is the executable form of `wanted`.
pub open spec fn same_listing(
    found: Result<ListQuerySpec, ValidationFailure>,
    wanted: Result<ListModel, ValidationFailure>,
) -> bool {
    match (found, wanted) {
        (Ok(s), Ok(m)) => s@ == m,
        (Err(e), Err(f)) => e == f,
        _ => false,
    }
}

/// The page to list.
pub fn normalize_page(page: Option<i64>) -> (normal: u64)
    ensures
        normal == normal_page(page),
        normal >= 1,
{
    match page {
        Some(p) => if p < 1 {
            DEFAULT_PAGE
        } else {
            p as u64
        },
        None => DEFAULT_PAGE,
    }
}

/// The page size to use.
pub fn normalize_per_page(limit: Option<i64>) -> (normal: u64)
    ensures
        normal == normal_per_page(limit),
        1 <= normal <= MAX_PER_PAGE,
{
    match limit {
        Some(l) => if l > 100 {
            MAX_PER_PAGE
        } else if l < 1 {
            DEFAULT_PER_PAGE
        } else {
            l as u64
        },
        None => DEFAULT_PER_PAGE,
    }
}

/// The text to search for, if any.
pub fn normalize_search(search: Option<String>) -> (normal: Option<String>)
    ensures
        text_in(normal) == normal_search(text_in(search)),
{
    match search {
        Some(s) => if s.as_str().is_empty() {
            None
        } else {
            Some(s)
        },
        None => None,
    }
}

/// The field and direction to sort by.
pub fn resolve_sort(
    sort_by: Option<String>,
    sort_order: Option<String>,
    resource: &ResourceDescriptor,
) -> (sort: (String, SortDirection))
    ensures
        (sort.0@, sort.1) == normal_sort(text_in(sort_by), text_in(sort_order), *resource),
        resource.allows_sort(sort.0@),
{
    let wanted: String = match sort_by {
        Some(f) => f,
        None => "created_at".to_owned(),
    };
    if resource.can_sort_by(wanted.as_str()) {
        let ascending: bool = match sort_order {
            Some(order) => same_text(order.as_str(), "asc"),
            None => false,
        };
        if ascending {
            (wanted, SortDirection::Asc)
        } else {
            (wanted, SortDirection::Desc)
        }
    } else {
        ("created_at".to_owned(), SortDirection::Desc)
    }
}

impl ListQuerySpec {
    #[verifier::type_invariant]
    spec fn in_bounds(self) -> bool {
        &&& 1 <= self.page
        &&& 1 <= self.per_page <= MAX_PER_PAGE
        &&& self.search matches Some(s) ==> s@.len() > 0
    }

    /// The page to list, from 1.
    pub fn page(&self) -> (page: u64)
        ensures
            page == self@.page,
            page >= 1,
    {
        proof {
            use_type_invariant(self);
        }
        self.page
    }

    /// The number of items on a page, from 1 to 100.
    pub fn per_page(&self) -> (per_page: u64)
        ensures
            per_page == self@.per_page,
            1 <= per_page <= MAX_PER_PAGE,
    {
        proof {
            use_type_invariant(self);
        }
        self.per_page
    }

    /// The text to search for, if any; never an empty one.
    pub fn search(&self) -> (search: &Option<String>)
        ensures
            text_in(*search) == self@.search,
            *search matches Some(s) ==> s@.len() > 0,
    {
        proof {
            use_type_invariant(self);
        }
        &self.search
    }

    /// The field to sort by.
    pub fn sort_field(&self) -> (field: &String)
        ensures
            field@ == self@.sort_field,
    {
        &self.sort_field
    }

    /// The direction to sort in.
    pub fn sort_direction(&self) -> (direction: SortDirection)
        ensures
            direction == self@.sort_direction,
    {
        self.sort_direction
    }

    /// The first day whose records are listed, if one was given.
    pub fn date_from(&self) -> (day: Option<CalendarDate>)
        ensures
            parts_in(day) == self@.date_from,
    {
        self.date_from
    }

    /// The last day whose records are listed, if one was given.
    pub fn date_to(&self) -> (day: Option<CalendarDate>)
        ensures
            parts_in(day) == self@.date_to,
    {
        self.date_to
    }

    /// Normalises the raw parameters of a list request for `resource`.
    ///
    /// Fails exactly when a day is given that cannot be read as
    /// `YYYY-MM-DD`; everything else is brought into bounds silently.
    pub fn from_query(query: PaginationQuery, resource: &ResourceDescriptor) -> (r: Result<
        ListQuerySpec,
        ValidationFailure,
    >)
        ensures
            same_listing(r, normalized(query@, *resource)),
            r matches Ok(spec) ==> spec@.is_bounded(*resource),
    {
        let PaginationQuery { page, limit, search, sort_by, sort_order, start_date, end_date } =
            query;
        let date_from: Option<CalendarDate> = match start_date {
            Some(text) => match parse_day(text.as_str()) {
                Some(day) => Some(day),
                None => {
                    return Err(ValidationFailure::InvalidDateFormat(DateField::StartDate));
                },
            },
            None => None,
        };
        let date_to: Option<CalendarDate> = match end_date {
            Some(text) => match parse_day(text.as_str()) {
                Some(day) => Some(day),
                None => {
                    return Err(ValidationFailure::InvalidDateFormat(DateField::EndDate));
                },
            },
            None => None,
        };
        let (sort_field, sort_direction) = resolve_sort(sort_by, sort_order, resource);
        Ok(
            ListQuerySpec {
                page: normalize_page(page),
                per_page: normalize_per_page(limit),
                search: normalize_search(search),
                sort_field,
                sort_direction,
                date_from,
                date_to,
            },
        )
    }
}

/// Whatever is asked for, what a query normalises to is in bounds.
pub proof fn lemma_normalized_is_bounded(query: QueryModel, resource: ResourceDescriptor)
    ensures
        normalized(query, resource) matches Ok(spec) ==> spec.is_bounded(resource),
{
}

/// A sort field that the resource does not allow is replaced by
/// `created_at`, descending, and never turned down.
pub proof fn lemma_unknown_sort_field_falls_back(
    query: QueryModel,
    resource: ResourceDescriptor,
    field: Seq<char>,
)
    requires
        query.sort_by == Some(field),
        !resource.allows_sort(field),
    ensures
        normalized(query, resource) matches Ok(spec) ==> spec.sort_field == default_sort_field()
            && spec.sort_direction == SortDirection::Desc,
        normalized(query, resource) is Err ==> (query.start_date matches Some(t) && day_named(t)
            is None) || (query.end_date matches Some(t) && day_named(t) is None),
{
}

} // verus!
