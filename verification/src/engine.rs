//! The paginated list query: from a normalised specification to the filter,
//! order and window that the store is asked for, and from the store's two
//! answers (a count, then a page) to the envelope that is sent back.
//!
//! The store itself is not here. A caller asks it to count what
//! `QueryPlan::filter` admits, hands the answer to `on_counted`, asks it for
//! the page that the `PageRequest` describes, and hands that answer to
//! `on_fetched`.

use vstd::prelude::*;
use vstd::string::*;

use crate::api_response::{ApiResponse, BAD_REQUEST, INTERNAL_ERROR, OK};
use crate::calendar::{
    date_at_or_before, day_number, is_calendar_date, lemma_day_numbers_follow_calendar,
    SECONDS_PER_DAY,
};
use crate::listing::{
    DateField, ListModel, ListQuerySpec, ResourceDescriptor, SortDirection, ValidationFailure,
    MAX_PER_PAGE,
};
use crate::text::{decimal, decimal_text};

verus! {

/// A text that must occur in at least one of the named fields.
#[derive(Debug)]
pub struct SearchFilter {
    pub term: String,
    pub fields: Vec<String>,
}

/// Which records are listed: those that the search text, if any, is found
/// in, and that were created within the bounds, if any. The bounds are Unix
/// timestamps and belong to the range.
#[derive(Debug)]
pub struct RecordFilter {
    pub search: Option<SearchFilter>,
    pub created_from: Option<i64>,
    pub created_to: Option<i64>,
}

/// What a `SearchFilter` stands for in contracts.
pub struct SearchModel {
    pub term: Seq<char>,
    pub fields: Seq<Seq<char>>,
}

/// What a `RecordFilter` stands for in contracts.
pub struct FilterModel {
    pub search: Option<SearchModel>,
    pub created_from: Option<int>,
    pub created_to: Option<int>,
}

/// The characters of each text of a list.
pub open spec fn texts(list: Seq<String>) -> Seq<Seq<char>> {
    Seq::new(list.len(), |i: int| list[i]@)
}

impl View for SearchFilter {
    type V = SearchModel;

    open spec fn view(&self) -> SearchModel {
        SearchModel { term: self.term@, fields: texts(self.fields@) }
    }
}

impl View for RecordFilter {
    type V = FilterModel;

    open spec fn view(&self) -> FilterModel {
        FilterModel {
            search: match self.search {
                Some(s) => Some(s@),
                None => None,
            },
            created_from: match self.created_from {
                Some(t) => Some(t as int),
                None => None,
            },
            created_to: match self.created_to {
                Some(t) => Some(t as int),
                None => None,
            },
        }
    }
}

impl FilterModel {
    /// A record created at `created_at` lies within the bounds.
    pub open spec fn admits_created_at(self, created_at: int) -> bool {
        &&& self.created_from matches Some(from) ==> from <= created_at
        &&& self.created_to matches Some(to) ==> created_at <= to
    }
}

impl RecordFilter {
    /// Whether a record created at `created_at` lies within the bounds.
    pub fn admits_created_at(&self, created_at: i64) -> (admitted: bool)
        ensures
            admitted == self@.admits_created_at(created_at as int),
    {
        let late_enough: bool = match self.created_from {
            Some(from) => from <= created_at,
            None => true,
        };
        let early_enough: bool = match self.created_to {
            Some(to) => created_at <= to,
            None => true,
        };
        late_enough && early_enough
    }
}

/// What a `QueryPlan` stands for in contracts.
pub struct PlanModel {
    pub filter: FilterModel,
    pub sort_field: Seq<char>,
    pub sort_direction: SortDirection,
    pub page: int,
    pub per_page: int,
}

impl PlanModel {
    /// The number of records that are skipped before the page begins.
    pub open spec fn offset(self) -> int {
        (self.page - 1) * self.per_page
    }
}

/// The first second of a day, as a Unix timestamp.
pub open spec fn first_second_of(day: (int, int, int)) -> int {
    day_number(day.0, day.1, day.2) * SECONDS_PER_DAY
}

/// The last second of a day, as a Unix timestamp.
pub open spec fn last_second_of(day: (int, int, int)) -> int {
    day_number(day.0, day.1, day.2) * SECONDS_PER_DAY + (SECONDS_PER_DAY - 1)
}

/// The plan for a normalised specification: search in every searchable field
/// of the resource, from the first second of the first day to the last second
/// of the last, in the order and on the page that the specification names.
pub open spec fn planned(spec: ListModel, resource: ResourceDescriptor) -> PlanModel {
    PlanModel {
        filter: FilterModel {
            search: match spec.search {
                Some(term) => Some(SearchModel { term, fields: texts(resource.searchable@) }),
                None => None,
            },
            created_from: match spec.date_from {
                Some(day) => Some(first_second_of(day)),
                None => None,
            },
            created_to: match spec.date_to {
                Some(day) => Some(last_second_of(day)),
                None => None,
            },
        },
        sort_field: spec.sort_field,
        sort_direction: spec.sort_direction,
        page: spec.page,
        per_page: spec.per_page,
    }
}

/// A plan for the days from `from` to `to` lists a record exactly when the
/// day it was created on is neither before `from` nor after `to`, whatever
/// the time of that day. Here the record was created at second
/// `second_of_day` of day `on`.
pub proof fn lemma_planned_range_lists_its_days(
    spec: ListModel,
    resource: ResourceDescriptor,
    from: (int, int, int),
    to: (int, int, int),
    on: (int, int, int),
    second_of_day: int,
)
    requires
        spec.date_from == Some(from),
        spec.date_to == Some(to),
        is_calendar_date(from.0, from.1, from.2),
        is_calendar_date(to.0, to.1, to.2),
        is_calendar_date(on.0, on.1, on.2),
        0 <= second_of_day < SECONDS_PER_DAY,
    ensures
        planned(spec, resource).filter.admits_created_at(first_second_of(on) + second_of_day) <==> (
        date_at_or_before(from, on) && date_at_or_before(on, to)),
{
    lemma_day_numbers_follow_calendar(from, on);
    lemma_day_numbers_follow_calendar(on, to);
}

/// What the store is asked for: a filter, an order and a window.
#[derive(Debug)]
pub struct QueryPlan {
    filter: RecordFilter,
    sort_field: String,
    sort_direction: SortDirection,
    page: u64,
    per_page: u64,
}

impl View for QueryPlan {
    type V = PlanModel;

    closed spec fn view(&self) -> PlanModel {
        PlanModel {
            filter: self.filter@,
            sort_field: self.sort_field@,
            sort_direction: self.sort_direction,
            page: self.page as int,
            per_page: self.per_page as int,
        }
    }
}

/// A copy of a list of texts.
fn copy_of(list: &Vec<String>) -> (copy: Vec<String>)
    ensures
        copy@ == list@,
{
    let mut copy: Vec<String> = Vec::new();
    let mut i: usize = 0;
    while i < list.len()
        invariant
            i <= list.len(),
            copy@ == list@.subrange(0, i as int),
        decreases list.len() - i,
    {
        copy.push(list[i].clone());
        assert(copy@ =~= list@.subrange(0, i + 1));
        i = i + 1;
    }
    assert(list@.subrange(0, list.len() as int) =~= list@);
    copy
}

impl QueryPlan {
    #[verifier::type_invariant]
    spec fn in_bounds(self) -> bool {
        1 <= self.page && 1 <= self.per_page <= MAX_PER_PAGE
    }

    /// Plans the query for a normalised specification of `resource`.
    pub fn plan_query(spec: &ListQuerySpec, resource: &ResourceDescriptor) -> (plan: QueryPlan)
        ensures
            plan@ == planned(spec@, *resource),
    {
        let search: Option<SearchFilter> = match spec.search() {
            Some(term) => Some(
                SearchFilter { term: term.clone(), fields: copy_of(&resource.searchable) },
            ),
            None => None,
        };
        let created_from: Option<i64> = match spec.date_from() {
            Some(day) => Some(day.first_second()),
            None => None,
        };
        let created_to: Option<i64> = match spec.date_to() {
            Some(day) => Some(day.last_second()),
            None => None,
        };
        QueryPlan {
            filter: RecordFilter { search, created_from, created_to },
            sort_field: spec.sort_field().clone(),
            sort_direction: spec.sort_direction(),
            page: spec.page(),
            per_page: spec.per_page(),
        }
    }

    /// Which records are counted and listed.
    pub fn filter(&self) -> (filter: &RecordFilter)
        ensures
            filter@ == self@.filter,
    {
        &self.filter
    }

    /// The field by which the page is ordered.
    pub fn sort_field(&self) -> (field: &String)
        ensures
            field@ == self@.sort_field,
    {
        &self.sort_field
    }

    /// The direction in which the page is ordered.
    pub fn sort_direction(&self) -> (direction: SortDirection)
        ensures
            direction == self@.sort_direction,
    {
        self.sort_direction
    }

    /// The page, from 1.
    pub fn page(&self) -> (page: u64)
        ensures
            page == self@.page,
            page >= 1,
    {
        proof {
            use_type_invariant(self);
        }
        self.page
    }

    /// The most records that the page holds, from 1 to 100.
    pub fn limit(&self) -> (limit: u64)
        ensures
            limit == self@.per_page,
            1 <= limit <= MAX_PER_PAGE,
    {
        proof {
            use_type_invariant(self);
        }
        self.per_page
    }

    /// The number of records that are skipped before the page begins:
    /// `(page - 1) * per_page`.
    pub fn offset(&self) -> (offset: u128)
        ensures
            offset == self@.offset(),
    {
        proof {
            use_type_invariant(self);
        }
        let pages_before: u128 = (self.page - 1) as u128;
        let per_page: u128 = self.per_page as u128;
        assert(pages_before * per_page <= 0xffff_ffff_ffff_ffff * 100) by (nonlinear_arith)
            requires
                0 <= pages_before <= 0xffff_ffff_ffff_ffff,
                0 <= per_page <= 100,
        ;
        pages_before * per_page
    }

    /// The offset as a store takes it: a `u64`. A page that begins further
    /// out than that has none, and no store holds a record for it.
    pub fn offset_in_store(&self) -> (offset: Option<u64>)
        ensures
            match offset {
                Some(skipped) => skipped == self@.offset(),
                None => self@.offset() > u64::MAX,
            },
    {
        let exact: u128 = self.offset();
        if exact > 0xffff_ffff_ffff_ffff {
            None
        } else {
            Some(exact as u64)
        }
    }
}

/// The number of pages that `total_items` records fill, `per_page` to a
/// page: none for no records, otherwise the quotient rounded up.
pub open spec fn pages_for(total_items: int, per_page: int) -> int {
    if total_items == 0 {
        0
    } else {
        (total_items + per_page - 1) / per_page
    }
}

/// The number of records on page `page` when `total_items` records are
/// listed `per_page` to a page.
pub open spec fn records_on_page(total_items: int, page: int, per_page: int) -> int {
    let skipped = (page - 1) * per_page;
    if skipped >= total_items {
        0
    } else if total_items - skipped < per_page {
        total_items - skipped
    } else {
        per_page
    }
}

/// Computes the number of pages that `total_items` records fill.
pub fn total_pages(total_items: u64, per_page: u64) -> (pages: u64)
    requires
        per_page >= 1,
    ensures
        pages == pages_for(total_items as int, per_page as int),
{
    let full: u64 = total_items / per_page;
    let rest: u64 = total_items % per_page;
    proof {
        lemma_pages_by_division(total_items as int, per_page as int);
        assert(rest != 0 ==> full < total_items) by (nonlinear_arith)
            requires
                per_page >= 1,
                full == total_items / per_page,
                rest == total_items % per_page,
        ;
    }
    if rest == 0 {
        full
    } else {
        full + 1
    }
}

/// The rounded-up quotient, from the quotient and the remainder.
pub proof fn lemma_pages_by_division(total_items: int, per_page: int)
    requires
        0 <= total_items,
        1 <= per_page,
    ensures
        pages_for(total_items, per_page) == total_items / per_page + (if total_items % per_page
            == 0 {
            0int
        } else {
            1int
        }),
{
    let q = total_items / per_page;
    let r = total_items % per_page;
    assert(total_items == q * per_page + r && 0 <= r < per_page) by (nonlinear_arith)
        requires
            1 <= per_page,
            q == total_items / per_page,
            r == total_items % per_page,
    ;
    if r == 0 {
        assert((q * per_page + per_page - 1) / per_page == q) by (nonlinear_arith)
            requires
                1 <= per_page,
        ;
        assert(q == 0 ==> total_items == 0) by (nonlinear_arith)
            requires
                total_items == q * per_page + r,
                r == 0,
        ;
    } else {
        assert((q * per_page + r + per_page - 1) / per_page == q + 1) by (nonlinear_arith)
            requires
                1 <= per_page,
                0 < r < per_page,
        ;
    }
}

/// The number of pages is the least number of pages that hold every record.
pub proof fn lemma_pages_are_least_cover(total_items: int, per_page: int, pages: int)
    requires
        0 <= total_items,
        1 <= per_page,
        0 <= pages,
    ensures
        pages * per_page >= total_items <==> pages >= pages_for(total_items, per_page),
{
    lemma_pages_by_division(total_items, per_page);
    let q = total_items / per_page;
    let r = total_items % per_page;
    assert(total_items == q * per_page + r && 0 <= r < per_page) by (nonlinear_arith)
        requires
            1 <= per_page,
            q == total_items / per_page,
            r == total_items % per_page,
    ;
    if pages >= pages_for(total_items, per_page) {
        assert(pages * per_page >= total_items) by (nonlinear_arith)
            requires
                total_items == q * per_page + r,
                0 <= r < per_page,
                pages >= q + (if r == 0 {
                    0int
                } else {
                    1int
                }),
                1 <= per_page,
        ;
    } else {
        assert(pages * per_page < total_items) by (nonlinear_arith)
            requires
                total_items == q * per_page + r,
                0 <= r < per_page,
                0 <= pages < q + (if r == 0 {
                    0int
                } else {
                    1int
                }),
                1 <= per_page,
        ;
    }
}

/// A page past the last one holds no records; every page up to the last
/// holds at least one.
pub proof fn lemma_only_pages_up_to_last_hold_records(total_items: int, page: int, per_page: int)
    requires
        0 <= total_items,
        1 <= per_page,
        1 <= page,
    ensures
        records_on_page(total_items, page, per_page) == 0 <==> page > pages_for(
            total_items,
            per_page,
        ),
        0 <= records_on_page(total_items, page, per_page) <= per_page,
{
    lemma_pages_are_least_cover(total_items, per_page, page - 1);
}

/// A page that begins beyond what a `u64` counts holds no record of a list
/// whose length a `u64` counts.
pub proof fn lemma_page_beyond_every_count_is_empty(plan: PlanModel, total_items: int)
    requires
        0 <= total_items <= u64::MAX,
        plan.offset() > u64::MAX,
    ensures
        records_on_page(total_items, plan.page, plan.per_page) == 0,
{
}

/// Where a page stands in the whole list.
#[derive(Clone, Copy, Debug, PartialEq, Eq, Structural)]
pub struct PaginationMeta {
    pub current_page: u64,
    pub per_page: u64,
    pub total_items: u64,
    pub total_pages: u64,
}

/// A page of records with its place in the whole list.
#[derive(Debug)]
pub struct PaginationEnvelope<T> {
    pub items: Vec<T>,
    pub pagination: PaginationMeta,
}

/// The store could not answer. `detail` is what it said, for the log.
#[derive(Debug)]
pub struct StorageFailure {
    pub detail: String,
}

/// A plan whose records have been counted: what is left to ask the store
/// for is the page itself.
#[derive(Debug)]
pub struct PageRequest {
    plan: QueryPlan,
    total_items: u64,
}

impl PageRequest {
    /// The plan that the count was made for.
    pub closed spec fn spec_plan(self) -> PlanModel {
        self.plan@
    }

    /// The number of records that the store counted.
    pub closed spec fn spec_total_items(self) -> int {
        self.total_items as int
    }

    /// The plan: its filter, order and window describe the page to fetch.
    pub fn plan(&self) -> (plan: &QueryPlan)
        ensures
            plan@ == self.spec_plan(),
    {
        &self.plan
    }

    /// The number of records that the store counted.
    pub fn total_items(&self) -> (total: u64)
        ensures
            total == self.spec_total_items(),
    {
        self.total_items
    }
}

/// The place of the plan's page in a list of `total_items` records.
pub open spec fn meta_for(plan: PlanModel, total_items: int) -> PaginationMeta {
    PaginationMeta {
        current_page: plan.page as u64,
        per_page: plan.per_page as u64,
        total_items: total_items as u64,
        total_pages: pages_for(total_items, plan.per_page) as u64,
    }
}

/// Takes the store's count. A count leads on to the page request; a failure
/// ends the query, and its text is kept as the detail.
pub fn on_counted(plan: QueryPlan, counted: Result<u64, String>) -> (next: Result<
    PageRequest,
    StorageFailure,
>)
    ensures
        match counted {
            Ok(total) => next matches Ok(request) && request.spec_plan() == plan@
                && request.spec_total_items() == total,
            Err(said) => next matches Err(failure) && failure.detail == said,
        },
{
    match counted {
        Ok(total_items) => Ok(PageRequest { plan, total_items }),
        Err(detail) => Err(StorageFailure { detail }),
    }
}

/// Takes the store's page. A page is wrapped, unchanged, with its place in
/// the list; a failure ends the query, and no envelope is made.
pub fn on_fetched<T>(request: PageRequest, fetched: Result<Vec<T>, String>) -> (done: Result<
    PaginationEnvelope<T>,
    StorageFailure,
>)
    ensures
        match fetched {
            Ok(items) => done matches Ok(envelope) && envelope.items == items
                && envelope.pagination == meta_for(
                request.spec_plan(),
                request.spec_total_items(),
            ),
            Err(said) => done matches Err(failure) && failure.detail == said,
        },
{
    match fetched {
        Ok(items) => {
            let current_page: u64 = request.plan.page();
            let per_page: u64 = request.plan.limit();
            let total_items: u64 = request.total_items;
            let pages: u64 = total_pages(total_items, per_page);
            Ok(
                PaginationEnvelope {
                    items,
                    pagination: PaginationMeta {
                        current_page,
                        per_page,
                        total_items,
                        total_pages: pages,
                    },
                },
            )
        },
        Err(detail) => Err(StorageFailure { detail }),
    }
}

/// The message that goes with a page: how many records there are in all,
/// and which page of how many this is.
pub open spec fn found_message(plural: Seq<char>, meta: PaginationMeta) -> Seq<char> {
    plural + " found: "@ + decimal_text(meta.total_items as nat) + " (page "@ + decimal_text(
        meta.current_page as nat,
    ) + " of "@ + decimal_text(meta.total_pages as nat) + ")"@
}

/// The message that goes with a day that cannot be read.
pub open spec fn invalid_date_message(field: DateField) -> Seq<char> {
    match field {
        DateField::StartDate => "Invalid start_date format. Use YYYY-MM-DD"@,
        DateField::EndDate => "Invalid end_date format. Use YYYY-MM-DD"@,
    }
}

/// Writes the message that goes with a page.
pub fn write_found_message(plural: &str, meta: &PaginationMeta) -> (message: String)
    ensures
        message@ == found_message(plural@, *meta),
{
    let mut message: String = plural.to_owned();
    message.append(" found: ");
    message.append(decimal(meta.total_items).as_str());
    message.append(" (page ");
    message.append(decimal(meta.current_page).as_str());
    message.append(" of ");
    message.append(decimal(meta.total_pages).as_str());
    message.append(")");
    message
}

/// The reply that carries a page of `resource`: status 200, the message of
/// `found_message`, and the envelope itself.
pub fn list_reply<T>(resource: &ResourceDescriptor, envelope: PaginationEnvelope<T>) -> (reply:
    ApiResponse<PaginationEnvelope<T>>)
    ensures
        reply.status == OK,
        reply.message@ == found_message(resource.plural@, envelope.pagination),
        reply.data == envelope,
{
    let message: String = write_found_message(resource.plural.as_str(), &envelope.pagination);
    ApiResponse::new(OK, message, envelope)
}

/// The reply to a list request that was turned down: status 400, a message
/// that names the parameter and the form it must have.
pub fn validation_reply(failure: ValidationFailure) -> (reply: ApiResponse<String>)
    ensures
        reply.status == BAD_REQUEST,
        failure matches ValidationFailure::InvalidDateFormat(field) && reply.message@
            == invalid_date_message(field),
        reply.data@ == "Bad Request"@,
{
    let message: String = match failure {
        ValidationFailure::InvalidDateFormat(DateField::StartDate) => {
            "Invalid start_date format. Use YYYY-MM-DD".to_owned()
        },
        ValidationFailure::InvalidDateFormat(DateField::EndDate) => {
            "Invalid end_date format. Use YYYY-MM-DD".to_owned()
        },
    };
    ApiResponse::new(BAD_REQUEST, message, "Bad Request".to_owned())
}

/// The reply to a request that the store could not serve: status 500 and
/// nothing of what the store said, which stays in the failure for the log.
pub fn storage_reply(failure: &StorageFailure) -> (reply: ApiResponse<String>)
    ensures
        reply.status == INTERNAL_ERROR,
        reply.message@ == "Database error"@,
        reply.data@ == Seq::<char>::empty(),
{
    ApiResponse::new(INTERNAL_ERROR, "Database error".to_owned(), String::new())
}

} // verus!
