use blog_api::calendar::CalendarDate;
use chrono::{Datelike, NaiveDate};
use blog_api::listing::{
    day_from_parts, normalize_page, normalize_per_page, normalize_search, parse_day,
    post_resource, resolve_sort, user_resource, DateField, ListQuerySpec, PaginationQuery,
    ResourceDescriptor, SortDirection, ValidationFailure,
};

fn empty_query() -> PaginationQuery {
    PaginationQuery {
        page: None,
        limit: None,
        search: None,
        sort_by: None,
        sort_order: None,
        start_date: None,
        end_date: None,
    }
}

fn text(t: &str) -> Option<String> {
    Some(t.to_string())
}

fn ymd(day: Option<CalendarDate>) -> Option<(i32, u32, u32)> {
    day.map(|d| (d.year(), d.month(), d.day()))
}

#[test]
fn page_below_one_becomes_one() {
    assert_eq!(normalize_page(Some(0)), 1);
    assert_eq!(normalize_page(Some(-1)), 1);
    assert_eq!(normalize_page(Some(i64::MIN)), 1);
    assert_eq!(normalize_page(None), 1);
}

#[test]
fn page_from_one_is_kept() {
    assert_eq!(normalize_page(Some(1)), 1);
    assert_eq!(normalize_page(Some(99)), 99);
    assert_eq!(normalize_page(Some(i64::MAX)), 9_223_372_036_854_775_807);
}

#[test]
fn per_page_is_clamped() {
    assert_eq!(normalize_per_page(Some(500)), 100);
    assert_eq!(normalize_per_page(Some(101)), 100);
    assert_eq!(normalize_per_page(Some(100)), 100);
    assert_eq!(normalize_per_page(Some(99)), 99);
    assert_eq!(normalize_per_page(Some(25)), 25);
    assert_eq!(normalize_per_page(Some(1)), 1);
    assert_eq!(normalize_per_page(Some(0)), 10);
    assert_eq!(normalize_per_page(Some(-3)), 10);
    assert_eq!(normalize_per_page(None), 10);
    assert_eq!(normalize_per_page(Some(i64::MAX)), 100);
}

#[test]
fn empty_search_is_no_search() {
    assert_eq!(normalize_search(text("")), None);
    assert_eq!(normalize_search(None), None);
    assert_eq!(normalize_search(text("ann")), text("ann"));
    assert_eq!(normalize_search(text(" ")), text(" "));
}

#[test]
fn sort_falls_back_for_unknown_field() {
    let users = user_resource();
    assert_eq!(
        resolve_sort(text("unknown_field"), None, &users),
        ("created_at".to_string(), SortDirection::Desc)
    );
    assert_eq!(
        resolve_sort(text("unknown_field"), text("asc"), &users),
        ("created_at".to_string(), SortDirection::Desc)
    );
    assert_eq!(
        resolve_sort(text("title"), text("asc"), &users),
        ("created_at".to_string(), SortDirection::Desc)
    );
    assert_eq!(
        resolve_sort(text("email"), text("asc"), &users),
        ("created_at".to_string(), SortDirection::Desc)
    );
}

#[test]
fn sort_takes_allowed_field_and_order() {
    let users = user_resource();
    let posts = post_resource();
    assert_eq!(resolve_sort(text("name"), text("asc"), &users), ("name".to_string(), SortDirection::Asc));
    assert_eq!(resolve_sort(text("name"), text("desc"), &users), ("name".to_string(), SortDirection::Desc));
    assert_eq!(resolve_sort(text("name"), None, &users), ("name".to_string(), SortDirection::Desc));
    assert_eq!(resolve_sort(text("name"), text("ASC"), &users), ("name".to_string(), SortDirection::Desc));
    assert_eq!(resolve_sort(text("name"), text("up"), &users), ("name".to_string(), SortDirection::Desc));
    assert_eq!(resolve_sort(text("title"), text("asc"), &posts), ("title".to_string(), SortDirection::Asc));
    assert_eq!(
        resolve_sort(text("created_at"), text("asc"), &posts),
        ("created_at".to_string(), SortDirection::Asc)
    );
    assert_eq!(resolve_sort(None, text("asc"), &posts), ("created_at".to_string(), SortDirection::Asc));
    assert_eq!(resolve_sort(None, None, &posts), ("created_at".to_string(), SortDirection::Desc));
}

#[test]
fn resources_name_their_fields() {
    let users = user_resource();
    assert_eq!(users.plural, "Users");
    assert_eq!(users.searchable, vec!["name".to_string(), "email".to_string()]);
    assert_eq!(users.sortable, vec!["name".to_string()]);
    assert!(users.can_sort_by("name"));
    assert!(users.can_sort_by("created_at"));
    assert!(!users.can_sort_by("email"));
    let posts = post_resource();
    assert_eq!(posts.plural, "Posts");
    assert_eq!(posts.searchable, vec!["title".to_string()]);
    assert!(posts.can_sort_by("title"));
    assert!(posts.can_sort_by("created_at"));
    assert!(!posts.can_sort_by("name"));
    let bare = ResourceDescriptor { plural: "Things".to_string(), searchable: vec![], sortable: vec![] };
    assert!(bare.can_sort_by("created_at"));
    assert!(!bare.can_sort_by("name"));
}

#[test]
fn days_are_read_as_year_month_day() {
    assert_eq!(ymd(parse_day("2024-01-01")), Some((2024, 1, 1)));
    assert_eq!(ymd(parse_day("2024-01-31")), Some((2024, 1, 31)));
    assert_eq!(ymd(parse_day("2024-02-29")), Some((2024, 2, 29)));
    assert_eq!(ymd(parse_day("1999-12-31")), Some((1999, 12, 31)));
}

#[test]
fn what_is_no_day_is_not_read() {
    for bad in [
        "not-a-date", "", "2024", "2024-01", "2024-13-01", "2024-00-10", "2023-02-29",
        "2024-04-31", "2024-01-32", "2024/01/01", "01-01-2024x", "2024-01-01T00:00:00",
        "2024-01-01 ", "yesterday",
    ] {
        assert!(parse_day(bad).is_none(), "read {:?} as a day", bad);
    }
}

#[test]
fn parts_become_days_only_if_they_exist() {
    assert_eq!(ymd(day_from_parts(Some((2024, 2, 29)))), Some((2024, 2, 29)));
    assert_eq!(ymd(day_from_parts(Some((2023, 2, 29)))), None);
    assert_eq!(ymd(day_from_parts(Some((2023, 0, 1)))), None);
    assert_eq!(ymd(day_from_parts(None)), None);
}

#[test]
fn empty_query_gets_every_default() {
    let spec = ListQuerySpec::from_query(empty_query(), &user_resource()).unwrap();
    assert_eq!(spec.page(), 1);
    assert_eq!(spec.per_page(), 10);
    assert_eq!(*spec.search(), None);
    assert_eq!(spec.sort_field(), "created_at");
    assert_eq!(spec.sort_direction(), SortDirection::Desc);
    assert!(spec.date_from().is_none());
    assert!(spec.date_to().is_none());
}

#[test]
fn full_query_is_normalised() {
    let query = PaginationQuery {
        page: Some(3),
        limit: Some(500),
        search: text("ann"),
        sort_by: text("name"),
        sort_order: text("asc"),
        start_date: text("2024-01-01"),
        end_date: text("2024-01-31"),
    };
    let spec = ListQuerySpec::from_query(query, &user_resource()).unwrap();
    assert_eq!(spec.page(), 3);
    assert_eq!(spec.per_page(), 100);
    assert_eq!(*spec.search(), text("ann"));
    assert_eq!(spec.sort_field(), "name");
    assert_eq!(spec.sort_direction(), SortDirection::Asc);
    assert_eq!(ymd(spec.date_from()), Some((2024, 1, 1)));
    assert_eq!(ymd(spec.date_to()), Some((2024, 1, 31)));
}

#[test]
fn out_of_range_values_are_clamped_not_refused() {
    let query = PaginationQuery {
        page: Some(0),
        limit: Some(0),
        search: text(""),
        sort_by: text("unknown_field"),
        sort_order: text("asc"),
        start_date: None,
        end_date: None,
    };
    let spec = ListQuerySpec::from_query(query, &post_resource()).unwrap();
    assert_eq!(spec.page(), 1);
    assert_eq!(spec.per_page(), 10);
    assert_eq!(*spec.search(), None);
    assert_eq!(spec.sort_field(), "created_at");
    assert_eq!(spec.sort_direction(), SortDirection::Desc);
}

#[test]
fn bad_start_date_is_refused() {
    let mut query = empty_query();
    query.start_date = text("not-a-date");
    assert_eq!(
        ListQuerySpec::from_query(query, &user_resource()).unwrap_err(),
        ValidationFailure::InvalidDateFormat(DateField::StartDate)
    );
}

#[test]
fn bad_end_date_is_refused() {
    let mut query = empty_query();
    query.start_date = text("2024-01-01");
    query.end_date = text("2024-02-30");
    assert_eq!(
        ListQuerySpec::from_query(query, &user_resource()).unwrap_err(),
        ValidationFailure::InvalidDateFormat(DateField::EndDate)
    );
}

#[test]
fn bad_start_date_is_reported_first() {
    let mut query = empty_query();
    query.start_date = text("x");
    query.end_date = text("y");
    assert_eq!(
        ListQuerySpec::from_query(query, &post_resource()).unwrap_err(),
        ValidationFailure::InvalidDateFormat(DateField::StartDate)
    );
}

#[test]
fn start_after_end_is_not_refused() {
    let mut query = empty_query();
    query.start_date = text("2024-02-01");
    query.end_date = text("2024-01-01");
    let spec = ListQuerySpec::from_query(query, &post_resource()).unwrap();
    assert_eq!(ymd(spec.date_from()), Some((2024, 2, 1)));
    assert_eq!(ymd(spec.date_to()), Some((2024, 1, 1)));
}

#[test]
fn days_are_read_as_chrono_reads_them() {
    let texts = [
        "2024-01-01", "2024-1-5", "2024-01-5", "2024-12-31", "0001-01-01", "0000-01-01",
        "+2024-01-01", "-0001-01-01", "12345-01-01", "+12345-01-01", "99-01-01", " 2024-01-01",
        "2024-01-01\n", "2024-02-30", "2024-06-31", "2024--01-01", "2024-01-001", "２０２４-01-01",
        "2024-01-01-", "24-1-1",
    ];
    for text in texts {
        let expected = NaiveDate::parse_from_str(text, "%Y-%m-%d")
            .ok()
            .map(|d| (d.year(), d.month(), d.day()));
        assert_eq!(ymd(parse_day(text)), expected, "for {:?}", text);
    }
}
