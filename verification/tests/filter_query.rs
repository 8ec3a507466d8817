use rustio_admin::filter_query::sql_filter_query;
use rustio_admin::filters::{FilterDef, FilterKind};

fn def(field: &str, kind: FilterKind) -> FilterDef {
    FilterDef { field: field.to_string(), label: field.to_string(), kind }
}

fn pairs(p: &[(&str, &str)]) -> Vec<(String, String)> {
    p.iter().map(|(k, v)| (k.to_string(), v.to_string())).collect()
}

#[test]
fn query_string_becomes_filters_and_date_ranges() {
    let defs = vec![
        def("status", FilterKind::DropdownText),
        def("is_active", FilterKind::BoolYesNo),
        def("created_at", FilterKind::DateRange),
        def("updated_at", FilterKind::DateRange),
        def("age", FilterKind::NumericExact),
        def("tag", FilterKind::DropdownText),
    ];
    let qs = pairs(&[
        ("status", "open"),
        ("status", "closed"),
        ("is_active", ""),
        ("created_at__gte", "2024-01-05"),
        ("created_at__lte", "not a date"),
        ("updated_at__lte", " 2024-2-3 "),
        ("age", "42"),
    ]);
    let q = sql_filter_query(&defs, &qs);
    assert_eq!(q.filters, pairs(&[("status", "open")]));
    assert_eq!(q.date_ranges.len(), 2);
    assert_eq!(q.date_ranges[0], ("created_at".to_string(), Some("2024-01-05".to_string()), None));
    assert_eq!(q.date_ranges[1], ("updated_at".to_string(), None, Some("2024-02-03".to_string())));
    let q = sql_filter_query(&defs, &pairs(&[("updated_at__lte", "2024-12-31"), ("tag", "x")]));
    assert_eq!(q.filters, pairs(&[("tag", "x")]));
    assert_eq!(q.date_ranges, vec![("updated_at".to_string(), None, Some("2024-12-31".to_string()))]);
}
