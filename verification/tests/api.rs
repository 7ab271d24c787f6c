use mondrian_rest::api::names::{Cut, Drilldown, LevelName, Measure, Property};
use mondrian_rest::api::{
    add_trailing_slash, flush_url, format_backtrace, query, ResponseFormat, UrlError,
};

#[test]
fn api_test_add_trailing_slash() {
    let mut test = "test".to_owned();
    let mut test1 = "test1/".to_owned();

    add_trailing_slash(&mut test);
    add_trailing_slash(&mut test1);

    assert_eq!(test, "test/".to_owned());
    assert_eq!(test1, "test1/".to_owned());
}

#[test]
fn mod_test_add_trailing_slash() {
    let mut test = "test".to_owned();
    let mut test1 = "test1/".to_owned();

    add_trailing_slash(&mut test);
    add_trailing_slash(&mut test1);

    assert_eq!(test, "test/".to_owned());
    assert_eq!(test1, "test1/".to_owned());
}

#[test]
fn test_add_trailing_slash_empty_stays_empty() {
    let mut empty = String::new();
    add_trailing_slash(&mut empty);
    assert_eq!(empty, "");
}

#[test]
fn test_catalog_url() {
    let req = query("http://x".to_owned());
    assert_eq!(req.url().unwrap(), "http://x/cubes/");
}

#[test]
fn test_single_cube_description_url() {
    let mut req = query("http://x".to_owned());
    req.cube("mycube");
    assert_eq!(req.url().unwrap(), "http://x/cubes/mycube/");
}

#[test]
fn test_members_url_ends_in_members_without_query() {
    let mut req = query("http://x".to_owned());
    req.cube("mycube");
    req.members(LevelName::new("Geography", "Geography", "County"));
    let url = req.url().unwrap();
    assert_eq!(
        url,
        "http://x/cubes/mycube/dimensions/Geography/hierarchies/Geography/levels/County/members"
    );
    assert!(url.ends_with("/members"));
    assert!(!url.contains('?'));
}

#[test]
fn test_members_without_cube_fails() {
    let mut req = query("http://x".to_owned());
    req.members(LevelName::new("Geography", "Geography", "County"));
    let err = req.url().unwrap_err();
    assert_eq!(err, UrlError::MembersNeedsCube);
    assert_eq!(err.message(), "Members call requires a cube name");
}

#[test]
fn test_members_with_drilldown_fails() {
    let mut req = query("http://x".to_owned());
    req.cube("mycube");
    req.drilldown(Drilldown::new("Geography", "Geography", "County"));
    req.members(LevelName::new("Geography", "Geography", "County"));
    let err = req.url().unwrap_err();
    assert_eq!(err, UrlError::MembersWithQueryParams);
    assert_eq!(err.message(), "Members call should not include query parameters");
}

#[test]
fn test_aggregate_url_default_format_and_flags() {
    let mut req = query("http://x".to_owned());
    req.cube("mycube");
    req.drilldown(Drilldown::new("Geography", "Geography", "County"));
    req.measure(Measure::new("units"));
    let url = req.url().unwrap();
    assert!(url.contains("aggregate.json"));
    assert!(url.contains("drilldown%5B%5D="));
    assert!(url.contains("measures%5B%5D="));
    assert!(url.contains("debug=false"));
    assert!(url.contains("parents=false"));
    assert!(url.contains("nonempty=false"));
    assert!(url.contains("distinct=false"));
    assert!(url.contains("sparse=false"));
    assert_eq!(
        url,
        "http://x/cubes/mycube/aggregate.json?\
         drilldown%5B%5D=%5BGeography%5D.%5BGeography%5D.%5BCounty%5D\
         &measures%5B%5D=units\
         &debug=false&parents=false&nonempty=false&distinct=false&sparse=false"
    );
}

#[test]
fn test_aggregate_url_with_cut_property_and_flags() {
    let mut req = query("http://x/".to_owned());
    req.cube("mycube");
    req.drilldowns(vec![Drilldown::new("Geography", "Geography", "County")]);
    req.measures(vec![Measure::new("units"), Measure::new("value")]);
    req.cuts(vec![Cut::new("Year", "Year", "Year", vec!["2015"])]);
    req.properties(vec![Property::new("Geography", "Geography", "County", "name_en")]);
    req.debug(true);
    req.parents(true);
    req.nonempty(true);
    req.distinct(true);
    req.sparse(true);
    req.format(ResponseFormat::Csv);
    let url = req.url().unwrap();
    assert_eq!(
        url,
        "http://x/cubes/mycube/aggregate.csv?\
         drilldown%5B%5D=%5BGeography%5D.%5BGeography%5D.%5BCounty%5D\
         &measures%5B%5D=units&measures%5B%5D=value\
         &cut%5B%5D=%5BYear%5D.%5BYear%5D.%5BYear%5D.%26%5B2015%5D\
         &properties%5B%5D=%5BGeography%5D.%5BGeography%5D.%5BCounty%5D.%5Bname_en%5D\
         &debug=true&parents=true&nonempty=true&distinct=true&sparse=true"
    );
}

#[test]
fn test_cube_with_only_cuts_degenerates_to_description() {
    let mut req = query("http://x".to_owned());
    req.cube("mycube");
    req.cut(Cut::new("Year", "Year", "Year", vec!["2015"]));
    assert_eq!(req.url().unwrap(), "http://x/cubes/mycube/");
}

#[test]
fn test_query_without_cube_fails() {
    let mut req = query("http://x".to_owned());
    req.cut(Cut::new("Year", "Year", "Year", vec!["2015"]));
    let err = req.url().unwrap_err();
    assert_eq!(err, UrlError::CubeRequiredForQuery);
    assert_eq!(err.message(), "Cube name is required for query");
}

#[test]
fn test_trailing_slash_normalization_identical_urls() {
    let mut without = query("http://x".to_owned());
    without.cube("mycube");
    let mut with = query("http://x/".to_owned());
    with.cube("mycube");
    assert_eq!(without.url().unwrap(), with.url().unwrap());

    let bare_without = query("http://x".to_owned());
    let bare_with = query("http://x/".to_owned());
    assert_eq!(bare_without.url().unwrap(), bare_with.url().unwrap());
}

#[test]
fn test_bad_base_url_fails() {
    let req = query("notaurl".to_owned());
    let err = req.url().unwrap_err();
    assert_eq!(err, UrlError::BadBaseUrl);
}

#[test]
fn test_url_is_deterministic_across_calls() {
    let mut req = query("http://x".to_owned());
    req.cube("mycube");
    req.drilldown(Drilldown::new("Geography", "Geography", "County"));
    req.measure(Measure::new("units"));
    assert_eq!(req.url().unwrap(), req.url().unwrap());
}

#[test]
fn test_path_segments_are_percent_escaped() {
    let mut req = query("http://x".to_owned());
    req.cube("a b/c");
    assert_eq!(req.url().unwrap(), "http://x/cubes/a%20b%2Fc/");
}

#[test]
fn test_path_segments_escape_multibyte() {
    let mut req = query("http://x".to_owned());
    req.cube("caf\u{e9}");
    assert_eq!(req.url().unwrap(), "http://x/cubes/caf%C3%A9/");
}

#[test]
fn test_query_value_escapes_space_as_plus() {
    let mut req = query("http://x".to_owned());
    req.cube("mycube");
    req.drilldown(Drilldown::new("Geography", "Geography", "County"));
    req.measure(Measure::new("Total Units"));
    let url = req.url().unwrap();
    assert!(url.contains("measures%5B%5D=Total+Units"));
}

#[test]
fn test_flush_url() {
    assert_eq!(
        flush_url("http://x", "opensesame").unwrap(),
        "http://x/flush?secret=opensesame"
    );
    assert_eq!(
        flush_url("http://x/", "a b").unwrap(),
        "http://x/flush?secret=a+b"
    );
    assert_eq!(flush_url("notaurl", "s").unwrap_err(), UrlError::BadBaseUrl);
}

#[test]
fn test_response_format_parse_and_serialize() {
    assert_eq!(ResponseFormat::parse("json"), Some(ResponseFormat::Json));
    assert_eq!(
        ResponseFormat::parse("jsonrecords"),
        Some(ResponseFormat::JsonRecords)
    );
    assert_eq!(ResponseFormat::parse("csv"), Some(ResponseFormat::Csv));
    assert_eq!(ResponseFormat::parse("xml"), None);

    assert_eq!(ResponseFormat::Json.serialize(), "json");
    assert_eq!(ResponseFormat::JsonRecords.serialize(), "jsonrecords");
    assert_eq!(ResponseFormat::Csv.serialize(), "csv");
}

#[test]
fn test_format_backtrace_structured_error() {
    let body = "{\"error\": [\"boom went the query\", \"detail\"]}".to_owned();
    assert_eq!(format_backtrace(body), "boom went the query");
}

#[test]
fn test_format_backtrace_falls_back_to_first_two_lines() {
    let body = "java.lang.Exception: kaput\n  at Some.Frame\n  at Other.Frame".to_owned();
    assert_eq!(
        format_backtrace(body),
        "java.lang.Exception: kaput\n  at Some.Frame"
    );
}

#[test]
fn test_format_backtrace_non_string_error_field_falls_back() {
    let body = "{\"error\": 5}".to_owned();
    assert_eq!(format_backtrace(body), "{\"error\": 5}");
}
