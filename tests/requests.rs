use usda_hardiness_zone::handler::{
    bad_request_page, internal_error_page, is_valid_zip, lookup_reply, not_found_page,
    plan_lookup, privacy_policy_page, Body, DataError, LookupResult, Step, Zone,
    STATUS_BAD_REQUEST, STATUS_INTERNAL_ERROR, STATUS_NOT_FOUND, STATUS_OK,
};

fn zone(id: &str, min_temp_f: i64) -> Zone {
    Zone { id: id.to_string(), min_temp_f }
}

fn html_of(body: &Body) -> &str {
    match body {
        Body::Html(s) => s.as_str(),
        Body::Json(_) => panic!("expected an HTML body"),
    }
}

#[test]
fn seeded_zip_is_served_with_its_zone() {
    match plan_lookup(Some("02134")) {
        Step::Lookup(zip) => assert_eq!(zip, "02134"),
        Step::Respond(_) => panic!("a well-formed ZIP code must be looked up"),
    }
    let reply = lookup_reply(Ok(Some(zone("7a", 500))));
    assert_eq!(reply.status, STATUS_OK);
    assert_eq!(reply.status, 200);
    match reply.body {
        Body::Json(LookupResult { zone, min_temp_f, min_temp_c }) => {
            assert_eq!(zone, "7a");
            assert_eq!(min_temp_f, 500);
            assert_eq!(min_temp_c, -1500);
        }
        Body::Html(_) => panic!("expected a lookup result"),
    }
}

#[test]
fn unseeded_zip_is_not_found() {
    assert!(matches!(plan_lookup(Some("00000")), Step::Lookup(_)));
    let reply = lookup_reply(Ok(None));
    assert_eq!(reply.status, STATUS_NOT_FOUND);
    assert_eq!(reply.status, 404);
    assert_eq!(html_of(&reply.body), not_found_page());
    assert!(html_of(&reply.body).contains("The requested ZIP code could not be found."));
}

#[test]
fn failed_query_hides_its_detail() {
    let detail = "error returned from database: attempted to acquire a connection on a closed pool";
    let reply = lookup_reply(Err(DataError { message: detail.to_string() }));
    assert_eq!(reply.status, STATUS_INTERNAL_ERROR);
    assert_eq!(reply.status, 500);
    let page = html_of(&reply.body);
    assert!(!page.contains(detail));
    assert!(!page.contains("closed pool"));
    assert_eq!(page, internal_error_page());
}

#[test]
fn failure_replies_do_not_depend_on_detail() {
    let a = lookup_reply(Err(DataError { message: "disk I/O error".to_string() }));
    let b = lookup_reply(Err(DataError { message: String::new() }));
    assert_eq!(a.status, b.status);
    assert_eq!(html_of(&a.body), html_of(&b.body));
}

#[test]
fn injection_attempt_is_rejected_before_the_query() {
    let reply = match plan_lookup(Some("1' OR '1'='1")) {
        Step::Respond(reply) => reply,
        Step::Lookup(_) => panic!("a parameter with quotes must not be looked up"),
    };
    assert_eq!(reply.status, STATUS_BAD_REQUEST);
    assert_eq!(html_of(&reply.body), bad_request_page());
}

#[test]
fn missing_parameter_is_a_bad_request() {
    match plan_lookup(None) {
        Step::Respond(reply) => assert_eq!(reply.status, 400),
        Step::Lookup(_) => panic!("nothing to look up"),
    }
}

#[test]
fn zip_format_is_five_digits() {
    assert!(is_valid_zip("02134"));
    assert!(is_valid_zip("99999"));
    assert!(!is_valid_zip(""));
    assert!(!is_valid_zip("0213"));
    assert!(!is_valid_zip("021345"));
    assert!(!is_valid_zip("0213a"));
    assert!(!is_valid_zip("02134-1234"));
    assert!(!is_valid_zip(" 2134"));
    assert!(!is_valid_zip("0213\u{0663}"));
}

#[test]
fn distinct_zips_get_their_own_results() {
    let outcomes = [("02134", "7a", 500i64), ("99501", "4b", -2500), ("33101", "11a", 4000)];
    let replies: Vec<_> = outcomes
        .iter()
        .map(|&(zip, id, f)| {
            assert!(matches!(plan_lookup(Some(zip)), Step::Lookup(ref z) if z == zip));
            lookup_reply(Ok(Some(zone(id, f))))
        })
        .collect();
    for (reply, &(_, id, f)) in replies.iter().zip(outcomes.iter()) {
        match &reply.body {
            Body::Json(r) => {
                assert_eq!(r.zone, id);
                assert_eq!(r.min_temp_f, f);
            }
            Body::Html(_) => panic!("expected a lookup result"),
        }
    }
}

#[test]
fn privacy_policy_page_text() {
    assert_eq!(
        privacy_policy_page(),
        "<head><link rel=\"stylesheet\" href=\"https://edwardtufte.github.io/tufte-css/tufte.css\"></head>\
         <body><h1>Privacy Policy</h1><p>This site does not collect any personal information.</p></body>"
    );
}

#[test]
fn lookup_result_converts_the_minimum_temperature() {
    let r = LookupResult::from_zone(&zone("5b", -1000));
    assert_eq!(r.zone, "5b");
    assert_eq!(r.min_temp_f, -1000);
    assert_eq!(r.min_temp_c, -2333);
    let r = LookupResult::from_zone(&zone("8a", 3200));
    assert_eq!(r.min_temp_c, 0);
}
