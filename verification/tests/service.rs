use courses::course::{course_to_item, item_to_course, Course, StoreItem};
use courses::handlers::{
    respond_to_create, respond_to_get, respond_to_query, GetOutcome, PutOutcome, QueryOutcome,
};
use courses::json::{encode_course, encode_courses};
use courses::router::{route, str_eq, Route};
use std::collections::HashMap;

fn course(id: &str, name: &str, category: &str) -> Course {
    Course {
        course_id: id.to_string(),
        course_name: name.to_string(),
        course_category: category.to_string(),
    }
}

fn complete_item(id: &str, name: &str, category: &str) -> StoreItem {
    StoreItem {
        course_id: Some(id.to_string()),
        course_name: Some(name.to_string()),
        course_category: Some(category.to_string()),
    }
}

#[test]
fn str_eq_compares_contents() {
    assert!(str_eq("POST", "POST"));
    assert!(!str_eq("POST", "GET"));
    assert!(!str_eq("/courses", "/course"));
    assert!(str_eq("", ""));
}

#[test]
fn post_courses_routes_to_create() {
    let r = route("POST", "/courses", None, None);
    assert!(matches!(r, Route::CreateCourse));
}

#[test]
fn get_with_id_routes_to_lookup() {
    let r = route("GET", "/courses", Some("c1".to_string()), None);
    match r {
        Route::GetById(id) => assert_eq!(id, "c1"),
        _ => panic!("expected a point lookup"),
    }
}

#[test]
fn id_takes_precedence_over_category() {
    let r = route(
        "GET",
        "/courses",
        Some("c1".to_string()),
        Some("math".to_string()),
    );
    match r {
        Route::GetById(id) => assert_eq!(id, "c1"),
        _ => panic!("course_id must win over course_category"),
    }
}

#[test]
fn empty_id_param_still_routes_to_lookup() {
    let r = route("GET", "/courses", Some(String::new()), Some("math".to_string()));
    match r {
        Route::GetById(id) => assert_eq!(id, ""),
        _ => panic!("an empty course_id still counts as present"),
    }
}

#[test]
fn category_alone_routes_to_query() {
    let r = route("GET", "/courses", None, Some("math".to_string()));
    match r {
        Route::ListByCategory(cat) => assert_eq!(cat, "math"),
        _ => panic!("expected a category query"),
    }
}

#[test]
fn neither_param_is_invalid_request() {
    let r = route("GET", "/courses", None, None);
    match r {
        Route::Reply(resp) => {
            assert_eq!(resp.status, 400);
            assert_eq!(resp.body, "{\"message\":\"Invalid request.\"}");
        }
        _ => panic!("expected a terminal response"),
    }
}

#[test]
fn unsupported_method_is_not_found() {
    let r = route("DELETE", "/courses", None, None);
    match r {
        Route::Reply(resp) => {
            assert_eq!(resp.status, 404);
            assert_eq!(resp.body, "{\"message\":\"Not found.\"}");
        }
        _ => panic!("expected a terminal response"),
    }
}

#[test]
fn unknown_path_is_not_found() {
    let r = route("GET", "/course", Some("c1".to_string()), None);
    match r {
        Route::Reply(resp) => {
            assert_eq!(resp.status, 404);
            assert_eq!(resp.body, "{\"message\":\"Not found.\"}");
        }
        _ => panic!("expected a terminal response"),
    }
}

#[test]
fn create_success_message() {
    let resp = respond_to_create(PutOutcome::Stored);
    assert_eq!(resp.status, 200);
    assert_eq!(resp.body, "{\"message\":\"Course created successfully.\"}");
}

#[test]
fn create_store_failure_is_internal_error() {
    let resp = respond_to_create(PutOutcome::StoreFailure);
    assert_eq!(resp.status, 500);
    assert_eq!(resp.body, "{\"message\":\"Internal server error.\"}");
}

#[test]
fn get_found_encodes_course() {
    let resp = respond_to_get(GetOutcome::Found(complete_item("c1", "Algebra", "math")));
    assert_eq!(resp.status, 200);
    assert_eq!(
        resp.body,
        "{\"course_id\":\"c1\",\"course_name\":\"Algebra\",\"course_category\":\"math\"}"
    );
}

#[test]
fn get_absent_is_not_found() {
    let resp = respond_to_get(GetOutcome::Absent);
    assert_eq!(resp.status, 404);
    assert_eq!(resp.body, "{\"message\":\"Course not found.\"}");
}

#[test]
fn get_store_not_found_is_not_found() {
    let resp = respond_to_get(GetOutcome::StoreNotFound);
    assert_eq!(resp.status, 404);
    assert_eq!(resp.body, "{\"message\":\"Course not found.\"}");
}

#[test]
fn get_incomplete_item_is_internal_error() {
    let item = StoreItem {
        course_id: Some("c1".to_string()),
        course_name: None,
        course_category: Some("math".to_string()),
    };
    let resp = respond_to_get(GetOutcome::Found(item));
    assert_eq!(resp.status, 500);
    assert_eq!(resp.body, "{\"message\":\"Internal server error.\"}");
}

#[test]
fn get_store_failure_is_internal_error() {
    let resp = respond_to_get(GetOutcome::StoreFailure);
    assert_eq!(resp.status, 500);
    assert_eq!(resp.body, "{\"message\":\"Internal server error.\"}");
}

#[test]
fn query_found_lists_courses() {
    let items = vec![
        complete_item("c1", "Algebra", "math"),
        complete_item("c2", "Geometry", "math"),
    ];
    let resp = respond_to_query(QueryOutcome::Found(items));
    assert_eq!(resp.status, 200);
    assert_eq!(
        resp.body,
        "[{\"course_id\":\"c1\",\"course_name\":\"Algebra\",\"course_category\":\"math\"},{\"course_id\":\"c2\",\"course_name\":\"Geometry\",\"course_category\":\"math\"}]"
    );
}

#[test]
fn query_empty_collection_is_ok_with_empty_array() {
    let resp = respond_to_query(QueryOutcome::Found(Vec::new()));
    assert_eq!(resp.status, 200);
    assert_eq!(resp.body, "[]");
}

#[test]
fn query_absent_collection_is_not_found() {
    let resp = respond_to_query(QueryOutcome::Absent);
    assert_eq!(resp.status, 404);
    assert_eq!(
        resp.body,
        "{\"message\":\"No courses found in the specified category.\"}"
    );
}

#[test]
fn query_store_not_found_is_not_found() {
    let resp = respond_to_query(QueryOutcome::StoreNotFound);
    assert_eq!(resp.status, 404);
    assert_eq!(
        resp.body,
        "{\"message\":\"No courses found in the specified category.\"}"
    );
}

#[test]
fn query_incomplete_item_is_internal_error() {
    let items = vec![
        complete_item("c1", "Algebra", "math"),
        StoreItem {
            course_id: Some("c2".to_string()),
            course_name: Some("Geometry".to_string()),
            course_category: None,
        },
    ];
    let resp = respond_to_query(QueryOutcome::Found(items));
    assert_eq!(resp.status, 500);
    assert_eq!(resp.body, "{\"message\":\"Internal server error.\"}");
}

#[test]
fn query_store_failure_is_internal_error() {
    let resp = respond_to_query(QueryOutcome::StoreFailure);
    assert_eq!(resp.status, 500);
    assert_eq!(resp.body, "{\"message\":\"Internal server error.\"}");
}

#[test]
fn course_round_trips_through_item() {
    let submitted = course("c1", "Algebra", "math");
    let fetched = item_to_course(&course_to_item(submitted)).expect("complete item");
    assert_eq!(fetched.course_id, "c1");
    assert_eq!(fetched.course_name, "Algebra");
    assert_eq!(fetched.course_category, "math");
}

#[test]
fn incomplete_item_does_not_reconstruct() {
    let item = StoreItem {
        course_id: None,
        course_name: Some("Algebra".to_string()),
        course_category: Some("math".to_string()),
    };
    assert!(item_to_course(&item).is_none());
}

#[test]
fn post_then_get_returns_submitted_course() {
    let mut table: HashMap<String, StoreItem> = HashMap::new();
    let submitted = course("c1", "Algebra", "math");
    table.insert(submitted.course_id.clone(), course_to_item(submitted));
    let item = table.remove("c1").expect("just written");
    let resp = respond_to_get(GetOutcome::Found(item));
    assert_eq!(resp.status, 200);
    assert_eq!(
        resp.body,
        "{\"course_id\":\"c1\",\"course_name\":\"Algebra\",\"course_category\":\"math\"}"
    );
}

#[test]
fn second_post_overwrites_record() {
    let mut table: HashMap<String, StoreItem> = HashMap::new();
    let first = course("c1", "Algebra", "math");
    let second = course("c1", "Geometry", "math");
    table.insert(first.course_id.clone(), course_to_item(first));
    table.insert(second.course_id.clone(), course_to_item(second));
    assert_eq!(table.len(), 1);
    let item = table.remove("c1").expect("still present");
    let resp = respond_to_get(GetOutcome::Found(item));
    assert_eq!(resp.status, 200);
    assert_eq!(
        resp.body,
        "{\"course_id\":\"c1\",\"course_name\":\"Geometry\",\"course_category\":\"math\"}"
    );
}

#[test]
fn encode_escapes_special_characters() {
    let c = course("c\"1", "a\\b\nc\td\u{01}", "math");
    let body = encode_course(&c);
    assert_eq!(
        body,
        "{\"course_id\":\"c\\\"1\",\"course_name\":\"a\\\\b\\nc\\td\\u0001\",\"course_category\":\"math\"}"
    );
}

#[test]
fn encode_keeps_non_ascii_characters() {
    let c = course("c1", "caf\u{e9} \u{3042}", "math");
    let body = encode_course(&c);
    assert_eq!(
        body,
        "{\"course_id\":\"c1\",\"course_name\":\"caf\u{e9} \u{3042}\",\"course_category\":\"math\"}"
    );
}

#[test]
fn encode_courses_joins_with_commas() {
    let list = vec![course("a", "A", "x"), course("b", "B", "y")];
    let body = encode_courses(&list);
    assert_eq!(
        body,
        "[{\"course_id\":\"a\",\"course_name\":\"A\",\"course_category\":\"x\"},{\"course_id\":\"b\",\"course_name\":\"B\",\"course_category\":\"y\"}]"
    );
}
