use vstd::prelude::*;

use crate::http::HttpResponse;
use crate::http::invalid_request_response;
use crate::http::not_found_response;

verus! {

/// Character-by-character string comparison, so that contracts can speak of
/// the views directly.
pub fn str_eq(a: &str, b: &str) -> (r: bool)
    ensures
        r == (a@ == b@),
{
    let a_len = a.unicode_len();
    let b_len = b.unicode_len();
    if a_len != b_len {
        return false;
    }
    let mut i: usize = 0;
    while i < a_len
        invariant
            i <= a_len,
            a_len == a@.len(),
            b_len == b@.len(),
            a_len == b_len,
            forall|j: int| 0 <= j < i ==> a@[j] == b@[j],
        decreases a_len - i,
    {
        if a.get_char(i) != b.get_char(i) {
            return false;
        }
        i = i + 1;
    }
    proof {
        assert(a@ =~= b@);
    }
    true
}

/// What the router decides for one inbound request: delegate to one of the
/// three operations, or answer at once.
pub enum Route {
    /// `POST /courses`: decode the body as a course and write it.
    CreateCourse,
    /// `GET /courses?course_id=..`: point lookup by primary key.
    GetById(String),
    /// `GET /courses?course_category=..`: query by the category attribute.
    ListByCategory(String),
    /// A terminal response, with no store call.
    Reply(HttpResponse),
}

/// Dispatch an inbound request. `course_id` and `course_category` are the
/// query parameters as received: `Some("")` means the parameter key was
/// present with an empty value, which still counts as present, so an empty
/// `course_id` becomes a literal lookup for the empty-string key.
///
/// `course_id` takes precedence over `course_category` whenever both are
/// present.
pub fn route(method: &str, path: &str, course_id: Option<String>, course_category: Option<
    String,
>) -> (r: Route)
    ensures
        method@ == "POST"@ && path@ == "/courses"@ ==> r == Route::CreateCourse,
        method@ == "GET"@ && path@ == "/courses"@ ==> {
            match (course_id, course_category) {
                (Some(id), _) => r == Route::GetById(id),
                (None, Some(cat)) => r == Route::ListByCategory(cat),
                (None, None) => (r matches Route::Reply(resp) && resp.status == 400
                    && resp.body@ == "{\"message\":\"Invalid request.\"}"@),
            }
        },
        !(method@ == "POST"@ && path@ == "/courses"@) && !(method@ == "GET"@ && path@
            == "/courses"@) ==> (r matches Route::Reply(resp) && resp.status == 404 && resp.body@
            == "{\"message\":\"Not found.\"}"@),
{
    proof {
        reveal_strlit("POST");
        reveal_strlit("GET");
        assert("POST"@.len() == 4);
        assert("GET"@.len() == 3);
    }
    let is_courses = str_eq(path, "/courses");
    if str_eq(method, "POST") && is_courses {
        Route::CreateCourse
    } else if str_eq(method, "GET") && is_courses {
        match (course_id, course_category) {
            (Some(id), _) => Route::GetById(id),
            (None, Some(cat)) => Route::ListByCategory(cat),
            (None, None) => Route::Reply(invalid_request_response()),
        }
    } else {
        Route::Reply(not_found_response())
    }
}

} // verus!
