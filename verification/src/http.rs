use vstd::prelude::*;

verus! {

/// An HTTP response as this service produces it: a status code and a JSON
/// body. Every response the library builds is meant to be sent with
/// `Content-Type: application/json`; the header itself is the caller's job.
pub struct HttpResponse {
    pub status: u16,
    pub body: String,
}

/// Response for any method/path pair outside the dispatch table.
pub fn not_found_response() -> (r: HttpResponse)
    ensures
        r.status == 404,
        r.body@ == "{\"message\":\"Not found.\"}"@,
{
    HttpResponse { status: 404, body: String::from_str("{\"message\":\"Not found.\"}") }
}

/// Response for `GET /courses` with neither `course_id` nor `course_category`.
pub fn invalid_request_response() -> (r: HttpResponse)
    ensures
        r.status == 400,
        r.body@ == "{\"message\":\"Invalid request.\"}"@,
{
    HttpResponse { status: 400, body: String::from_str("{\"message\":\"Invalid request.\"}") }
}

/// Response when a point lookup finds no record under the requested id.
pub fn course_not_found_response() -> (r: HttpResponse)
    ensures
        r.status == 404,
        r.body@ == "{\"message\":\"Course not found.\"}"@,
{
    HttpResponse { status: 404, body: String::from_str("{\"message\":\"Course not found.\"}") }
}

/// Response when a category query yields no item collection at all.
pub fn no_courses_found_response() -> (r: HttpResponse)
    ensures
        r.status == 404,
        r.body@ == "{\"message\":\"No courses found in the specified category.\"}"@,
{
    HttpResponse {
        status: 404,
        body: String::from_str("{\"message\":\"No courses found in the specified category.\"}"),
    }
}

/// Response for a successful write of a course record.
pub fn created_response() -> (r: HttpResponse)
    ensures
        r.status == 200,
        r.body@ == "{\"message\":\"Course created successfully.\"}"@,
{
    HttpResponse {
        status: 200,
        body: String::from_str("{\"message\":\"Course created successfully.\"}"),
    }
}

/// Structured response for store or transport failures and for records whose
/// stored shape is missing an expected attribute.
pub fn internal_error_response() -> (r: HttpResponse)
    ensures
        r.status == 500,
        r.body@ == "{\"message\":\"Internal server error.\"}"@,
{
    HttpResponse { status: 500, body: String::from_str("{\"message\":\"Internal server error.\"}") }
}

} // verus!
