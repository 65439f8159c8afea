use vstd::prelude::*;

use crate::course::Course;
use crate::course::CourseView;
use crate::course::ItemView;
use crate::course::StoreItem;
use crate::course::course_of_item;
use crate::course::item_to_course;
use crate::http::HttpResponse;
use crate::http::course_not_found_response;
use crate::http::created_response;
use crate::http::internal_error_response;
use crate::http::no_courses_found_response;
use crate::json::course_json;
use crate::json::course_views;
use crate::json::courses_json;
use crate::json::encode_course;
use crate::json::encode_courses;

verus! {

/// Outcome of the unconditional write of a course record.
pub enum PutOutcome {
    /// The store acknowledged the write.
    Stored,
    /// The store reported an error.
    StoreFailure,
}

/// Outcome of a point lookup by primary key.
pub enum GetOutcome {
    /// The lookup returned an item.
    Found(StoreItem),
    /// The lookup succeeded and no item exists under the key.
    Absent,
    /// The store reported its own "resource not found" condition.
    StoreNotFound,
    /// The store reported any other error.
    StoreFailure,
}

/// Outcome of a query by the category attribute.
pub enum QueryOutcome {
    /// The query returned an item collection, possibly empty.
    Found(Vec<StoreItem>),
    /// The query succeeded but returned no item collection at all.
    Absent,
    /// The store reported its own "resource not found" condition.
    StoreNotFound,
    /// The store reported any other error.
    StoreFailure,
}

/// The views of a sequence of stored items.
pub open spec fn item_views(s: Seq<StoreItem>) -> Seq<ItemView> {
    s.map_values(|x: StoreItem| x@)
}

/// Whether every item of a fetched collection carries all three expected
/// attributes.
pub open spec fn all_items_well_formed(s: Seq<ItemView>) -> bool {
    forall|j: int| 0 <= j < s.len() ==> course_of_item(s[j]) is Some
}

/// The courses a well-formed item collection reconstructs to.
pub open spec fn courses_of_items(s: Seq<ItemView>) -> Seq<CourseView> {
    s.map_values(|i: ItemView| course_of_item(i)->Some_0)
}

/// Map a write outcome to the HTTP response of the create operation.
pub fn respond_to_create(outcome: PutOutcome) -> (r: HttpResponse)
    ensures
        match outcome {
            PutOutcome::Stored => r.status == 200 && r.body@
                == "{\"message\":\"Course created successfully.\"}"@,
            PutOutcome::StoreFailure => r.status == 500 && r.body@
                == "{\"message\":\"Internal server error.\"}"@,
        },
{
    match outcome {
        PutOutcome::Stored => created_response(),
        PutOutcome::StoreFailure => internal_error_response(),
    }
}

/// Map a point-lookup outcome to the HTTP response of the get-by-id
/// operation: the JSON-encoded course when the item exists and is complete,
/// 404 when the key is absent or the store itself reports "resource not
/// found", 500 when the item is missing an expected attribute or the store
/// failed otherwise.
pub fn respond_to_get(outcome: GetOutcome) -> (r: HttpResponse)
    ensures
        match outcome {
            GetOutcome::Found(item) => match course_of_item(item@) {
                Some(c) => r.status == 200 && r.body@ == course_json(c),
                None => r.status == 500 && r.body@
                    == "{\"message\":\"Internal server error.\"}"@,
            },
            GetOutcome::Absent => r.status == 404 && r.body@
                == "{\"message\":\"Course not found.\"}"@,
            GetOutcome::StoreNotFound => r.status == 404 && r.body@
                == "{\"message\":\"Course not found.\"}"@,
            GetOutcome::StoreFailure => r.status == 500 && r.body@
                == "{\"message\":\"Internal server error.\"}"@,
        },
{
    match outcome {
        GetOutcome::Found(item) => match item_to_course(&item) {
            Some(course) => HttpResponse { status: 200, body: encode_course(&course) },
            None => internal_error_response(),
        },
        GetOutcome::Absent => course_not_found_response(),
        GetOutcome::StoreNotFound => course_not_found_response(),
        GetOutcome::StoreFailure => internal_error_response(),
    }
}

/// Map a category-query outcome to the HTTP response of the list operation:
/// the JSON-encoded array of the reconstructed courses when a collection came
/// back — an empty collection still answers 200 with an empty array — 404
/// only when the collection is absent or the store itself reports "resource
/// not found", 500 when an item is missing an expected attribute or the store
/// failed otherwise.
pub fn respond_to_query(outcome: QueryOutcome) -> (r: HttpResponse)
    ensures
        match outcome {
            QueryOutcome::Found(items) => if all_items_well_formed(item_views(items@)) {
                r.status == 200 && r.body@ == courses_json(courses_of_items(item_views(items@)))
            } else {
                r.status == 500 && r.body@ == "{\"message\":\"Internal server error.\"}"@
            },
            QueryOutcome::Absent => r.status == 404 && r.body@
                == "{\"message\":\"No courses found in the specified category.\"}"@,
            QueryOutcome::StoreNotFound => r.status == 404 && r.body@
                == "{\"message\":\"No courses found in the specified category.\"}"@,
            QueryOutcome::StoreFailure => r.status == 500 && r.body@
                == "{\"message\":\"Internal server error.\"}"@,
        },
{
    match outcome {
        QueryOutcome::Found(items) => {
            let mut courses: Vec<Course> = Vec::new();
            let mut i: usize = 0;
            #[verifier::loop_isolation(false)]
            while i < items.len()
                invariant
                    i <= items@.len(),
                    courses@.len() == i,
                    forall|j: int| 0 <= j < i ==> course_of_item(items@[j]@) is Some,
                    forall|j: int| 0 <= j < i ==> #[trigger] courses@[j]@ == course_of_item(
                        items@[j]@,
                    )->Some_0,
                decreases items@.len() - i,
            {
                match item_to_course(&items[i]) {
                    Some(course) => {
                        courses.push(course);
                    },
                    None => {
                        proof {
                            assert(item_views(items@)[i as int] == items@[i as int]@);
                            assert(course_of_item(item_views(items@)[i as int]) is None);
                            assert(!all_items_well_formed(item_views(items@)));
                        }
                        return internal_error_response();
                    },
                }
                i = i + 1;
            }
            let body = encode_courses(&courses);
            proof {
                assert(forall|j: int| 0 <= j < items@.len() ==> #[trigger] item_views(items@)[j]
                    == items@[j]@);
                assert(all_items_well_formed(item_views(items@)));
                assert(forall|j: int| 0 <= j < courses@.len() ==> #[trigger] course_views(
                    courses@,
                )[j] == courses@[j]@);
                assert(forall|j: int|
                    0 <= j < items@.len() ==> #[trigger] courses_of_items(item_views(items@))[j]
                        == course_of_item(item_views(items@)[j])->Some_0);
                assert(course_views(courses@) =~= courses_of_items(item_views(items@)));
            }
            HttpResponse { status: 200, body }
        },
        QueryOutcome::Absent => no_courses_found_response(),
        QueryOutcome::StoreNotFound => no_courses_found_response(),
        QueryOutcome::StoreFailure => internal_error_response(),
    }
}

} // verus!
