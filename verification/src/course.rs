use vstd::prelude::*;

verus! {

/// Mathematical value of a course record: three character sequences.
pub ghost struct CourseView {
    pub id: Seq<char>,
    pub name: Seq<char>,
    pub category: Seq<char>,
}

/// A course record: the shape shared by request bodies and responses.
/// `course_id` is the primary key of the external table; `course_category`
/// is a non-unique grouping attribute.
pub struct Course {
    pub course_id: String,
    pub course_name: String,
    pub course_category: String,
}

impl View for Course {
    type V = CourseView;

    open spec fn view(&self) -> CourseView {
        CourseView {
            id: self.course_id@,
            name: self.course_name@,
            category: self.course_category@,
        }
    }
}

/// Mathematical value of a stored item: each expected attribute may be
/// present as a string or absent.
pub ghost struct ItemView {
    pub id: Option<Seq<char>>,
    pub name: Option<Seq<char>>,
    pub category: Option<Seq<char>>,
}

/// One item of the external table, reduced to what the service reads of it:
/// the string value of each of the three expected attributes, or `None`
/// where the attribute is missing or not a string. The external store
/// enforces no schema beyond key presence, so a fetched item may lack any
/// of these.
pub struct StoreItem {
    pub course_id: Option<String>,
    pub course_name: Option<String>,
    pub course_category: Option<String>,
}

impl View for StoreItem {
    type V = ItemView;

    open spec fn view(&self) -> ItemView {
        ItemView {
            id: match self.course_id {
                Some(s) => Some(s@),
                None => None,
            },
            name: match self.course_name {
                Some(s) => Some(s@),
                None => None,
            },
            category: match self.course_category {
                Some(s) => Some(s@),
                None => None,
            },
        }
    }
}

/// The item a well-formed course is written as: all three attributes present.
pub open spec fn item_of_course(c: CourseView) -> ItemView {
    ItemView { id: Some(c.id), name: Some(c.name), category: Some(c.category) }
}

/// The course a stored item reconstructs to, where all three expected
/// attributes are present; `None` where any is missing.
pub open spec fn course_of_item(i: ItemView) -> Option<CourseView> {
    match (i.id, i.name, i.category) {
        (Some(id), Some(name), Some(category)) => Some(
            CourseView { id, name, category },
        ),
        _ => None,
    }
}

/// Build the stored shape of a course: an unconditional write of this item
/// creates or overwrites the record under `course_id`.
pub fn course_to_item(c: Course) -> (r: StoreItem)
    ensures
        r@ == item_of_course(c@),
{
    StoreItem {
        course_id: Some(c.course_id),
        course_name: Some(c.course_name),
        course_category: Some(c.course_category),
    }
}

/// Reconstruct a course from a fetched item. Fails exactly when one of the
/// three expected attributes is absent.
pub fn item_to_course(item: &StoreItem) -> (r: Option<Course>)
    ensures
        match r {
            Some(c) => course_of_item(item@) == Some(c@),
            None => course_of_item(item@) is None,
        },
{
    match (&item.course_id, &item.course_name, &item.course_category) {
        (Some(course_id), Some(course_name), Some(course_category)) => Some(
            Course {
                course_id: course_id.clone(),
                course_name: course_name.clone(),
                course_category: course_category.clone(),
            },
        ),
        _ => None,
    }
}

} // verus!
