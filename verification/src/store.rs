use vstd::prelude::*;

use crate::course::CourseView;
use crate::course::ItemView;
use crate::course::course_of_item;
use crate::course::item_of_course;

verus! {

/// The external table, modelled as a map from primary key (`course_id`) to
/// the stored item. The store is the sole durable owner of course data; the
/// service holds no state of its own, so these functions are the whole model
/// the laws below are stated against.
///
/// An unconditional write: creates or overwrites the record under the
/// course's id.
pub open spec fn table_put(t: Map<Seq<char>, ItemView>, c: CourseView) -> Map<Seq<char>, ItemView> {
    t.insert(c.id, item_of_course(c))
}

/// A point lookup by primary key: the item under the key, or nothing.
pub open spec fn table_get(t: Map<Seq<char>, ItemView>, id: Seq<char>) -> Option<ItemView> {
    if t.dom().contains(id) {
        Some(t[id])
    } else {
        None
    }
}

/// A category query: every stored item whose category attribute equals `cat`.
pub open spec fn table_query(t: Map<Seq<char>, ItemView>, cat: Seq<char>) -> Set<ItemView> {
    t.values().filter(|i: ItemView| i.category == Some(cat))
}

/// Law: writing a course and then looking its id up returns exactly the item
/// that was written, and that item reconstructs to the course that was
/// submitted — the round trip through the store loses nothing.
pub proof fn lemma_create_then_get(t: Map<Seq<char>, ItemView>, c: CourseView)
    ensures
        table_get(table_put(t, c), c.id) == Some(item_of_course(c)),
        course_of_item(item_of_course(c)) == Some(c),
{
}

/// Law: looking up a key that no record holds returns nothing.
pub proof fn lemma_get_absent(t: Map<Seq<char>, ItemView>, id: Seq<char>)
    requires
        !t.dom().contains(id),
    ensures
        table_get(t, id) is None,
{
}

/// Law: a second write under the same id overwrites the prior record — the
/// key is idempotent, the content is not. The table afterwards is the table
/// the second write alone would have produced.
pub proof fn lemma_put_overwrites(
    t: Map<Seq<char>, ItemView>,
    first: CourseView,
    second: CourseView,
)
    requires
        first.id == second.id,
    ensures
        table_get(table_put(table_put(t, first), second), second.id) == Some(
            item_of_course(second),
        ),
        table_put(table_put(t, first), second) == table_put(t, second),
{
    assert(table_put(table_put(t, first), second) =~= table_put(t, second));
}

/// Law: after a course is written, a query for its category contains its
/// item.
pub proof fn lemma_put_in_category(t: Map<Seq<char>, ItemView>, c: CourseView)
    ensures
        table_query(table_put(t, c), c.category).contains(item_of_course(c)),
{
    let after = table_put(t, c);
    assert(after.dom().contains(c.id) && after[c.id] == item_of_course(c));
    assert(after.values().contains(item_of_course(c)));
}

/// Law: a category query returns only items whose category attribute equals
/// the requested one.
pub proof fn lemma_query_matches_category(
    t: Map<Seq<char>, ItemView>,
    cat: Seq<char>,
    i: ItemView,
)
    requires
        table_query(t, cat).contains(i),
    ensures
        i.category == Some(cat),
{
}

} // verus!
