use vstd::prelude::*;

use crate::course::Course;
use crate::course::CourseView;

verus! {

/// Lower-case hexadecimal digit for a value below sixteen.
pub open spec fn hex_digit(n: int) -> char {
    if n == 0 {
        '0'
    } else if n == 1 {
        '1'
    } else if n == 2 {
        '2'
    } else if n == 3 {
        '3'
    } else if n == 4 {
        '4'
    } else if n == 5 {
        '5'
    } else if n == 6 {
        '6'
    } else if n == 7 {
        '7'
    } else if n == 8 {
        '8'
    } else if n == 9 {
        '9'
    } else if n == 10 {
        'a'
    } else if n == 11 {
        'b'
    } else if n == 12 {
        'c'
    } else if n == 13 {
        'd'
    } else if n == 14 {
        'e'
    } else {
        'f'
    }
}

/// How one character appears inside a JSON string literal: quote and
/// backslash escaped, the named control characters by their short escapes,
/// every other control character as `\u00..`, and anything else as itself.
pub open spec fn escaped_char(c: char) -> Seq<char> {
    if c == '"' {
        seq!['\\', '"']
    } else if c == '\\' {
        seq!['\\', '\\']
    } else if c == '\u{08}' {
        seq!['\\', 'b']
    } else if c == '\t' {
        seq!['\\', 't']
    } else if c == '\n' {
        seq!['\\', 'n']
    } else if c == '\u{0c}' {
        seq!['\\', 'f']
    } else if c == '\r' {
        seq!['\\', 'r']
    } else if (c as u32) < 32 {
        seq!['\\', 'u', '0', '0', hex_digit((c as u32) as int / 16), hex_digit((c as u32) as int % 16)]
    } else {
        seq![c]
    }
}

/// The body of a JSON string literal: each character escaped in turn.
pub open spec fn escaped_seq(s: Seq<char>) -> Seq<char>
    decreases s.len(),
{
    if s.len() == 0 {
        Seq::empty()
    } else {
        escaped_char(s[0]) + escaped_seq(s.skip(1))
    }
}

/// A JSON string literal: the escaped characters between double quotes.
pub open spec fn json_string(s: Seq<char>) -> Seq<char> {
    seq!['"'] + escaped_seq(s) + seq!['"']
}

/// The JSON object a course encodes to, fields in declaration order.
pub open spec fn course_json(c: CourseView) -> Seq<char> {
    "{\"course_id\":"@ + json_string(c.id) + ",\"course_name\":"@ + json_string(c.name)
        + ",\"course_category\":"@ + json_string(c.category) + "}"@
}

/// The JSON array a list of courses encodes to.
pub open spec fn courses_json_items(cs: Seq<CourseView>) -> Seq<char>
    decreases cs.len(),
{
    if cs.len() == 0 {
        Seq::empty()
    } else if cs.len() == 1 {
        course_json(cs[0])
    } else {
        course_json(cs[0]) + seq![','] + courses_json_items(cs.skip(1))
    }
}

/// A JSON array of course objects.
pub open spec fn courses_json(cs: Seq<CourseView>) -> Seq<char> {
    seq!['['] + courses_json_items(cs) + seq![']']
}

/// Law: an empty course collection encodes to the empty JSON array, so a
/// present-but-empty query result still carries a well-formed `200` body.
pub proof fn lemma_empty_array_encoding()
    ensures
        courses_json(Seq::<CourseView>::empty()) == "[]"@,
{
    reveal_strlit("[]");
    assert(courses_json(Seq::<CourseView>::empty()) =~= "[]"@);
}

pub proof fn lemma_escaped_push(s: Seq<char>, c: char)
    ensures
        escaped_seq(s.push(c)) == escaped_seq(s) + escaped_char(c),
    decreases s.len(),
{
    if s.len() == 0 {
        assert(s.push(c)[0] == c);
        assert(s.push(c).skip(1) =~= Seq::<char>::empty());
        assert(escaped_seq(s.push(c)) == escaped_char(c) + escaped_seq(Seq::<char>::empty()));
        assert(escaped_seq(s.push(c)) =~= escaped_seq(s) + escaped_char(c));
    } else {
        assert(s.push(c).skip(1) =~= s.skip(1).push(c));
        lemma_escaped_push(s.skip(1), c);
        assert(escaped_seq(s.push(c)) =~= escaped_seq(s) + escaped_char(c));
    }
}

pub proof fn lemma_courses_json_items_push(cs: Seq<CourseView>, c: CourseView)
    ensures
        courses_json_items(cs.push(c)) == if cs.len() == 0 {
            course_json(c)
        } else {
            courses_json_items(cs) + seq![','] + course_json(c)
        },
    decreases cs.len(),
{
    if cs.len() == 0 {
        assert(cs.push(c)[0] == c);
        assert(courses_json_items(cs.push(c)) =~= course_json(c));
    } else if cs.len() == 1 {
        assert(cs.push(c).skip(1) =~= seq![c]);
        assert(courses_json_items(seq![c]) == course_json(c));
        assert(courses_json_items(cs.push(c)) =~= courses_json_items(cs) + seq![',']
            + course_json(c));
    } else {
        assert(cs.push(c).skip(1) =~= cs.skip(1).push(c));
        lemma_courses_json_items_push(cs.skip(1), c);
        assert(courses_json_items(cs.push(c)) =~= courses_json_items(cs) + seq![',']
            + course_json(c));
    }
}

/// Relies on std's `String::push`: appends the given character to the end of
/// the string.
#[verifier::external_body]
fn push_char(s: &mut String, c: char)
    ensures
        final(s)@ == old(s)@.push(c),
{
    s.push(c)
}

/// Hexadecimal digit as a character.
fn hex_digit_char(n: u32) -> (r: char)
    requires
        n < 16,
    ensures
        r == hex_digit(n as int),
{
    match n {
        0 => '0',
        1 => '1',
        2 => '2',
        3 => '3',
        4 => '4',
        5 => '5',
        6 => '6',
        7 => '7',
        8 => '8',
        9 => '9',
        10 => 'a',
        11 => 'b',
        12 => 'c',
        13 => 'd',
        14 => 'e',
        _ => 'f',
    }
}

/// Append the escape of one character to `out`.
fn push_escaped(out: &mut String, c: char)
    ensures
        final(out)@ == old(out)@ + escaped_char(c),
{
    if c == '"' {
        proof {
            reveal_strlit("\\\"");
            assert("\\\""@ =~= seq!['\\', '"']);
        }
        out.append("\\\"");
    } else if c == '\\' {
        proof {
            reveal_strlit("\\\\");
            assert("\\\\"@ =~= seq!['\\', '\\']);
        }
        out.append("\\\\");
    } else if c == '\u{08}' {
        proof {
            reveal_strlit("\\b");
            assert("\\b"@ =~= seq!['\\', 'b']);
        }
        out.append("\\b");
    } else if c == '\t' {
        proof {
            reveal_strlit("\\t");
            assert("\\t"@ =~= seq!['\\', 't']);
        }
        out.append("\\t");
    } else if c == '\n' {
        proof {
            reveal_strlit("\\n");
            assert("\\n"@ =~= seq!['\\', 'n']);
        }
        out.append("\\n");
    } else if c == '\u{0c}' {
        proof {
            reveal_strlit("\\f");
            assert("\\f"@ =~= seq!['\\', 'f']);
        }
        out.append("\\f");
    } else if c == '\r' {
        proof {
            reveal_strlit("\\r");
            assert("\\r"@ =~= seq!['\\', 'r']);
        }
        out.append("\\r");
    } else {
        let n = c as u32;
        if n < 32 {
            proof {
                reveal_strlit("\\u00");
                assert("\\u00"@ =~= seq!['\\', 'u', '0', '0']);
            }
            let ghost before = out@;
            out.append("\\u00");
            let hi = hex_digit_char(n / 16);
            push_char(out, hi);
            let lo = hex_digit_char(n % 16);
            push_char(out, lo);
            proof {
                assert(out@ =~= before + escaped_char(c));
            }
        } else {
            push_char(out, c);
            proof {
                assert(out@ =~= old(out)@ + escaped_char(c));
            }
        }
    }
}

/// Append the JSON string literal form of `s`, quotes included, to `out`.
fn append_json_string(out: &mut String, s: &str)
    ensures
        final(out)@ == old(out)@ + json_string(s@),
{
    let ghost base = out@;
    push_char(out, '"');
    let len = s.unicode_len();
    let mut i: usize = 0;
    while i < len
        invariant
            len == s@.len(),
            i <= len,
            out@ == base + seq!['"'] + escaped_seq(s@.subrange(0, i as int)),
        decreases len - i,
    {
        let c = s.get_char(i);
        push_escaped(out, c);
        proof {
            assert(s@.subrange(0, i as int).push(s@[i as int]) =~= s@.subrange(0, i + 1 as int));
            lemma_escaped_push(s@.subrange(0, i as int), s@[i as int]);
            assert(out@ =~= base + seq!['"'] + escaped_seq(s@.subrange(0, i + 1 as int)));
        }
        i = i + 1;
    }
    push_char(out, '"');
    proof {
        assert(s@.subrange(0, len as int) =~= s@);
        assert(out@ =~= base + json_string(s@));
    }
}

/// JSON encoding of one course, as the point-lookup response carries it.
pub fn encode_course(c: &Course) -> (r: String)
    ensures
        r@ == course_json(c@),
{
    let mut out = String::new();
    out.append("{\"course_id\":");
    append_json_string(&mut out, c.course_id.as_str());
    out.append(",\"course_name\":");
    append_json_string(&mut out, c.course_name.as_str());
    out.append(",\"course_category\":");
    append_json_string(&mut out, c.course_category.as_str());
    out.append("}");
    proof {
        assert(out@ =~= course_json(c@));
    }
    out
}

/// The views of a sequence of courses.
pub open spec fn course_views(s: Seq<Course>) -> Seq<CourseView> {
    s.map_values(|c: Course| c@)
}

/// JSON encoding of a list of courses, as the category-query response
/// carries it.
pub fn encode_courses(cs: &Vec<Course>) -> (r: String)
    ensures
        r@ == courses_json(course_views(cs@)),
{
    let mut out = String::new();
    push_char(&mut out, '[');
    let mut i: usize = 0;
    while i < cs.len()
        invariant
            i <= cs@.len(),
            out@ == seq!['['] + courses_json_items(course_views(cs@).subrange(0, i as int)),
        decreases cs@.len() - i,
    {
        let ghost done = course_views(cs@).subrange(0, i as int);
        if i > 0 {
            push_char(&mut out, ',');
        }
        let encoded = encode_course(&cs[i]);
        out.append(encoded.as_str());
        proof {
            assert(done.push(cs@[i as int]@) =~= course_views(cs@).subrange(0, i + 1 as int));
            lemma_courses_json_items_push(done, cs@[i as int]@);
            assert(out@ =~= seq!['['] + courses_json_items(
                course_views(cs@).subrange(0, i + 1 as int),
            ));
        }
        i = i + 1;
    }
    push_char(&mut out, ']');
    proof {
        assert(course_views(cs@).subrange(0, cs@.len() as int) =~= course_views(cs@));
        assert(out@ =~= courses_json(course_views(cs@)));
    }
    out
}

} // verus!
