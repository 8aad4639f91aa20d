//! The fields of an element: its attributes, then its child elements.

use crate::filtering::lemma_filter_push;
use crate::scalars::{parse_bool, parse_u16, read_bool, read_u16};
use crate::xml_events::XmlToken;
use vstd::prelude::*;

verus! {

/// What a field holds.
#[derive(Clone, Debug, PartialEq, Eq)]
pub enum FieldValue {
    /// The value of an attribute.
    Attribute(String),
    /// An element with nothing between its tags.
    Empty,
    /// An element with character data only.
    Text(String),
    /// An element with anything else between its tags.
    Nested,
}

/// One field of an element.
#[derive(Clone, Debug, PartialEq, Eq)]
pub struct Field {
    /// The local name of the attribute or of the child element.
    pub name: String,
    /// What the attribute or the child element holds.
    pub value: FieldValue,
    /// The index, among the tokens, of the start tag of the child element;
    /// for an attribute, of the start tag that carries it.
    pub at: usize,
}

/// Where the element ends that is open `depth` levels deep at `pos`: the
/// index behind the end tag that closes the outermost of these levels.
pub open spec fn subtree_end(tokens: Seq<XmlToken>, pos: int, depth: nat) -> Option<int>
    decreases tokens.len() - pos,
{
    if pos < 0 || pos >= tokens.len() {
        None
    } else if tokens[pos] is StartElement {
        subtree_end(tokens, pos + 1, depth + 1)
    } else if tokens[pos] is EndElement {
        if depth <= 1 {
            Some(pos + 1)
        } else {
            subtree_end(tokens, pos + 1, (depth - 1) as nat)
        }
    } else {
        subtree_end(tokens, pos + 1, depth)
    }
}

/// The index behind the end tag of the element whose start tag is at `at`.
pub open spec fn element_end(tokens: Seq<XmlToken>, at: int) -> Option<int> {
    subtree_end(tokens, at + 1, 1)
}

/// What the element whose start tag is at `at` holds.
pub open spec fn element_value(tokens: Seq<XmlToken>, at: int) -> FieldValue {
    if at + 1 < tokens.len() && tokens[at + 1] is EndElement {
        FieldValue::Empty
    } else if at + 2 < tokens.len() && tokens[at + 1] is Characters && tokens[at + 2]
        is EndElement {
        FieldValue::Text(tokens[at + 1]->Characters_0)
    } else {
        FieldValue::Nested
    }
}

/// An element ends behind where it starts, and within the tokens.
pub proof fn lemma_subtree_end_bounds(tokens: Seq<XmlToken>, pos: int, depth: nat)
    ensures
        subtree_end(tokens, pos, depth) matches Some(end) ==> pos < end <= tokens.len(),
    decreases tokens.len() - pos,
{
    if 0 <= pos < tokens.len() {
        lemma_subtree_end_bounds(tokens, pos + 1, depth + 1);
        lemma_subtree_end_bounds(tokens, pos + 1, depth);
        if depth > 1 {
            lemma_subtree_end_bounds(tokens, pos + 1, (depth - 1) as nat);
        }
    }
}

/// The child elements from `pos` up to the end tag of the element that
/// holds them, each as a field. Character data between them is passed over;
/// any other token, or tokens that end before the element does, give none.
pub open spec fn children(tokens: Seq<XmlToken>, pos: int) -> Option<Seq<Field>>
    decreases tokens.len() - pos,
{
    if pos < 0 || pos >= tokens.len() {
        None
    } else {
        match tokens[pos] {
            XmlToken::EndElement => Some(Seq::empty()),
            XmlToken::Characters(_) => children(tokens, pos + 1),
            XmlToken::StartElement { name, .. } => match element_end(tokens, pos) {
                Some(end) => {
                    proof {
                        lemma_subtree_end_bounds(tokens, pos + 1, 1);
                    }
                    match children(tokens, end) {
                        Some(rest) => Some(
                            seq![
                                Field {
                                    name,
                                    value: element_value(tokens, pos),
                                    at: pos as usize,
                                },
                            ] + rest,
                        ),
                        None => None,
                    }
                },
                None => None,
            },
            _ => None,
        }
    }
}

/// The attributes of the start tag at `at`, each as a field.
pub open spec fn attribute_fields(attributes: Seq<(String, String)>, at: usize) -> Seq<Field> {
    attributes.map_values(
        |a: (String, String)| Field { name: a.0, value: FieldValue::Attribute(a.1), at },
    )
}

/// The fields of the element whose start tag is at `at`: its attributes,
/// then its child elements, in document order.
pub open spec fn element_fields(tokens: Seq<XmlToken>, at: int) -> Option<Seq<Field>> {
    if 0 <= at < tokens.len() && tokens[at] is StartElement {
        match children(tokens, at + 1) {
            Some(rest) => Some(attribute_fields(tokens[at]->attributes@, at as usize) + rest),
            None => None,
        }
    } else {
        None
    }
}

/// Finds the end of the element whose start tag is at `at`.
pub fn find_end(tokens: &Vec<XmlToken>, at: usize) -> (end: Option<usize>)
    ensures
        match end {
            Some(e) => element_end(tokens@, at as int) == Some(e as int) && at < e <= tokens.len(),
            None => element_end(tokens@, at as int) is None,
        },
{
    if at >= tokens.len() {
        return None;
    }
    let mut pos: usize = at + 1;
    let mut depth: usize = 1;
    while pos < tokens.len()
        invariant
            at < pos <= tokens.len(),
            1 <= depth <= pos - at,
            element_end(tokens@, at as int) == subtree_end(tokens@, pos as int, depth as nat),
        decreases tokens.len() - pos,
    {
        match &tokens[pos] {
            XmlToken::StartElement { .. } => {
                depth += 1;
            },
            XmlToken::EndElement => {
                if depth == 1 {
                    return Some(pos + 1);
                }
                depth -= 1;
            },
            _ => {},
        }
        pos += 1;
    }
    None
}

/// Says what the element whose start tag is at `at` holds.
fn value_at(tokens: &Vec<XmlToken>, at: usize) -> (value: FieldValue)
    requires
        at < tokens.len(),
    ensures
        value == element_value(tokens@, at as int),
{
    if at + 1 >= tokens.len() {
        return FieldValue::Nested;
    }
    match &tokens[at + 1] {
        XmlToken::EndElement => FieldValue::Empty,
        XmlToken::Characters(text) => {
            if at + 2 < tokens.len() {
                match &tokens[at + 2] {
                    XmlToken::EndElement => FieldValue::Text(text.clone()),
                    _ => FieldValue::Nested,
                }
            } else {
                FieldValue::Nested
            }
        },
        _ => FieldValue::Nested,
    }
}

/// Reads the fields of the element whose start tag is at `at`.
pub fn read_fields(tokens: &Vec<XmlToken>, at: usize) -> (fields: Option<Vec<Field>>)
    ensures
        match fields {
            Some(v) => element_fields(tokens@, at as int) == Some(v@),
            None => element_fields(tokens@, at as int) is None,
        },
{
    if at >= tokens.len() {
        return None;
    }
    let mut fields: Vec<Field> = Vec::new();
    match &tokens[at] {
        XmlToken::StartElement { attributes, .. } => {
            let mut k: usize = 0;
            while k < attributes.len()
                invariant
                    k <= attributes.len(),
                    fields@ == attribute_fields(attributes@, at).take(k as int),
                decreases attributes.len() - k,
            {
                let attribute = &attributes[k];
                fields.push(
                    Field {
                        name: attribute.0.clone(),
                        value: FieldValue::Attribute(attribute.1.clone()),
                        at,
                    },
                );
                k += 1;
                assert(fields@ =~= attribute_fields(attributes@, at).take(k as int));
            }
            assert(fields@ =~= attribute_fields(attributes@, at));
        },
        _ => {
            return None;
        },
    }
    let mut pos: usize = at + 1;
    loop
        invariant
            at < pos <= tokens.len(),
            tokens[at as int] is StartElement,
            element_fields(tokens@, at as int) == match children(tokens@, pos as int) {
                Some(rest) => Some(fields@ + rest),
                None => None,
            },
        decreases tokens.len() - pos,
    {
        if pos >= tokens.len() {
            return None;
        }
        match &tokens[pos] {
            XmlToken::EndElement => {
                assert(fields@ + Seq::<Field>::empty() =~= fields@);
                return Some(fields);
            },
            XmlToken::Characters(_) => {
                pos += 1;
            },
            XmlToken::StartElement { name, .. } => {
                match find_end(tokens, pos) {
                    None => {
                        return None;
                    },
                    Some(end) => {
                        let ghost before = fields@;
                        let value = value_at(tokens, pos);
                        fields.push(Field { name: name.clone(), value, at: pos });
                        proof {
                            let field = fields@.last();
                            assert forall|rest: Seq<Field>|
                                before + (seq![field] + rest) == #[trigger] (fields@ + rest) by {
                                assert(before + (seq![field] + rest) =~= fields@ + rest);
                            }
                        }
                        pos = end;
                    },
                }
            },
            _ => {
                return None;
            },
        }
    }
}

/// Tells whether a field is named `key`.
pub open spec fn has_name(key: Seq<char>) -> spec_fn(Field) -> bool {
    |f: Field| f.name@ == key
}

/// The fields of `fields` that are named `key`, in their order.
pub open spec fn named(fields: Seq<Field>, key: Seq<char>) -> Seq<Field> {
    fields.filter(has_name(key))
}

/// The field named `key`, where exactly one field has that name.
pub open spec fn lookup(fields: Seq<Field>, key: Seq<char>) -> Option<Field> {
    let found = named(fields, key);
    if found.len() == 1 {
        Some(found[0])
    } else {
        None
    }
}

/// The 16-bit number that `value` stands for: the text of an attribute or
/// of an element has to spell one.
pub open spec fn u16_value(value: FieldValue) -> Option<u16> {
    match value {
        FieldValue::Attribute(text) => parse_u16(text@),
        FieldValue::Text(text) => parse_u16(text@),
        _ => None,
    }
}

/// The text that `value` stands for; an empty element stands for the empty
/// text.
pub open spec fn text_value(value: FieldValue) -> Option<Seq<char>> {
    match value {
        FieldValue::Attribute(text) => Some(text@),
        FieldValue::Text(text) => Some(text@),
        FieldValue::Empty => Some(Seq::empty()),
        FieldValue::Nested => None,
    }
}

/// The truth value that `value` stands for; an empty element stands for
/// `false`.
pub open spec fn bool_value(value: FieldValue) -> Option<bool> {
    match value {
        FieldValue::Attribute(text) => parse_bool(text@),
        FieldValue::Text(text) => parse_bool(text@),
        FieldValue::Empty => Some(false),
        FieldValue::Nested => None,
    }
}

/// The number in the one field named `key`.
pub open spec fn u16_field(fields: Seq<Field>, key: Seq<char>) -> Option<u16> {
    match lookup(fields, key) {
        Some(field) => u16_value(field.value),
        None => None,
    }
}

/// The text in the one field named `key`.
pub open spec fn text_field(fields: Seq<Field>, key: Seq<char>) -> Option<Seq<char>> {
    match lookup(fields, key) {
        Some(field) => text_value(field.value),
        None => None,
    }
}

/// The truth value in the one field named `key`.
pub open spec fn bool_field(fields: Seq<Field>, key: Seq<char>) -> Option<bool> {
    match lookup(fields, key) {
        Some(field) => bool_value(field.value),
        None => None,
    }
}

/// Finds the one field named `key`.
pub fn find_field(fields: &Vec<Field>, key: &str) -> (found: Option<usize>)
    ensures
        match found {
            Some(i) => i < fields.len() && lookup(fields@, key@) == Some(fields@[i as int]),
            None => lookup(fields@, key@) is None,
        },
{
    let wanted = key.to_owned();
    let ghost is_named = has_name(key@);
    let mut count: usize = 0;
    let mut last: usize = 0;
    let mut i: usize = 0;
    while i < fields.len()
        invariant
            i <= fields.len(),
            wanted@ == key@,
            is_named == has_name(key@),
            count <= i,
            count == fields@.take(i as int).filter(is_named).len(),
            count > 0 ==> last < i && fields@.take(i as int).filter(is_named).last()
                == fields@[last as int],
        decreases fields.len() - i,
    {
        proof {
            assert(fields@.take(i + 1) =~= fields@.take(i as int).push(fields@[i as int]));
            lemma_filter_push(fields@.take(i as int), fields@[i as int], is_named);
        }
        if fields[i].name == wanted {
            count += 1;
            last = i;
        }
        i += 1;
    }
    assert(fields@.take(i as int) =~= fields@);
    if count == 1 {
        Some(last)
    } else {
        None
    }
}

/// Reads the number in the one field named `key`.
pub fn get_u16(fields: &Vec<Field>, key: &str) -> (value: Option<u16>)
    ensures
        value == u16_field(fields@, key@),
{
    match find_field(fields, key) {
        Some(i) => match &fields[i].value {
            FieldValue::Attribute(text) => read_u16(text.as_str()),
            FieldValue::Text(text) => read_u16(text.as_str()),
            _ => None,
        },
        None => None,
    }
}

/// Reads the text in the one field named `key`.
pub fn get_text(fields: &Vec<Field>, key: &str) -> (value: Option<String>)
    ensures
        match value {
            Some(text) => text_field(fields@, key@) == Some(text@),
            None => text_field(fields@, key@) is None,
        },
{
    match find_field(fields, key) {
        Some(i) => match &fields[i].value {
            FieldValue::Attribute(text) => Some(text.clone()),
            FieldValue::Text(text) => Some(text.clone()),
            FieldValue::Empty => Some(String::new()),
            FieldValue::Nested => None,
        },
        None => None,
    }
}

/// Reads the truth value in the one field named `key`.
pub fn get_bool(fields: &Vec<Field>, key: &str) -> (value: Option<bool>)
    ensures
        value == bool_field(fields@, key@),
{
    match find_field(fields, key) {
        Some(i) => match &fields[i].value {
            FieldValue::Attribute(text) => read_bool(text),
            FieldValue::Text(text) => read_bool(text),
            FieldValue::Empty => Some(false),
            FieldValue::Nested => None,
        },
        None => None,
    }
}

/// Whether the fields named `key` are the child elements at the indices
/// from `from` up to `to`, and no others.
pub open spec fn is_run(fields: Seq<Field>, key: Seq<char>, from: int, to: int) -> bool {
    &&& 0 <= from <= to <= fields.len()
    &&& forall|i: int|
        0 <= i < fields.len() ==> ((#[trigger] fields[i]).name@ == key <==> from <= i < to)
    &&& forall|i: int| from <= i < to ==> !((#[trigger] fields[i]).value is Attribute)
}

/// Whether the fields named `key` are child elements that follow one
/// another with no other field between them. No field of that name at all
/// is such a run too.
pub open spec fn forms_run(fields: Seq<Field>, key: Seq<char>) -> bool {
    exists|from: int, to: int| is_run(fields, key, from, to)
}

/// A run holds the fields of its name, in their order.
pub proof fn lemma_run_is_named(fields: Seq<Field>, key: Seq<char>, from: int, to: int)
    requires
        is_run(fields, key, from, to),
    ensures
        named(fields, key) == fields.subrange(from, to),
    decreases fields.len(),
{
    let is_named = has_name(key);
    if fields.len() == 0 {
        assert(fields.filter(is_named).len() <= fields.len()) by {
            fields.lemma_filter_len(is_named);
        }
        assert(named(fields, key) =~= fields.subrange(from, to));
    } else {
        let front = fields.drop_last();
        let last = fields[fields.len() - 1];
        assert(fields =~= front.push(last));
        lemma_filter_push(front, last, is_named);
        assert forall|i: int| 0 <= i < front.len() implies front[i] == fields[i] by {}
        if from < to && to == fields.len() {
            assert(is_named(last));
            assert(is_run(front, key, from, to - 1));
            lemma_run_is_named(front, key, from, to - 1);
            assert(front.subrange(from, to - 1).push(last) =~= fields.subrange(from, to));
        } else if from < to {
            assert(!is_named(last));
            assert(is_run(front, key, from, to));
            lemma_run_is_named(front, key, from, to);
            assert(front.subrange(from, to) =~= fields.subrange(from, to));
        } else {
            assert(!is_named(last));
            assert(is_run(front, key, 0, 0));
            lemma_run_is_named(front, key, 0, 0);
            assert(front.subrange(0, 0) =~= fields.subrange(from, to));
        }
    }
}

/// Finds the run of the fields named `key`.
pub fn find_run(fields: &Vec<Field>, key: &str) -> (run: Option<(usize, usize)>)
    ensures
        match run {
            Some((from, to)) => is_run(fields@, key@, from as int, to as int),
            None => !forms_run(fields@, key@),
        },
{
    let wanted = key.to_owned();
    let mut from: usize = 0;
    let mut to: usize = 0;
    let mut i: usize = 0;
    while i < fields.len()
        invariant
            wanted@ == key@,
            from <= to <= i <= fields.len(),
            forall|k: int| 0 <= k < i ==> ((#[trigger] fields@[k]).name@ == key@ <==> from <= k < to),
            forall|k: int| from <= k < to ==> !((#[trigger] fields@[k]).value is Attribute),
        decreases fields.len() - i,
    {
        if fields[i].name == wanted {
            let is_attribute = match &fields[i].value {
                FieldValue::Attribute(_) => true,
                _ => false,
            };
            if is_attribute || (from < to && to < i) {
                proof {
                    assert forall|a: int, b: int| !is_run(fields@, key@, a, b) by {
                        if is_run(fields@, key@, a, b) {
                            assert(fields@[i as int].name@ == key@);
                            if !is_attribute {
                                assert(fields@[from as int].name@ == key@);
                                assert(fields@[to as int].name@ != key@);
                            }
                        }
                    }
                }
                return None;
            }
            if from == to {
                from = i;
            }
            to = i + 1;
        }
        i += 1;
    }
    Some((from, to))
}

} // verus!
