//! Records: elements that are bound, field by field, to typed values.

use crate::fields::{
    element_fields, find_run, forms_run, lemma_run_is_named, named, read_fields, Field,
};
use crate::xml_events::XmlToken;
use vstd::prelude::*;

verus! {

/// A value that is bound from the fields of one element.
pub trait Record: Sized + DeepView {
    /// What the fields bind to; none where a field that the record needs is
    /// missing, occurs twice or does not hold a value of its type.
    spec fn bound(fields: Seq<Field>) -> Option<Self::V>;

    /// Binds the fields.
    fn bind(fields: &Vec<Field>) -> (record: Option<Self>)
        ensures
            match record {
                Some(r) => Self::bound(fields@) == Some(r.deep_view()),
                None => Self::bound(fields@) is None,
            },
    ;
}

/// Binds the element that a field stands for.
pub open spec fn record_at<R: Record>(tokens: Seq<XmlToken>) -> spec_fn(Field) -> Option<R::V> {
    |f: Field|
        match element_fields(tokens, f.at as int) {
            Some(fields) => R::bound(fields),
            None => None,
        }
}

/// The values of `items`, where each of them holds one.
pub open spec fn all_bound<T>(items: Seq<Option<T>>) -> Option<Seq<T>> {
    if forall|i: int| 0 <= i < items.len() ==> (#[trigger] items[i]) is Some {
        Some(items.map_values(|item: Option<T>| item.unwrap()))
    } else {
        None
    }
}

/// The records of the child elements named `key`, in document order: these
/// elements have to follow one another, and each has to bind.
pub open spec fn group_records<R: Record>(
    tokens: Seq<XmlToken>,
    fields: Seq<Field>,
    key: Seq<char>,
) -> Option<Seq<R::V>> {
    if forms_run(fields, key) {
        all_bound(named(fields, key).map_values(record_at::<R>(tokens)))
    } else {
        None
    }
}

/// Reads the records of the child elements named `key`.
pub fn read_group<R: Record>(tokens: &Vec<XmlToken>, fields: &Vec<Field>, key: &str) -> (records:
    Option<Vec<R>>)
    ensures
        match records {
            Some(v) => group_records::<R>(tokens@, fields@, key@) == Some(v.deep_view()),
            None => group_records::<R>(tokens@, fields@, key@) is None,
        },
{
    match find_run(fields, key) {
        None => None,
        Some((from, to)) => {
            let ghost items = named(fields@, key@).map_values(record_at::<R>(tokens@));
            proof {
                lemma_run_is_named(fields@, key@, from as int, to as int);
            }
            let mut records: Vec<R> = Vec::new();
            let mut i: usize = from;
            while i < to
                invariant
                    from <= i <= to <= fields.len(),
                    forms_run(fields@, key@),
                    items == named(fields@, key@).map_values(record_at::<R>(tokens@)),
                    items == fields@.subrange(from as int, to as int).map_values(
                        record_at::<R>(tokens@),
                    ),
                    records.len() == i - from,
                    forall|k: int|
                        0 <= k < i - from ==> #[trigger] items[k] == Some(
                            records@[k].deep_view(),
                        ),
                decreases to - i,
            {
                let ghost item = items[i - from];
                assert(item == record_at::<R>(tokens@)(fields@[i as int]));
                match read_fields(tokens, fields[i].at) {
                    None => {
                        assert(items[i - from] is None);
                        return None;
                    },
                    Some(own) => {
                        match R::bind(&own) {
                            None => {
                                assert(items[i - from] is None);
                                return None;
                            },
                            Some(record) => {
                                records.push(record);
                            },
                        }
                    },
                }
                i += 1;
            }
            assert(all_bound(items) == Some(records.deep_view())) by {
                assert(items.map_values(|item: Option<R::V>| item.unwrap())
                    =~= records.deep_view());
            }
            Some(records)
        },
    }
}

} // verus!
