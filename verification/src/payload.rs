//! The library's model of a signal's untyped structured payload.
//!
//! A signal arrives as a member name plus a loosely-typed body: either a
//! mapping from string keys to run-time-typed values, or a fixed-arity tuple
//! of scalars. Callers translate the wire representation into [`Payload`]
//! one value at a time; every rule about which shapes are acceptable lives
//! here, in verified code.

use vstd::prelude::*;
use crate::strfmt::str_eq;

verus! {

/// One loosely-typed scalar inside a payload: the run-time types the decoder
/// distinguishes, with every other type collapsed to `Other`.
#[derive(Debug)]
pub enum Atom {
    Str(String),
    U32(u32),
    U64(u64),
    Other,
}

/// The mathematical value of an [`Atom`].
#[verifier::ext_equal]
pub enum AtomView {
    Str(Seq<char>),
    U32(u32),
    U64(u64),
    Other,
}

impl View for Atom {
    type V = AtomView;

    open spec fn view(&self) -> AtomView {
        match self {
            Atom::Str(s) => AtomView::Str(s@),
            Atom::U32(n) => AtomView::U32(*n),
            Atom::U64(n) => AtomView::U64(*n),
            Atom::Other => AtomView::Other,
        }
    }
}

/// An untyped structured payload: a keyed mapping, a fixed-arity tuple, or
/// any other shape.
#[derive(Debug)]
pub enum Payload {
    Fields(Vec<(String, Atom)>),
    Tuple(Vec<Atom>),
    Other,
}

/// The mathematical value of a [`Payload`].
#[verifier::ext_equal]
pub enum PayloadView {
    Fields(Seq<(Seq<char>, AtomView)>),
    Tuple(Seq<AtomView>),
    Other,
}

impl View for Payload {
    type V = PayloadView;

    open spec fn view(&self) -> PayloadView {
        match self {
            Payload::Fields(fields) => PayloadView::Fields(
                fields@.map_values(|f: (String, Atom)| (f.0@, f.1@)),
            ),
            Payload::Tuple(items) => PayloadView::Tuple(items@.map_values(|a: Atom| a@)),
            Payload::Other => PayloadView::Other,
        }
    }
}

/// The value under the first entry of `fields` whose key is `key`, if any.
pub open spec fn spec_lookup(fields: Seq<(Seq<char>, AtomView)>, key: Seq<char>) -> Option<
    AtomView,
>
    decreases fields.len(),
{
    if fields.len() == 0 {
        None
    } else if fields[0].0 == key {
        Some(fields[0].1)
    } else {
        spec_lookup(fields.skip(1), key)
    }
}

proof fn lemma_lookup_skip(fields: Seq<(Seq<char>, AtomView)>, key: Seq<char>, i: int)
    requires
        0 <= i <= fields.len(),
        forall|j: int| 0 <= j < i ==> #[trigger] fields[j].0 != key,
    ensures
        spec_lookup(fields, key) == spec_lookup(fields.skip(i), key),
    decreases i,
{
    if i == 0 {
        assert(fields.skip(0) =~= fields);
    } else {
        lemma_lookup_skip(fields, key, i - 1);
        assert(fields.skip(i - 1).len() > 0);
        assert(fields.skip(i - 1)[0] == fields[i - 1]);
        assert(fields[i - 1].0 != key);
        assert(spec_lookup(fields.skip(i - 1), key) == spec_lookup(
            fields.skip(i - 1).skip(1),
            key,
        ));
        assert(fields.skip(i - 1).skip(1) =~= fields.skip(i));
    }
}

/// Finds the first entry of `fields` whose key is `key`.
pub fn lookup_field<'a>(fields: &'a Vec<(String, Atom)>, key: &str) -> (r: Option<&'a Atom>)
    ensures
        match r {
            Some(a) => spec_lookup(
                fields@.map_values(|f: (String, Atom)| (f.0@, f.1@)),
                key@,
            ) == Some(a@),
            None => spec_lookup(
                fields@.map_values(|f: (String, Atom)| (f.0@, f.1@)),
                key@,
            ) is None,
        },
{
    let ghost m = fields@.map_values(|f: (String, Atom)| (f.0@, f.1@));
    let mut i: usize = 0;
    while i < fields.len()
        invariant
            i <= fields.len(),
            m == fields@.map_values(|f: (String, Atom)| (f.0@, f.1@)),
            forall|j: int| 0 <= j < i ==> #[trigger] m[j].0 != key@,
        decreases fields.len() - i,
    {
        if str_eq(fields[i].0.as_str(), key) {
            proof {
                lemma_lookup_skip(m, key@, i as int);
                assert(m.skip(i as int)[0] == m[i as int]);
            }
            return Some(&fields[i].1);
        }
        i += 1;
    }
    proof {
        lemma_lookup_skip(m, key@, fields@.len() as int);
        assert(m.skip(m.len() as int).len() == 0);
    }
    None
}

} // verus!
