//! The in-memory key-value document: what one parsed declarative file holds.
//! Mappings keep their entry order; numbers carry their textual rendering.

use vstd::prelude::*;

verus! {

/// One key-value pair of a document mapping.
#[derive(Debug)]
pub struct DocEntry {
    pub key: String,
    pub value: DocValue,
}

/// One node of a declarative document.
#[derive(Debug)]
pub enum DocValue {
    Null,
    Bool(bool),
    /// A number, kept as the text it renders to.
    Number(String),
    Str(String),
    List(Vec<DocValue>),
    /// A mapping, in document order.
    Mapping(Vec<DocEntry>),
}

/// The value under the first entry with this key, if any.
pub open spec fn spec_doc_get(es: Seq<DocEntry>, key: Seq<char>) -> Option<DocValue>
    decreases es.len(),
{
    if es.len() == 0 {
        None
    } else if es[0].key@ == key {
        Some(es[0].value)
    } else {
        spec_doc_get(es.skip(1), key)
    }
}

/// `spec_doc_get` returns the value at the first index whose key matches.
pub proof fn lemma_doc_get_is(es: Seq<DocEntry>, key: Seq<char>, i: int)
    requires
        0 <= i < es.len(),
        es[i].key@ == key,
        forall|j: int| 0 <= j < i ==> es[j].key@ != key,
    ensures
        spec_doc_get(es, key) == Some(es[i].value),
    decreases es.len(),
{
    if i > 0 {
        assert(es.skip(1)[i - 1] == es[i]);
        assert forall|j: int| 0 <= j < i - 1 implies es.skip(1)[j].key@ != key by {
            assert(es.skip(1)[j] == es[j + 1]);
        }
        lemma_doc_get_is(es.skip(1), key, i - 1);
    }
}

/// When no key matches, `spec_doc_get` finds nothing.
pub proof fn lemma_doc_get_none(es: Seq<DocEntry>, key: Seq<char>)
    requires
        forall|j: int| 0 <= j < es.len() ==> es[j].key@ != key,
    ensures
        spec_doc_get(es, key) is None,
    decreases es.len(),
{
    if es.len() > 0 {
        assert forall|j: int| 0 <= j < es.skip(1).len() implies es.skip(1)[j].key@ != key by {
            assert(es.skip(1)[j] == es[j + 1]);
        }
        lemma_doc_get_none(es.skip(1), key);
    }
}

/// Look a key up in a mapping's entries.
pub fn doc_get<'a>(es: &'a Vec<DocEntry>, key: &str) -> (r: Option<&'a DocValue>)
    ensures
        match r {
            Some(v) => spec_doc_get(es@, key@) == Some(*v),
            None => spec_doc_get(es@, key@) is None,
        },
{
    let mut i: usize = 0;
    while i < es.len()
        invariant
            i <= es@.len(),
            forall|j: int| 0 <= j < i ==> es@[j].key@ != key@,
        decreases es@.len() - i,
    {
        if crate::str_eq(es[i].key.as_str(), key) {
            proof {
                lemma_doc_get_is(es@, key@, i as int);
            }
            return Some(&es[i].value);
        }
        i += 1;
    }
    proof {
        lemma_doc_get_none(es@, key@);
    }
    None
}

/// Remove the first entry with this key from a mapping and hand its value
/// out; the remaining entries keep their order.
pub fn take_field(es: &mut Vec<DocEntry>, key: &str) -> (r: Option<DocValue>)
    ensures
        match r {
            Some(v) => spec_doc_get(old(es)@, key@) == Some(v),
            None => spec_doc_get(old(es)@, key@) is None,
        },
{
    let mut i: usize = 0;
    while i < es.len()
        invariant
            i <= es@.len(),
            es@ == old(es)@,
            forall|j: int| 0 <= j < i ==> es@[j].key@ != key@,
        decreases es@.len() - i,
    {
        if crate::str_eq(es[i].key.as_str(), key) {
            proof {
                lemma_doc_get_is(es@, key@, i as int);
            }
            let e = es.remove(i);
            return Some(e.value);
        }
        i += 1;
    }
    proof {
        lemma_doc_get_none(es@, key@);
    }
    None
}

// ---------------------------------------------------------------------------
// A structural size, for termination of document traversals.
// ---------------------------------------------------------------------------

pub open spec fn value_size(v: DocValue) -> nat
    decreases v, 0int,
{
    match v {
        DocValue::Mapping(es) => 1 + entries_size(es@),
        DocValue::List(vs) => 1 + list_size(vs@),
        _ => 1,
    }
}

pub open spec fn entries_size(es: Seq<DocEntry>) -> nat
    decreases es, 1int,
{
    if es.len() == 0 {
        0
    } else {
        1 + value_size(es[0].value) + entries_size(es.skip(1))
    }
}

pub open spec fn list_size(vs: Seq<DocValue>) -> nat
    decreases vs, 1int,
{
    if vs.len() == 0 {
        0
    } else {
        1 + value_size(vs[0]) + list_size(vs.skip(1))
    }
}

/// Every entry's value is smaller than the whole mapping.
pub proof fn lemma_entry_value_size(es: Seq<DocEntry>, i: int)
    requires
        0 <= i < es.len(),
    ensures
        value_size(es[i].value) < entries_size(es),
    decreases es.len(),
{
    if i > 0 {
        assert(es.skip(1)[i - 1] == es[i]);
        lemma_entry_value_size(es.skip(1), i - 1);
    }
}

/// Every element is smaller than the whole list.
pub proof fn lemma_list_value_size(vs: Seq<DocValue>, i: int)
    requires
        0 <= i < vs.len(),
    ensures
        value_size(vs[i]) < list_size(vs),
    decreases vs.len(),
{
    if i > 0 {
        assert(vs.skip(1)[i - 1] == vs[i]);
        lemma_list_value_size(vs.skip(1), i - 1);
    }
}

/// Whatever a lookup finds is smaller than the mapping it came from.
pub proof fn lemma_doc_get_size(es: Seq<DocEntry>, key: Seq<char>)
    ensures
        spec_doc_get(es, key) matches Some(v) ==> value_size(v) < entries_size(es),
    decreases es.len(),
{
    if es.len() > 0 {
        if es[0].key@ == key {
            lemma_entry_value_size(es, 0);
        } else {
            lemma_doc_get_size(es.skip(1), key);
        }
    }
}

} // verus!
