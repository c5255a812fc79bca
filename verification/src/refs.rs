//! Reference data: lookup tables of identifier and display name.
//!
//! Tags, correspondents, document types and custom-field definitions all
//! take this shape; they are loaded once per run and then only read.

use vstd::prelude::*;

use crate::text::dec_str;
use crate::text::u32_to_string;

verus! {

/// One entry of a reference table: an identifier and its display name.
pub struct RefEntity {
    pub id: u32,
    pub name: String,
}

/// The display name of the first entity with identifier `id`, if any.
pub open spec fn spec_name_of_id(entities: Seq<RefEntity>, id: u32) -> Option<Seq<char>>
    decreases entities.len(),
{
    if entities.len() == 0 {
        None
    } else if entities[0].id == id {
        Some(entities[0].name@)
    } else {
        spec_name_of_id(entities.drop_first(), id)
    }
}

/// The identifier of the first entity with display name `name`, if any.
pub open spec fn spec_id_of_name(entities: Seq<RefEntity>, name: Seq<char>) -> Option<u32>
    decreases entities.len(),
{
    if entities.len() == 0 {
        None
    } else if entities[0].name@ == name {
        Some(entities[0].id)
    } else {
        spec_id_of_name(entities.drop_first(), name)
    }
}

proof fn lemma_name_of_id_skip(entities: Seq<RefEntity>, id: u32, i: int)
    requires
        0 <= i <= entities.len(),
        forall|k: int| 0 <= k < i ==> entities[k].id != id,
    ensures
        spec_name_of_id(entities, id) == spec_name_of_id(entities.subrange(i, entities.len() as int), id),
    decreases i,
{
    if i > 0 {
        assert(entities.drop_first() =~= entities.subrange(1, entities.len() as int));
        assert forall|k: int| 0 <= k < i - 1 implies entities.drop_first()[k].id != id by {
            assert(entities.drop_first()[k] == entities[k + 1]);
        }
        lemma_name_of_id_skip(entities.drop_first(), id, i - 1);
        assert(entities.drop_first().subrange(i - 1, entities.drop_first().len() as int)
            =~= entities.subrange(i, entities.len() as int));
    } else {
        assert(entities.subrange(0, entities.len() as int) =~= entities);
    }
}

proof fn lemma_id_of_name_skip(entities: Seq<RefEntity>, name: Seq<char>, i: int)
    requires
        0 <= i <= entities.len(),
        forall|k: int| 0 <= k < i ==> entities[k].name@ != name,
    ensures
        spec_id_of_name(entities, name) == spec_id_of_name(
            entities.subrange(i, entities.len() as int),
            name,
        ),
    decreases i,
{
    if i > 0 {
        assert(entities.drop_first() =~= entities.subrange(1, entities.len() as int));
        assert forall|k: int| 0 <= k < i - 1 implies entities.drop_first()[k].name@ != name by {
            assert(entities.drop_first()[k] == entities[k + 1]);
        }
        lemma_id_of_name_skip(entities.drop_first(), name, i - 1);
        assert(entities.drop_first().subrange(i - 1, entities.drop_first().len() as int)
            =~= entities.subrange(i, entities.len() as int));
    } else {
        assert(entities.subrange(0, entities.len() as int) =~= entities);
    }
}

/// Find the display name recorded for `id`, taking the first match.
pub fn find_name_by_id(entities: &Vec<RefEntity>, id: u32) -> (r: Option<String>)
    ensures
        match r {
            Some(name) => spec_name_of_id(entities@, id) == Some(name@),
            None => spec_name_of_id(entities@, id) is None,
        },
{
    let n = entities.len();
    let mut i: usize = 0;
    while i < n
        invariant
            0 <= i <= n == entities@.len(),
            forall|k: int| 0 <= k < i ==> entities@[k].id != id,
        decreases n - i,
    {
        if entities[i].id == id {
            proof {
                lemma_name_of_id_skip(entities@, id, i as int);
                assert(entities@.subrange(i as int, n as int)[0] == entities@[i as int]);
            }
            return Some(entities[i].name.clone());
        }
        i = i + 1;
    }
    proof {
        lemma_name_of_id_skip(entities@, id, n as int);
    }
    None
}

/// Find the identifier recorded for an exact display name, taking the first match.
pub fn find_id_by_name(entities: &Vec<RefEntity>, name: &str) -> (r: Option<u32>)
    ensures
        r == spec_id_of_name(entities@, name@),
{
    let n = entities.len();
    let needle = name.to_owned();
    let mut i: usize = 0;
    while i < n
        invariant
            0 <= i <= n == entities@.len(),
            needle@ == name@,
            forall|k: int| 0 <= k < i ==> entities@[k].name@ != name@,
        decreases n - i,
    {
        if entities[i].name == needle {
            proof {
                lemma_id_of_name_skip(entities@, name@, i as int);
                assert(entities@.subrange(i as int, n as int)[0] == entities@[i as int]);
            }
            return Some(entities[i].id);
        }
        i = i + 1;
    }
    proof {
        lemma_id_of_name_skip(entities@, name@, n as int);
    }
    None
}

/// The name resolved for an optional entity reference: the looked-up name,
/// a placeholder naming the unknown identifier, or empty when there is no
/// reference at all.
pub open spec fn spec_resolved_name(reference: Option<u32>, entities: Seq<RefEntity>) -> Seq<char> {
    match reference {
        Option::None => Seq::empty(),
        Option::Some(id) => match spec_name_of_id(entities, id) {
            Option::Some(name) => name,
            Option::None => "Unknown (ID: "@ + dec_str(id as nat) + ")"@,
        },
    }
}

/// Resolve an optional entity reference to a display name, with the
/// "Unknown (ID: ...)" placeholder for identifiers missing from the table.
pub fn resolve_name(reference: Option<u32>, entities: &Vec<RefEntity>) -> (r: String)
    ensures
        r@ == spec_resolved_name(reference, entities@),
{
    match reference {
        Option::None => String::new(),
        Option::Some(id) => match find_name_by_id(entities, id) {
            Option::Some(name) => name,
            Option::None => {
                let mut s = "Unknown (ID: ".to_owned();
                s.append(u32_to_string(id).as_str());
                s.append(")");
                s
            },
        },
    }
}

} // verus!
