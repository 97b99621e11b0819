use crate::money::Gold;
use vstd::prelude::*;

verus! {

/// Identifier of a good, unique across the process. Identifier generation is
/// injected by the caller (for example a counter owned by the driver), so the
/// library itself holds no hidden global state.
#[derive(Debug, Clone, Copy, PartialEq, Eq, Hash, Structural)]
pub struct ItemId(pub u64);

impl ItemId {
    pub fn new(value: u64) -> (id: ItemId)
        ensures
            id.0 == value,
    {
        ItemId(value)
    }
}

/// A unique, non-divisible good: created once, immutable thereafter, and
/// owned by exactly one inventory at a time.
#[derive(Debug)]
pub struct Item {
    pub id: ItemId,
    pub name: String,
    pub price: Gold,
}

impl Item {
    pub fn new(id: ItemId, name: &str, price: Gold) -> (item: Item)
        ensures
            item.id == id,
            item.name@ == name@,
            item.price == price,
    {
        Item { id, name: name.to_owned(), price }
    }

    /// A copy equal to this item.
    pub fn duplicate(&self) -> (r: Item)
        ensures
            r == *self,
    {
        Item { id: self.id, name: self.name.clone(), price: self.price }
    }
}

/// An inventory is well formed when no identifier occurs twice.
pub open spec fn unique_ids(s: Seq<Item>) -> bool {
    forall|i: int, j: int| 0 <= i < j < s.len() ==> s[i].id != s[j].id
}

/// The first item in `s` carrying `id`, if any.
pub open spec fn find_item(s: Seq<Item>, id: ItemId) -> Option<Item>
    decreases s.len(),
{
    if s.len() == 0 {
        None
    } else if s[0].id == id {
        Some(s[0])
    } else {
        find_item(s.drop_first(), id)
    }
}

/// `s` without the first item carrying `id`; `s` itself when none does.
pub open spec fn remove_id(s: Seq<Item>, id: ItemId) -> Seq<Item>
    decreases s.len(),
{
    if s.len() == 0 {
        s
    } else if s[0].id == id {
        s.drop_first()
    } else {
        seq![s[0]] + remove_id(s.drop_first(), id)
    }
}

/// `s` with `item` replacing the first entry of the same identifier, or
/// appended when no entry carries it.
pub open spec fn upsert(s: Seq<Item>, item: Item) -> Seq<Item>
    decreases s.len(),
{
    if s.len() == 0 {
        seq![item]
    } else if s[0].id == item.id {
        seq![item] + s.drop_first()
    } else {
        seq![s[0]] + upsert(s.drop_first(), item)
    }
}

/// When `id` first occurs at position `i`, `find_item` returns that entry.
pub proof fn lemma_find_item_at(s: Seq<Item>, id: ItemId, i: int)
    requires
        0 <= i < s.len(),
        s[i].id == id,
        forall|j: int| 0 <= j < i ==> s[j].id != id,
    ensures
        find_item(s, id) == Some(s[i]),
    decreases s.len(),
{
    if i > 0 {
        assert forall|j: int| 0 <= j < i - 1 implies s.drop_first()[j].id != id by {
            assert(s.drop_first()[j] == s[j + 1]);
        }
        assert(s.drop_first()[i - 1] == s[i]);
        lemma_find_item_at(s.drop_first(), id, i - 1);
    }
}

/// When no entry carries `id`, `find_item` returns nothing.
pub proof fn lemma_find_item_none(s: Seq<Item>, id: ItemId)
    requires
        forall|j: int| 0 <= j < s.len() ==> s[j].id != id,
    ensures
        find_item(s, id) is None,
    decreases s.len(),
{
    if s.len() > 0 {
        assert forall|j: int| 0 <= j < s.drop_first().len() implies s.drop_first()[j].id != id by {
            assert(s.drop_first()[j] == s[j + 1]);
        }
        lemma_find_item_none(s.drop_first(), id);
    }
}

/// When `find_item` finds an entry, there is a first position carrying `id`.
pub proof fn lemma_find_item_index(s: Seq<Item>, id: ItemId) -> (i: int)
    requires
        find_item(s, id) is Some,
    ensures
        0 <= i < s.len(),
        s[i].id == id,
        forall|j: int| 0 <= j < i ==> s[j].id != id,
        find_item(s, id) == Some(s[i]),
    decreases s.len(),
{
    if s[0].id == id {
        0
    } else {
        let i0 = lemma_find_item_index(s.drop_first(), id);
        assert(s.drop_first()[i0] == s[i0 + 1]);
        assert forall|j: int| 0 <= j < i0 + 1 implies s[j].id != id by {
            if j > 0 {
                assert(s.drop_first()[j - 1] == s[j]);
            }
        }
        i0 + 1
    }
}

/// When `id` first occurs at position `i`, `remove_id` removes exactly that
/// position.
pub proof fn lemma_remove_id_at(s: Seq<Item>, id: ItemId, i: int)
    requires
        0 <= i < s.len(),
        s[i].id == id,
        forall|j: int| 0 <= j < i ==> s[j].id != id,
    ensures
        remove_id(s, id) == s.remove(i),
    decreases s.len(),
{
    if i == 0 {
        assert(s.drop_first() =~= s.remove(0));
    } else {
        assert forall|j: int| 0 <= j < i - 1 implies s.drop_first()[j].id != id by {
            assert(s.drop_first()[j] == s[j + 1]);
        }
        assert(s.drop_first()[i - 1] == s[i]);
        lemma_remove_id_at(s.drop_first(), id, i - 1);
        assert(seq![s[0]] + s.drop_first().remove(i - 1) =~= s.remove(i));
    }
}

/// When `item.id` first occurs at position `i`, `upsert` updates exactly that
/// position.
pub proof fn lemma_upsert_at(s: Seq<Item>, item: Item, i: int)
    requires
        0 <= i < s.len(),
        s[i].id == item.id,
        forall|j: int| 0 <= j < i ==> s[j].id != item.id,
    ensures
        upsert(s, item) == s.update(i, item),
    decreases s.len(),
{
    if i == 0 {
        assert(seq![item] + s.drop_first() =~= s.update(0, item));
    } else {
        assert forall|j: int| 0 <= j < i - 1 implies s.drop_first()[j].id != item.id by {
            assert(s.drop_first()[j] == s[j + 1]);
        }
        assert(s.drop_first()[i - 1] == s[i]);
        lemma_upsert_at(s.drop_first(), item, i - 1);
        assert(seq![s[0]] + s.drop_first().update(i - 1, item) =~= s.update(i, item));
    }
}

/// When no entry carries `item.id`, `upsert` appends `item`.
pub proof fn lemma_upsert_absent(s: Seq<Item>, item: Item)
    requires
        forall|j: int| 0 <= j < s.len() ==> s[j].id != item.id,
    ensures
        upsert(s, item) == s.push(item),
    decreases s.len(),
{
    if s.len() == 0 {
        assert(seq![item] =~= s.push(item));
    } else {
        assert forall|j: int| 0 <= j < s.drop_first().len() implies s.drop_first()[j].id
            != item.id by {
            assert(s.drop_first()[j] == s[j + 1]);
        }
        lemma_upsert_absent(s.drop_first(), item);
        assert(seq![s[0]] + s.drop_first().push(item) =~= s.push(item));
    }
}

/// Removing a position keeps identifiers unique.
pub proof fn lemma_unique_remove(s: Seq<Item>, i: int)
    requires
        unique_ids(s),
        0 <= i < s.len(),
    ensures
        unique_ids(s.remove(i)),
{
    assert forall|k: int, l: int| 0 <= k < l < s.remove(i).len() implies s.remove(i)[k].id
        != s.remove(i)[l].id by {
        let k0 = if k < i { k } else { k + 1 };
        let l0 = if l < i { l } else { l + 1 };
        assert(s.remove(i)[k] == s[k0]);
        assert(s.remove(i)[l] == s[l0]);
    }
}

/// Replacing the entry that carries the same identifier keeps identifiers
/// unique.
pub proof fn lemma_unique_update(s: Seq<Item>, item: Item, i: int)
    requires
        unique_ids(s),
        0 <= i < s.len(),
        s[i].id == item.id,
    ensures
        unique_ids(s.update(i, item)),
{
}

/// After removing the only entry that carries `id`, no entry carries it.
pub proof fn lemma_find_after_remove(s: Seq<Item>, id: ItemId, i: int)
    requires
        unique_ids(s),
        0 <= i < s.len(),
        s[i].id == id,
    ensures
        find_item(s.remove(i), id) is None,
{
    assert forall|j: int| 0 <= j < s.remove(i).len() implies s.remove(i)[j].id != id by {
        let j0 = if j < i { j } else { j + 1 };
        assert(s.remove(i)[j] == s[j0]);
    }
    lemma_find_item_none(s.remove(i), id);
}

/// Index of the first item in `v` carrying `id`, if any.
pub fn find_index(v: &Vec<Item>, id: ItemId) -> (r: Option<usize>)
    ensures
        match r {
            Some(i) => 0 <= i < v@.len() && v@[i as int].id == id && (forall|j: int|
                0 <= j < i ==> v@[j].id != id) && find_item(v@, id) == Some(v@[i as int]),
            None => (forall|j: int| 0 <= j < v@.len() ==> v@[j].id != id) && find_item(
                v@,
                id,
            ) is None,
        },
{
    let mut i: usize = 0;
    while i < v.len()
        invariant
            i <= v@.len(),
            forall|j: int| 0 <= j < i ==> v@[j].id != id,
        decreases v@.len() - i,
    {
        if v[i].id == id {
            proof {
                lemma_find_item_at(v@, id, i as int);
            }
            return Some(i);
        }
        i += 1;
    }
    proof {
        lemma_find_item_none(v@, id);
    }
    None
}

/// A copy of the whole inventory, equal element by element.
pub fn clone_items(v: &Vec<Item>) -> (r: Vec<Item>)
    ensures
        r@ == v@,
{
    let mut r: Vec<Item> = Vec::new();
    let mut i: usize = 0;
    while i < v.len()
        invariant
            i <= v@.len(),
            r@ == v@.subrange(0, i as int),
        decreases v@.len() - i,
    {
        r.push(v[i].duplicate());
        proof {
            assert(r@ =~= v@.subrange(0, i + 1));
        }
        i += 1;
    }
    proof {
        assert(v@.subrange(0, v@.len() as int) =~= v@);
    }
    r
}

} // verus!
