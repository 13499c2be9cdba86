//! Finding values by their identifiers.

use crate::text::{opt_clone, str_eq};
use vstd::prelude::*;

verus! {

/// A value that is found in a list by its identifier.
pub trait HasId: DeepView {
    /// The identifier of a value.
    spec fn view_id(v: Self::V) -> Seq<char>;

    /// The identifier of this value.
    fn id_str(&self) -> (r: &str)
        ensures
            r@ == Self::view_id(self.deep_view()),
    ;
}

/// The first of `items` that goes by `id`.
pub open spec fn first_with_id<T: HasId>(items: Seq<T::V>, id: Seq<char>) -> Option<T::V>
    decreases items.len(),
{
    if items.len() == 0 {
        None
    } else if T::view_id(items[0]) == id {
        Some(items[0])
    } else {
        first_with_id::<T>(items.drop_first(), id)
    }
}

/// The place of the first of `items` that goes by `id`; their number where none does.
pub open spec fn place_of<T: HasId>(items: Seq<T::V>, id: Seq<char>) -> int
    decreases items.len(),
{
    if items.len() == 0 {
        0
    } else if T::view_id(items[0]) == id {
        0
    } else {
        1 + place_of::<T>(items.drop_first(), id)
    }
}

/// Some of `items` goes by `id`.
pub open spec fn has_id<T: HasId>(items: Seq<T::V>, id: Seq<char>) -> bool {
    first_with_id::<T>(items, id) is Some
}

/// What is found by an identifier goes by it and stands in the list.
pub proof fn lemma_first_with_id<T: HasId>(items: Seq<T::V>, id: Seq<char>)
    ensures
        match first_with_id::<T>(items, id) {
            Some(item) => T::view_id(item) == id && items.contains(item),
            None => forall|i: int| 0 <= i < items.len() ==> T::view_id(#[trigger] items[i]) != id,
        },
    decreases items.len(),
{
    if items.len() > 0 && T::view_id(items[0]) != id {
        let rest = items.drop_first();
        lemma_first_with_id::<T>(rest, id);
        match first_with_id::<T>(rest, id) {
            Some(item) => {
                let i = choose|i: int| 0 <= i < rest.len() && rest[i] == item;
                assert(items[i + 1] == item);
            },
            None => {
                assert forall|i: int| 0 <= i < items.len() implies T::view_id(#[trigger] items[i])
                    != id by {
                    if i > 0 {
                        assert(rest[i - 1] == items[i]);
                    }
                }
            },
        }
    }
}

/// A member of a list is found by its identifier, or one before it is.
pub proof fn lemma_member_has_id<T: HasId>(items: Seq<T::V>, item: T::V)
    requires
        items.contains(item),
    ensures
        has_id::<T>(items, T::view_id(item)),
{
    lemma_first_with_id::<T>(items, T::view_id(item));
}

/// The place of the first of `items` that goes by `id`.
pub fn position_by_id<T: HasId>(items: &Vec<T>, id: &str) -> (r: Option<usize>)
    ensures
        match r {
            Some(i) => i < items@.len() && i == place_of::<T>(items.deep_view(), id@)
                && first_with_id::<T>(items.deep_view(), id@) == Some(
                items@[i as int].deep_view(),
            ),
            None => first_with_id::<T>(items.deep_view(), id@) is None,
        },
{
    let mut i: usize = 0;
    let ghost all = items.deep_view();
    assert(all.skip(0) =~= all);
    while i < items.len()
        invariant
            i <= items@.len(),
            all == items.deep_view(),
            first_with_id::<T>(all, id@) == first_with_id::<T>(all.skip(i as int), id@),
            place_of::<T>(all, id@) == i + place_of::<T>(all.skip(i as int), id@),
        decreases items@.len() - i,
    {
        if str_eq(items[i].id_str(), id) {
            return Some(i);
        }
        assert(all.skip(i as int).drop_first() =~= all.skip(i + 1));
        i = i + 1;
    }
    None
}

/// The first of `items` that goes by `id`.
pub fn find_by_id<'a, T: HasId>(items: &'a Vec<T>, id: &str) -> (r: Option<&'a T>)
    ensures
        match r {
            Some(item) => first_with_id::<T>(items.deep_view(), id@) == Some(item.deep_view()),
            None => first_with_id::<T>(items.deep_view(), id@) is None,
        },
{
    match position_by_id(items, id) {
        Some(i) => Some(&items[i]),
        None => None,
    }
}

/// The value of what `id` points at, where it points at anything.
pub open spec fn selected_of<T: HasId>(items: Seq<T::V>, id: Option<Seq<char>>) -> Option<T::V> {
    match id {
        Some(id) => first_with_id::<T>(items, id),
        None => None,
    }
}

/// The first of `items` that goes by `id`, where there is such an identifier.
pub fn find_selected<'a, T: HasId>(items: &'a Vec<T>, id: &Option<String>) -> (r: Option<&'a T>)
    ensures
        match r {
            Some(item) => selected_of::<T>(items.deep_view(), id.deep_view()) == Some(
                item.deep_view(),
            ),
            None => selected_of::<T>(items.deep_view(), id.deep_view()) is None,
        },
{
    match id {
        Some(id) => find_by_id(items, id.as_str()),
        None => None,
    }
}

/// The identifier of the first of `items`.
pub open spec fn first_id<T: HasId>(items: Seq<T::V>) -> Option<Seq<char>> {
    if items.len() == 0 {
        None
    } else {
        Some(T::view_id(items[0]))
    }
}

/// The identifier of the first of `items`.
pub fn id_of_first<T: HasId>(items: &Vec<T>) -> (r: Option<String>)
    ensures
        r.deep_view() == first_id::<T>(items.deep_view()),
{
    if items.len() == 0 {
        None
    } else {
        let id = items[0].id_str();
        Some(id.to_owned())
    }
}

/// A chosen identifier kept where it names one of `items`, else that of the first of them.
pub open spec fn kept_or_first<T: HasId>(items: Seq<T::V>, id: Option<Seq<char>>) -> Option<
    Seq<char>,
> {
    if selected_of::<T>(items, id) is Some {
        id
    } else {
        first_id::<T>(items)
    }
}

/// A chosen identifier kept where it names one of `items`, else that of the first of them.
pub fn keep_or_first<T: HasId>(items: &Vec<T>, id: &Option<String>) -> (r: Option<String>)
    ensures
        r.deep_view() == kept_or_first::<T>(items.deep_view(), id.deep_view()),
{
    match find_selected(items, id) {
        Some(_) => opt_clone(id),
        None => id_of_first(items),
    }
}

/// What is kept or fallen back on names one of `items`; nothing is chosen only where there is
/// nothing to choose.
pub proof fn lemma_kept_or_first_valid<T: HasId>(items: Seq<T::V>, id: Option<Seq<char>>)
    ensures
        items.len() > 0 ==> selected_of::<T>(items, kept_or_first::<T>(items, id)) is Some,
        items.len() == 0 ==> kept_or_first::<T>(items, id) is None,
{
    if items.len() > 0 {
        lemma_member_has_id::<T>(items, items[0]);
    } else {
        if let Some(id) = id {
            lemma_first_with_id::<T>(items, id);
        }
    }
}

/// Of several that go by an identifier the one that stands first is found, at its place; where none
/// goes by it, none is found.
pub proof fn lemma_first_is_found<T: HasId>(items: Seq<T::V>, id: Seq<char>, k: int)
    requires
        0 <= k <= items.len(),
        forall|j: int| 0 <= j < k ==> T::view_id(#[trigger] items[j]) != id,
        k < items.len() ==> T::view_id(items[k]) == id,
    ensures
        k < items.len() ==> first_with_id::<T>(items, id) == Some(items[k]),
        k == items.len() ==> first_with_id::<T>(items, id) is None,
        place_of::<T>(items, id) == k,
    decreases items.len(),
{
    if k > 0 {
        let rest = items.drop_first();
        assert(T::view_id(items[0]) != id);
        assert forall|j: int| 0 <= j < k - 1 implies T::view_id(#[trigger] rest[j]) != id by {
            assert(rest[j] == items[j + 1]);
        }
        lemma_first_is_found::<T>(rest, id, k - 1);
    }
}

/// A choice that names one of the items is kept. Any other gives way to the first of them, and to
/// nothing where there are none.
pub proof fn lemma_choice_is_kept_or_first<T: HasId>(items: Seq<T::V>, id: Option<Seq<char>>)
    ensures
        (exists|i: int| 0 <= i < items.len() && id == Some(T::view_id(#[trigger] items[i])))
            ==> kept_or_first::<T>(items, id) == id,
        !(exists|i: int| 0 <= i < items.len() && id == Some(T::view_id(#[trigger] items[i]))) ==> (
        if items.len() > 0 {
            kept_or_first::<T>(items, id) == Some(T::view_id(items[0]))
        } else {
            kept_or_first::<T>(items, id) is None
        }),
{
    if let Some(wanted) = id {
        lemma_first_with_id::<T>(items, wanted);
        if first_with_id::<T>(items, wanted) is Some {
            let item = first_with_id::<T>(items, wanted).unwrap();
            let i = choose|i: int| 0 <= i < items.len() && items[i] == item;
            assert(id == Some(T::view_id(items[i])));
        }
    }
}

/// What a choice points at is the first of the items that goes by it, and stands among them.
pub proof fn lemma_selected_is_first<T: HasId>(items: Seq<T::V>, id: Option<Seq<char>>) -> (k: int)
    ensures
        0 <= k <= items.len(),
        forall|j: int| 0 <= j < k ==> id != Some(T::view_id(#[trigger] items[j])),
        k < items.len() ==> id == Some(T::view_id(items[k])) && selected_of::<T>(items, id) == Some(
            items[k],
        ),
        k == items.len() ==> selected_of::<T>(items, id) is None,
{
    match id {
        Some(wanted) => lemma_found_place::<T>(items, wanted),
        None => items.len() as int,
    }
}

proof fn lemma_found_place<T: HasId>(items: Seq<T::V>, id: Seq<char>) -> (k: int)
    ensures
        0 <= k <= items.len(),
        forall|j: int| 0 <= j < k ==> T::view_id(#[trigger] items[j]) != id,
        k < items.len() ==> T::view_id(items[k]) == id && first_with_id::<T>(items, id) == Some(
            items[k],
        ),
        k == items.len() ==> first_with_id::<T>(items, id) is None,
    decreases items.len(),
{
    if items.len() == 0 || T::view_id(items[0]) == id {
        0
    } else {
        let rest = items.drop_first();
        let k = lemma_found_place::<T>(rest, id);
        assert forall|j: int| 0 <= j < k + 1 implies T::view_id(#[trigger] items[j]) != id by {
            if j > 0 {
                assert(rest[j - 1] == items[j]);
            }
        }
        k + 1
    }
}

/// Whether `items` holds `text`.
pub fn contains_string(items: &Vec<String>, text: &str) -> (r: bool)
    ensures
        r == items.deep_view().contains(text@),
{
    let mut i: usize = 0;
    while i < items.len()
        invariant
            i <= items@.len(),
            forall|j: int| 0 <= j < i ==> items.deep_view()[j] != text@,
        decreases items@.len() - i,
    {
        if str_eq(items[i].as_str(), text) {
            assert(items.deep_view()[i as int] == text@);
            return true;
        }
        i = i + 1;
    }
    false
}

} // verus!
