use vstd::prelude::*;

verus! {

/// The list without any occurrence of `id`, the rest in its old order.
pub open spec fn without(list: Seq<Seq<char>>, id: Seq<char>) -> Seq<Seq<char>> {
    list.filter(|t: Seq<char>| t != id)
}

/// What is in a list without `id` is what was in the list, but for `id`;
/// and a list that named nothing twice still names nothing twice.
pub proof fn lemma_without(list: Seq<Seq<char>>, id: Seq<char>)
    ensures
        forall|t: Seq<char>| #[trigger]
            without(list, id).contains(t) <==> list.contains(t) && t != id,
        list.no_duplicates() ==> without(list, id).no_duplicates(),
        without(list, id).len() <= list.len(),
        !list.contains(id) ==> without(list, id) == list,
    decreases list.len(),
{
    reveal(Seq::filter);
    let keep = |t: Seq<char>| t != id;
    if list.len() > 0 {
        let front = list.drop_last();
        let last = list.last();
        lemma_without(front, id);
        assert forall|t: Seq<char>| #[trigger]
            without(list, id).contains(t) <==> list.contains(t) && t != id by {
            if without(list, id).contains(t) {
                let i = choose|i: int|
                    0 <= i < without(list, id).len() && without(list, id)[i] == t;
                if i < without(front, id).len() {
                    assert(without(front, id)[i] == t);
                    assert(without(front, id).contains(t));
                    let j = choose|j: int| 0 <= j < front.len() && front[j] == t;
                    assert(list[j] == t);
                } else {
                    assert(list[list.len() - 1] == t);
                }
            }
            if list.contains(t) && t != id {
                let j = choose|j: int| 0 <= j < list.len() && list[j] == t;
                if j < front.len() {
                    assert(front[j] == t);
                    assert(front.contains(t));
                    assert(without(front, id).contains(t));
                    let i = choose|i: int|
                        0 <= i < without(front, id).len() && without(front, id)[i] == t;
                    assert(without(list, id)[i] == t);
                } else {
                    assert(without(list, id)[without(list, id).len() - 1] == t);
                }
            }
        }
        if list.no_duplicates() {
            assert(front.no_duplicates());
            if keep(last) {
                assert(!front.contains(last)) by {
                    if front.contains(last) {
                        let j = choose|j: int| 0 <= j < front.len() && front[j] == last;
                        assert(list[j] == list[list.len() - 1]);
                    }
                }
                assert(!without(front, id).contains(last));
            }
        }
        if !list.contains(id) {
            assert(!front.contains(id)) by {
                if front.contains(id) {
                    let j = choose|j: int| 0 <= j < front.len() && front[j] == id;
                    assert(list[j] == id);
                }
            }
            assert(list[list.len() - 1] != id);
            assert(without(list, id) =~= list);
        }
    }
}

/// A copy of a list of transfer ids.
pub fn copy_ids(list: &Vec<String>) -> (copy: Vec<String>)
    ensures
        copy.deep_view() == list.deep_view(),
{
    let mut copy: Vec<String> = Vec::new();
    let mut i: usize = 0;
    while i < list.len()
        invariant
            i <= list@.len(),
            copy@.len() == i,
            forall|j: int| 0 <= j < i ==> copy@[j]@ == list@[j]@,
        decreases list@.len() - i,
    {
        copy.push(list[i].clone());
        i = i + 1;
    }
    assert(copy.deep_view() =~= list.deep_view());
    copy
}

/// The list of an identity's pending transfers with `id` appended.
pub fn append_id(list: &Vec<String>, id: String) -> (longer: Vec<String>)
    ensures
        longer.deep_view() == list.deep_view().push(id@),
{
    let mut longer = copy_ids(list);
    longer.push(id);
    assert(longer.deep_view() =~= list.deep_view().push(id@));
    longer
}

/// The list of an identity's pending transfers rebuilt without `id`.
pub fn remove_id(list: &Vec<String>, id: &String) -> (rest: Vec<String>)
    ensures
        rest.deep_view() == without(list.deep_view(), id@),
{
    let ghost all = list.deep_view();
    let mut rest: Vec<String> = Vec::new();
    let mut i: usize = 0;
    assert(rest.deep_view() =~= without(all.take(0), id@)) by {
        reveal(Seq::filter);
    }
    while i < list.len()
        invariant
            i <= list@.len(),
            all == list.deep_view(),
            rest.deep_view() == without(all.take(i as int), id@),
        decreases list@.len() - i,
    {
        let ghost before = rest.deep_view();
        proof {
            reveal(Seq::filter);
            assert(all.take(i + 1).drop_last() =~= all.take(i as int));
            assert(all.take(i + 1).last() == list@[i as int]@);
        }
        if list[i] != *id {
            rest.push(list[i].clone());
            assert(rest.deep_view() =~= before.push(list@[i as int]@));
        }
        i = i + 1;
    }
    assert(all.take(i as int) =~= all);
    rest
}

} // verus!
