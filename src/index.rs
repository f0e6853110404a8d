use vstd::prelude::*;

verus! {

/// The identifiers held by a list, as character sequences.
pub open spec fn ids(v: Seq<String>) -> Seq<Seq<char>> {
    v.map_values(|s: String| s@)
}

/// `id` added at the end unless it is already there.
pub open spec fn with_id(l: Seq<Seq<char>>, id: Seq<char>) -> Seq<Seq<char>> {
    if l.contains(id) {
        l
    } else {
        l.push(id)
    }
}

/// Every occurrence of `id` taken out, the rest kept in order.
pub open spec fn without_id(l: Seq<Seq<char>>, id: Seq<char>) -> Seq<Seq<char>> {
    l.filter(|x: Seq<char>| x != id)
}

/// Appends `id` to `list` unless the list already holds it.
pub fn push_unique(list: &mut Vec<String>, id: String)
    ensures
        ids(final(list)@) == with_id(ids(old(list)@), id@),
{
    let mut i: usize = 0;
    while i < list.len()
        invariant
            i <= list.len(),
            forall|j: int| 0 <= j < i ==> list@[j]@ != id@,
        decreases list.len() - i,
    {
        if list[i] == id {
            proof {
                assert(ids(list@)[i as int] == id@);
            }
            return;
        }
        i = i + 1;
    }
    proof {
        assert(!ids(list@).contains(id@)) by {
            if ids(list@).contains(id@) {
                let j = choose|j: int| 0 <= j < ids(list@).len() && ids(list@)[j] == id@;
                assert(list@[j]@ == id@);
            }
        }
    }
    let ghost before = list@;
    list.push(id);
    proof {
        assert(ids(list@) =~= ids(before).push(id@));
    }
}

/// A copy of `list` with every occurrence of `id` taken out.
pub fn remove_id(list: &Vec<String>, id: &String) -> (r: Vec<String>)
    ensures
        ids(r@) == without_id(ids(list@), id@),
{
    let mut r: Vec<String> = Vec::new();
    let mut i: usize = 0;
    while i < list.len()
        invariant
            i <= list.len(),
            ids(r@) == without_id(ids(list@.subrange(0, i as int)), id@),
        decreases list.len() - i,
    {
        let ghost prefix = ids(list@.subrange(0, i as int));
        proof {
            assert(ids(list@.subrange(0, i as int + 1)) =~= prefix.push(list@[i as int]@));
            prefix.lemma_filter_push(list@[i as int]@, |x: Seq<char>| x != id@);
        }
        if list[i] != *id {
            let ghost rv = r@;
            r.push(list[i].clone());
            proof {
                assert(ids(r@) =~= ids(rv).push(list@[i as int]@));
            }
        }
        i = i + 1;
    }
    proof {
        assert(list@.subrange(0, list.len() as int) == list@);
    }
    r
}

} // verus!
