use crate::state::{
    ExtraScenicData, IdToName, NameToId, ScenicAcceptedReviews, ScenicVersionRecord,
};
use vstd::prelude::*;

verus! {

/// `i` is the first position of `id` in `ids`.
pub open spec fn is_first_position<T>(ids: Seq<T>, id: T, i: int) -> bool {
    &&& 0 <= i < ids.len()
    &&& ids[i] == id
    &&& forall|j: int| 0 <= j < i ==> #[trigger] ids[j] != id
}

/// The first position of `id` in `ids`, if it occurs.
pub open spec fn first_position<T>(ids: Seq<T>, id: T) -> Option<int> {
    if exists|i: int| is_first_position(ids, id, i) {
        Some(choose|i: int| is_first_position(ids, id, i))
    } else {
        None
    }
}

pub proof fn lemma_first_position<T>(ids: Seq<T>, id: T, i: int)
    requires
        is_first_position(ids, id, i),
    ensures
        first_position(ids, id) == Some(i),
{
    let k = choose|k: int| is_first_position(ids, id, k);
    assert(is_first_position(ids, id, k));
    if k < i {
        assert(ids[k] != id);
    } else if i < k {
        assert(ids[i] != id);
    }
}

pub proof fn lemma_no_position<T>(ids: Seq<T>, id: T)
    requires
        forall|j: int| 0 <= j < ids.len() ==> ids[j] != id,
    ensures
        first_position(ids, id) is None,
{
    if exists|i: int| is_first_position(ids, id, i) {
        let k = choose|k: int| is_first_position(ids, id, k);
        assert(ids[k] == id);
    }
}

pub open spec fn accepted_ids(s: Seq<ScenicAcceptedReviews>) -> Seq<u64> {
    s.map_values(|e: ScenicAcceptedReviews| e.scenic_id)
}

pub open spec fn version_ids(s: Seq<ScenicVersionRecord>) -> Seq<u64> {
    s.map_values(|e: ScenicVersionRecord| e.scenic_id)
}

pub open spec fn extra_ids(s: Seq<ExtraScenicData>) -> Seq<u64> {
    s.map_values(|e: ExtraScenicData| e.id)
}

pub open spec fn id_to_name_ids(s: Seq<IdToName>) -> Seq<u64> {
    s.map_values(|e: IdToName| e.id)
}

pub open spec fn name_to_id_names(s: Seq<NameToId>) -> Seq<Seq<char>> {
    s.map_values(|e: NameToId| e.name@)
}

/// The position of the first accepted-review counter of `id`.
pub fn find_accepted(s: &Vec<ScenicAcceptedReviews>, id: u64) -> (r: Option<usize>)
    ensures
        r matches Some(i) ==> first_position(accepted_ids(s@), id) == Some(i as int),
        r is None ==> first_position(accepted_ids(s@), id) is None,
{
    let ghost ids = accepted_ids(s@);
    let mut i: usize = 0;
    while i < s.len()
        invariant
            ids == accepted_ids(s@),
            i <= s@.len(),
            forall|j: int| 0 <= j < i ==> ids[j] != id,
        decreases s@.len() - i,
    {
        if s[i].scenic_id == id {
            proof { lemma_first_position(ids, id, i as int); }
            return Some(i);
        }
        i = i + 1;
    }
    proof { lemma_no_position(ids, id); }
    None
}

/// The position of the first latest-version record of `id`.
pub fn find_version(s: &Vec<ScenicVersionRecord>, id: u64) -> (r: Option<usize>)
    ensures
        r matches Some(i) ==> first_position(version_ids(s@), id) == Some(i as int),
        r is None ==> first_position(version_ids(s@), id) is None,
{
    let ghost ids = version_ids(s@);
    let mut i: usize = 0;
    while i < s.len()
        invariant
            ids == version_ids(s@),
            i <= s@.len(),
            forall|j: int| 0 <= j < i ==> ids[j] != id,
        decreases s@.len() - i,
    {
        if s[i].scenic_id == id {
            proof { lemma_first_position(ids, id, i as int); }
            return Some(i);
        }
        i = i + 1;
    }
    proof { lemma_no_position(ids, id); }
    None
}

/// The position of the first extra data of `id`.
pub fn find_extra(s: &Vec<ExtraScenicData>, id: u64) -> (r: Option<usize>)
    ensures
        r matches Some(i) ==> first_position(extra_ids(s@), id) == Some(i as int),
        r is None ==> first_position(extra_ids(s@), id) is None,
{
    let ghost ids = extra_ids(s@);
    let mut i: usize = 0;
    while i < s.len()
        invariant
            ids == extra_ids(s@),
            i <= s@.len(),
            forall|j: int| 0 <= j < i ==> ids[j] != id,
        decreases s@.len() - i,
    {
        if s[i].id == id {
            proof { lemma_first_position(ids, id, i as int); }
            return Some(i);
        }
        i = i + 1;
    }
    proof { lemma_no_position(ids, id); }
    None
}

/// The position of the first id-to-name entry of `id`.
pub fn find_id_to_name(s: &Vec<IdToName>, id: u64) -> (r: Option<usize>)
    ensures
        r matches Some(i) ==> first_position(id_to_name_ids(s@), id) == Some(i as int),
        r is None ==> first_position(id_to_name_ids(s@), id) is None,
{
    let ghost ids = id_to_name_ids(s@);
    let mut i: usize = 0;
    while i < s.len()
        invariant
            ids == id_to_name_ids(s@),
            i <= s@.len(),
            forall|j: int| 0 <= j < i ==> ids[j] != id,
        decreases s@.len() - i,
    {
        if s[i].id == id {
            proof { lemma_first_position(ids, id, i as int); }
            return Some(i);
        }
        i = i + 1;
    }
    proof { lemma_no_position(ids, id); }
    None
}

/// Whether some name-to-id entry has this name.
pub fn name_registered(s: &Vec<NameToId>, name: &String) -> (r: bool)
    ensures
        r == name_to_id_names(s@).contains(name@),
{
    let ghost names = name_to_id_names(s@);
    let mut i: usize = 0;
    while i < s.len()
        invariant
            names == name_to_id_names(s@),
            i <= s@.len(),
            forall|j: int| 0 <= j < i ==> names[j] != name@,
        decreases s@.len() - i,
    {
        if s[i].name == *name {
            assert(names[i as int] == name@);
            return true;
        }
        i = i + 1;
    }
    proof {
        if names.contains(name@) {
            let k = choose|k: int| 0 <= k < names.len() && names[k] == name@;
            assert(names[k] != name@);
        }
    }
    false
}

} // verus!
