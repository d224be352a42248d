use vstd::prelude::*;
use crate::model::{Metadata, AudioFile};
use crate::scanner::FileScanner;
use crate::text::{lowercase, lower_of, trim, trim_of};

verus! {

/// A text field folded for comparison: lower-cased, then trimmed; absent is empty.
pub open spec fn folded(t: Option<String>) -> Seq<char> {
    match t {
        Some(s) => trim_of(lower_of(s@)),
        None => Seq::empty(),
    }
}

/// The normalised (artist, title) pair under which a track is compared, or
/// `None` when either is empty after folding: such a track matches nothing.
pub open spec fn match_key(m: Option<Metadata>) -> Option<(Seq<char>, Seq<char>)> {
    match m {
        Some(md) => {
            let a = folded(md.artist);
            let t = folded(md.title);
            if a.len() > 0 && t.len() > 0 { Some((a, t)) } else { None }
        },
        None => None,
    }
}

/// The match keys of an inventory, entry by entry.
pub open spec fn keys_of(files: Seq<AudioFile>) -> Seq<Option<(Seq<char>, Seq<char>)>> {
    files.map_values(|f: AudioFile| match_key(f.current_metadata))
}

/// The indices in `lo..hi`, ascending, whose key is `k`.
pub open spec fn members(keys: Seq<Option<(Seq<char>, Seq<char>)>>, k: (Seq<char>, Seq<char>), lo: int, hi: int) -> Seq<usize>
    decreases hi - lo,
{
    if hi <= lo {
        Seq::empty()
    } else if keys[hi - 1] == Some(k) {
        members(keys, k, lo, hi - 1).push((hi - 1) as usize)
    } else {
        members(keys, k, lo, hi - 1)
    }
}

/// No entry before `i` has the key of entry `i`.
pub open spec fn first_with_key(keys: Seq<Option<(Seq<char>, Seq<char>)>>, i: int) -> bool {
    forall|j: int| 0 <= j < i ==> keys[j] != keys[i]
}

/// The group that entry `i` heads: itself and every later entry with its key.
pub open spec fn group_at(keys: Seq<Option<(Seq<char>, Seq<char>)>>, i: int) -> Seq<usize> {
    seq![i as usize] + members(keys, keys[i]->0, i + 1, keys.len() as int)
}

/// Whether entry `i` heads a duplicate group: it has a key, no earlier
/// entry has that key, and some later one does.
pub open spec fn heads_group(keys: Seq<Option<(Seq<char>, Seq<char>)>>, i: int) -> bool {
    keys[i] is Some && first_with_key(keys, i) && group_at(keys, i).len() > 1
}

/// The duplicate groups headed by the entries before `n`, in order of their heads.
pub open spec fn groups_upto(keys: Seq<Option<(Seq<char>, Seq<char>)>>, n: int) -> Seq<Seq<usize>>
    decreases n,
{
    if n <= 0 {
        Seq::empty()
    } else if heads_group(keys, n - 1) {
        groups_upto(keys, n - 1).push(group_at(keys, n - 1))
    } else {
        groups_upto(keys, n - 1)
    }
}

/// The duplicate groups of an inventory.
pub open spec fn duplicate_groups(files: Seq<AudioFile>) -> Seq<Seq<usize>> {
    groups_upto(keys_of(files), files.len() as int)
}

fn fold_text(t: &Option<String>) -> (r: String)
    ensures
        r@ == folded(*t),
{
    match t {
        Some(s) => {
            let lower = lowercase(s.as_str());
            trim(lower.as_str())
        },
        None => String::new(),
    }
}

fn key_for(m: &Option<Metadata>) -> (r: Option<(String, String)>)
    ensures
        match_key(*m) == match r {
            Some((a, t)) => Some((a@, t@)),
            None => None::<(Seq<char>, Seq<char>)>,
        },
{
    match m {
        Some(md) => {
            let a = fold_text(&md.artist);
            let t = fold_text(&md.title);
            if !a.as_str().is_empty() && !t.as_str().is_empty() {
                Some((a, t))
            } else {
                None
            }
        },
        None => None,
    }
}

pub open spec fn key_view(k: Option<(String, String)>) -> Option<(Seq<char>, Seq<char>)> {
    match k {
        Some((a, t)) => Some((a@, t@)),
        None => None,
    }
}

proof fn lemma_members_bounds(keys: Seq<Option<(Seq<char>, Seq<char>)>>, k: (Seq<char>, Seq<char>), lo: int, hi: int)
    requires
        0 <= lo,
        hi <= keys.len(),
        keys.len() <= usize::MAX,
    ensures
        forall|t: int| 0 <= t < members(keys, k, lo, hi).len() ==> {
            let x = #[trigger] members(keys, k, lo, hi)[t];
            lo <= x < hi && keys[x as int] == Some(k)
        },
    decreases hi - lo,
{
    if hi > lo {
        lemma_members_bounds(keys, k, lo, hi - 1);
    }
}

proof fn lemma_groups_upto(keys: Seq<Option<(Seq<char>, Seq<char>)>>, n: int, g: int, t: int)
    requires
        0 <= n <= keys.len(),
        keys.len() <= usize::MAX,
        0 <= g < groups_upto(keys, n).len(),
        0 <= t < groups_upto(keys, n)[g].len(),
    ensures
        groups_upto(keys, n)[g].len() >= 2,
        groups_upto(keys, n)[g][t] < keys.len(),
        keys[groups_upto(keys, n)[g][t] as int] is Some,
        keys[groups_upto(keys, n)[g][t] as int] == keys[groups_upto(keys, n)[g][0] as int],
    decreases n,
{
    if n > 0 {
        if heads_group(keys, n - 1) && g == groups_upto(keys, n - 1).len() {
            let i = n - 1;
            let k = keys[i]->0;
            lemma_members_bounds(keys, k, i + 1, keys.len() as int);
            let grp = group_at(keys, i);
            if t > 0 {
                assert(grp[t] == members(keys, k, i + 1, keys.len() as int)[t - 1]);
            }
        } else {
            lemma_groups_upto(keys, n - 1, g, t);
        }
    }
}

/// Every duplicate group holds two or more entries of the inventory, and all
/// of them have the same match key.
pub proof fn lemma_group_members_match(files: Seq<AudioFile>, g: int, t: int)
    requires
        files.len() <= usize::MAX,
        0 <= g < duplicate_groups(files).len(),
        0 <= t < duplicate_groups(files)[g].len(),
    ensures
        duplicate_groups(files)[g].len() >= 2,
        duplicate_groups(files)[g][t] < files.len(),
        match_key(files[duplicate_groups(files)[g][t] as int].current_metadata) is Some,
        match_key(files[duplicate_groups(files)[g][t] as int].current_metadata)
            == match_key(files[duplicate_groups(files)[g][0] as int].current_metadata),
{
    lemma_groups_upto(keys_of(files), files.len() as int, g, t);
    lemma_groups_upto(keys_of(files), files.len() as int, g, 0);
}

/// An entry with no metadata, no artist or no title is in no duplicate group.
pub proof fn lemma_untagged_never_grouped(files: Seq<AudioFile>, x: int)
    requires
        files.len() <= usize::MAX,
        0 <= x < files.len(),
        files[x].current_metadata matches Some(m) ==> (m.artist is None || m.title is None),
    ensures
        forall|g: int, t: int|
            0 <= g < duplicate_groups(files).len() && 0 <= t < duplicate_groups(files)[g].len()
            ==> #[trigger] duplicate_groups(files)[g][t] != x,
{
    assert forall|g: int, t: int|
        0 <= g < duplicate_groups(files).len() && 0 <= t < duplicate_groups(files)[g].len()
        implies #[trigger] duplicate_groups(files)[g][t] != x by {
        lemma_group_members_match(files, g, t);
    }
}

proof fn lemma_members_all(keys: Seq<Option<(Seq<char>, Seq<char>)>>, k: (Seq<char>, Seq<char>), lo: int, hi: int)
    requires
        0 <= lo <= hi <= keys.len(),
        keys.len() <= usize::MAX,
        forall|j: int| lo <= j < hi ==> keys[j] == Some(k),
    ensures
        members(keys, k, lo, hi) == Seq::new((hi - lo) as nat, |t: int| (lo + t) as usize),
    decreases hi - lo,
{
    if hi > lo {
        lemma_members_all(keys, k, lo, hi - 1);
        assert(members(keys, k, lo, hi) =~= Seq::new((hi - lo) as nat, |t: int| (lo + t) as usize));
    } else {
        assert(members(keys, k, lo, hi) =~= Seq::new((hi - lo) as nat, |t: int| (lo + t) as usize));
    }
}

proof fn lemma_only_first_heads(keys: Seq<Option<(Seq<char>, Seq<char>)>>, n: int)
    requires
        1 <= n <= keys.len(),
        keys.len() >= 2,
        keys.len() <= usize::MAX,
        keys[0] is Some,
        forall|j: int| 0 <= j < keys.len() ==> #[trigger] keys[j] == keys[0],
    ensures
        groups_upto(keys, n) == seq![group_at(keys, 0)],
    decreases n,
{
    if n == 1 {
        lemma_members_all(keys, keys[0]->0, 1, keys.len() as int);
        assert(group_at(keys, 0).len() == keys.len());
        assert(groups_upto(keys, 0) =~= Seq::<Seq<usize>>::empty());
        assert(groups_upto(keys, 1) =~= seq![group_at(keys, 0)]);
    } else {
        lemma_only_first_heads(keys, n - 1);
        assert(!first_with_key(keys, n - 1)) by {
            assert(keys[0] == keys[n - 1]);
        }
    }
}

/// When every entry of an inventory of two or more has the same match key,
/// they all form one group, in order.
pub proof fn lemma_all_matching_one_group(files: Seq<AudioFile>)
    requires
        2 <= files.len() <= usize::MAX,
        match_key(files[0].current_metadata) is Some,
        forall|j: int| 0 <= j < files.len() ==> #[trigger] match_key(files[j].current_metadata) == match_key(files[0].current_metadata),
    ensures
        duplicate_groups(files) == seq![Seq::new(files.len(), |t: int| t as usize)],
{
    let keys = keys_of(files);
    assert forall|j: int| 0 <= j < keys.len() implies #[trigger] keys[j] == keys[0] by {
        assert(keys[j] == match_key(files[j].current_metadata));
    }
    lemma_only_first_heads(keys, files.len() as int);
    lemma_members_all(keys, keys[0]->0, 1, keys.len() as int);
    assert(group_at(keys, 0) =~= Seq::new(files.len(), |t: int| t as usize));
}

impl FileScanner {
    /// Whether two tracks are duplicates: their folded artists are equal and
    /// non-empty, and so are their folded titles.
    pub fn is_duplicate(&self, meta1: &Metadata, meta2: &Metadata) -> (r: bool)
        ensures
            r == (folded(meta1.artist) == folded(meta2.artist) && folded(meta1.artist).len() > 0
                && folded(meta1.title) == folded(meta2.title) && folded(meta1.title).len() > 0),
    {
        let a1 = fold_text(&meta1.artist);
        let a2 = fold_text(&meta2.artist);
        let t1 = fold_text(&meta1.title);
        let t2 = fold_text(&meta2.title);
        a1 == a2 && !a1.as_str().is_empty() && t1 == t2 && !t1.as_str().is_empty()
    }

    /// Groups the entries of an inventory whose folded (artist, title) match.
    /// Each group lists, ascending, the first entry with a key and every later
    /// entry with the same key; groups come in order of their first entry, and
    /// only groups of two or more are returned.
    pub fn find_duplicates(&self, files: &Vec<AudioFile>) -> (r: Vec<Vec<usize>>)
        ensures
            r@.len() == duplicate_groups(files@).len(),
            forall|g: int| 0 <= g < r@.len() ==> (#[trigger] r@[g])@ == duplicate_groups(files@)[g],
    {
        let n = files.len();
        let ghost keys = keys_of(files@);
        let mut key_list: Vec<Option<(String, String)>> = Vec::new();
        let mut visited: Vec<bool> = Vec::new();
        let mut i: usize = 0;
        while i < n
            invariant
                n == files@.len(),
                keys == keys_of(files@),
                i <= n,
                key_list@.len() == i,
                visited@.len() == i,
                forall|j: int| 0 <= j < i ==> key_view(#[trigger] key_list@[j]) == keys[j],
                forall|j: int| 0 <= j < i ==> !(#[trigger] visited@[j]),
            decreases n - i,
        {
            key_list.push(key_for(&files[i].current_metadata));
            visited.push(false);
            i = i + 1;
        }
        let mut duplicates: Vec<Vec<usize>> = Vec::new();
        let mut i: usize = 0;
        while i < n
            invariant
                n == files@.len(),
                keys == keys_of(files@),
                keys.len() == n,
                i <= n,
                key_list@.len() == n,
                visited@.len() == n,
                forall|j: int| 0 <= j < n ==> key_view(#[trigger] key_list@[j]) == keys[j],
                forall|j: int| 0 <= j < n ==> (#[trigger] visited@[j] <==> (keys[j] is Some
                    && exists|i0: int| 0 <= i0 < i && i0 < j && keys[i0] == keys[j])),
                duplicates@.len() == groups_upto(keys, i as int).len(),
                forall|g: int| 0 <= g < duplicates@.len() ==> (#[trigger] duplicates@[g])@ == groups_upto(keys, i as int)[g],
            decreases n - i,
        {
            let ghost old_visited = visited@;
            if !visited[i] && key_list[i].is_some() {
                assert(first_with_key(keys, i as int)) by {
                    assert forall|j: int| 0 <= j < i implies keys[j] != keys[i as int] by {
                        if keys[j] == keys[i as int] {
                            assert(visited@[i as int]);
                        }
                    }
                }
                let ghost k = keys[i as int]->0;
                let mut group: Vec<usize> = Vec::new();
                group.push(i);
                let mut j: usize = i + 1;
                while j < n
                    invariant
                        n == files@.len(),
                        keys.len() == n,
                        i < n,
                        i + 1 <= j <= n,
                        keys[i as int] == Some(k),
                        first_with_key(keys, i as int),
                        key_list@.len() == n,
                        visited@.len() == n,
                        forall|x: int| 0 <= x < n ==> key_view(#[trigger] key_list@[x]) == keys[x],
                        forall|x: int| 0 <= x < n ==> (#[trigger] old_visited[x] <==> (keys[x] is Some
                            && exists|i0: int| 0 <= i0 < i && i0 < x && keys[i0] == keys[x])),
                        forall|x: int| 0 <= x < n ==> (#[trigger] visited@[x] <==> (old_visited[x]
                            || (i < x < j && keys[x] == Some(k)))),
                        group@ == seq![i] + members(keys, k, i + 1, j as int),
                    decreases n - j,
                {
                    let hit = match (&key_list[i], &key_list[j]) {
                        (Some((a1, t1)), Some((a2, t2))) => *a1 == *a2 && *t1 == *t2,
                        _ => false,
                    };
                    if !visited[j] && hit {
                        group.push(j);
                        visited.set(j, true);
                    } else if hit {
                        assert(old_visited[j as int]);
                        let ghost i0 = choose|i0: int| 0 <= i0 < i && i0 < j && keys[i0] == keys[j as int];
                        assert(keys[i0] == keys[i as int]);
                    }
                    assert(group@ =~= seq![i] + members(keys, k, i + 1, j + 1));
                    j = j + 1;
                }
                assert(group@ == group_at(keys, i as int));
                if group.len() > 1 {
                    duplicates.push(group);
                }
                assert forall|x: int| 0 <= x < n implies (#[trigger] visited@[x] <==> (keys[x] is Some
                    && exists|i0: int| 0 <= i0 < i + 1 && i0 < x && keys[i0] == keys[x])) by {
                    if visited@[x] && !old_visited[x] {
                        assert(keys[i as int] == keys[x]);
                    }
                    if !visited@[x] && keys[x] is Some {
                        if exists|i0: int| 0 <= i0 < i + 1 && i0 < x && keys[i0] == keys[x] {
                            let i0 = choose|i0: int| 0 <= i0 < i + 1 && i0 < x && keys[i0] == keys[x];
                            if i0 == i {
                                assert(keys[x] == Some(k));
                            }
                        }
                    }
                }
            } else {
                if visited[i] {
                    assert(!heads_group(keys, i as int)) by {
                        let i0 = choose|i0: int| 0 <= i0 < i && i0 < i && keys[i0] == keys[i as int];
                        assert(keys[i0] == keys[i as int]);
                    }
                }
                assert forall|x: int| 0 <= x < n implies (#[trigger] visited@[x] <==> (keys[x] is Some
                    && exists|i0: int| 0 <= i0 < i + 1 && i0 < x && keys[i0] == keys[x])) by {
                    if keys[x] is Some && keys[i as int] == keys[x] && i < x {
                        if visited@[i as int] {
                            let i0 = choose|i0: int| 0 <= i0 < i && i0 < i && keys[i0] == keys[i as int];
                            assert(0 <= i0 < i && i0 < x && keys[i0] == keys[x]);
                        }
                    }
                }
            }
            i = i + 1;
        }
        duplicates
    }
}

} // verus!
