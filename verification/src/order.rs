use vstd::prelude::*;
use vstd::set_lib::{lemma_int_range, lemma_subset_equality, set_int_range};

use crate::track::{is_audio_name, joins_playlist};

verus! {

/// A name comes before another by the first byte in which they differ; the
/// start of a name comes before the whole.
pub open spec fn name_le(a: Seq<u8>, b: Seq<u8>) -> bool
    decreases a.len(),
{
    if a.len() == 0 {
        true
    } else if b.len() == 0 {
        false
    } else if a.first() != b.first() {
        a.first() < b.first()
    } else {
        name_le(a.drop_first(), b.drop_first())
    }
}

/// A path comes before another by the first name in which they differ; a
/// directory comes before what is in it.
pub open spec fn path_le(a: Seq<Seq<u8>>, b: Seq<Seq<u8>>) -> bool
    decreases a.len(),
{
    if a.len() == 0 {
        true
    } else if b.len() == 0 {
        false
    } else if a.first() != b.first() {
        name_le(a.first(), b.first())
    } else {
        path_le(a.drop_first(), b.drop_first())
    }
}

proof fn lemma_name_order(a: Seq<u8>, b: Seq<u8>, c: Seq<u8>)
    ensures
        name_le(a, a),
        name_le(a, b) || name_le(b, a),
        name_le(a, b) && name_le(b, a) ==> a == b,
        name_le(a, b) && name_le(b, c) ==> name_le(a, c),
    decreases a.len(),
{
    if a.len() == 0 {
        if b.len() == 0 {
            assert(a =~= b);
        }
    } else if b.len() > 0 {
        if c.len() > 0 {
            lemma_name_order(a.drop_first(), b.drop_first(), c.drop_first());
        } else {
            lemma_name_order(a.drop_first(), b.drop_first(), c);
        }
        if a.first() == b.first() && a.drop_first() == b.drop_first() {
            assert(a =~= seq![a.first()] + a.drop_first());
            assert(b =~= seq![b.first()] + b.drop_first());
        }
    } else {
        lemma_name_order(a.drop_first(), b, c);
    }
}

/// Paths are in a total order: any two can be compared, no two different ones
/// come before each other, and what comes before a path comes before what
/// follows it.
pub proof fn law_path_order(a: Seq<Seq<u8>>, b: Seq<Seq<u8>>, c: Seq<Seq<u8>>)
    ensures
        path_le(a, a),
        path_le(a, b) || path_le(b, a),
        path_le(a, b) && path_le(b, a) ==> a == b,
        path_le(a, b) && path_le(b, c) ==> path_le(a, c),
    decreases a.len(),
{
    if a.len() == 0 {
        if b.len() == 0 {
            assert(a =~= b);
        }
    } else if b.len() > 0 {
        lemma_name_order(a.first(), b.first(), a.first());
        if c.len() > 0 {
            lemma_name_order(a.first(), b.first(), c.first());
            lemma_name_order(b.first(), c.first(), a.first());
            lemma_name_order(c.first(), a.first(), b.first());
            law_path_order(a.drop_first(), b.drop_first(), c.drop_first());
        } else {
            law_path_order(a.drop_first(), b.drop_first(), c);
        }
        if a.first() == b.first() && a.drop_first() == b.drop_first() {
            assert(a =~= seq![a.first()] + a.drop_first());
            assert(b =~= seq![b.first()] + b.drop_first());
        }
    } else {
        law_path_order(a.drop_first(), b, c);
    }
}

/// Whether a name comes before another, or is the same.
fn name_is_le(a: &Vec<u8>, b: &Vec<u8>) -> (le: bool)
    ensures
        le == name_le(a@, b@),
{
    let mut i: usize = 0;
    assert(a@.skip(0) =~= a@);
    assert(b@.skip(0) =~= b@);
    while i < a.len() && i < b.len()
        invariant
            i <= a@.len(),
            i <= b@.len(),
            name_le(a@, b@) == name_le(a@.skip(i as int), b@.skip(i as int)),
        decreases a@.len() - i,
    {
        if a[i] != b[i] {
            return a[i] < b[i];
        }
        assert(a@.skip(i as int).drop_first() =~= a@.skip(i + 1));
        assert(b@.skip(i as int).drop_first() =~= b@.skip(i + 1));
        i = i + 1;
    }
    i >= a.len()
}

/// Whether a path comes before another, or is the same.
fn path_is_le(a: &Vec<Vec<u8>>, b: &Vec<Vec<u8>>) -> (le: bool)
    ensures
        le == path_le(a.deep_view(), b.deep_view()),
{
    let ghost x = a.deep_view();
    let ghost y = b.deep_view();
    let mut i: usize = 0;
    assert(x.skip(0) =~= x);
    assert(y.skip(0) =~= y);
    while i < a.len() && i < b.len()
        invariant
            x == a.deep_view(),
            y == b.deep_view(),
            i <= a@.len(),
            i <= b@.len(),
            path_le(x, y) == path_le(x.skip(i as int), y.skip(i as int)),
        decreases a@.len() - i,
    {
        assert(x[i as int] == a@[i as int].deep_view());
        assert(y[i as int] == b@[i as int].deep_view());
        assert(a@[i as int].deep_view() =~= a@[i as int]@);
        assert(b@[i as int].deep_view() =~= b@[i as int]@);
        let le = name_is_le(&a[i], &b[i]);
        let ge = name_is_le(&b[i], &a[i]);
        proof {
            lemma_name_order(x[i as int], y[i as int], x[i as int]);
        }
        if !le || !ge {
            return le;
        }
        assert(x.skip(i as int).drop_first() =~= x.skip(i + 1));
        assert(y.skip(i as int).drop_first() =~= y.skip(i + 1));
        i = i + 1;
    }
    i >= a.len()
}

/// The path with this index.
pub open spec fn path_at(paths: Seq<Vec<Vec<u8>>>, i: usize) -> Seq<Seq<u8>> {
    paths[i as int].deep_view()
}

/// One index comes before another: by its path, or, for the same path, by
/// itself.
pub open spec fn comes_before(paths: Seq<Vec<Vec<u8>>>, i: usize, j: usize) -> bool {
    &&& path_le(path_at(paths, i), path_at(paths, j))
    &&& path_at(paths, i) == path_at(paths, j) ==> i < j
}

/// Indices in the order of their paths.
pub open spec fn is_ordered(paths: Seq<Vec<Vec<u8>>>, order: Seq<usize>) -> bool {
    forall|i: int, j: int|
        0 <= i < j < order.len() ==> comes_before(paths, #[trigger] order[i], #[trigger] order[j])
}

proof fn lemma_comes_before(paths: Seq<Vec<Vec<u8>>>, i: usize, j: usize, k: usize)
    requires
        comes_before(paths, i, j),
        comes_before(paths, j, k),
    ensures
        comes_before(paths, i, k),
{
    law_path_order(path_at(paths, i), path_at(paths, j), path_at(paths, k));
    law_path_order(path_at(paths, j), path_at(paths, k), path_at(paths, i));
}

/// The indices from `low` to `high` in the order of their paths.
fn order_range(paths: &Vec<Vec<Vec<u8>>>, low: usize, high: usize) -> (order: Vec<usize>)
    requires
        low <= high <= paths@.len(),
    ensures
        order@.len() == high - low,
        forall|i: int| 0 <= i < order@.len() ==> low <= (#[trigger] order@[i]) < high,
        is_ordered(paths@, order@),
    decreases high - low,
{
    let mut order: Vec<usize> = Vec::new();
    if high - low == 0 {
        return order;
    }
    if high - low == 1 {
        order.push(low);
        return order;
    }
    let middle: usize = low + (high - low) / 2;
    let left = order_range(paths, low, middle);
    let right = order_range(paths, middle, high);
    let mut l: usize = 0;
    let mut r: usize = 0;
    while l < left.len() || r < right.len()
        invariant
            low <= middle <= high <= paths@.len(),
            l <= left@.len(),
            r <= right@.len(),
            left@.len() == middle - low,
            right@.len() == high - middle,
            order@.len() == l + r,
            forall|i: int| 0 <= i < left@.len() ==> low <= (#[trigger] left@[i]) < middle,
            forall|i: int| 0 <= i < right@.len() ==> middle <= (#[trigger] right@[i]) < high,
            forall|i: int| 0 <= i < order@.len() ==> low <= (#[trigger] order@[i]) < high,
            is_ordered(paths@, left@),
            is_ordered(paths@, right@),
            is_ordered(paths@, order@),
            forall|i: int, j: int|
                0 <= i < order@.len() && l <= j < left@.len() ==> comes_before(
                    paths@,
                    #[trigger] order@[i],
                    #[trigger] left@[j],
                ),
            forall|i: int, j: int|
                0 <= i < order@.len() && r <= j < right@.len() ==> comes_before(
                    paths@,
                    #[trigger] order@[i],
                    #[trigger] right@[j],
                ),
        decreases left@.len() - l + right@.len() - r,
    {
        let from_left = if l >= left.len() {
            false
        } else if r >= right.len() {
            true
        } else {
            path_is_le(&paths[left[l]], &paths[right[r]])
        };
        if from_left {
            proof {
                if r < right@.len() {
                    assert(comes_before(paths@, left@[l as int], right@[r as int]));
                }
                assert forall|j: int| r <= j < right@.len() implies comes_before(
                    paths@,
                    left@[l as int],
                    #[trigger] right@[j],
                ) by {
                    if r < j {
                        lemma_comes_before(
                            paths@,
                            left@[l as int],
                            right@[r as int],
                            right@[j],
                        );
                    }
                }
            }
            order.push(left[l]);
            l = l + 1;
        } else {
            proof {
                if l < left@.len() {
                    law_path_order(
                        path_at(paths@, left@[l as int]),
                        path_at(paths@, right@[r as int]),
                        path_at(paths@, left@[l as int]),
                    );
                    assert(comes_before(paths@, right@[r as int], left@[l as int]));
                }
                assert forall|j: int| l <= j < left@.len() implies comes_before(
                    paths@,
                    right@[r as int],
                    #[trigger] left@[j],
                ) by {
                    if l < j {
                        lemma_comes_before(
                            paths@,
                            right@[r as int],
                            left@[l as int],
                            left@[j],
                        );
                    }
                }
            }
            order.push(right[r]);
            r = r + 1;
        }
    }
    order
}

/// Different indices below the length of the list are all there are.
proof fn lemma_all_indices(order: Seq<usize>)
    requires
        order.no_duplicates(),
        forall|i: int| 0 <= i < order.len() ==> (#[trigger] order[i]) < order.len(),
    ensures
        forall|k: usize| k < order.len() ==> order.contains(k),
{
    let numbers = order.map_values(|k: usize| k as int);
    let seen = numbers.to_set();
    let all = set_int_range(0, order.len() as int);
    assert(numbers.no_duplicates());
    numbers.unique_seq_to_set();
    lemma_int_range(0, order.len() as int);
    assert(seen.subset_of(all)) by {
        assert forall|k: int| seen.contains(k) implies all.contains(k) by {
            let i = choose|i: int| 0 <= i < numbers.len() && numbers[i] == k;
            assert(order[i] < order.len());
        }
    }
    lemma_subset_equality(seen, all);
    assert forall|k: usize| k < order.len() implies order.contains(k) by {
        assert(seen.contains(k as int));
        let i = choose|i: int| 0 <= i < numbers.len() && numbers[i] == k as int;
        assert(order[i] == k);
    }
}

proof fn lemma_not_both_ways(paths: Seq<Vec<Vec<u8>>>, i: usize, j: usize)
    requires
        comes_before(paths, i, j),
    ensures
        !comes_before(paths, j, i),
{
    law_path_order(path_at(paths, i), path_at(paths, j), path_at(paths, i));
}

proof fn lemma_first_is_alone(paths: Seq<Vec<Vec<u8>>>, a: Seq<usize>, k: usize)
    requires
        a.len() > 0,
        is_ordered(paths, a),
    ensures
        is_ordered(paths, a.drop_first()),
        a.drop_first().contains(k) <==> a.contains(k) && k != a.first(),
{
    let rest = a.drop_first();
    if rest.contains(k) {
        let i = choose|i: int| 0 <= i < rest.len() && rest[i] == k;
        assert(a[i + 1] == k);
        assert(comes_before(paths, a[0], a[i + 1]));
        lemma_not_both_ways(paths, a[0], a[i + 1]);
    }
    if a.contains(k) && k != a.first() {
        let i = choose|i: int| 0 <= i < a.len() && a[i] == k;
        assert(rest[i - 1] == k);
    }
}

/// There is one way to put indices into the order of their paths.
pub proof fn law_order_is_unique(paths: Seq<Vec<Vec<u8>>>, a: Seq<usize>, b: Seq<usize>)
    requires
        is_ordered(paths, a),
        is_ordered(paths, b),
        forall|k: usize| #[trigger] a.contains(k) <==> b.contains(k),
    ensures
        a == b,
    decreases a.len(),
{
    if a.len() == 0 {
        if b.len() > 0 {
            assert(b.contains(b[0]));
            assert(a.contains(b[0]));
        }
        assert(a =~= b);
    } else {
        assert(a.contains(a[0]));
        assert(b.contains(a[0]));
        assert(b.contains(b[0]));
        assert(a.contains(b[0]));
        if a[0] != b[0] {
            let i = choose|i: int| 0 <= i < a.len() && a[i] == b[0];
            let j = choose|j: int| 0 <= j < b.len() && b[j] == a[0];
            assert(comes_before(paths, a[0], a[i]));
            assert(comes_before(paths, b[0], b[j]));
            lemma_not_both_ways(paths, a[0], b[0]);
        }
        assert forall|k: usize| #[trigger] a.drop_first().contains(k) <==> b.drop_first().contains(
            k,
        ) by {
            assert(a.contains(k) <==> b.contains(k));
            lemma_first_is_alone(paths, a, k);
            lemma_first_is_alone(paths, b, k);
        }
        lemma_first_is_alone(paths, a, a[0]);
        lemma_first_is_alone(paths, b, b[0]);
        law_order_is_unique(paths, a.drop_first(), b.drop_first());
        assert(a =~= seq![a[0]] + a.drop_first());
        assert(b =~= seq![b[0]] + b.drop_first());
    }
}

/// The order in which paths stand in a playlist, as their indices. A path is
/// the list of its names from the root of the playlist on.
pub fn playlist_order(paths: &Vec<Vec<Vec<u8>>>) -> (order: Vec<usize>)
    ensures
        order@.len() == paths@.len(),
        order@.no_duplicates(),
        forall|i: int| 0 <= i < order@.len() ==> (#[trigger] order@[i]) < paths@.len(),
        forall|k: usize| k < paths@.len() ==> order@.contains(k),
        is_ordered(paths@, order@),
        forall|i: int, j: int|
            0 <= i < j < order@.len() ==> path_le(
                paths@[#[trigger] order@[i] as int].deep_view(),
                paths@[#[trigger] order@[j] as int].deep_view(),
            ),
{
    let order = order_range(paths, 0, paths.len());
    proof {
        assert forall|i: int, j: int| 0 <= i < j < order@.len() implies path_le(
            paths@[#[trigger] order@[i] as int].deep_view(),
            paths@[#[trigger] order@[j] as int].deep_view(),
        ) && order@[i] != order@[j] by {
            assert(comes_before(paths@, order@[i], order@[j]));
        }
        lemma_all_indices(order@);
    }
    order
}

/// The name of what a path leads to: its last name, if it has any.
pub open spec fn last_name(path: Seq<Seq<u8>>) -> Option<Seq<u8>> {
    if path.len() == 0 {
        None
    } else {
        Some(path.last())
    }
}

/// What was found under the index `k` joins the playlist.
pub open spec fn joins(paths: Seq<Vec<Vec<u8>>>, is_file: Seq<bool>, k: usize) -> bool {
    is_file[k as int] && is_audio_name(last_name(path_at(paths, k)))
}

/// The playlist of a directory, as indices of what was found in it: the audio
/// files, each once, in the order of their paths. `is_file` says of each path
/// whether it leads to a file.
pub fn scan_directory(paths: &Vec<Vec<Vec<u8>>>, is_file: &Vec<bool>) -> (playlist: Vec<usize>)
    requires
        is_file@.len() == paths@.len(),
    ensures
        playlist@.no_duplicates(),
        forall|i: int| 0 <= i < playlist@.len() ==> (#[trigger] playlist@[i]) < paths@.len(),
        forall|k: usize|
            k < paths@.len() ==> (playlist@.contains(k) <==> joins(paths@, is_file@, k)),
        forall|k: usize|
            k < paths@.len() ==> (#[trigger] playlist@.contains(k) <==> {
                &&& is_file@[k as int]
                &&& paths@[k as int]@.len() > 0
                &&& is_audio_name(Some(paths@[k as int]@.last()@))
            }),
        is_ordered(paths@, playlist@),
{
    let order = playlist_order(paths);
    let mut playlist: Vec<usize> = Vec::new();
    let mut n: usize = 0;
    while n < order.len()
        invariant
            n <= order@.len(),
            is_file@.len() == paths@.len(),
            forall|i: int| 0 <= i < order@.len() ==> (#[trigger] order@[i]) < paths@.len(),
            is_ordered(paths@, order@),
            forall|i: int|
                0 <= i < playlist@.len() ==> (#[trigger] playlist@[i]) < paths@.len() && joins(
                    paths@,
                    is_file@,
                    playlist@[i],
                ),
            is_ordered(paths@, playlist@),
            forall|i: int, j: int|
                0 <= i < playlist@.len() && n <= j < order@.len() ==> comes_before(
                    paths@,
                    #[trigger] playlist@[i],
                    #[trigger] order@[j],
                ),
            forall|i: int|
                0 <= i < n && joins(paths@, is_file@, #[trigger] order@[i]) ==> playlist@.contains(
                    order@[i],
                ),
        decreases order@.len() - n,
    {
        let k: usize = order[n];
        let path = &paths[k];
        let depth: usize = path.len();
        assert(path_at(paths@, k).len() == depth);
        let name: Option<&[u8]> = if depth == 0 {
            None
        } else {
            assert(path@[depth - 1].deep_view() =~= path@[depth - 1]@);
            assert(path_at(paths@, k).last() == path@[depth - 1]@);
            Some(path[depth - 1].as_slice())
        };
        let ghost before = playlist@;
        if joins_playlist(is_file[k], name) {
            playlist.push(k);
            assert(playlist@[before.len() as int] == k);
            assert forall|i: int| 0 <= i < before.len() implies playlist@[i] == before[i] by {}
        }
        assert forall|i: int|
            0 <= i < n + 1 && joins(paths@, is_file@, #[trigger] order@[i]) implies playlist@.contains(
            order@[i],
        ) by {
            if i < n {
                let j = choose|j: int| 0 <= j < before.len() && before[j] == order@[i];
                assert(playlist@[j] == order@[i]);
            }
        }
        n = n + 1;
    }
    proof {
        assert forall|i: int, j: int| 0 <= i < j < playlist@.len() implies playlist@[i]
            != playlist@[j] by {
            assert(comes_before(paths@, playlist@[i], playlist@[j]));
        }
        assert forall|k: usize| k < paths@.len() implies (playlist@.contains(k) <==> joins(
            paths@,
            is_file@,
            k,
        )) by {
            assert(order@.contains(k));
            let i = choose|i: int| 0 <= i < order@.len() && order@[i] == k;
            assert(order@[i] == k);
        }
        assert forall|k: usize| k < paths@.len() implies (#[trigger] playlist@.contains(k) <==> {
            &&& is_file@[k as int]
            &&& paths@[k as int]@.len() > 0
            &&& is_audio_name(Some(paths@[k as int]@.last()@))
        }) by {
            let path = paths@[k as int];
            if path@.len() > 0 {
                assert(path.deep_view().last() =~= path@.last()@);
            }
        }
    }
    playlist
}

} // verus!
