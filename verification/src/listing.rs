//! The order in which recordings are listed: the newest first.

use crate::recordings::{views, RecordingFile, RecordingFileView};
use crate::text::{
    lemma_text_le_antisymmetric, lemma_text_le_reflexive, lemma_text_le_total,
    lemma_text_le_transitive, text_le, text_no_later,
};
use core::cmp::Ordering;
use vstd::multiset::Multiset;
use vstd::prelude::*;
use vstd::seq_lib::*;

verus! {

/// Whether a file made at `a` is newer than one made at `b`. A file of which
/// the file system does not tell when it was made counts as older than any
/// file of which it tells.
pub open spec fn newer(a: Option<u128>, b: Option<u128>) -> bool {
    match (a, b) {
        (Some(x), Some(y)) => x > y,
        (Some(_), None) => true,
        _ => false,
    }
}

/// Whether `a` is listed no later than `b`: the newer file comes first, and of
/// two that are equally old the one whose path comes first.
pub open spec fn lists_before(a: RecordingFileView, b: RecordingFileView) -> bool {
    newer(a.created, b.created) || (!newer(b.created, a.created) && text_le(a.path, b.path))
}

/// Whether `files` stand in the order of the listing.
pub open spec fn in_listing_order(files: Seq<RecordingFileView>) -> bool {
    forall|i: int, j: int| 0 <= i < j < files.len() ==> lists_before(files[i], files[j])
}

/// Whether `listed` is the listing of `files`: the same files, each as often
/// as in `files`, in the order of the listing.
pub open spec fn is_listing_of(listed: Seq<RecordingFileView>, files: Seq<RecordingFileView>) -> bool {
    in_listing_order(listed) && listed.to_multiset() == files.to_multiset()
}

/// Every file is listed no later than itself.
pub proof fn lemma_lists_before_reflexive(a: RecordingFileView)
    ensures
        lists_before(a, a),
{
    lemma_text_le_reflexive(a.path);
}

/// Of two files one is listed no later than the other.
pub proof fn lemma_lists_before_total(a: RecordingFileView, b: RecordingFileView)
    ensures
        lists_before(a, b) || lists_before(b, a),
{
    lemma_text_le_total(a.path, b.path);
}

/// A file that is listed no later than a second one is listed no later than
/// any that the second one is listed no later than.
pub proof fn lemma_lists_before_transitive(
    a: RecordingFileView,
    b: RecordingFileView,
    c: RecordingFileView,
)
    requires
        lists_before(a, b),
        lists_before(b, c),
    ensures
        lists_before(a, c),
{
    if !newer(a.created, b.created) && !newer(b.created, c.created) {
        lemma_text_le_transitive(a.path, b.path, c.path);
    }
}

/// Two files that are each listed no later than the other are one file.
pub proof fn lemma_lists_before_antisymmetric(a: RecordingFileView, b: RecordingFileView)
    requires
        lists_before(a, b),
        lists_before(b, a),
    ensures
        a == b,
{
    lemma_text_le_antisymmetric(a.path, b.path);
}

/// In a listing no file is newer than one that stands before it, and a file of
/// unknown age stands before none of known age.
pub proof fn lemma_listing_is_newest_first(listed: Seq<RecordingFileView>, i: int, j: int)
    requires
        in_listing_order(listed),
        0 <= i < j < listed.len(),
    ensures
        !newer(listed[j].created, listed[i].created),
        match (listed[i].created, listed[j].created) {
            (Some(earlier), Some(later)) => earlier >= later,
            (None, Some(_)) => false,
            _ => true,
        },
{
    assert(lists_before(listed[i], listed[j]));
}

/// Where the file system tells of every file when it was made, and of no two
/// the same: every file in a listing is older than all that stand before it.
pub proof fn lemma_listing_is_strictly_newest_first(
    listed: Seq<RecordingFileView>,
    i: int,
    j: int,
)
    requires
        in_listing_order(listed),
        0 <= i < j < listed.len(),
        listed[i].created is Some,
        listed[j].created is Some,
        listed[i].created != listed[j].created,
    ensures
        listed[i].created->0 > listed[j].created->0,
{
    assert(lists_before(listed[i], listed[j]));
}

/// Files have one listing only: two sequences in the order of the listing that
/// hold the same files are the same sequence.
pub proof fn lemma_listing_is_unique(a: Seq<RecordingFileView>, b: Seq<RecordingFileView>)
    requires
        in_listing_order(a),
        in_listing_order(b),
        a.to_multiset() == b.to_multiset(),
    ensures
        a == b,
    decreases a.len(),
{
    broadcast use group_to_multiset_ensures;

    assert(a.len() == b.len()) by {
        to_multiset_len(a);
        to_multiset_len(b);
    }
    if a.len() == 0 {
        assert(a =~= b);
    } else {
        assert(a.contains(a[0]));
        assert(b.to_multiset().count(a[0]) > 0);
        assert(b.contains(a[0]));
        let j = choose|j: int| 0 <= j < b.len() && b[j] == a[0];
        assert(lists_before(b[0], a[0])) by {
            lemma_lists_before_reflexive(b[0]);
        }
        assert(b.contains(b[0]));
        assert(a.to_multiset().count(b[0]) > 0);
        assert(a.contains(b[0]));
        let i = choose|i: int| 0 <= i < a.len() && a[i] == b[0];
        assert(lists_before(a[0], b[0])) by {
            lemma_lists_before_reflexive(a[0]);
        }
        lemma_lists_before_antisymmetric(a[0], b[0]);
        let a_rest = a.remove(0);
        let b_rest = b.remove(0);
        to_multiset_remove(a, 0);
        to_multiset_remove(b, 0);
        assert(in_listing_order(a_rest)) by {
            assert forall|x: int, y: int| 0 <= x < y < a_rest.len() implies lists_before(
                a_rest[x],
                a_rest[y],
            ) by {
                assert(a_rest[x] == a[x + 1] && a_rest[y] == a[y + 1]);
            }
        }
        assert(in_listing_order(b_rest)) by {
            assert forall|x: int, y: int| 0 <= x < y < b_rest.len() implies lists_before(
                b_rest[x],
                b_rest[y],
            ) by {
                assert(b_rest[x] == b[x + 1] && b_rest[y] == b[y + 1]);
            }
        }
        lemma_listing_is_unique(a_rest, b_rest);
        assert(a =~= seq![a[0]] + a_rest);
        assert(b =~= seq![b[0]] + b_rest);
    }
}

/// Files that stand in the order of the listing are their own listing.
pub proof fn lemma_listing_keeps_what_is_in_order(
    files: Seq<RecordingFileView>,
    listed: Seq<RecordingFileView>,
)
    requires
        in_listing_order(files),
        is_listing_of(listed, files),
    ensures
        listed == files,
{
    lemma_listing_is_unique(listed, files);
}

/// To list a listing changes nothing.
pub proof fn lemma_listing_twice_is_listing_once(
    files: Seq<RecordingFileView>,
    once: Seq<RecordingFileView>,
    twice: Seq<RecordingFileView>,
)
    requires
        is_listing_of(once, files),
        is_listing_of(twice, once),
    ensures
        twice == once,
{
    lemma_listing_is_unique(twice, once);
}

/// The listing does not depend on the order in which the files were found.
pub proof fn lemma_listing_ignores_the_order_found(
    files: Seq<RecordingFileView>,
    shuffled: Seq<RecordingFileView>,
    listed: Seq<RecordingFileView>,
    listed_shuffled: Seq<RecordingFileView>,
)
    requires
        files.to_multiset() == shuffled.to_multiset(),
        is_listing_of(listed, files),
        is_listing_of(listed_shuffled, shuffled),
    ensures
        listed == listed_shuffled,
{
    lemma_listing_is_unique(listed, listed_shuffled);
}

/// Orders two recordings by the time at which they were made, the newer one
/// first.
pub fn compare_time(a: &RecordingFile, b: &RecordingFile) -> (order: Ordering)
    ensures
        order == Ordering::Less <==> newer(a.created, b.created),
        order == Ordering::Greater <==> newer(b.created, a.created),
{
    match (a.created, b.created) {
        (Some(x), Some(y)) => if x > y {
            Ordering::Less
        } else if x < y {
            Ordering::Greater
        } else {
            Ordering::Equal
        },
        (Some(_), None) => Ordering::Less,
        (None, Some(_)) => Ordering::Greater,
        (None, None) => Ordering::Equal,
    }
}

/// Whether `a` is listed no later than `b`.
pub fn listed_before(a: &RecordingFile, b: &RecordingFile) -> (before: bool)
    ensures
        before == lists_before(a@, b@),
{
    match compare_time(a, b) {
        Ordering::Less => true,
        Ordering::Greater => false,
        Ordering::Equal => text_no_later(a.path.as_str(), b.path.as_str()),
    }
}

/// Where `file` goes into `listed`: behind every file that is listed before
/// it, and in front of the rest.
fn place_of(listed: &Vec<RecordingFile>, file: &RecordingFile) -> (at: usize)
    requires
        in_listing_order(views(listed@)),
    ensures
        at <= listed@.len(),
        forall|k: int| 0 <= k < at ==> lists_before(listed@[k]@, file@),
        forall|k: int| at <= k < listed@.len() ==> lists_before(file@, listed@[k]@),
{
    let mut at: usize = 0;
    while at < listed.len()
        invariant
            at <= listed@.len(),
            in_listing_order(views(listed@)),
            forall|k: int| 0 <= k < at ==> lists_before(listed@[k]@, file@),
        decreases listed.len() - at,
    {
        if listed_before(file, &listed[at]) {
            proof {
                assert forall|k: int| at <= k < listed@.len() implies lists_before(
                    file@,
                    listed@[k]@,
                ) by {
                    if k > at {
                        assert(lists_before(views(listed@)[at as int], views(listed@)[k]));
                        lemma_lists_before_transitive(file@, listed@[at as int]@, listed@[k]@);
                    }
                }
            }
            return at;
        }
        proof {
            lemma_lists_before_total(file@, listed@[at as int]@);
        }
        at = at + 1;
    }
    at
}

/// Lists `files`: the newest first; files of which the file system does not
/// tell the age last; files that are equally old in the order of their paths.
pub fn order_by_recency(files: Vec<RecordingFile>) -> (listed: Vec<RecordingFile>)
    ensures
        is_listing_of(views(listed@), views(files@)),
{
    broadcast use group_to_multiset_ensures;

    let mut rest = files;
    let mut listed: Vec<RecordingFile> = Vec::new();
    assert(views(listed@) =~= Seq::empty());
    assert(views(listed@).to_multiset().add(views(rest@).to_multiset()) =~= views(
        files@,
    ).to_multiset());
    while rest.len() > 0
        invariant
            in_listing_order(views(listed@)),
            views(listed@).to_multiset().add(views(rest@).to_multiset()) == views(
                files@,
            ).to_multiset(),
        decreases rest.len(),
    {
        let ghost rest_before = views(rest@);
        let ghost listed_views = views(listed@);
        let file = rest.pop().unwrap();
        let at = place_of(&listed, &file);
        listed.insert(at, file);
        proof {
            assert(rest_before =~= views(rest@).push(file@));
            assert(views(listed@) =~= listed_views.insert(at as int, file@));
            to_multiset_build(views(rest@), file@);
            to_multiset_insert(listed_views, at as int, file@);
            assert(views(listed@).to_multiset().add(views(rest@).to_multiset()) =~= listed_views.to_multiset().add(
                rest_before.to_multiset(),
            ));
            assert forall|i: int, j: int| 0 <= i < j < views(listed@).len() implies lists_before(
                views(listed@)[i],
                views(listed@)[j],
            ) by {
                let x = if i < at { i } else { i - 1 };
                let y = if j < at { j } else { j - 1 };
                if i != at && j != at {
                    assert(lists_before(listed_views[x], listed_views[y]));
                }
            }
        }
    }
    assert(views(rest@).to_multiset() =~= Multiset::empty());
    assert(views(listed@).to_multiset().add(Multiset::empty()) =~= views(listed@).to_multiset());
    listed
}

} // verus!
