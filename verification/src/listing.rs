//! What a scan yields, stated over the tree that the traversal saw, and the
//! laws that hold of it.

use crate::config::name_matches;
use crate::scan::{advance, initial, pending, selects, Listed, Report, Request, ScanState, Stage};
use vstd::multiset::Multiset;
use vstd::prelude::*;

verus! {

/// What a traversal saw of one entry of the tree: whether it is a regular
/// file, the final component of its path if it has one, and the size that
/// reading its metadata gives.
pub struct Seen {
    pub is_file: bool,
    pub base_name: Option<Seq<char>>,
    pub size: u64,
}

/// Whether the entry belongs in the listing.
pub open spec fn selected(pattern: Seq<char>, seen: Seen) -> bool {
    selects(pattern, seen.is_file, seen.base_name)
}

/// The line of the listing that a selected entry gives.
pub open spec fn entry_of(seen: Seen) -> Listed {
    Listed { filename: seen.base_name->0, size: seen.size }
}

/// The listing of a tree: the lines of its selected entries, in the order in
/// which the traversal reached them.
pub open spec fn listing_of(pattern: Seq<char>, tree: Seq<Seen>) -> Seq<Listed>
    decreases tree.len(),
{
    if tree.len() == 0 {
        Seq::empty()
    } else {
        let before = listing_of(pattern, tree.drop_last());
        if selected(pattern, tree.last()) {
            before.push(entry_of(tree.last()))
        } else {
            before
        }
    }
}

/// The place in the listing that the entry at index `i` of the tree takes if
/// it is selected: the number of selected entries before it.
pub open spec fn position(pattern: Seq<char>, tree: Seq<Seen>, i: int) -> int {
    listing_of(pattern, tree.take(i)).len() as int
}

/// The state of a scan after a driver has reported one entry of the tree
/// and, where the scan then asked for it, the size of that entry.
pub open spec fn visit(pattern: Seq<char>, state: ScanState, seen: Seen) -> ScanState {
    let reached = advance(
        pattern,
        state,
        Report::Entry { is_file: seen.is_file, base_name: seen.base_name },
    );
    if pending(reached) == Request::FileSize {
        advance(pattern, reached, Report::Size(seen.size))
    } else {
        reached
    }
}

/// The state of a scan after a driver has reported every entry of the tree
/// in turn, starting from `state`.
pub open spec fn walk(pattern: Seq<char>, state: ScanState, tree: Seq<Seen>) -> ScanState
    decreases tree.len(),
{
    if tree.len() == 0 {
        state
    } else {
        visit(pattern, walk(pattern, state, tree.drop_last()), tree.last())
    }
}

/// The state in which a scan of the whole tree ends: every entry reported
/// in turn to a fresh scan, then the end of the traversal.
pub open spec fn scan_of(pattern: Seq<char>, tree: Seq<Seen>) -> ScanState {
    advance(pattern, walk(pattern, initial(), tree), Report::WalkEnded)
}

proof fn lemma_walk(pattern: Seq<char>, tree: Seq<Seen>)
    ensures
        walk(pattern, initial(), tree) == (ScanState {
            found: listing_of(pattern, tree),
            stage: Stage::Walking,
        }),
    decreases tree.len(),
{
    if tree.len() > 0 {
        lemma_walk(pattern, tree.drop_last());
    }
}

/// A scan of a tree that can be read throughout finishes, and what it has
/// collected is the listing of that tree: one line for each regular file
/// whose base name the pattern matches, in traversal order, and no other.
pub proof fn law_scan_yields_listing(pattern: Seq<char>, tree: Seq<Seen>)
    ensures
        scan_of(pattern, tree) == (ScanState {
            found: listing_of(pattern, tree),
            stage: Stage::Finished,
        }),
{
    lemma_walk(pattern, tree);
}

proof fn lemma_listing_take(pattern: Seq<char>, tree: Seq<Seen>, i: int)
    requires
        0 <= i < tree.len(),
    ensures
        listing_of(pattern, tree.take(i + 1)) == if selected(pattern, tree[i]) {
            listing_of(pattern, tree.take(i)).push(entry_of(tree[i]))
        } else {
            listing_of(pattern, tree.take(i))
        },
{
    assert(tree.take(i + 1).drop_last() =~= tree.take(i));
}

proof fn lemma_listing_prefix(pattern: Seq<char>, tree: Seq<Seen>, i: int, k: int)
    requires
        0 <= i <= k <= tree.len(),
    ensures
        listing_of(pattern, tree.take(i)).is_prefix_of(listing_of(pattern, tree.take(k))),
    decreases k - i,
{
    if i < k {
        lemma_listing_prefix(pattern, tree, i, k - 1);
        lemma_listing_take(pattern, tree, k - 1);
    }
}

/// Completeness: every selected entry of the tree has a line of its own in
/// the listing, at its position, and that line holds the entry's base name
/// and size.
pub proof fn law_every_match_listed(pattern: Seq<char>, tree: Seq<Seen>, i: int)
    requires
        0 <= i < tree.len(),
        selected(pattern, tree[i]),
    ensures
        0 <= position(pattern, tree, i) < listing_of(pattern, tree).len(),
        listing_of(pattern, tree)[position(pattern, tree, i)] == entry_of(tree[i]),
{
    lemma_listing_take(pattern, tree, i);
    lemma_listing_prefix(pattern, tree, i + 1, tree.len() as int);
    assert(tree.take(tree.len() as int) =~= tree);
    let whole = listing_of(pattern, tree);
    let upto = listing_of(pattern, tree.take(i + 1));
    assert(upto[position(pattern, tree, i)] == entry_of(tree[i]));
    assert(upto == whole.subrange(0, upto.len() as int));
}

/// No two selected entries share a line: a selected entry that the
/// traversal reached earlier stands earlier in the listing.
pub proof fn law_matches_listed_apart(pattern: Seq<char>, tree: Seq<Seen>, i: int, k: int)
    requires
        0 <= i < k < tree.len(),
        selected(pattern, tree[i]),
    ensures
        position(pattern, tree, i) < position(pattern, tree, k),
{
    lemma_listing_take(pattern, tree, i);
    lemma_listing_prefix(pattern, tree, i + 1, k);
}

/// Soundness: every line of the listing is the line of a selected entry of
/// the tree, so of a regular file whose base name the pattern matches, and it
/// stands at that entry's position.
pub proof fn law_every_line_matches(pattern: Seq<char>, tree: Seq<Seen>, j: int) -> (i: int)
    requires
        0 <= j < listing_of(pattern, tree).len(),
    ensures
        0 <= i < tree.len(),
        selected(pattern, tree[i]),
        tree[i].is_file,
        tree[i].base_name matches Some(name) && name_matches(pattern, name),
        position(pattern, tree, i) == j,
        listing_of(pattern, tree)[j] == entry_of(tree[i]),
    decreases tree.len(),
{
    let last = tree.len() - 1;
    assert(tree.take(last) =~= tree.drop_last());
    if selected(pattern, tree.last()) && j == listing_of(pattern, tree.drop_last()).len() {
        last
    } else {
        let i = law_every_line_matches(pattern, tree.drop_last(), j);
        assert(tree.drop_last().take(i) =~= tree.take(i));
        i
    }
}

/// The listing has as many lines as the tree has selected entries: the
/// position past the last entry is the length of the listing.
pub proof fn law_listing_length(pattern: Seq<char>, tree: Seq<Seen>)
    ensures
        listing_of(pattern, tree).len() == position(pattern, tree, tree.len() as int),
        listing_of(pattern, tree).len() <= tree.len(),
    decreases tree.len(),
{
    assert(tree.take(tree.len() as int) =~= tree);
    if tree.len() > 0 {
        law_listing_length(pattern, tree.drop_last());
    }
}

/// A tree without a selected entry, an empty one among them, has an empty
/// listing.
pub proof fn law_no_match_empty_listing(pattern: Seq<char>, tree: Seq<Seen>)
    requires
        forall|i: int| 0 <= i < tree.len() ==> !selected(pattern, #[trigger] tree[i]),
    ensures
        listing_of(pattern, tree) == Seq::<Listed>::empty(),
    decreases tree.len(),
{
    if tree.len() > 0 {
        law_no_match_empty_listing(pattern, tree.drop_last());
    }
}

proof fn lemma_listing_concat(pattern: Seq<char>, a: Seq<Seen>, b: Seq<Seen>)
    ensures
        listing_of(pattern, a + b) == listing_of(pattern, a) + listing_of(pattern, b),
    decreases b.len(),
{
    if b.len() == 0 {
        assert(a + b =~= a);
        assert(listing_of(pattern, a) + listing_of(pattern, b) =~= listing_of(pattern, a));
    } else {
        lemma_listing_concat(pattern, a, b.drop_last());
        assert((a + b).drop_last() =~= a + b.drop_last());
        let front = listing_of(pattern, a);
        let back = listing_of(pattern, b.drop_last());
        let line = entry_of(b.last());
        assert((front + back).push(line) =~= front + back.push(line));
    }
}

proof fn lemma_listing_without(pattern: Seq<char>, tree: Seq<Seen>, j: int)
    requires
        0 <= j < tree.len(),
    ensures
        listing_of(pattern, tree).to_multiset() == if selected(pattern, tree[j]) {
            listing_of(pattern, tree.remove(j)).to_multiset().insert(entry_of(tree[j]))
        } else {
            listing_of(pattern, tree.remove(j)).to_multiset()
        },
{
    broadcast use vstd::multiset::group_multiset_axioms;

    let head = tree.subrange(0, j);
    let one = seq![tree[j]];
    let tail = tree.subrange(j + 1, tree.len() as int);
    assert(tree =~= (head + one) + tail);
    assert(tree.remove(j) =~= head + tail);
    assert(one.drop_last() =~= Seq::<Seen>::empty());
    assert(listing_of(pattern, Seq::<Seen>::empty()) =~= Seq::<Listed>::empty());
    assert(one.last() == tree[j]);
    lemma_listing_concat(pattern, head, one);
    lemma_listing_concat(pattern, head + one, tail);
    lemma_listing_concat(pattern, head, tail);
    let front = listing_of(pattern, head);
    let middle = listing_of(pattern, one);
    let back = listing_of(pattern, tail);
    vstd::seq_lib::lemma_multiset_commutative(front + middle, back);
    vstd::seq_lib::lemma_multiset_commutative(front, middle);
    vstd::seq_lib::lemma_multiset_commutative(front, back);
    if selected(pattern, tree[j]) {
        assert(middle =~= Seq::<Listed>::empty().push(entry_of(tree[j])));
        vstd::seq_lib::to_multiset_build(Seq::<Listed>::empty(), entry_of(tree[j]));
        assert(Seq::<Listed>::empty().to_multiset() =~= Multiset::<Listed>::empty()) by {
            vstd::seq_lib::to_multiset_len(Seq::<Listed>::empty());
        }
        assert(listing_of(pattern, tree).to_multiset() =~= listing_of(
            pattern,
            tree.remove(j),
        ).to_multiset().insert(entry_of(tree[j])));
    } else {
        assert(middle =~= Seq::<Listed>::empty());
        assert(front + middle =~= front);
    }
}

/// Scanning again what has not changed lists the same files: two traversals
/// that reach the same entries, in whatever order, give listings with the
/// same lines, each as often in one as in the other. The two listings then
/// hold the same set of lines.
pub proof fn law_rescan_lists_the_same(pattern: Seq<char>, first: Seq<Seen>, second: Seq<Seen>)
    requires
        first.to_multiset() == second.to_multiset(),
    ensures
        listing_of(pattern, first).to_multiset() == listing_of(pattern, second).to_multiset(),
        listing_of(pattern, first).to_set() == listing_of(pattern, second).to_set(),
    decreases first.len(),
{
    broadcast use vstd::multiset::group_multiset_axioms;

    vstd::seq_lib::to_multiset_len(first);
    vstd::seq_lib::to_multiset_len(second);
    if first.len() > 0 {
        let last = first.len() - 1;
        let seen = first[last];
        vstd::seq_lib::to_multiset_contains(first, seen);
        vstd::seq_lib::to_multiset_contains(second, seen);
        assert(first.contains(seen));
        let j = choose|j: int| 0 <= j < second.len() && second[j] == seen;
        vstd::seq_lib::to_multiset_remove(first, last);
        vstd::seq_lib::to_multiset_remove(second, j);
        law_rescan_lists_the_same(pattern, first.remove(last), second.remove(j));
        lemma_listing_without(pattern, first, last);
        lemma_listing_without(pattern, second, j);
    }
    let one = listing_of(pattern, first);
    let other = listing_of(pattern, second);
    assert forall|line: Listed| one.contains(line) == other.contains(line) by {
        vstd::seq_lib::to_multiset_contains(one, line);
        vstd::seq_lib::to_multiset_contains(other, line);
    }
    assert(one.to_set() =~= other.to_set());
}

} // verus!
