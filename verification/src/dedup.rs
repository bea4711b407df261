//! What holds of the choice of messages to show: each identifier is shown
//! once, oldest first, and never again.

use vstd::prelude::*;
use crate::functions_ai::{ids_at, shown_ids, unseen};

verus! {

proof fn lemma_push_contains(s: Seq<Seq<char>>, a: Seq<char>, x: Seq<char>)
    ensures
        s.push(a).contains(x) == (s.contains(x) || x == a),
{
    if s.contains(x) {
        let i = choose|i: int| 0 <= i < s.len() && s[i] == x;
        assert(s.push(a)[i] == x);
    }
    if x == a {
        assert(s.push(a)[s.len() as int] == x);
    }
    if s.push(a).contains(x) {
        let i = choose|i: int| 0 <= i < s.push(a).len() && s.push(a)[i] == x;
        if i < s.len() {
            assert(s[i] == x);
        }
    }
}

proof fn lemma_concat_contains(s: Seq<Seq<char>>, t: Seq<Seq<char>>, x: Seq<char>)
    ensures
        (s + t).contains(x) == (s.contains(x) || t.contains(x)),
{
    if s.contains(x) {
        let i = choose|i: int| 0 <= i < s.len() && s[i] == x;
        assert((s + t)[i] == x);
    }
    if t.contains(x) {
        let i = choose|i: int| 0 <= i < t.len() && t[i] == x;
        assert((s + t)[s.len() + i] == x);
    }
    if (s + t).contains(x) {
        let i = choose|i: int| 0 <= i < (s + t).len() && (s + t)[i] == x;
        if i < s.len() {
            assert(s[i] == x);
        } else {
            assert(t[i - s.len()] == x);
        }
    }
}

/// The positions shown lie in the listing.
proof fn lemma_in_range(listing: Seq<Seq<char>>, seen: Seq<Seq<char>>)
    ensures
        forall|k: int|
            0 <= k < unseen(listing, seen).len() ==> 0 <= #[trigger] unseen(listing, seen)[k]
                < listing.len(),
    decreases listing.len(),
{
    let u = unseen(listing, seen);
    if listing.len() > 0 {
        let at = listing.len() - 1;
        let rest = listing.drop_last();
        if seen.contains(listing[at]) {
            lemma_in_range(rest, seen);
            assert(u == unseen(rest, seen));
        } else {
            let u2 = unseen(rest, seen.push(listing[at]));
            lemma_in_range(rest, seen.push(listing[at]));
            assert forall|k: int| 0 <= k < u.len() implies 0 <= #[trigger] u[k]
                < listing.len() by {
                if k > 0 {
                    assert(u[k] == u2[k - 1]);
                }
            }
        }
    }
}

/// The positions shown strictly decrease.
proof fn lemma_decreasing(listing: Seq<Seq<char>>, seen: Seq<Seq<char>>)
    ensures
        forall|j: int, k: int|
            0 <= j < k < unseen(listing, seen).len() ==> #[trigger] unseen(listing, seen)[j]
                > #[trigger] unseen(listing, seen)[k],
    decreases listing.len(),
{
    let u = unseen(listing, seen);
    if listing.len() > 0 {
        let at = listing.len() - 1;
        let rest = listing.drop_last();
        if seen.contains(listing[at]) {
            lemma_decreasing(rest, seen);
            assert(u == unseen(rest, seen));
        } else {
            let u2 = unseen(rest, seen.push(listing[at]));
            lemma_decreasing(rest, seen.push(listing[at]));
            lemma_in_range(rest, seen.push(listing[at]));
            assert forall|j: int, k: int| 0 <= j < k < u.len() implies #[trigger] u[j]
                > #[trigger] u[k] by {
                assert(u[k] == u2[k - 1]);
                assert(0 <= u2[k - 1] < rest.len());
                if j > 0 {
                    assert(u[j] == u2[j - 1]);
                }
            }
        }
    }
}

/// No identifier shown was seen before.
proof fn lemma_not_seen(listing: Seq<Seq<char>>, seen: Seq<Seq<char>>)
    ensures
        forall|k: int|
            0 <= k < unseen(listing, seen).len() ==> !seen.contains(
                listing[#[trigger] unseen(listing, seen)[k]],
            ),
    decreases listing.len(),
{
    let u = unseen(listing, seen);
    if listing.len() > 0 {
        let at = listing.len() - 1;
        let rest = listing.drop_last();
        if seen.contains(listing[at]) {
            lemma_not_seen(rest, seen);
            lemma_in_range(rest, seen);
            assert(u == unseen(rest, seen));
            assert forall|k: int| 0 <= k < u.len() implies !seen.contains(
                listing[#[trigger] u[k]],
            ) by {
                assert(rest[u[k]] == listing[u[k]]);
            }
        } else {
            let seen2 = seen.push(listing[at]);
            let u2 = unseen(rest, seen2);
            lemma_not_seen(rest, seen2);
            lemma_in_range(rest, seen2);
            assert forall|k: int| 0 <= k < u.len() implies !seen.contains(
                listing[#[trigger] u[k]],
            ) by {
                if k > 0 {
                    assert(u[k] == u2[k - 1]);
                    assert(rest[u2[k - 1]] == listing[u[k]]);
                    lemma_push_contains(seen, listing[at], listing[u[k]]);
                }
            }
        }
    }
}

/// No two positions shown hold the same identifier.
proof fn lemma_distinct(listing: Seq<Seq<char>>, seen: Seq<Seq<char>>)
    ensures
        forall|j: int, k: int|
            0 <= j < k < unseen(listing, seen).len() ==> listing[#[trigger] unseen(
                listing,
                seen,
            )[j]] != listing[#[trigger] unseen(listing, seen)[k]],
    decreases listing.len(),
{
    let u = unseen(listing, seen);
    if listing.len() > 0 {
        let at = listing.len() - 1;
        let rest = listing.drop_last();
        if seen.contains(listing[at]) {
            lemma_distinct(rest, seen);
            lemma_in_range(rest, seen);
            assert(u == unseen(rest, seen));
            assert forall|j: int, k: int| 0 <= j < k < u.len() implies listing[#[trigger] u[j]]
                != listing[#[trigger] u[k]] by {
                assert(rest[u[j]] == listing[u[j]]);
                assert(rest[u[k]] == listing[u[k]]);
            }
        } else {
            let seen2 = seen.push(listing[at]);
            let u2 = unseen(rest, seen2);
            lemma_distinct(rest, seen2);
            lemma_in_range(rest, seen2);
            lemma_not_seen(rest, seen2);
            assert forall|j: int, k: int| 0 <= j < k < u.len() implies listing[#[trigger] u[j]]
                != listing[#[trigger] u[k]] by {
                assert(u[k] == u2[k - 1]);
                assert(rest[u2[k - 1]] == listing[u[k]]);
                if j == 0 {
                    assert(!seen2.contains(rest[u2[k - 1]]));
                    lemma_push_contains(seen, listing[at], listing[u[k]]);
                } else {
                    assert(u[j] == u2[j - 1]);
                    assert(rest[u2[j - 1]] == listing[u[j]]);
                    assert(rest[u2[j - 1]] != rest[u2[k - 1]]);
                }
            }
        }
    }
}

/// An identifier of the listing that was not seen before is shown, at its
/// place or at a later one.
proof fn lemma_complete(listing: Seq<Seq<char>>, seen: Seq<Seq<char>>, i: int)
    requires
        0 <= i < listing.len(),
        !seen.contains(listing[i]),
    ensures
        exists|k: int|
            0 <= k < unseen(listing, seen).len() && i <= #[trigger] unseen(listing, seen)[k]
                && listing[unseen(listing, seen)[k]] == listing[i],
    decreases listing.len(),
{
    let u = unseen(listing, seen);
    let at = listing.len() - 1;
    let rest = listing.drop_last();
    if seen.contains(listing[at]) {
        assert(rest[i] == listing[i]);
        lemma_complete(rest, seen, i);
        lemma_in_range(rest, seen);
        assert(u == unseen(rest, seen));
        let k = choose|k: int|
            0 <= k < u.len() && i <= #[trigger] u[k] && rest[u[k]] == rest[i];
        assert(rest[u[k]] == listing[u[k]]);
        assert(0 <= k < u.len() && i <= u[k] && listing[u[k]] == listing[i]);
    } else {
        let seen2 = seen.push(listing[at]);
        let u2 = unseen(rest, seen2);
        assert(u[0] == at);
        if i == at || listing[i] == listing[at] {
            assert(0 <= 0 < u.len() && i <= u[0] && listing[u[0]] == listing[i]);
        } else {
            assert(rest[i] == listing[i]);
            lemma_push_contains(seen, listing[at], listing[i]);
            lemma_complete(rest, seen2, i);
            lemma_in_range(rest, seen2);
            let k2 = choose|k: int|
                0 <= k < u2.len() && i <= #[trigger] u2[k] && rest[u2[k]] == rest[i];
            assert(u[k2 + 1] == u2[k2]);
            assert(rest[u2[k2]] == listing[u2[k2]]);
            assert(0 <= k2 + 1 < u.len() && i <= u[k2 + 1] && listing[u[k2 + 1]] == listing[i]);
        }
    }
}

/// The messages of a listing are shown oldest first: the positions shown
/// lie in the listing and strictly decrease, and each is the last place at
/// which its identifier stands in the listing.
pub proof fn shown_oldest_first(listing: Seq<Seq<char>>, seen: Seq<Seq<char>>)
    ensures
        forall|k: int|
            0 <= k < unseen(listing, seen).len() ==> 0 <= #[trigger] unseen(listing, seen)[k]
                < listing.len(),
        forall|j: int, k: int|
            0 <= j < k < unseen(listing, seen).len() ==> #[trigger] unseen(listing, seen)[j]
                > #[trigger] unseen(listing, seen)[k],
        forall|k: int, i: int|
            0 <= k < unseen(listing, seen).len() && 0 <= i < listing.len() && #[trigger] listing[i]
                == listing[#[trigger] unseen(listing, seen)[k]] ==> i <= unseen(listing, seen)[k],
{
    let u = unseen(listing, seen);
    lemma_in_range(listing, seen);
    lemma_decreasing(listing, seen);
    lemma_distinct(listing, seen);
    lemma_not_seen(listing, seen);
    assert forall|k: int, i: int|
        0 <= k < u.len() && 0 <= i < listing.len() && #[trigger] listing[i]
            == listing[#[trigger] u[k]] implies i <= u[k] by {
        lemma_complete(listing, seen, i);
        let k2 = choose|k2: int|
            0 <= k2 < u.len() && i <= #[trigger] u[k2] && listing[u[k2]] == listing[i];
        if k2 < k {
            assert(listing[u[k2]] != listing[u[k]]);
        } else if k < k2 {
            assert(listing[u[k]] != listing[u[k2]]);
        }
    }
}

/// No identifier is shown twice for one listing, none is shown that was
/// seen before, and every one shown stands in the listing.
pub proof fn shown_once(listing: Seq<Seq<char>>, seen: Seq<Seq<char>>)
    ensures
        shown_ids(listing, seen).no_duplicates(),
        forall|x: Seq<char>|
            shown_ids(listing, seen).contains(x) ==> !seen.contains(x) && listing.contains(x),
{
    let u = unseen(listing, seen);
    let shown = shown_ids(listing, seen);
    lemma_in_range(listing, seen);
    lemma_distinct(listing, seen);
    lemma_not_seen(listing, seen);
    assert forall|j: int, k: int| 0 <= j < shown.len() && 0 <= k < shown.len() && j != k implies
        shown[j] != shown[k] by {
        if j < k {
            assert(listing[u[j]] != listing[u[k]]);
        } else {
            assert(listing[u[k]] != listing[u[j]]);
        }
    }
    assert forall|x: Seq<char>| shown.contains(x) implies !seen.contains(x) && listing.contains(
        x,
    ) by {
        let k = choose|k: int| 0 <= k < shown.len() && shown[k] == x;
        assert(x == listing[u[k]]);
        assert(0 <= u[k] < listing.len());
    }
}

/// Every identifier of a listing was seen before or is shown now: one
/// that is new, such as that of a message just posted, is among those
/// shown.
pub proof fn every_id_accounted(listing: Seq<Seq<char>>, seen: Seq<Seq<char>>)
    ensures
        forall|x: Seq<char>|
            listing.contains(x) ==> seen.contains(x) || shown_ids(listing, seen).contains(x),
{
    let u = unseen(listing, seen);
    let shown = shown_ids(listing, seen);
    assert forall|x: Seq<char>| listing.contains(x) implies seen.contains(x) || shown.contains(
        x,
    ) by {
        let i = choose|i: int| 0 <= i < listing.len() && listing[i] == x;
        if !seen.contains(listing[i]) {
            lemma_complete(listing, seen, i);
            let k = choose|k: int|
                0 <= k < u.len() && i <= #[trigger] u[k] && listing[u[k]] == listing[i];
            assert(shown[k] == x);
        }
    }
}

/// An identifier that stands in a listing and was not seen before, such
/// as that of a message posted a moment ago, is shown at exactly one place.
pub proof fn new_id_shown_exactly_once(
    listing: Seq<Seq<char>>,
    seen: Seq<Seq<char>>,
    id: Seq<char>,
)
    requires
        listing.contains(id),
        !seen.contains(id),
    ensures
        exists|k: int|
            0 <= k < shown_ids(listing, seen).len() && #[trigger] shown_ids(listing, seen)[k] == id
                && forall|j: int|
                0 <= j < shown_ids(listing, seen).len() && #[trigger] shown_ids(listing, seen)[j]
                    == id ==> j == k,
{
    let shown = shown_ids(listing, seen);
    every_id_accounted(listing, seen);
    shown_once(listing, seen);
    let k = choose|k: int| 0 <= k < shown.len() && shown[k] == id;
    assert(0 <= k < shown.len() && shown[k] == id && forall|j: int|
        0 <= j < shown.len() && #[trigger] shown[j] == id ==> j == k);
}

/// The identifiers seen stay a set: where none occurs twice before a
/// listing is shown, none occurs twice after.
pub proof fn seen_stays_a_set(listing: Seq<Seq<char>>, seen: Seq<Seq<char>>)
    requires
        seen.no_duplicates(),
    ensures
        (seen + shown_ids(listing, seen)).no_duplicates(),
{
    let shown = shown_ids(listing, seen);
    let all = seen + shown;
    shown_once(listing, seen);
    assert forall|j: int, k: int| 0 <= j < all.len() && 0 <= k < all.len() && j != k implies all[j]
        != all[k] by {
        if j < seen.len() && k < seen.len() {
        } else if j >= seen.len() && k >= seen.len() {
            assert(shown[j - seen.len()] != shown[k - seen.len()]);
        } else if j < seen.len() {
            assert(shown.contains(shown[k - seen.len()]));
            assert(seen.contains(seen[j]));
        } else {
            assert(shown.contains(shown[j - seen.len()]));
            assert(seen.contains(seen[k]));
        }
    }
}

proof fn lemma_all_seen(listing: Seq<Seq<char>>, seen: Seq<Seq<char>>)
    requires
        forall|i: int| 0 <= i < listing.len() ==> seen.contains(#[trigger] listing[i]),
    ensures
        unseen(listing, seen) == Seq::<int>::empty(),
    decreases listing.len(),
{
    if listing.len() > 0 {
        let rest = listing.drop_last();
        assert forall|i: int| 0 <= i < rest.len() implies seen.contains(#[trigger] rest[i]) by {
            assert(rest[i] == listing[i]);
        }
        assert(seen.contains(listing[listing.len() - 1]));
        lemma_all_seen(rest, seen);
    }
}

/// A listing that comes a second time, once its messages were shown,
/// shows nothing.
pub proof fn same_listing_shows_nothing(listing: Seq<Seq<char>>, seen: Seq<Seq<char>>)
    ensures
        unseen(listing, seen + shown_ids(listing, seen)) == Seq::<int>::empty(),
{
    let after = seen + shown_ids(listing, seen);
    every_id_accounted(listing, seen);
    assert forall|i: int| 0 <= i < listing.len() implies after.contains(#[trigger] listing[i]) by {
        assert(listing.contains(listing[i]));
        lemma_concat_contains(seen, shown_ids(listing, seen), listing[i]);
    }
    lemma_all_seen(listing, after);
}

/// The identifiers shown over successive listings, in the order of
/// showing, each listing being shown against what was seen by then.
pub open spec fn shown_over(listings: Seq<Seq<Seq<char>>>, seen: Seq<Seq<char>>) -> Seq<Seq<char>>
    decreases listings.len(),
{
    if listings.len() == 0 {
        Seq::<Seq<char>>::empty()
    } else {
        let first = shown_ids(listings[0], seen);
        first + shown_over(listings.drop_first(), seen + first)
    }
}

/// Over any succession of listings each identifier is shown exactly once:
/// what was seen at the start, followed by all that is shown, holds no
/// identifier twice, and holds every identifier of every listing.
pub proof fn each_id_shown_once(listings: Seq<Seq<Seq<char>>>, seen: Seq<Seq<char>>)
    requires
        seen.no_duplicates(),
    ensures
        (seen + shown_over(listings, seen)).no_duplicates(),
        forall|b: int, x: Seq<char>|
            0 <= b < listings.len() && (#[trigger] listings[b]).contains(x) ==> #[trigger] (seen
                + shown_over(listings, seen)).contains(x),
    decreases listings.len(),
{
    let total = seen + shown_over(listings, seen);
    if listings.len() == 0 {
        assert(total =~= seen);
    } else {
        let first = shown_ids(listings[0], seen);
        let later = listings.drop_first();
        seen_stays_a_set(listings[0], seen);
        every_id_accounted(listings[0], seen);
        each_id_shown_once(later, seen + first);
        assert(total =~= (seen + first) + shown_over(later, seen + first));
        assert forall|b: int, x: Seq<char>|
            0 <= b < listings.len() && (#[trigger] listings[b]).contains(x) implies #[trigger] total.contains(
            x,
        ) by {
            if b == 0 {
                lemma_concat_contains(seen, first, x);
                lemma_concat_contains(seen + first, shown_over(later, seen + first), x);
            } else {
                assert(later[b - 1] == listings[b]);
                assert(later[b - 1].contains(x));
            }
        }
    }
}

} // verus!
