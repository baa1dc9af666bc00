//! What holds of a collection over many calls.
use vstd::prelude::*;

use crate::bits;
use crate::bytes::ActorID;
use crate::frc53_nft::state;
use crate::frc53_nft::types::MintIntermediate;
use crate::nft_store::TokenID;

verus! {

/// Something that was done to a collection.
pub enum Deed {
    /// Tokens were minted.
    Mint {
        /// What came back.
        r: MintIntermediate,
        /// Who got them.
        to: ActorID,
        /// How many.
        count: nat,
    },
    /// Tokens were transferred or burnt, operators were changed, or a call failed.
    Other,
}

impl Deed {
    /// Whether the next number to be given out went from one to the other with this. Minting gives
    /// out numbers from the next one on; nothing else changes it.
    pub open spec fn done(self, before: TokenID, after: TokenID) -> bool {
        match self {
            Deed::Mint { r, to, count } => state::minted(r, to, before, count) && after == before
                + count,
            Deed::Other => after == before,
        }
    }

    /// The numbers that were given out.
    pub open spec fn numbers(self) -> Seq<TokenID> {
        match self {
            Deed::Mint { r, .. } => r.token_ids@,
            Deed::Other => Seq::empty(),
        }
    }
}

/// Whether the next number to be given out went through these values, one deed after the other.
pub open spec fn went_through(next: Seq<TokenID>, deeds: Seq<Deed>) -> bool {
    &&& next.len() == deeds.len() + 1
    &&& forall|i: int|
        0 <= i < deeds.len() ==> (#[trigger] deeds[i]).done(next[i], next[i + 1])
}

/// The next number never falls.
proof fn lemma_next_never_falls(next: Seq<TokenID>, deeds: Seq<Deed>, i: int, j: int)
    requires
        went_through(next, deeds),
        0 <= i <= j <= deeds.len(),
    ensures
        next[i] <= next[j],
    decreases j - i,
{
    if i < j {
        lemma_next_never_falls(next, deeds, i, j - 1);
        assert(deeds[j - 1].done(next[j - 1], next[j]));
    }
}

/// No number is given to a token twice, whatever is minted, transferred and burnt in between, the
/// tokens that had the numbers included: two mints never share a number, and one gives out as many
/// different numbers as tokens.
pub proof fn a_number_is_given_out_once(next: Seq<TokenID>, deeds: Seq<Deed>)
    requires
        went_through(next, deeds),
    ensures
        forall|i: int, j: int, id: TokenID|
            0 <= i < j < deeds.len() && #[trigger] deeds[i].numbers().contains(id)
                ==> !(#[trigger] deeds[j].numbers().contains(id)),
        forall|i: int|
            0 <= i < deeds.len() ==> (#[trigger] deeds[i]).numbers().no_duplicates(),
        forall|i: int|
            0 <= i < deeds.len() && deeds[i] is Mint ==> (#[trigger] deeds[i]).numbers().len()
                == deeds[i]->count,
{
    assert forall|i: int, id: TokenID|
        0 <= i < deeds.len() && #[trigger] deeds[i].numbers().contains(id) implies next[i] <= id
        < next[i + 1] by {
        assert(deeds[i].done(next[i], next[i + 1]));
    }
    assert forall|i: int, j: int, id: TokenID|
        0 <= i < j < deeds.len() && #[trigger] deeds[i].numbers().contains(
            id,
        ) implies !(#[trigger] deeds[j].numbers().contains(id)) by {
        lemma_next_never_falls(next, deeds, i + 1, j);
    }
    assert forall|i: int| 0 <= i < deeds.len() implies (
    #[trigger] deeds[i]).numbers().no_duplicates() by {
        assert(deeds[i].done(next[i], next[i + 1]));
    }
    assert forall|i: int| 0 <= i < deeds.len() && deeds[i] is Mint implies (
    #[trigger] deeds[i]).numbers().len() == deeds[i]->count by {
        assert(deeds[i].done(next[i], next[i + 1]));
    }
}

/// A list in rising order is known by what is in it.
proof fn lemma_ascending_unique(a: Seq<u64>, b: Seq<u64>)
    requires
        bits::ascending(a),
        bits::ascending(b),
        a.to_set() == b.to_set(),
    ensures
        a == b,
    decreases a.len(),
{
    if a.len() == 0 {
        if b.len() > 0 {
            assert(b.to_set().contains(b[0]));
        }
    } else {
        assert(a.to_set().contains(a.last()));
        if b.len() == 0 {
            assert(b.to_set().contains(a.last()));
        }
        assert(b.to_set().contains(b.last()));
        let i = choose|i: int| 0 <= i < b.len() && b[i] == a.last();
        let j = choose|j: int| 0 <= j < a.len() && a[j] == b.last();
        assert(b[i] <= b.last());
        assert(a[j] <= a.last());
        assert(a.last() == b.last());
        let c = a.drop_last();
        let d = b.drop_last();
        assert forall|x: u64| #[trigger] c.to_set().contains(x) == d.to_set().contains(x) by {
            if c.to_set().contains(x) {
                let k = choose|k: int| 0 <= k < c.len() && c[k] == x;
                assert(a[k] == x);
                assert(a.to_set().contains(x));
                assert(b.to_set().contains(x));
                let m = choose|m: int| 0 <= m < b.len() && b[m] == x;
                assert(m < d.len());
                assert(d[m] == x);
            }
            if d.to_set().contains(x) {
                let k = choose|k: int| 0 <= k < d.len() && d[k] == x;
                assert(b[k] == x);
                assert(b.to_set().contains(x));
                assert(a.to_set().contains(x));
                let m = choose|m: int| 0 <= m < a.len() && a[m] == x;
                assert(m < c.len());
                assert(c[m] == x);
            }
        }
        assert(c.to_set() =~= d.to_set());
        lemma_ascending_unique(c, d);
        assert(a =~= c.push(a.last()));
        assert(b =~= d.push(b.last()));
    }
}

/// Whether pages were read one after the other: the first from the start, each further one from
/// where the one before it said, until one said that there are no more.
pub open spec fn read_through(
    members: Set<ActorID>,
    limit: u64,
    starts: Seq<u64>,
    pages: Seq<Set<ActorID>>,
) -> bool {
    &&& pages.len() > 0
    &&& starts.len() == pages.len()
    &&& starts[0] == 0
    &&& forall|i: int|
        0 <= i < pages.len() ==> starts[i] + limit <= u64::MAX && state::shows_members(
            members,
            #[trigger] starts[i],
            limit,
            pages[i],
            if i + 1 < pages.len() {
                Some(starts[i + 1])
            } else {
                None
            },
        )
}

/// The places of the pages follow each other.
proof fn lemma_starts(
    members: Set<ActorID>,
    limit: u64,
    starts: Seq<u64>,
    pages: Seq<Set<ActorID>>,
    list: Seq<ActorID>,
    i: int,
)
    requires
        read_through(members, limit, starts, pages),
        bits::ascending(list),
        list.to_set() == members,
        0 <= i < pages.len(),
    ensures
        starts[i] == i * limit,
        pages[i] == state::places(list, starts[i], limit),
        i + 1 < pages.len() ==> list.len() > starts[i] + limit,
        i + 1 == pages.len() ==> list.len() <= starts[i] + limit,
    decreases i,
{
    let next = if i + 1 < pages.len() {
        Some(starts[i + 1])
    } else {
        None
    };
    assert(state::shows_members(members, starts[i], limit, pages[i], next));
    let own = choose|own: Seq<ActorID>| #[trigger]
        bits::ascending(own) && own.to_set() == members && pages[i] == state::places(
            own,
            starts[i],
            limit,
        ) && next == (if own.len() > starts[i] + limit {
            Some((starts[i] + limit) as u64)
        } else {
            None
        });
    lemma_ascending_unique(own, list);
    if i > 0 {
        lemma_starts(members, limit, starts, pages, list, i - 1);
        let before = choose|before: Seq<ActorID>| #[trigger]
            bits::ascending(before) && before.to_set() == members && pages[i - 1] == state::places(
                before,
                starts[i - 1],
                limit,
            ) && Some(starts[i]) == (if before.len() > starts[i - 1] + limit {
                Some((starts[i - 1] + limit) as u64)
            } else {
                None
            });
        assert(state::shows_members(members, starts[i - 1], limit, pages[i - 1], Some(starts[i])));
        assert(starts[i] == starts[i - 1] + limit);
        assert(i * limit == (i - 1) * limit + limit) by (nonlinear_arith);
    } else {
        assert(0 * limit == 0);
    }
}

/// The members at some places of a list are as many as the places.
proof fn lemma_places_len(list: Seq<u64>, start: u64, limit: u64)
    requires
        bits::ascending(list),
        start + limit <= list.len(),
    ensures
        state::places(list, start, limit).finite(),
        state::places(list, start, limit).len() == limit,
{
    let part = list.subrange(start as int, start + limit);
    assert forall|i: int, j: int| 0 <= i < j < part.len() implies part[i] != part[j] by {
        assert(list[start + i] < list[start + j]);
    }
    part.unique_seq_to_set();
    assert forall|x: u64| #[trigger] part.to_set().contains(x) == state::places(
        list,
        start,
        limit,
    ).contains(x) by {
        if part.to_set().contains(x) {
            let i = choose|i: int| 0 <= i < part.len() && part[i] == x;
            assert(list[start + i] == x);
        }
        if state::places(list, start, limit).contains(x) {
            let i = choose|i: int|
                start <= i < start + limit && i < list.len() && #[trigger] list[i] == x;
            assert(part[i - start] == x);
        }
    }
    assert(part.to_set() =~= state::places(list, start, limit));
}

/// Pages of operators that are read through, without a change in between, show every operator once
/// and nobody else, the smaller ones on the earlier pages, and all but the last are full.
pub proof fn pages_show_everyone_once(
    members: Set<ActorID>,
    limit: u64,
    starts: Seq<u64>,
    pages: Seq<Set<ActorID>>,
)
    requires
        limit >= 1,
        read_through(members, limit, starts, pages),
    ensures
        forall|x: ActorID| #[trigger]
            members.contains(x) <==> exists|i: int|
                0 <= i < pages.len() && #[trigger] pages[i].contains(x),
        forall|i: int, j: int, x: ActorID|
            0 <= i < j < pages.len() && #[trigger] pages[i].contains(x) ==> !(
            #[trigger] pages[j].contains(x)),
        forall|i: int|
            0 <= i < pages.len() - 1 ==> (#[trigger] pages[i]).finite() && pages[i].len() == limit,
        forall|i: int, j: int, x: ActorID, y: ActorID|
            0 <= i < j < pages.len() && #[trigger] pages[i].contains(x)
                && #[trigger] pages[j].contains(y) ==> x < y,
{
    assert(state::shows_members(
        members,
        starts[0],
        limit,
        pages[0],
        if 1 < pages.len() {
            Some(starts[1])
        } else {
            None
        },
    ));
    let list = choose|list: Seq<ActorID>| #[trigger]
        bits::ascending(list) && list.to_set() == members && pages[0] == state::places(
            list,
            starts[0],
            limit,
        ) && (if 1 < pages.len() {
            Some(starts[1])
        } else {
            None
        }) == (if list.len() > starts[0] + limit {
            Some((starts[0] + limit) as u64)
        } else {
            None
        });
    assert forall|i: int| 0 <= i < pages.len() implies starts[i] == i * limit && (
    #[trigger] pages[i]) == state::places(list, starts[i], limit) && (i + 1 < pages.len()
        ==> list.len() > starts[i] + limit) && (i + 1 == pages.len() ==> list.len() <= starts[i]
        + limit) by {
        lemma_starts(members, limit, starts, pages, list, i);
    }
    assert forall|x: ActorID| #[trigger] members.contains(x) <==> exists|i: int|
        0 <= i < pages.len() && #[trigger] pages[i].contains(x) by {
        if members.contains(x) {
            assert(list.to_set().contains(x));
            let at = choose|at: int| 0 <= at < list.len() && list[at] == x;
            let i = at / limit as int;
            let last = pages.len() - 1;
            assert(pages[last] == state::places(list, starts[last], limit));
            assert(last * limit + limit == (last + 1) * limit) by (nonlinear_arith);
            assert(at < (last + 1) * limit);
            assert(0 <= i <= last && i * limit <= at < i * limit + limit) by (nonlinear_arith)
                requires
                    i == at / limit as int,
                    limit >= 1,
                    0 <= at < (last + 1) * limit,
            ;
            assert(pages[i] == state::places(list, starts[i], limit));
            assert(pages[i].contains(x));
        }
        if exists|i: int| 0 <= i < pages.len() && #[trigger] pages[i].contains(x) {
            let i = choose|i: int| 0 <= i < pages.len() && #[trigger] pages[i].contains(x);
            let at = choose|at: int|
                starts[i] <= at < starts[i] + limit && at < list.len() && #[trigger] list[at] == x;
            assert(list.to_set().contains(list[at]));
        }
    }
    assert forall|i: int, j: int, x: ActorID|
        0 <= i < j < pages.len() && #[trigger] pages[i].contains(x) implies !(
    #[trigger] pages[j].contains(x)) by {
        if pages[j].contains(x) {
            let a = choose|a: int|
                starts[i] <= a < starts[i] + limit && a < list.len() && #[trigger] list[a] == x;
            let b = choose|b: int|
                starts[j] <= b < starts[j] + limit && b < list.len() && #[trigger] list[b] == x;
            assert(i * limit + limit <= j * limit) by (nonlinear_arith)
                requires
                    i < j,
                    limit >= 1,
            ;
            assert(list[a] < list[b]);
        }
    }
    assert forall|i: int, j: int, x: ActorID, y: ActorID|
        0 <= i < j < pages.len() && #[trigger] pages[i].contains(x)
            && #[trigger] pages[j].contains(y) implies x < y by {
        let a = choose|a: int|
            starts[i] <= a < starts[i] + limit && a < list.len() && #[trigger] list[a] == x;
        let b = choose|b: int|
            starts[j] <= b < starts[j] + limit && b < list.len() && #[trigger] list[b] == y;
        assert(i * limit + limit <= j * limit) by (nonlinear_arith)
            requires
                i < j,
                limit >= 1,
        ;
        assert(list[a] < list[b]);
    }
    assert forall|i: int| 0 <= i < pages.len() - 1 implies (#[trigger] pages[i]).finite()
        && pages[i].len() == limit by {
        lemma_places_len(list, starts[i], limit);
    }
}

} // verus!
