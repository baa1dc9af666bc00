//! Laws of collections whose state checks who may do what.
use vstd::prelude::*;

use crate::bytes::ActorID;
use crate::frc53_nft::collection;
use crate::frc53_nft::collection::{Collection, Holdings};
use crate::frc53_nft::laws;
use crate::frc53_nft::state as nft_state;
use crate::frcxx_nft::batch;
use crate::frcxx_nft::batch::{Action, Authority};
use crate::frcxx_nft::state;
use crate::keys;
use crate::nft_store::TokenID;

verus! {

/// A batch that was dealt with had the right to each token when its turn came, kept the rules and
/// the number of tokens, and left the tokens that it does not name as they were.
pub proof fn batch_law(
    whole: Collection,
    ids: Seq<TokenID>,
    n: nat,
    authority: Authority,
    action: Action,
)
    requires
        whole.regular(),
        n <= ids.len(),
        action is Approve || action is Revoke || action is HandOn,
        batch::batch(whole.held, ids, n, authority, action) is Ok,
    ensures
        ({
            let after = Collection {
                held: batch::batch(whole.held, ids, n, authority, action)->Ok_0,
                ..whole
            };
            &&& after.regular()
            &&& after.held.tokens.dom() == whole.held.tokens.dom()
            &&& forall|id: TokenID| #[trigger]
                whole.held.tokens.contains_key(id) && !ids.take(n as int).contains(id)
                    ==> after.held.tokens[id] == whole.held.tokens[id]
            &&& forall|i: nat| #[trigger]
                batch::batch(whole.held, ids, i, authority, action) is Ok && i < n
                    ==> authority.checked(
                    batch::batch(whole.held, ids, i, authority, action)->Ok_0,
                    ids[i as int],
                ) is Ok
        }),
    decreases n,
{
    if n > 0 {
        let m = (n - 1) as nat;
        let last = ids[n - 1];
        if batch::batch(whole.held, ids, m, authority, action) is Err {
            batch::lemma_batch_refused(whole.held, ids, m, n, authority, action);
        }
        batch_law(whole, ids, m, authority, action);
        let between = batch::batch(whole.held, ids, m, authority, action)->Ok_0;
        let middle = Collection { held: between, ..whole };
        let after = batch::batch(whole.held, ids, n, authority, action)->Ok_0;
        assert(authority.checked(between, last) is Ok);
        assert(action.done(between, last) == Ok::<Holdings, collection::NftFault>(after));
        match action {
            Action::Approve(operator) => {
                laws::operators_law(middle, last, between.tokens[last].1.insert(operator));
            },
            Action::Revoke(operator) => {
                laws::operators_law(middle, last, between.tokens[last].1.remove(operator));
            },
            Action::HandOn(receiver) => {
                assert(middle.held.tokens.contains_key(last));
                laws::hand_on_law(between, last, receiver);
                let end = Collection { held: after, ..whole };
                assert forall|id: TokenID| #[trigger] end.held.tokens.contains_key(id) implies id
                    < end.next by {
                    assert(middle.held.tokens.contains_key(id));
                }
            },
            _ => {},
        }
        assert forall|id: TokenID| #[trigger]
            whole.held.tokens.contains_key(id) && !ids.take(n as int).contains(
                id,
            ) implies after.tokens[id] == whole.held.tokens[id] by {
            assert(ids.take(n as int)[m as int] == last);
            if ids.take(m as int).contains(id) {
                let i = choose|i: int| 0 <= i < m && ids.take(m as int)[i] == id;
                assert(ids.take(n as int)[i] == id);
            }
            assert(between.tokens.contains_key(id));
        }
    }
}

/// A batch of tokens that were taken out of an owner's hands: all were the owner's, and none was
/// named twice.
proof fn lemma_removed(held: Holdings, ids: Seq<TokenID>, n: nat, owner: ActorID)
    requires
        n <= ids.len(),
        batch::batch(held, ids, n, Authority::Owner(owner), Action::Remove) is Ok,
    ensures
        forall|i: int|
            0 <= i < n ==> held.tokens.contains_key(#[trigger] ids[i]) && held.tokens[ids[i]].0
                == owner,
        forall|i: int, j: int| 0 <= i < j < n ==> #[trigger] ids[i] != #[trigger] ids[j],
        nft_state::burning().done(held.tokens, ids, n) is Ok,
        batch::batch(held, ids, n, Authority::Owner(owner), Action::Remove)->Ok_0 == (Holdings {
            tokens: nft_state::burning().done(held.tokens, ids, n)->Ok_0,
            ..held
        }),
        forall|id: TokenID| #[trigger]
            nft_state::burning().done(held.tokens, ids, n)->Ok_0.contains_key(id)
                ==> held.tokens.contains_key(id) && nft_state::burning().done(
                held.tokens,
                ids,
                n,
            )->Ok_0[id] == held.tokens[id] && !ids.take(n as int).contains(id),
    decreases n,
{
    let authority = Authority::Owner(owner);
    let work = nft_state::burning();
    if n > 0 {
        let m = (n - 1) as nat;
        let last = ids[n - 1];
        if batch::batch(held, ids, m, authority, Action::Remove) is Err {
            batch::lemma_batch_refused(held, ids, m, n, authority, Action::Remove);
        }
        lemma_removed(held, ids, m, owner);
        let between = batch::batch(held, ids, m, authority, Action::Remove)->Ok_0;
        assert(authority.checked(between, last) is Ok);
        assert(between.tokens.contains_key(last));
        assert((work.step)(between.tokens, last) == Ok::<_, collection::NftFault>(
            between.tokens.remove(last),
        ));
        assert forall|i: int, j: int| 0 <= i < j < n implies #[trigger] ids[i]
            != #[trigger] ids[j] by {
            if j == n - 1 && ids[i] == ids[j] {
                assert(ids.take(m as int)[i] == last);
            }
        }
        let after = work.done(held.tokens, ids, n)->Ok_0;
        assert forall|id: TokenID| #[trigger] after.contains_key(id) implies held.tokens.contains_key(
            id,
        ) && after[id] == held.tokens[id] && !ids.take(n as int).contains(id) by {
            assert(between.tokens.contains_key(id));
            if ids.take(n as int).contains(id) {
                let i = choose|i: int| 0 <= i < n && ids.take(n as int)[i] == id;
                assert(i < m);
                assert(ids.take(m as int)[i] == id);
            }
        }
    } else {
        assert(!exists|id: TokenID| ids.take(0).contains(id));
    }
}

/// Burning tokens as their owner keeps the rules: the supply shrinks by the number of tokens, which
/// are gone, and the other tokens stay as they are.
pub proof fn owner_burn_law(whole: Collection, owner: ActorID, ids: Seq<TokenID>)
    requires
        whole.regular(),
        state::burned(whole, owner, ids, Authority::Owner(owner)) is Ok,
    ensures
        ({
            let after = state::burned(whole, owner, ids, Authority::Owner(owner))->Ok_0;
            &&& after.regular()
            &&& after.supply == whole.supply - ids.len()
            &&& after.next == whole.next
            &&& forall|id: TokenID| #[trigger]
                after.held.tokens.contains_key(id) == (whole.held.tokens.contains_key(id)
                    && !ids.contains(id))
            &&& forall|id: TokenID| #[trigger]
                after.held.tokens.contains_key(id) ==> after.held.tokens[id]
                    == whole.held.tokens[id]
        }),
{
    lemma_removed(whole.held, ids, ids.len(), owner);
    laws::burn_law(whole, owner, ids);
}

/// Burning tokens as an operator keeps the rules: the supply shrinks by the number of tokens, which
/// are gone, and no other token is lost or changed.
pub proof fn operator_burn_law(whole: Collection, operator: ActorID, ids: Seq<TokenID>, n: nat)
    requires
        whole.regular(),
        n <= ids.len(),
        batch::batch(whole.held, ids, n, Authority::Operator(operator), Action::Burn) is Ok,
    ensures
        n <= whole.supply,
        ({
            let after = Collection {
                held: batch::batch(
                    whole.held,
                    ids,
                    n,
                    Authority::Operator(operator),
                    Action::Burn,
                )->Ok_0,
                supply: (whole.supply - n) as u64,
                ..whole
            };
            &&& after.regular()
            &&& forall|id: TokenID| #[trigger]
                after.held.tokens.contains_key(id) ==> whole.held.tokens.contains_key(id)
                    && after.held.tokens[id] == whole.held.tokens[id]
            &&& forall|id: TokenID| #[trigger]
                whole.held.tokens.contains_key(id) && !ids.take(n as int).contains(id)
                    ==> after.held.tokens.contains_key(id)
            &&& forall|i: int|
                0 <= i < n ==> !after.held.tokens.contains_key(#[trigger] ids[i])
        }),
    decreases n,
{
    let authority = Authority::Operator(operator);
    if n > 0 {
        let m = (n - 1) as nat;
        let last = ids[n - 1];
        if batch::batch(whole.held, ids, m, authority, Action::Burn) is Err {
            batch::lemma_batch_refused(whole.held, ids, m, n, authority, Action::Burn);
        }
        operator_burn_law(whole, operator, ids, m);
        let between = batch::batch(whole.held, ids, m, authority, Action::Burn)->Ok_0;
        let middle = Collection { held: between, supply: (whole.supply - m) as u64, ..whole };
        let after = batch::batch(whole.held, ids, n, authority, Action::Burn)->Ok_0;
        assert(authority.checked(between, last) is Ok);
        assert(Action::Burn.done(between, last) == Ok::<_, collection::NftFault>(after));
        let one = seq![last];
        assert(one[0] == last);
        laws::burn_law(middle, between.tokens[last].0, one);
        reveal_with_fuel(collection::in_turn, 2);
        assert(nft_state::burning().done(between.tokens, one, 1) == Ok::<_, collection::NftFault>(
            between.tokens.remove(last),
        ));
        assert forall|id: TokenID| #[trigger]
            whole.held.tokens.contains_key(id) && !ids.take(n as int).contains(
                id,
            ) implies after.tokens.contains_key(id) by {
            assert(ids.take(n as int)[m as int] == last);
            if ids.take(m as int).contains(id) {
                let i = choose|i: int| 0 <= i < m && ids.take(m as int)[i] == id;
                assert(ids.take(n as int)[i] == id);
            }
        }
    }
}

/// Minting keeps the rules, whatever is minted to whom.
pub proof fn mint_keeps_the_rules(whole: Collection, owner: ActorID, metadatas: Seq<Seq<char>>)
    requires
        whole.regular(),
        whole.next + metadatas.len() <= u64::MAX,
        whole.supply + metadatas.len() <= u64::MAX,
    ensures
        collection::issued(whole, owner, metadatas) is Ok,
        collection::issued(whole, owner, metadatas)->Ok_0.regular(),
        collection::issued(whole, owner, metadatas)->Ok_0.supply == whole.supply + metadatas.len(),
{
    laws::mint_law(whole, owner, metadatas);
}

/// An operator with no authorisation for a token and its account, and anyone who does not own it,
/// moves nothing: their transfers and burns are refused.
pub proof fn strangers_are_refused(
    whole: Collection,
    ids: Seq<TokenID>,
    actor: ActorID,
    action: Action,
)
    requires
        whole.regular(),
        ids.len() > 0,
        whole.held.tokens.contains_key(ids[0]),
        whole.held.tokens[ids[0]].0 != actor,
        !whole.held.tokens[ids[0]].1.contains(actor),
        !whole.held.owners[keys::key_of(whole.held.tokens[ids[0]].0)].1.contains(actor),
    ensures
        batch::batch(whole.held, ids, ids.len(), Authority::Owner(actor), action) == Err::<
            Holdings,
            _,
        >(collection::NftFault::NotOwner { actor, token_id: ids[0] }),
        batch::batch(whole.held, ids, ids.len(), Authority::Operator(actor), action) == Err::<
            Holdings,
            _,
        >(collection::NftFault::NotAuthorized { actor, token_id: ids[0] }),
        batch::batch(whole.held, ids, ids.len(), Authority::Manager(actor), action) == Err::<
            Holdings,
            _,
        >(collection::NftFault::NotOwner { actor, token_id: ids[0] }),
{
    reveal_with_fuel(collection::in_turn, 2);
    assert(whole.held.tokens.contains_key(ids[0]));
    batch::lemma_batch_refused(whole.held, ids, 1, ids.len(), Authority::Owner(actor), action);
    batch::lemma_batch_refused(whole.held, ids, 1, ids.len(), Authority::Operator(actor), action);
    batch::lemma_batch_refused(whole.held, ids, 1, ids.len(), Authority::Manager(actor), action);
}

} // verus!
