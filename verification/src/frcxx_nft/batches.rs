//! What dealing with a batch of tokens comes to, token by token.
use vstd::prelude::*;

use crate::bytes::{ActorID, Cid};
use crate::frc53_nft::collection;
use crate::frc53_nft::collection::{Collection, Holdings, NftFault};
use crate::frc53_nft::laws as nft_laws;
use crate::frc53_nft::promises;
use crate::frc53_nft::promises::{authorised, counted, delegates, deprived, tally};
use crate::frc53_nft::state as nft_state;
use crate::frc53_nft::state::{StateError, HAMT_BIT_WIDTH};
use crate::frcxx_nft::batch;
use crate::frcxx_nft::batch::{Action, Authority};
use crate::frcxx_nft::laws;
use crate::keys;
use crate::nft_store;
use crate::nft_store::TokenID;
use crate::store::Store;

verus! {

/// Whether an actor may change who the operators of a token are: they own it, or act for the account
/// that does.
pub open spec fn may_manage(held: Holdings, id: TokenID, actor: ActorID) -> bool {
    held.tokens[id].0 == actor || delegates(held.owners, held.tokens[id].0).contains(actor)
}

/// Whether an actor may move a token for its owner: they are one of its operators, or act for the
/// account that owns it.
pub open spec fn may_move(held: Holdings, id: TokenID, actor: ActorID) -> bool {
    held.tokens[id].1.contains(actor) || delegates(held.owners, held.tokens[id].0).contains(actor)
}

/// What a right to a token comes to.
pub open spec fn entitled(authority: Authority, held: Holdings, id: TokenID) -> bool {
    match authority {
        Authority::Owner(actor) => held.tokens[id].0 == actor,
        Authority::Operator(actor) => may_move(held, id, actor),
        Authority::Manager(actor) => may_manage(held, id, actor),
        Authority::Granted => true,
    }
}

/// Whether all tokens of a list are there.
pub open spec fn all_there(held: Holdings, ids: Seq<TokenID>) -> bool {
    forall|i: int| 0 <= i < ids.len() ==> held.tokens.contains_key(#[trigger] ids[i])
}

/// Whether no token is twice in a list.
pub open spec fn distinct(ids: Seq<TokenID>) -> bool {
    forall|i: int, j: int| 0 <= i < j < ids.len() ==> #[trigger] ids[i] != #[trigger] ids[j]
}

/// Whether an authority holds for all tokens of a list.
pub open spec fn all_entitled(authority: Authority, held: Holdings, ids: Seq<TokenID>) -> bool {
    forall|i: int| 0 <= i < ids.len() ==> entitled(authority, held, #[trigger] ids[i])
}

/// Whether the tokens of a list went to a receiver, without operators, and everything else is as it
/// was. Every actor's count is the number of tokens they own.
pub open spec fn given(before: Holdings, after: Holdings, ids: Seq<TokenID>, receiver: ActorID) -> bool {
    &&& forall|id: TokenID| #[trigger] after.tokens.contains_key(id) == before.tokens.contains_key(id)
    &&& forall|id: TokenID| #[trigger]
        after.tokens.contains_key(id) ==> after.tokens[id].2 == before.tokens[id].2
            && if ids.contains(id) {
            after.tokens[id].0 == receiver && after.tokens[id].1 == Set::<ActorID>::empty()
        } else {
            after.tokens[id] == before.tokens[id]
        }
    &&& forall|actor: ActorID| #[trigger]
        counted(after.owners, actor) == tally(after.tokens, actor)
    &&& forall|actor: ActorID| #[trigger]
        delegates(after.owners, actor) == delegates(before.owners, actor)
}

/// Whether just the tokens of a list are gone, and everything else is as it was. Every actor's count
/// is the number of tokens they own.
pub open spec fn taken_out(before: Holdings, after: Holdings, ids: Seq<TokenID>) -> bool {
    &&& distinct(ids)
    &&& all_there(before, ids)
    &&& forall|id: TokenID| #[trigger]
        after.tokens.contains_key(id) == (before.tokens.contains_key(id) && !ids.contains(id))
    &&& forall|id: TokenID| #[trigger]
        after.tokens.contains_key(id) ==> after.tokens[id] == before.tokens[id]
    &&& forall|actor: ActorID| #[trigger]
        counted(after.owners, actor) == tally(after.tokens, actor)
    &&& forall|actor: ActorID| #[trigger]
        delegates(after.owners, actor) == delegates(before.owners, actor)
}

/// Counts are right in a balanced collection.
pub proof fn counts_are_right(held: Holdings, actor: ActorID)
    requires
        held.balanced(),
    ensures
        counted(held.owners, actor) == tally(held.tokens, actor),
{
    nft_laws::lemma_right(held, actor);
    assert(collection::owned_by(held.tokens, actor) =~= held.tokens.dom().filter(
        |id: TokenID| held.tokens[id].0 == actor,
    ));
}

/// A check of a right lets pass just what is entitled.
pub proof fn a_check_is_right(authority: Authority, held: Holdings, id: TokenID)
    requires
        held.balanced(),
        held.tokens.contains_key(id),
        id < u64::MAX,
    ensures
        authority.checked(held, id) is Ok == entitled(authority, held, id),
        !entitled(authority, held, id) ==> authority.checked(held, id)->Err_0 == match authority {
            Authority::Operator(actor) => NftFault::NotAuthorized { actor, token_id: id },
            Authority::Owner(actor) | Authority::Manager(actor) => NftFault::NotOwner {
                actor,
                token_id: id,
            },
            Authority::Granted => NftFault::Invariant,
        },
{
}

/// What a check lets pass is there and entitled.
proof fn lemma_checked(authority: Authority, held: Holdings, id: TokenID)
    requires
        authority.checked(held, id) is Ok,
    ensures
        held.tokens.contains_key(id) || authority is Granted,
        entitled(authority, held, id),
{
}

/// A check of all tokens of a list lets them pass just where each passes.
pub proof fn checked_one_by_one(authority: Authority, held: Holdings, ids: Seq<TokenID>, n: nat)
    requires
        n <= ids.len(),
    ensures
        authority.checked_all(held, ids, n) is Ok <==> forall|i: int|
            0 <= i < n ==> authority.checked(held, #[trigger] ids[i]) is Ok,
    decreases n,
{
    if n > 0 {
        checked_one_by_one(authority, held, ids, (n - 1) as nat);
    }
}

/// A list that was checked by a right is there, and entitled.
pub proof fn checked_all_entitled(authority: Authority, held: Holdings, ids: Seq<TokenID>)
    requires
        !(authority is Granted),
        authority.checked_all(held, ids, ids.len()) is Ok,
    ensures
        all_there(held, ids),
        all_entitled(authority, held, ids),
{
    checked_one_by_one(authority, held, ids, ids.len());
    assert forall|i: int| 0 <= i < ids.len() implies held.tokens.contains_key(#[trigger] ids[i])
        && entitled(authority, held, ids[i]) by {
        assert(authority.checked(held, ids[i]) is Ok);
        lemma_checked(authority, held, ids[i]);
    }
}

/// A list that is there and entitled is let pass.
pub proof fn entitled_all_checked(authority: Authority, held: Holdings, ids: Seq<TokenID>)
    requires
        held.balanced(),
        all_there(held, ids),
        all_entitled(authority, held, ids),
        forall|id: TokenID| #[trigger] held.tokens.contains_key(id) ==> id < u64::MAX,
    ensures
        authority.checked_all(held, ids, ids.len()) is Ok,
{
    checked_one_by_one(authority, held, ids, ids.len());
    assert forall|i: int| 0 <= i < ids.len() implies authority.checked(
        held,
        #[trigger] ids[i],
    ) is Ok by {
        assert(held.tokens.contains_key(ids[i]));
        a_check_is_right(authority, held, ids[i]);
    }
}

/// A batch that was dealt with was dealt with up to each of its tokens.
pub proof fn lemma_batch_before(
    held: Holdings,
    ids: Seq<TokenID>,
    m: nat,
    n: nat,
    authority: Authority,
    action: Action,
)
    requires
        m <= n,
        batch::batch(held, ids, n, authority, action) is Ok,
    ensures
        batch::batch(held, ids, m, authority, action) is Ok,
{
    if batch::batch(held, ids, m, authority, action) is Err {
        batch::lemma_batch_refused(held, ids, m, n, authority, action);
    }
}

/// A batch of approvals gives each of its tokens the operator and changes nothing else. The owner of
/// each token had the right.
pub proof fn a_batch_of_approvals(
    held: Holdings,
    ids: Seq<TokenID>,
    n: nat,
    authority: Authority,
    operator: ActorID,
)
    requires
        n <= ids.len(),
        batch::batch(held, ids, n, authority, Action::Approve(operator)) is Ok,
    ensures
        batch::batch(held, ids, n, authority, Action::Approve(operator))->Ok_0.owners
            == held.owners,
        authorised(
            held.tokens,
            batch::batch(held, ids, n, authority, Action::Approve(operator))->Ok_0.tokens,
            ids.take(n as int),
            operator,
        ),
        all_there(held, ids.take(n as int)),
        !(authority is Operator) ==> all_entitled(authority, held, ids.take(n as int)),
    decreases n,
{
    let action = Action::Approve(operator);
    if n == 0 {
        assert(!exists|id: TokenID| ids.take(0).contains(id));
    } else {
        let m = (n - 1) as nat;
        lemma_batch_before(held, ids, m, n, authority, action);
        a_batch_of_approvals(held, ids, m, authority, operator);
        promises::lemma_take_last(ids, n as int);
        let between = batch::batch(held, ids, m, authority, action)->Ok_0;
        let after = batch::batch(held, ids, n, authority, action)->Ok_0;
        let last = ids[m as int];
        let tokens = between.tokens;
        assert(authority.checked(between, last) is Ok);
        lemma_checked(authority, between, last);
        assert(tokens.contains_key(last));
        assert(after.tokens == tokens.insert(
            last,
            (tokens[last].0, tokens[last].1.insert(operator), tokens[last].2),
        ));
        assert forall|id: TokenID| #[trigger] after.tokens.contains_key(id) implies after.tokens[id].0
            == held.tokens[id].0 && after.tokens[id].2 == held.tokens[id].2 by {
            assert(tokens.contains_key(id));
        }
        assert forall|id: TokenID, x: ActorID|
            after.tokens.contains_key(id) implies (#[trigger] after.tokens[id].1.contains(x)
            <==> held.tokens[id].1.contains(x) || (ids.take(n as int).contains(id) && x
            == operator)) by {
            assert(tokens.contains_key(id));
            let was = tokens[id].1.contains(x);
            if id == last {
                assert(after.tokens[id].1 == tokens[last].1.insert(operator));
            } else {
                assert(after.tokens[id] == tokens[id]);
            }
        }
        lemma_list_so_far(ids, n, held, authority);
    }
}

/// What holds of all tokens but the last and of the last holds of all.
proof fn lemma_list_so_far(ids: Seq<TokenID>, n: nat, held: Holdings, authority: Authority)
    requires
        0 < n <= ids.len(),
    ensures
        all_there(held, ids.take(n - 1)) && held.tokens.contains_key(ids[n - 1]) ==> all_there(
            held,
            ids.take(n as int),
        ),
        all_entitled(authority, held, ids.take(n - 1)) && entitled(authority, held, ids[n - 1])
            ==> all_entitled(authority, held, ids.take(n as int)),
{
    let m = n - 1;
    assert forall|i: int| 0 <= i < n && i != m implies #[trigger] ids.take(n as int)[i] == ids.take(
        m,
    )[i] by {}
    assert(ids.take(n as int)[m] == ids[m]);
}

/// A batch of revocations takes the operator off each of its tokens and changes nothing else. The
/// owner of each token had the right.
pub proof fn a_batch_of_revocations(
    held: Holdings,
    ids: Seq<TokenID>,
    n: nat,
    authority: Authority,
    operator: ActorID,
)
    requires
        n <= ids.len(),
        batch::batch(held, ids, n, authority, Action::Revoke(operator)) is Ok,
    ensures
        batch::batch(held, ids, n, authority, Action::Revoke(operator))->Ok_0.owners == held.owners,
        deprived(
            held.tokens,
            batch::batch(held, ids, n, authority, Action::Revoke(operator))->Ok_0.tokens,
            ids.take(n as int),
            operator,
        ),
        all_there(held, ids.take(n as int)),
        !(authority is Operator) ==> all_entitled(authority, held, ids.take(n as int)),
    decreases n,
{
    let action = Action::Revoke(operator);
    if n == 0 {
        assert(!exists|id: TokenID| ids.take(0).contains(id));
    } else {
        let m = (n - 1) as nat;
        lemma_batch_before(held, ids, m, n, authority, action);
        a_batch_of_revocations(held, ids, m, authority, operator);
        promises::lemma_take_last(ids, n as int);
        let between = batch::batch(held, ids, m, authority, action)->Ok_0;
        let after = batch::batch(held, ids, n, authority, action)->Ok_0;
        let last = ids[m as int];
        let tokens = between.tokens;
        assert(authority.checked(between, last) is Ok);
        lemma_checked(authority, between, last);
        assert(tokens.contains_key(last));
        assert(after.tokens == tokens.insert(
            last,
            (tokens[last].0, tokens[last].1.remove(operator), tokens[last].2),
        ));
        assert forall|id: TokenID| #[trigger] after.tokens.contains_key(id) implies after.tokens[id].0
            == held.tokens[id].0 && after.tokens[id].2 == held.tokens[id].2 by {
            assert(tokens.contains_key(id));
        }
        assert forall|id: TokenID, x: ActorID|
            after.tokens.contains_key(id) implies (#[trigger] after.tokens[id].1.contains(x)
            <==> held.tokens[id].1.contains(x) && !(ids.take(n as int).contains(id) && x
            == operator)) by {
            assert(tokens.contains_key(id));
            let was = tokens[id].1.contains(x);
            if id == last {
                assert(after.tokens[id].1 == tokens[last].1.remove(operator));
            } else {
                assert(after.tokens[id] == tokens[id]);
            }
        }
        lemma_list_so_far(ids, n, held, authority);
    }
}

/// Whoever has the right to all tokens of a list approves or revokes an operator for them, where the
/// operators are few.
pub proof fn the_entitled_change_operators(
    whole: Collection,
    ids: Seq<TokenID>,
    n: nat,
    authority: Authority,
    operator: ActorID,
)
    requires
        whole.regular(),
        n <= ids.len(),
        !(authority is Operator),
        operator < u64::MAX,
        all_there(whole.held, ids),
        all_entitled(authority, whole.held, ids),
        forall|i: int|
            0 <= i < ids.len() ==> nft_store::few(
                whole.held.tokens[#[trigger] ids[i]].1.insert(operator),
            ),
    ensures
        batch::batch(whole.held, ids, n, authority, Action::Approve(operator)) is Ok,
        batch::batch(whole.held, ids, n, authority, Action::Revoke(operator)) is Ok,
    decreases n,
{
    if n > 0 {
        let m = (n - 1) as nat;
        let held = whole.held;
        let last = ids[m as int];
        let taken = ids.take(m as int);
        the_entitled_change_operators(whole, ids, m, authority, operator);
        a_batch_of_approvals(held, ids, m, authority, operator);
        a_batch_of_revocations(held, ids, m, authority, operator);
        let more = batch::batch(held, ids, m, authority, Action::Approve(operator))->Ok_0;
        let less = batch::batch(held, ids, m, authority, Action::Revoke(operator))->Ok_0;
        assert(held.tokens.contains_key(last));
        assert(more.tokens.contains_key(last) && less.tokens.contains_key(last));
        assert(entitled(authority, held, last));
        assert(authority.checked(more, last) is Ok);
        assert(authority.checked(less, last) is Ok);
        let all = held.tokens[last].1.insert(operator);
        assert(nft_store::few(all));
        assert(more.tokens[last].1.insert(operator) =~= all);
        assert(less.tokens[last].1.remove(operator).subset_of(all));
        vstd::set_lib::lemma_len_subset(less.tokens[last].1.remove(operator), all);
    }
}

/// A batch of transfers gives each of its tokens to the receiver. Who gave it had the right to it when
/// the batch began.
pub proof fn a_batch_of_transfers(
    whole: Collection,
    ids: Seq<TokenID>,
    n: nat,
    authority: Authority,
    receiver: ActorID,
)
    requires
        whole.regular(),
        n <= ids.len(),
        batch::batch(whole.held, ids, n, authority, Action::HandOn(receiver)) is Ok,
    ensures
        given(
            whole.held,
            batch::batch(whole.held, ids, n, authority, Action::HandOn(receiver))->Ok_0,
            ids.take(n as int),
            receiver,
        ),
        (Collection {
            held: batch::batch(whole.held, ids, n, authority, Action::HandOn(receiver))->Ok_0,
            ..whole
        }).regular(),
        all_there(whole.held, ids.take(n as int)),
        all_entitled(authority, whole.held, ids.take(n as int)) || !distinct(ids),
        nft_state::handing_on(receiver).done(whole.held, ids, n) == Ok::<_, NftFault>(
            batch::batch(whole.held, ids, n, authority, Action::HandOn(receiver))->Ok_0,
        ),
    decreases n,
{
    let action = Action::HandOn(receiver);
    let held = whole.held;
    let after = batch::batch(held, ids, n, authority, action)->Ok_0;
    if n > 0 {
        let m = (n - 1) as nat;
        let last = ids[m as int];
        lemma_batch_before(held, ids, m, n, authority, action);
        a_batch_of_transfers(whole, ids, m, authority, receiver);
        let between = batch::batch(held, ids, m, authority, action)->Ok_0;
        assert(authority.checked(between, last) is Ok);
        lemma_checked(authority, between, last);
        assert(between.tokens.contains_key(last));
        assert(held.tokens.contains_key(last));
        lemma_list_so_far(ids, n, held, authority);
        if distinct(ids) {
            if ids.take(m as int).contains(last) {
                let i = choose|i: int| 0 <= i < m && ids.take(m as int)[i] == last;
                assert(ids[i] == ids[m as int]);
            }
            assert(between.tokens[last] == held.tokens[last]);
            assert(delegates(between.owners, held.tokens[last].0) == delegates(
                held.owners,
                held.tokens[last].0,
            ));
            assert(entitled(authority, held, last));
        }
    }
    assert forall|i: int| 0 <= i < n implies held.tokens.contains_key(#[trigger] ids[i]) by {
        assert(ids.take(n as int)[i] == ids[i]);
    }
    nft_laws::transfer_law(whole, ids, n, receiver);
    assert forall|actor: ActorID| #[trigger] counted(after.owners, actor) == tally(
        after.tokens,
        actor,
    ) by {
        counts_are_right(after, actor);
    }
    assert forall|actor: ActorID| #[trigger]
        delegates(after.owners, actor) == delegates(held.owners, actor) by {
        assert(collection::owner_info(after.owners, keys::key_of(actor)).1
            == collection::owner_info(held.owners, keys::key_of(actor)).1);
    }
    assert forall|id: TokenID| #[trigger] after.tokens.contains_key(id) == held.tokens.contains_key(
        id,
    ) by {
        assert(after.tokens.dom().contains(id) == held.tokens.dom().contains(id));
    }
}

/// Whoever has the right to all tokens of a list, none of which is named twice, gives them away.
pub proof fn the_entitled_transfer(
    whole: Collection,
    ids: Seq<TokenID>,
    n: nat,
    authority: Authority,
    receiver: ActorID,
)
    requires
        whole.regular(),
        n <= ids.len(),
        all_there(whole.held, ids),
        all_entitled(authority, whole.held, ids),
        distinct(ids) || authority is Granted,
    ensures
        batch::batch(whole.held, ids, n, authority, Action::HandOn(receiver)) is Ok,
    decreases n,
{
    if n > 0 {
        let action = Action::HandOn(receiver);
        let held = whole.held;
        let m = (n - 1) as nat;
        let last = ids[m as int];
        the_entitled_transfer(whole, ids, m, authority, receiver);
        a_batch_of_transfers(whole, ids, m, authority, receiver);
        let between = batch::batch(held, ids, m, authority, action)->Ok_0;
        assert(held.tokens.contains_key(last));
        assert(between.tokens.contains_key(last));
        if !(authority is Granted) {
            if ids.take(m as int).contains(last) {
                let i = choose|i: int| 0 <= i < m && ids.take(m as int)[i] == last;
                assert(ids[i] == ids[m as int]);
            }
            assert(between.tokens[last] == held.tokens[last]);
            assert(delegates(between.owners, held.tokens[last].0) == delegates(
                held.owners,
                held.tokens[last].0,
            ));
            assert(entitled(authority, held, last));
            a_check_is_right(authority, between, last);
        }
        nft_laws::transfer_law(whole, ids, n, receiver);
    }
}

/// A batch of removals takes its tokens out and leaves the owners. Who took them out had the right to
/// them.
pub proof fn a_batch_of_removals(
    held: Holdings,
    ids: Seq<TokenID>,
    n: nat,
    authority: Authority,
)
    requires
        n <= ids.len(),
        batch::batch(held, ids, n, authority, Action::Remove) is Ok,
    ensures
        batch::batch(held, ids, n, authority, Action::Remove)->Ok_0.owners == held.owners,
        nft_state::burning().done(held.tokens, ids, n) == Ok::<_, NftFault>(
            batch::batch(held, ids, n, authority, Action::Remove)->Ok_0.tokens,
        ),
        all_entitled(authority, held, ids.take(n as int)),
    decreases n,
{
    if n > 0 {
        let m = (n - 1) as nat;
        let last = ids[m as int];
        lemma_batch_before(held, ids, m, n, authority, Action::Remove);
        a_batch_of_removals(held, ids, m, authority);
        let between = batch::batch(held, ids, m, authority, Action::Remove)->Ok_0;
        assert(authority.checked(between, last) is Ok);
        lemma_checked(authority, between, last);
        promises::lemma_burnt(held.tokens, ids, m);
        assert(between.tokens.contains_key(last));
        lemma_list_so_far(ids, n, held, authority);
    }
}

/// Whoever has the right to all tokens of a list, none of which is named twice, takes them out.
pub proof fn the_entitled_remove(
    whole: Collection,
    ids: Seq<TokenID>,
    n: nat,
    authority: Authority,
)
    requires
        whole.regular(),
        n <= ids.len(),
        all_there(whole.held, ids),
        all_entitled(authority, whole.held, ids),
        distinct(ids),
    ensures
        batch::batch(whole.held, ids, n, authority, Action::Remove) is Ok,
    decreases n,
{
    if n > 0 {
        let held = whole.held;
        let m = (n - 1) as nat;
        let last = ids[m as int];
        the_entitled_remove(whole, ids, m, authority);
        a_batch_of_removals(held, ids, m, authority);
        promises::lemma_burnt(held.tokens, ids, m);
        let between = batch::batch(held, ids, m, authority, Action::Remove)->Ok_0;
        assert(held.tokens.contains_key(last));
        assert(nft_state::burning().done(held.tokens, ids, m)->Ok_0 == between.tokens);
        if ids.take(m as int).contains(last) {
            let i = choose|i: int| 0 <= i < m && ids.take(m as int)[i] == last;
            assert(ids[i] == ids[m as int]);
        }
        assert(!ids.take(m as int).contains(last));
        assert(between.tokens.contains_key(last));
        assert(between.tokens[last] == held.tokens[last]);
        assert(entitled(authority, held, last));
        assert(held.owners.contains_key(keys::key_of(held.tokens[last].0)));
        assert(authority.checked(between, last) is Ok);
    }
}

/// A batch of burns by an operator takes its tokens out, and off their owners' counts. The operator had
/// the right to them.
pub proof fn a_batch_of_burns(whole: Collection, ids: Seq<TokenID>, n: nat, operator: ActorID)
    requires
        whole.regular(),
        n <= ids.len(),
        batch::batch(whole.held, ids, n, Authority::Operator(operator), Action::Burn) is Ok,
    ensures
        taken_out(
            whole.held,
            batch::batch(whole.held, ids, n, Authority::Operator(operator), Action::Burn)->Ok_0,
            ids.take(n as int),
        ),
        all_entitled(Authority::Operator(operator), whole.held, ids.take(n as int)),
    decreases n,
{
    let authority = Authority::Operator(operator);
    let held = whole.held;
    let after = batch::batch(held, ids, n, authority, Action::Burn)->Ok_0;
    laws::operator_burn_law(whole, operator, ids, n);
    assert forall|actor: ActorID| #[trigger] counted(after.owners, actor) == tally(
        after.tokens,
        actor,
    ) by {
        counts_are_right(after, actor);
    }
    if n == 0 {
        assert(!exists|id: TokenID| ids.take(0).contains(id));
    } else {
        let m = (n - 1) as nat;
        let last = ids[m as int];
        lemma_batch_before(held, ids, m, n, authority, Action::Burn);
        a_batch_of_burns(whole, ids, m, operator);
        promises::lemma_take_last(ids, n as int);
        let between = batch::batch(held, ids, m, authority, Action::Burn)->Ok_0;
        assert(authority.checked(between, last) is Ok);
        lemma_checked(authority, between, last);
        assert(between.tokens.contains_key(last));
        assert(between.tokens[last] == held.tokens[last]);
        assert(delegates(between.owners, held.tokens[last].0) == delegates(
            held.owners,
            held.tokens[last].0,
        ));
        lemma_list_so_far(ids, n, held, authority);
        assert(after.tokens == between.tokens.remove(last));
        assert forall|actor: ActorID| #[trigger]
            delegates(after.owners, actor) == delegates(held.owners, actor) by {
            keys::keys_differ(actor, between.tokens[last].0);
            assert(delegates(between.owners, actor) == delegates(held.owners, actor));
        }
        let named = ids.take(n as int);
        assert forall|i: int, j: int| 0 <= i < j < named.len() implies #[trigger] named[i]
            != #[trigger] named[j] by {
            let before = ids.take(m as int);
            assert(before[i] == named[i]);
            if j < m {
                assert(before[j] == named[j]);
            } else {
                assert(before.contains(named[i]));
            }
        }
    }
}

/// An operator with the right to all tokens of a list, none of which is named twice, burns them.
pub proof fn the_entitled_burn(whole: Collection, ids: Seq<TokenID>, n: nat, operator: ActorID)
    requires
        whole.regular(),
        n <= ids.len(),
        all_there(whole.held, ids),
        all_entitled(Authority::Operator(operator), whole.held, ids),
        distinct(ids),
    ensures
        batch::batch(whole.held, ids, n, Authority::Operator(operator), Action::Burn) is Ok,
        n <= whole.supply,
    decreases n,
{
    if n > 0 {
        let authority = Authority::Operator(operator);
        let held = whole.held;
        let m = (n - 1) as nat;
        let last = ids[m as int];
        the_entitled_burn(whole, ids, m, operator);
        a_batch_of_burns(whole, ids, m, operator);
        laws::operator_burn_law(whole, operator, ids, m);
        let between = batch::batch(held, ids, m, authority, Action::Burn)->Ok_0;
        assert(held.tokens.contains_key(last));
        if ids.take(m as int).contains(last) {
            let i = choose|i: int| 0 <= i < m && ids.take(m as int)[i] == last;
            assert(ids[i] == ids[m as int]);
        }
        assert(between.tokens.contains_key(last));
        assert(between.tokens[last] == held.tokens[last]);
        let owner = held.tokens[last].0;
        assert(delegates(between.owners, owner) == delegates(held.owners, owner));
        assert(entitled(authority, held, last));
        a_check_is_right(authority, between, last);
        let middle = Collection { held: between, supply: (whole.supply - m) as u64, ..whole };
        nft_laws::burn_law(middle, owner, seq![last]);
        laws::operator_burn_law(whole, operator, ids, n);
    }
}

/// What is done with one token, token by token: an approval adds the operator, a revocation takes it off,
/// and both leave everything else; a burn and a removal take the token out; a transfer gives it to the
/// receiver without operators. A token that is not there is not dealt with.
pub proof fn one_token_is_dealt_with(
    bs: &mut Store,
    token_data: &Cid,
    owner_data: &Cid,
    action: Action,
    id: TokenID,
    r: Result<(Cid, Cid), StateError>,
)
    requires
        nft_store::tokens_at(old(bs)@, token_data@) is Some,
        nft_store::owners_at(old(bs)@, owner_data@, HAMT_BIT_WIDTH) is Some,
        call_ensures(batch::act, (bs, token_data, owner_data, action, id), r),
    ensures
        r is Ok ==> {
            let before = nft_store::tokens_at(old(bs)@, token_data@)->0;
            let after = nft_store::tokens_at(final(bs)@, r->Ok_0.0@)->0;
            &&& before.contains_key(id)
            &&& match action {
                Action::Approve(operator) => authorised(before, after, seq![id], operator),
                Action::Revoke(operator) => deprived(before, after, seq![id], operator),
                Action::Remove | Action::Burn => after == before.remove(id),
                Action::HandOn(receiver) => after == before.insert(
                    id,
                    (receiver, Set::empty(), before[id].2),
                ),
            }
        },
        !nft_store::tokens_at(old(bs)@, token_data@)->0.contains_key(id) ==> r is Err,
        r is Ok && !(action is Burn) && !(action is HandOn) ==> nft_store::owners_at(
            final(bs)@,
            r->Ok_0.1@,
            HAMT_BIT_WIDTH,
        ) == nft_store::owners_at(old(bs)@, owner_data@, HAMT_BIT_WIDTH),
{
    let held = nft_state::holdings_at(old(bs)@, token_data@, owner_data@)->0;
    assert(nft_state::holdings_at(old(bs)@, token_data@, owner_data@) is Some);
    assert(seq![id][0] == id);
    assert(seq![id].contains(id));
    assert forall|x: TokenID| #[trigger] seq![id].contains(x) implies x == id by {}
}

/// A right to a token is granted just to who has it: to its owner, to its operators and to who acts for
/// the account that owns it, or to its owner and to who acts for that account.
pub proof fn rights_are_granted_to_who_has_them(
    bs: Store,
    token_data: &Cid,
    owner_data: &Cid,
    actor: ActorID,
    id: TokenID,
    owner: Result<(), StateError>,
    operator: Result<(), StateError>,
    manager: Result<(), StateError>,
    approved: Result<bool, StateError>,
)
    requires
        nft_store::tokens_at(bs@, token_data@) is Some,
        nft_store::owners_at(bs@, owner_data@, HAMT_BIT_WIDTH) is Some,
        ({
            let tokens = nft_store::tokens_at(bs@, token_data@)->0;
            let owners = nft_store::owners_at(bs@, owner_data@, HAMT_BIT_WIDTH)->0;
            tokens.contains_key(id) && id < u64::MAX && owners.contains_key(
                keys::key_of(tokens[id].0),
            )
        }),
        call_ensures(
            batch::authorize,
            (&bs, token_data, owner_data, Authority::Owner(actor), id),
            owner,
        ),
        call_ensures(
            batch::authorize,
            (&bs, token_data, owner_data, Authority::Operator(actor), id),
            operator,
        ),
        call_ensures(
            batch::authorize,
            (&bs, token_data, owner_data, Authority::Manager(actor), id),
            manager,
        ),
        call_ensures(batch::check_approved, (&bs, token_data, owner_data, actor, id), approved),
    ensures
        ({
            let token = nft_store::tokens_at(bs@, token_data@)->0[id];
            let acting = delegates(
                nft_store::owners_at(bs@, owner_data@, HAMT_BIT_WIDTH)->0,
                token.0,
            );
            &&& owner is Ok == (token.0 == actor)
            &&& operator is Ok == (token.1.contains(actor) || acting.contains(actor))
            &&& manager is Ok == (token.0 == actor || acting.contains(actor))
            &&& approved is Ok && approved->Ok_0 == (token.1.contains(actor) || acting.contains(
                actor,
            ))
        }),
{
    let held = nft_state::holdings_at(bs@, token_data@, owner_data@)->0;
    assert(nft_state::holdings_at(bs@, token_data@, owner_data@) is Some);
}

} // verus!
