# actors_utils

Building blocks for Filecoin actors, written in Verus: fungible tokens (FRC-46), non-fungible tokens
(FRC-53), the receiver hook that tells an actor of what it was given (FRC-58), and small actors made
from them. Every function of the library states what it does, and the statements are proved.

## Layout

- `src/` is the library.
  - `amount`, `address`, `bytes`, `keys`, `exit`: plain values that actors exchange.
  - `store`, `id_store`, `nft_store`, `bits`: blocks in memory, and the trees, arrays and bit fields
    that are kept in them. The trees themselves are those of `fvm_ipld_hamt` and `fvm_ipld_amt`; what
    is taken for granted of them is said above each function that calls them.
  - `fvm_actor_utils`: system calls, messaging, resolving of addresses, the receiver hook.
  - `ledger` and `laws`: what a fungible token's books are, and what every change of them keeps.
  - `frc46_token`, `frc46_factory_token`: the token library, and an actor whose token is described by
    its constructor's parameters.
  - `frc53_nft`, `frcxx_nft`: the collections of non-fungible tokens.
  - `fil_token`, `fil_fungible_token`: simpler tokens, the second with transactions.
  - `greeter`: an actor that greets.
- `tests/` are tests on concrete values.
- `app/` connects the library to the virtual machine: system calls through `fvm_sdk`, CBOR of the
  messages, and error messages.

## Reading the contracts

A state holds the roots of its trees, and its blocks lie in a store. What the two mean together is a
mathematical value: `ledger` for a fungible token (supply, balances, allowances), `collection` for
non-fungible ones (tokens, owners, next number, supply). The contracts say how an operation changes
that value, or which fault it has, whenever all blocks of the trees are in the store. The files
named `laws` state what holds of all operations together: that the supply is the sum of the balances,
that nothing is ever negative, that every token has one owner. Those named `histories` state what
holds after any number of them, and `accounts` what succeeds where the accounts that are needed can be
made. What the environment may answer to a message, and be like after it, is `answers` of `Syscalls`:
results that depend on an answer are stated through it, or through what the call itself promises.

What lies under the root of an array of tokens has to be a complete array, or nothing: `ready` says so
where it is required. It holds of a collection that comes from `new` and of whatever the operations
make of it, and of one that is loaded from where such a collection was saved, as long as its blocks
are still in the store. No function tests it: to look into an array that is damaged can panic in
`fvm_ipld_amt`, which has no call that only checks. Who loads a collection from blocks of unknown
origin has to know by other means that its array is whole.
