use vstd::prelude::*;
use crate::actions::{ActionView, OperationView};
use crate::address::Address;
use crate::constants::NATIVE_MINT;
use crate::token::TokenAccount;

verus! {

/// What is allocated at an address.
pub enum Storage {
    /// Storage that no program has initialised yet.
    Blank,
    /// A token account, neither frozen nor delegated.
    Token { account: TokenAccount },
}

/// A model of the ledger: what this library takes the ledger to hold, and to do when it
/// is handed an operation. It exists in proofs only. Signatures are left out: a
/// signature that is missing can only make the real ledger refuse more.
pub struct Ledger {
    /// Native balance by address; an address without an entry holds nothing.
    pub lamports: Map<Address, nat>,
    /// Storage by address; an address without an entry has none.
    pub storage: Map<Address, Storage>,
    /// The balance that keeps a token account alive.
    pub rent_exempt_minimum: nat,
}

/// Whether a mint is the wrapped form of the native asset.
pub open spec fn is_native(mint: Address) -> bool {
    mint.bytes == NATIVE_MINT
}

impl Ledger {
    /// The native balance at an address.
    pub open spec fn balance(self, address: Address) -> nat {
        if self.lamports.dom().contains(address) {
            self.lamports[address]
        } else {
            0
        }
    }

    /// Whether storage is allocated at an address.
    pub open spec fn allocated(self, address: Address) -> bool {
        self.storage.dom().contains(address)
    }

    /// The token account at an address, if there is one.
    pub open spec fn held(self, address: Address) -> Option<TokenAccount> {
        if self.allocated(address) {
            match self.storage[address] {
                Storage::Token { account } => Some(account),
                Storage::Blank => None,
            }
        } else {
            None
        }
    }

    /// The ledger with `address` holding `amount` of native balance.
    pub open spec fn with_balance(self, address: Address, amount: nat) -> Ledger {
        Ledger { lamports: self.lamports.insert(address, amount), ..self }
    }

    /// The ledger with `storage` at `address`.
    pub open spec fn with_storage(self, address: Address, storage: Storage) -> Ledger {
        Ledger { storage: self.storage.insert(address, storage), ..self }
    }

    /// The ledger after `amount` of native balance went from one address to another.
    pub open spec fn moved(self, from: Address, to: Address, amount: nat) -> Ledger {
        let debited = self.with_balance(from, (self.balance(from) - amount) as nat);
        debited.with_balance(to, debited.balance(to) + amount)
    }

    /// The ledger after a transfer of tokens, or `None` where it is refused: an account
    /// is missing, the mints differ, the authority is not the source's owner, the source
    /// holds too little or the destination would hold too much. A transfer from an
    /// account to itself changes nothing. Wrapped accounts carry their native balance
    /// along.
    pub open spec fn token_transfer(self, from: Address, to: Address, authority: Address, amount: u64) -> Option<Ledger> {
        match (self.held(from), self.held(to)) {
            (Some(source), Some(destination)) => {
                if source.mint != destination.mint || source.owner != authority || source.amount < amount {
                    None
                } else if from == to {
                    Some(self)
                } else if destination.amount + amount > u64::MAX || (is_native(source.mint) && self.balance(from)
                    < amount) {
                    None
                } else {
                    let paid = self.with_storage(
                        from,
                        Storage::Token { account: TokenAccount { amount: (source.amount - amount) as u64, ..source } },
                    ).with_storage(
                        to,
                        Storage::Token {
                            account: TokenAccount { amount: (destination.amount + amount) as u64, ..destination },
                        },
                    );
                    if is_native(source.mint) {
                        Some(paid.moved(from, to, amount as nat))
                    } else {
                        Some(paid)
                    }
                }
            },
            _ => None,
        }
    }

    /// The ledger after an account was created, or `None` where it is refused: the
    /// address is in use already, or the payer holds too little.
    pub open spec fn create_account(self, from: Address, to: Address, lamports: u64) -> Option<Ledger> {
        if self.allocated(to) || self.balance(to) > 0 || self.balance(from) < lamports {
            None
        } else {
            Some(self.moved(from, to, lamports as nat).with_storage(to, Storage::Blank))
        }
    }

    /// The ledger after blank storage became a token account, or `None` where it is
    /// refused: the storage is not blank, or its balance would not keep it alive. An
    /// account of the wrapped mint starts with what it holds above that balance; any
    /// other starts empty.
    pub open spec fn initialize_account(self, account: Address, mint: Address, authority: Address) -> Option<Ledger> {
        if !self.allocated(account) || self.storage[account] != Storage::Blank || self.balance(account)
            < self.rent_exempt_minimum {
            None
        } else {
            let amount = if is_native(mint) {
                self.balance(account) - self.rent_exempt_minimum
            } else {
                0
            };
            if amount > u64::MAX {
                None
            } else {
                Some(
                    self.with_storage(
                        account,
                        Storage::Token { account: TokenAccount { mint, owner: authority, amount: amount as u64 } },
                    ),
                )
            }
        }
    }

    /// The ledger after a wrapped account's amount was set to what it holds above the
    /// balance that keeps it alive, or `None` where it is refused: there is no wrapped
    /// account, or that amount is below what the account says it holds.
    pub open spec fn sync_native(self, account: Address) -> Option<Ledger> {
        match self.held(account) {
            Some(wrapped) => {
                let amount = self.balance(account) - self.rent_exempt_minimum;
                if !is_native(wrapped.mint) || amount < wrapped.amount || amount > u64::MAX {
                    None
                } else {
                    Some(
                        self.with_storage(
                            account,
                            Storage::Token { account: TokenAccount { amount: amount as u64, ..wrapped } },
                        ),
                    )
                }
            },
            None => None,
        }
    }

    /// The ledger after a token account was closed, or `None` where it is refused: there
    /// is no token account, it would be its own destination, the authority is not its
    /// owner, or it is not a wrapped account and still holds tokens. The whole native
    /// balance goes to the destination and the storage is gone.
    pub open spec fn close_account(self, account: Address, destination: Address, authority: Address) -> Option<Ledger> {
        match self.held(account) {
            Some(closing) => {
                if account == destination || closing.owner != authority || (!is_native(closing.mint)
                    && closing.amount != 0) {
                    None
                } else {
                    let swept = self.moved(account, destination, self.balance(account));
                    Some(Ledger { storage: swept.storage.remove(account), ..swept })
                }
            },
            None => None,
        }
    }

    /// The ledger after one operation, or `None` where the ledger refuses it. What
    /// another program does when invoked is not known here: `Invoke` has no outcome in
    /// this model.
    pub open spec fn apply(self, operation: OperationView) -> Option<Ledger> {
        match operation {
            OperationView::Emit { record } => Some(self),
            OperationView::SystemTransfer { program, from, to, lamports } => if self.balance(from) < lamports {
                None
            } else {
                Some(self.moved(from, to, lamports as nat))
            },
            OperationView::SyncNative { program, account } => self.sync_native(account),
            OperationView::TokenTransfer { program, from, to, authority, amount } => self.token_transfer(
                from,
                to,
                authority,
                amount,
            ),
            OperationView::CreateAccount { program, from, to, lamports, space, owner } => self.create_account(
                from,
                to,
                lamports,
            ),
            OperationView::InitializeAccount3 { program, account, mint, authority } => self.initialize_account(
                account,
                mint,
                authority,
            ),
            OperationView::CloseAccount { program, account, destination, authority } => self.close_account(
                account,
                destination,
                authority,
            ),
            OperationView::Invoke { instruction } => None,
        }
    }

    /// The ledger after a whole plan, carried out in order, or `None` as soon as one
    /// action is refused: a plan takes effect as a whole or not at all.
    pub open spec fn run(self, plan: Seq<ActionView>) -> Option<Ledger>
        decreases plan.len(),
    {
        if plan.len() == 0 {
            Some(self)
        } else {
            match self.apply(plan[0].operation) {
                Some(next) => next.run(plan.subrange(1, plan.len() as int)),
                None => None,
            }
        }
    }
}

/// A plan of one action does what the action does.
pub proof fn lemma_run_one(ledger: Ledger, a: ActionView)
    ensures
        ledger.run(seq![a]) == ledger.apply(a.operation),
{
    let plan = seq![a];
    assert(plan.subrange(1, plan.len() as int) =~= Seq::<ActionView>::empty());
    reveal_with_fuel(Ledger::run, 2);
}

/// A plan does what its first action does, and then what the rest of it does.
pub proof fn lemma_run_first(ledger: Ledger, a: ActionView, rest: Seq<ActionView>)
    ensures
        ledger.run(seq![a] + rest) == match ledger.apply(a.operation) {
            Some(next) => next.run(rest),
            None => None,
        },
{
    let plan = seq![a] + rest;
    assert(plan.subrange(1, plan.len() as int) =~= rest);
}

/// A plan of two actions does what the first does, and then what the second does.
pub proof fn lemma_run_two(ledger: Ledger, plan: Seq<ActionView>)
    requires
        plan.len() == 2,
    ensures
        ledger.run(plan) == match ledger.apply(plan[0].operation) {
            Some(next) => next.apply(plan[1].operation),
            None => None,
        },
{
    assert(plan =~= seq![plan[0]] + seq![plan[1]]);
    lemma_run_first(ledger, plan[0], seq![plan[1]]);
    if let Some(next) = ledger.apply(plan[0].operation) {
        lemma_run_one(next, plan[1]);
    }
}

} // verus!
