//! What a processor asks of the ledger: instructions to other programs and
//! changes to the data of the accounts it owns.

use crate::address::{seed_views, Address};
use vstd::prelude::*;

verus! {

/// An account as an instruction to another program names it.
#[derive(Clone, Copy, Debug, PartialEq, Eq)]
pub struct AccountMeta {
    pub pubkey: Address,
    pub is_signer: bool,
    pub is_writable: bool,
}

impl AccountMeta {
    /// An account that the instruction may change.
    pub open spec fn writable(pubkey: Address, is_signer: bool) -> AccountMeta {
        AccountMeta { pubkey, is_signer, is_writable: true }
    }

    /// An account that the instruction only reads.
    pub open spec fn readonly(pubkey: Address, is_signer: bool) -> AccountMeta {
        AccountMeta { pubkey, is_signer, is_writable: false }
    }
}

/// An instruction to another program.
#[derive(Clone, Debug, PartialEq, Eq)]
pub struct Instruction {
    pub program_id: Address,
    pub accounts: Vec<AccountMeta>,
    pub data: Vec<u8>,
}

/// An instruction, as specifications see it.
pub struct InstructionView {
    pub program_id: Address,
    pub accounts: Seq<AccountMeta>,
    pub data: Seq<u8>,
}

impl View for Instruction {
    type V = InstructionView;

    open spec fn view(&self) -> InstructionView {
        InstructionView { program_id: self.program_id, accounts: self.accounts@, data: self.data@ }
    }
}

/// One step that carries an accepted instruction out. Accounts are named by
/// their position in the list of accounts that the instruction came with.
#[derive(Clone, Debug, PartialEq, Eq)]
pub enum Effect {
    /// Invoke `instruction` with the accounts at the positions `accounts`.
    /// Where `signer_seeds` is not empty, the program signs for the address
    /// that these seeds derive.
    Invoke { instruction: Instruction, accounts: Vec<usize>, signer_seeds: Vec<Vec<u8>> },
    /// Overwrite the front of the data of the account at position `account`
    /// with `data`.
    Write { account: usize, data: Vec<u8> },
    /// Change the length of the data of the account at position `account`.
    Resize { account: usize, len: usize },
}

/// An effect, as specifications see it.
pub enum EffectView {
    Invoke { instruction: InstructionView, accounts: Seq<usize>, signer_seeds: Seq<Seq<u8>> },
    Write { account: usize, data: Seq<u8> },
    Resize { account: usize, len: usize },
}

impl View for Effect {
    type V = EffectView;

    open spec fn view(&self) -> EffectView {
        match *self {
            Effect::Invoke { instruction, accounts, signer_seeds } => EffectView::Invoke {
                instruction: instruction@,
                accounts: accounts@,
                signer_seeds: seed_views(signer_seeds@),
            },
            Effect::Write { account, data } => EffectView::Write { account, data: data@ },
            Effect::Resize { account, len } => EffectView::Resize { account, len },
        }
    }
}

/// The views of a list of effects, in order.
pub open spec fn views(effects: Seq<Effect>) -> Seq<EffectView> {
    effects.map_values(|e: Effect| e@)
}

/// An invocation that no program address signs.
pub open spec fn invoke(instruction: InstructionView, accounts: Seq<usize>) -> EffectView {
    EffectView::Invoke { instruction, accounts, signer_seeds: Seq::empty() }
}

/// An invocation that the address derived from `signer_seeds` signs.
pub open spec fn invoke_signed(
    instruction: InstructionView,
    accounts: Seq<usize>,
    signer_seeds: Seq<Seq<u8>>,
) -> EffectView {
    EffectView::Invoke { instruction, accounts, signer_seeds }
}

impl Effect {
    /// The invocation of `instruction` with the accounts at `accounts`.
    pub fn invoke(instruction: Instruction, accounts: Vec<usize>) -> (e: Effect)
        ensures
            e@ == invoke(instruction@, accounts@),
    {
        let signer_seeds: Vec<Vec<u8>> = Vec::new();
        assert(seed_views(signer_seeds@) =~= Seq::<Seq<u8>>::empty());
        Effect::Invoke { instruction, accounts, signer_seeds }
    }

    /// The invocation of `instruction` with the accounts at `accounts`,
    /// signed by the address that `signer_seeds` derive.
    pub fn invoke_signed(instruction: Instruction, accounts: Vec<usize>, signer_seeds: Vec<Vec<u8>>) -> (e:
        Effect)
        ensures
            e@ == invoke_signed(instruction@, accounts@, seed_views(signer_seeds@)),
    {
        Effect::Invoke { instruction, accounts, signer_seeds }
    }
}

/// What a processor answers: the effects of an accepted instruction, or the
/// error that rejects it. `expected` is the answer in views.
pub open spec fn answers<E>(r: Result<Vec<Effect>, E>, expected: Result<Seq<EffectView>, E>) -> bool {
    match r {
        Ok(effects) => expected == Ok::<Seq<EffectView>, E>(views(effects@)),
        Err(e) => expected == Err::<Seq<EffectView>, E>(e),
    }
}

} // verus!
