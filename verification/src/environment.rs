//! What an operation called by contract code works in: who called, which
//! contract runs, the ledger, the memory budget and the events emitted.

use crate::database::{ClarityDatabase, LedgerView};
use crate::errors::{CheckErrors, InterpreterError};
use crate::types::{
    AssetIdView, AssetIdentifier, ContractIdView, PrincipalData, PrincipalView,
    QualifiedContractIdentifier,
};
use crate::values::{Value, ValueView};
use vstd::prelude::*;

verus! {

/// A movement of value, as it is reported to those that follow the chain.
#[derive(Debug, PartialEq, Eq)]
pub enum StacksTransactionEvent {
    STXTransfer { sender: PrincipalData, recipient: PrincipalData, amount: u128 },
    STXBurn { sender: PrincipalData, amount: u128 },
    FTMint { asset_identifier: AssetIdentifier, recipient: PrincipalData, amount: u128 },
    FTTransfer {
        asset_identifier: AssetIdentifier,
        sender: PrincipalData,
        recipient: PrincipalData,
        amount: u128,
    },
    NFTMint { asset_identifier: AssetIdentifier, recipient: PrincipalData, value: Value },
    NFTTransfer {
        asset_identifier: AssetIdentifier,
        sender: PrincipalData,
        recipient: PrincipalData,
        value: Value,
    },
}

/// What an event says.
pub enum EventView {
    STXTransfer { sender: PrincipalView, recipient: PrincipalView, amount: u128 },
    STXBurn { sender: PrincipalView, amount: u128 },
    FTMint { asset_identifier: AssetIdView, recipient: PrincipalView, amount: u128 },
    FTTransfer {
        asset_identifier: AssetIdView,
        sender: PrincipalView,
        recipient: PrincipalView,
        amount: u128,
    },
    NFTMint { asset_identifier: AssetIdView, recipient: PrincipalView, value: ValueView },
    NFTTransfer {
        asset_identifier: AssetIdView,
        sender: PrincipalView,
        recipient: PrincipalView,
        value: ValueView,
    },
}

impl View for StacksTransactionEvent {
    type V = EventView;

    open spec fn view(&self) -> EventView {
        match self {
            StacksTransactionEvent::STXTransfer { sender, recipient, amount } => {
                EventView::STXTransfer { sender: sender@, recipient: recipient@, amount: *amount }
            },
            StacksTransactionEvent::STXBurn { sender, amount } => {
                EventView::STXBurn { sender: sender@, amount: *amount }
            },
            StacksTransactionEvent::FTMint { asset_identifier, recipient, amount } => {
                EventView::FTMint {
                    asset_identifier: asset_identifier@,
                    recipient: recipient@,
                    amount: *amount,
                }
            },
            StacksTransactionEvent::FTTransfer { asset_identifier, sender, recipient, amount } => {
                EventView::FTTransfer {
                    asset_identifier: asset_identifier@,
                    sender: sender@,
                    recipient: recipient@,
                    amount: *amount,
                }
            },
            StacksTransactionEvent::NFTMint { asset_identifier, recipient, value } => {
                EventView::NFTMint {
                    asset_identifier: asset_identifier@,
                    recipient: recipient@,
                    value: value@,
                }
            },
            StacksTransactionEvent::NFTTransfer { asset_identifier, sender, recipient, value } => {
                EventView::NFTTransfer {
                    asset_identifier: asset_identifier@,
                    sender: sender@,
                    recipient: recipient@,
                    value: value@,
                }
            },
        }
    }
}

/// The environment as a mathematical value.
pub struct EnvironmentView {
    /// The principal that authorized the transaction, if any.
    pub sender: Option<PrincipalView>,
    /// The contract whose code runs.
    pub contract: ContractIdView,
    pub ledger: LedgerView,
    /// The memory that the operations so far have accounted for.
    pub memory_used: u64,
    /// The most memory that may be accounted for.
    pub memory_limit: u64,
    /// The events emitted so far, oldest first.
    pub events: Seq<EventView>,
}

impl EnvironmentView {
    /// The environment after `memory` more bytes are accounted for, where
    /// the budget allows them.
    pub open spec fn charged(self, memory: nat) -> Option<EnvironmentView> {
        if self.memory_used + memory <= self.memory_limit {
            Some(EnvironmentView { memory_used: (self.memory_used + memory) as u64, ..self })
        } else {
            None
        }
    }

    /// The environment with another ledger.
    pub open spec fn with_ledger(self, ledger: LedgerView) -> EnvironmentView {
        EnvironmentView { ledger, ..self }
    }

    /// The environment after one more event.
    pub open spec fn emitting(self, event: EventView) -> EnvironmentView {
        EnvironmentView { events: self.events.push(event), ..self }
    }

    /// The asset of the running contract that has the given name.
    pub open spec fn asset(self, name: Seq<char>) -> AssetIdView {
        AssetIdView { contract: self.contract, name }
    }
}

/// The environment of an operation.
pub struct Environment {
    pub(crate) sender: Option<PrincipalData>,
    pub(crate) contract_identifier: QualifiedContractIdentifier,
    pub(crate) database: ClarityDatabase,
    pub(crate) memory_used: u64,
    pub(crate) memory_limit: u64,
    pub(crate) events: Vec<StacksTransactionEvent>,
}

impl View for Environment {
    type V = EnvironmentView;

    open(crate) spec fn view(&self) -> EnvironmentView {
        EnvironmentView {
            sender: match self.sender {
                Some(p) => Some(p@),
                None => None,
            },
            contract: self.contract_identifier@,
            ledger: self.database@,
            memory_used: self.memory_used,
            memory_limit: self.memory_limit,
            events: self.events@.map_values(|e: StacksTransactionEvent| e@),
        }
    }
}

impl Environment {
    /// The ledger is well formed, and the memory accounted for is within the
    /// budget.
    pub open(crate) spec fn wf(&self) -> bool {
        &&& self.database.wf()
        &&& self.memory_used <= self.memory_limit
    }

    /// An environment with nothing accounted for and no event emitted.
    pub fn new(
        sender: Option<PrincipalData>,
        contract_identifier: QualifiedContractIdentifier,
        database: ClarityDatabase,
        memory_limit: u64,
    ) -> (r: Environment)
        requires
            database.wf(),
        ensures
            r.wf(),
            r@ == (EnvironmentView {
                sender: match sender {
                    Some(p) => Some(p@),
                    None => None,
                },
                contract: contract_identifier@,
                ledger: database@,
                memory_used: 0,
                memory_limit,
                events: Seq::empty(),
            }),
    {
        let r = Environment {
            sender,
            contract_identifier,
            database,
            memory_used: 0,
            memory_limit,
            events: Vec::new(),
        };
        assert(r@.events =~= Seq::empty());
        r
    }

    /// The principal that authorized the transaction, if any.
    pub fn sender(&self) -> (r: &Option<PrincipalData>)
        ensures
            self@.sender == match *r {
                Some(p) => Some(p@),
                None => None::<PrincipalView>,
            },
    {
        &self.sender
    }

    /// The contract whose code runs.
    pub fn contract_identifier(&self) -> (r: &QualifiedContractIdentifier)
        ensures
            r@ == self@.contract,
    {
        &self.contract_identifier
    }

    /// The ledger.
    pub fn database(&self) -> (r: &ClarityDatabase)
        ensures
            r@ == self@.ledger,
            self.wf() ==> r.wf(),
    {
        &self.database
    }

    /// Ends the environment and hands out its ledger.
    pub fn into_database(self) -> (r: ClarityDatabase)
        ensures
            r@ == self@.ledger,
            self.wf() ==> r.wf(),
    {
        self.database
    }

    /// The memory accounted for so far.
    pub fn memory_used(&self) -> (r: u64)
        ensures
            r == self@.memory_used,
    {
        self.memory_used
    }

    /// The most memory that may be accounted for.
    pub fn memory_limit(&self) -> (r: u64)
        ensures
            r == self@.memory_limit,
    {
        self.memory_limit
    }

    /// The events emitted so far, oldest first.
    pub fn events(&self) -> (r: &Vec<StacksTransactionEvent>)
        ensures
            r@.map_values(|e: StacksTransactionEvent| e@) == self@.events,
    {
        &self.events
    }

    /// The asset of the running contract that has the given name.
    pub fn asset_identifier(&self, asset_name: &str) -> (r: AssetIdentifier)
        ensures
            r@ == self@.asset(asset_name@),
    {
        AssetIdentifier {
            contract_identifier: self.contract_identifier.clone(),
            asset_name: asset_name.to_owned(),
        }
    }

    /// Accounts for `memory` more bytes. Fails, and changes nothing, where
    /// that would pass the budget.
    pub fn add_memory(&mut self, memory: u64) -> (r: Result<(), InterpreterError>)
        requires
            old(self).wf(),
        ensures
            final(self).wf(),
            match old(self)@.charged(memory as nat) {
                Some(env) => r == Ok::<(), InterpreterError>(()) && final(self)@ == env,
                None => r == Err::<(), InterpreterError>(
                    InterpreterError::Unchecked(CheckErrors::MemoryBalanceExceeded),
                ) && final(self)@ == old(self)@,
            },
    {
        if memory > self.memory_limit - self.memory_used {
            return Err(InterpreterError::Unchecked(CheckErrors::MemoryBalanceExceeded));
        }
        self.memory_used = self.memory_used + memory;
        Ok(())
    }

    /// Emits an event.
    pub fn register_event(&mut self, event: StacksTransactionEvent)
        requires
            old(self).wf(),
        ensures
            final(self).wf(),
            final(self)@ == old(self)@.emitting(event@),
    {
        self.events.push(event);
        assert(self@.events =~= old(self)@.events.push(event@));
    }
}

} // verus!
