//! The data that crosses the factory's boundary: identifiers, commands, events,
//! errors, queries and their replies.

use vstd::prelude::*;
use vstd::std_specs::cmp::PartialEqSpecImpl;

verus! {

/// Identifier issued to a created program: a counter value, never handed out twice
/// while the counter has room to grow.
pub type Id = u64;

/// Address of an actor on the host: an admin, the sender of a command, or a
/// created program. Two addresses are equal exactly when their bytes are.
#[derive(Clone, Copy, Debug, Eq, Hash, Default)]
pub struct ActorId(pub [u8; 32]);

/// Reference to the code bundle from which new programs are made.
#[derive(Clone, Copy, Debug, Eq, Hash, Default)]
pub struct CodeId(pub [u8; 32]);

/// Compares two 32-byte identifiers byte by byte.
fn same_bytes(a: &[u8; 32], b: &[u8; 32]) -> (same: bool)
    ensures
        same == (*a == *b),
{
    let mut i: usize = 0;
    while i < 32
        invariant
            i <= 32,
            forall|j: int| 0 <= j < i ==> a[j] == b[j],
        decreases 32 - i,
    {
        if a[i] != b[i] {
            return false;
        }
        i += 1;
    }
    assert(*a =~= *b);
    true
}

impl PartialEq for ActorId {
    fn eq(&self, other: &Self) -> (same: bool) {
        same_bytes(&self.0, &other.0)
    }
}

impl PartialEqSpecImpl for ActorId {
    open spec fn obeys_eq_spec() -> bool {
        true
    }

    open spec fn eq_spec(&self, other: &Self) -> bool {
        *self == *other
    }
}

impl PartialEq for CodeId {
    fn eq(&self, other: &Self) -> (same: bool) {
        same_bytes(&self.0, &other.0)
    }
}

impl PartialEqSpecImpl for CodeId {
    open spec fn obeys_eq_spec() -> bool {
        true
    }

    open spec fn eq_spec(&self, other: &Self) -> bool {
        *self == *other
    }
}

/// Payload handed unchanged to a new program when it is created.
#[derive(Debug, Clone, PartialEq, Eq)]
pub struct InitConfig {
    pub field: String,
}

/// What the factory keeps of the payload of a program that it created.
#[derive(Debug, Clone, PartialEq, Eq)]
pub struct Record {
    pub field: String,
}

/// Configuration from which the factory's state is made, once.
#[derive(Debug, Clone, PartialEq, Eq)]
pub struct InitConfigFactory {
    pub code_id: CodeId,
    pub factory_admin_account: Vec<ActorId>,
    pub gas_for_program: u64,
}

/// A command to the factory.
#[derive(Debug, Clone, PartialEq, Eq)]
pub enum FactoryAction {
    CreateProgram { init_config: InitConfig },
    CodeIdUpdate { new_code_id: CodeId },
    UpdateGasProgram(u64),
    AddAdmin { admin_actor_id: ActorId },
    RemoveRegistry { id: Id },
}

/// What a command that succeeded reports.
#[derive(Debug, Clone, PartialEq, Eq)]
pub enum FactoryEvent {
    ProgramCreated { id: Id, address: ActorId, init_config: InitConfig },
    GasUpdatedSuccessfully { updated_by: ActorId, new_gas_amount: u64 },
    CodeIdUpdatedSuccessfully { updated_by: ActorId, new_code_id: CodeId },
    AdminAdded { updated_by: ActorId, admin_actor_id: ActorId },
    RegistryRemoved { removed_by: ActorId, program_for_id: Id },
}

/// Why a command failed. `ProgramInitializationFailed`, `UnexpectedFTEvent`,
/// `MessageSendError` and `NotFound` are kept for the stability of the interface;
/// no command produces them.
#[derive(Debug, Clone, PartialEq, Eq)]
pub enum FactoryError {
    ProgramInitializationFailed,
    ProgramInitializationFailedWithContext(String),
    Unauthorized,
    UnexpectedFTEvent,
    MessageSendError,
    NotFound,
    IdNotFoundInAddress,
    IdNotFound,
}

/// The part of the factory's state that a read-only query asks for.
#[derive(Debug, Clone, Copy, PartialEq, Eq)]
pub enum Query {
    Number,
    CodeId,
    FactoryAdminAccount,
    GasForProgram,
    IdToAddress,
    Registry,
}

/// The answer to a [`Query`]; the two indexes travel as lists of key and value.
#[derive(Debug, Clone, PartialEq, Eq)]
pub enum QueryReply {
    Number(Id),
    CodeId(CodeId),
    FactoryAdminAccount(Vec<ActorId>),
    GasForProgram(u64),
    IdToAddress(Vec<(Id, ActorId)>),
    Registry(Vec<(ActorId, Vec<(Id, Record)>)>),
}

/// What the host is asked for when a program is to be created: the code to
/// instantiate, the payload for the new program, the gas it gets, the value sent
/// along and the gas set aside for handling the host's answer.
#[derive(Debug, Clone, PartialEq, Eq)]
pub struct SpawnRequest {
    pub code_id: CodeId,
    pub payload: InitConfig,
    pub gas_limit: u64,
    pub value: u128,
    pub reply_deposit: u64,
}

/// What a factory does with a command: it answers at once, or it first needs a
/// program from the host.
#[derive(Debug, PartialEq, Eq)]
pub enum Handled {
    /// The command is done, and this is the answer to it.
    Reply(Result<FactoryEvent, FactoryError>),
    /// A program is to be created: `request` goes to the host, and the host's
    /// answer goes to `create_program`, with `init_config`.
    Spawn { request: SpawnRequest, init_config: InitConfig },
}

} // verus!
