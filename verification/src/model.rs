//! The factory as a mathematical object: what its state holds, and what each
//! change does to it. The contracts of the executable operations are stated over
//! these definitions.

use vstd::prelude::*;
use crate::io::{
    ActorId, CodeId, FactoryAction, FactoryError, FactoryEvent, Handled, Id, InitConfig, Query,
    QueryReply, Record, SpawnRequest,
};
use crate::tables::{listed_programs, lists};

verus! {

/// The identifier that follows `number`: one more, except that the counter stays
/// at its largest value once it has reached it.
pub open spec fn next_id(number: Id) -> Id {
    if number == u64::MAX {
        number
    } else {
        (number + 1) as u64
    }
}

/// Some entry of `list` carries `id`.
pub open spec fn list_holds(list: Seq<(Id, Record)>, id: Id) -> bool {
    exists|i: int| 0 <= i < list.len() && (#[trigger] list[i]).0 == id
}

/// `at` is the place of the first entry of `list` that carries `id`.
pub open spec fn is_first_position(list: Seq<(Id, Record)>, id: Id, at: int) -> bool {
    &&& 0 <= at < list.len()
    &&& list[at].0 == id
    &&& forall|j: int| 0 <= j < at ==> (#[trigger] list[j]).0 != id
}

/// The place of the first entry of `list` that carries `id`, where there is one.
pub open spec fn first_position(list: Seq<(Id, Record)>, id: Id) -> int {
    choose|at: int| is_first_position(list, id, at)
}

/// `list` without the first of its entries that carry `id`.
pub open spec fn without_first(list: Seq<(Id, Record)>, id: Id) -> Seq<(Id, Record)> {
    list.remove(first_position(list, id))
}

/// There is one first place at most: the place of the first entry that carries
/// `id` is `at` as soon as `at` is such a place, and the list then carries `id`.
pub proof fn lemma_first_position(list: Seq<(Id, Record)>, id: Id, at: int)
    requires
        is_first_position(list, id, at),
    ensures
        first_position(list, id) == at,
        list_holds(list, id),
{
    let chosen = first_position(list, id);
    assert(is_first_position(list, id, chosen));
    if chosen < at {
        assert(list[chosen].0 != id);
    }
    if at < chosen {
        assert(list[at].0 != id);
    }
}

/// The state of a factory.
pub struct FactoryView {
    /// The highest identifier issued so far.
    pub number: Id,
    /// The code from which new programs are made.
    pub code_id: CodeId,
    /// The admins, in the order in which they were added; one may occur twice.
    pub factory_admin_account: Seq<ActorId>,
    /// The gas that each new program gets.
    pub gas_for_program: u64,
    /// The address of every created program that has not been removed.
    pub id_to_address: Map<Id, ActorId>,
    /// For each creator, the programs it had created, oldest first.
    pub registry: Map<ActorId, Seq<(Id, Record)>>,
}

/// One change of a factory's state.
pub enum Step {
    /// A program was created at `address` on behalf of `source`.
    Created { source: ActorId, address: ActorId, record: Record },
    /// The gas for new programs was set to `gas`.
    GasUpdated { gas: u64 },
    /// The code for new programs was set to `code_id`.
    CodeUpdated { code_id: CodeId },
    /// `admin` was added to the admins.
    AdminAdded { admin: ActorId },
    /// `id` left the index of addresses, and the registry stayed as it was.
    Unlisted { id: Id },
    /// `id` left the index of addresses, and `owner`'s list lost its first entry
    /// for it.
    Removed { id: Id, owner: ActorId },
}

impl FactoryView {
    /// `who` is one of the admins.
    pub open spec fn is_admin(self, who: ActorId) -> bool {
        self.factory_admin_account.contains(who)
    }

    /// The programs that `owner` had created; none if it is not in the registry.
    pub open spec fn programs_of(self, owner: ActorId) -> Seq<(Id, Record)> {
        if self.registry.contains_key(owner) {
            self.registry[owner]
        } else {
            Seq::empty()
        }
    }

    /// The list of `owner` carries `id`.
    pub open spec fn holds(self, owner: ActorId, id: Id) -> bool {
        self.registry.contains_key(owner) && list_holds(self.registry[owner], id)
    }

    /// Some creator's list carries `id`.
    pub open spec fn recorded(self, id: Id) -> bool {
        exists|owner: ActorId| self.holds(owner, id)
    }

    /// The two indexes agree: every identifier with an address was issued and
    /// stands in some creator's list; every entry of a list has an address; and
    /// no identifier stands in two entries, be it of one list or of two.
    pub open spec fn indexes_agree(self) -> bool {
        &&& forall|id: Id| #[trigger]
            self.id_to_address.contains_key(id) ==> 1 <= id <= self.number && self.recorded(id)
        &&& forall|owner: ActorId, i: int|
            self.registry.contains_key(owner) && 0 <= i < self.registry[owner].len()
                ==> self.id_to_address.contains_key((#[trigger] self.registry[owner][i]).0)
        &&& forall|owner: ActorId, i: int, other: ActorId, j: int|
            self.registry.contains_key(owner) && 0 <= i < self.registry[owner].len()
                && self.registry.contains_key(other) && 0 <= j < self.registry[other].len() && (
            #[trigger] self.registry[owner][i]).0 == (#[trigger] self.registry[other][j]).0
                ==> owner == other && i == j
    }

    /// The state after the index of addresses has lost `id`.
    pub open spec fn unlisted(self, id: Id) -> FactoryView {
        FactoryView { id_to_address: self.id_to_address.remove(id), ..self }
    }

    /// The state after a program was created at `address` for `source`: the
    /// counter moves on, the new identifier gets the address unless it has one
    /// already, and the creator's list grows by one entry at its end.
    pub open spec fn created(self, source: ActorId, address: ActorId, record: Record) -> FactoryView {
        let id = next_id(self.number);
        FactoryView {
            number: id,
            id_to_address: if self.id_to_address.contains_key(id) {
                self.id_to_address
            } else {
                self.id_to_address.insert(id, address)
            },
            registry: self.registry.insert(source, self.programs_of(source).push((id, record))),
            ..self
        }
    }

    /// The state after `step`.
    pub open spec fn step(self, step: Step) -> FactoryView {
        match step {
            Step::Created { source, address, record } => self.created(source, address, record),
            Step::GasUpdated { gas } => FactoryView { gas_for_program: gas, ..self },
            Step::CodeUpdated { code_id } => FactoryView { code_id, ..self },
            Step::AdminAdded { admin } => FactoryView {
                factory_admin_account: self.factory_admin_account.push(admin),
                ..self
            },
            Step::Unlisted { id } => self.unlisted(id),
            Step::Removed { id, owner } => FactoryView {
                registry: self.registry.insert(owner, without_first(self.registry[owner], id)),
                ..self.unlisted(id)
            },
        }
    }

    /// What the host is asked for when a program is to be created with `field`
    /// as its payload: the current code and gas, no value and no deposit.
    pub open spec fn spawn_request(self, field: String) -> SpawnRequest {
        SpawnRequest {
            code_id: self.code_id,
            payload: InitConfig { field },
            gas_limit: self.gas_for_program,
            value: 0,
            reply_deposit: 0,
        }
    }

    /// What becomes of a command to create a program, sent by `source`, once
    /// the host has answered with `spawned`. A refusal changes nothing and is
    /// passed on with the host's words. An address makes the creation happen,
    /// and the report carries the new identifier.
    pub open spec fn creation(
        self,
        source: ActorId,
        init_config: InitConfig,
        spawned: Result<ActorId, String>,
        after: FactoryView,
        reply: Result<FactoryEvent, FactoryError>,
    ) -> bool {
        match spawned {
            Err(detail) => after == self && reply == Err::<FactoryEvent, FactoryError>(
                spawn_failed(detail),
            ),
            Ok(address) => after == self.step(
                Step::Created { source, address, record: Record { field: init_config.field } },
            ) && reply == Ok::<FactoryEvent, FactoryError>(
                program_created(next_id(self.number), address, init_config),
            ),
        }
    }

    /// What becomes of a command to set the gas for new programs to `gas`, sent
    /// by `source`: done if `source` is an admin, refused without a change if
    /// not.
    pub open spec fn gas_update(
        self,
        source: ActorId,
        gas: u64,
        after: FactoryView,
        reply: Result<FactoryEvent, FactoryError>,
    ) -> bool {
        if self.is_admin(source) {
            after == self.step(Step::GasUpdated { gas }) && reply == Ok::<
                FactoryEvent,
                FactoryError,
            >(gas_updated(source, gas))
        } else {
            after == self && reply == Err::<FactoryEvent, FactoryError>(FactoryError::Unauthorized)
        }
    }

    /// What becomes of a command to set the code for new programs to `code_id`,
    /// sent by `source`: done if `source` is an admin, refused without a change
    /// if not.
    pub open spec fn code_update(
        self,
        source: ActorId,
        code_id: CodeId,
        after: FactoryView,
        reply: Result<FactoryEvent, FactoryError>,
    ) -> bool {
        if self.is_admin(source) {
            after == self.step(Step::CodeUpdated { code_id }) && reply == Ok::<
                FactoryEvent,
                FactoryError,
            >(code_id_updated(source, code_id))
        } else {
            after == self && reply == Err::<FactoryEvent, FactoryError>(FactoryError::Unauthorized)
        }
    }

    /// What becomes of a command to add `admin` to the admins, sent by `source`:
    /// done if `source` is an admin, whether or not `admin` is one already, and
    /// refused without a change if not.
    pub open spec fn admin_addition(
        self,
        source: ActorId,
        admin: ActorId,
        after: FactoryView,
        reply: Result<FactoryEvent, FactoryError>,
    ) -> bool {
        if self.is_admin(source) {
            after == self.step(Step::AdminAdded { admin }) && reply == Ok::<
                FactoryEvent,
                FactoryError,
            >(admin_added(source, admin))
        } else {
            after == self && reply == Err::<FactoryEvent, FactoryError>(FactoryError::Unauthorized)
        }
    }

    /// What becomes of a command to remove `id`, sent by `source`. One who is no
    /// admin is refused without a change. An identifier without an address is
    /// reported as such, again without a change. Otherwise the address goes.
    /// If then no creator's list carries the identifier, that is reported, and
    /// the address stays gone. If one does, a creator whose list carries it
    /// loses its first entry for it, and the removal is reported.
    pub open spec fn removal(
        self,
        source: ActorId,
        id: Id,
        after: FactoryView,
        reply: Result<FactoryEvent, FactoryError>,
    ) -> bool {
        if !self.is_admin(source) {
            after == self && reply == Err::<FactoryEvent, FactoryError>(FactoryError::Unauthorized)
        } else if !self.id_to_address.contains_key(id) {
            after == self && reply == Err::<FactoryEvent, FactoryError>(
                FactoryError::IdNotFoundInAddress,
            )
        } else if !self.recorded(id) {
            after == self.step(Step::Unlisted { id }) && reply == Err::<
                FactoryEvent,
                FactoryError,
            >(FactoryError::IdNotFound)
        } else {
            reply == Ok::<FactoryEvent, FactoryError>(registry_removed(source, id)) && exists|
                owner: ActorId,
            |
                self.holds(owner, id) && after == self.step(Step::Removed { id, owner })
        }
    }

    /// What becomes of `action`, sent by `source`. A command to create a program
    /// changes nothing yet and asks for the program; every other command is
    /// carried out and answered.
    pub open spec fn handling(
        self,
        source: ActorId,
        action: FactoryAction,
        after: FactoryView,
        handled: Handled,
    ) -> bool {
        match action {
            FactoryAction::CreateProgram { init_config } => after == self && handled
                == (Handled::Spawn { request: self.spawn_request(init_config.field), init_config }),
            FactoryAction::CodeIdUpdate { new_code_id } => handled is Reply && self.code_update(
                source,
                new_code_id,
                after,
                handled->Reply_0,
            ),
            FactoryAction::UpdateGasProgram(gas) => handled is Reply && self.gas_update(
                source,
                gas,
                after,
                handled->Reply_0,
            ),
            FactoryAction::AddAdmin { admin_actor_id } => handled is Reply && self.admin_addition(
                source,
                admin_actor_id,
                after,
                handled->Reply_0,
            ),
            FactoryAction::RemoveRegistry { id } => handled is Reply && self.removal(
                source,
                id,
                after,
                handled->Reply_0,
            ),
        }
    }

    /// What becomes of `action`, sent by `source`, from its arrival to its answer
    /// `reply`, where `spawned` is what the host says if it is asked for a
    /// program.
    pub open spec fn completes(
        self,
        source: ActorId,
        action: FactoryAction,
        spawned: Result<ActorId, String>,
        after: FactoryView,
        reply: Result<FactoryEvent, FactoryError>,
    ) -> bool {
        match action {
            FactoryAction::CreateProgram { init_config } => self.creation(
                source,
                init_config,
                spawned,
                after,
                reply,
            ),
            _ => self.handling(source, action, after, Handled::Reply(reply)),
        }
    }

    /// `reply` answers `query` with what the state holds: the counter, the code,
    /// the admins in their order, the gas, or one of the two indexes as a list of
    /// its keys, each once and with its value.
    pub open spec fn answers(self, query: Query, reply: QueryReply) -> bool {
        match query {
            Query::Number => reply == QueryReply::Number(self.number),
            Query::CodeId => reply == QueryReply::CodeId(self.code_id),
            Query::FactoryAdminAccount => reply is FactoryAdminAccount
                && reply->FactoryAdminAccount_0@ == self.factory_admin_account,
            Query::GasForProgram => reply == QueryReply::GasForProgram(self.gas_for_program),
            Query::IdToAddress => reply is IdToAddress && lists(
                reply->IdToAddress_0@,
                self.id_to_address,
            ),
            Query::Registry => reply is Registry && lists(
                listed_programs(reply->Registry_0@),
                self.registry,
            ),
        }
    }
}

/// The state that `steps`, taken in order, lead to from `start`.
pub open spec fn run(start: FactoryView, steps: Seq<Step>) -> FactoryView
    decreases steps.len(),
{
    if steps.len() == 0 {
        start
    } else {
        run(start, steps.drop_last()).step(steps.last())
    }
}

/// The report of a program created under `id` at `address`.
pub open spec fn program_created(id: Id, address: ActorId, init_config: InitConfig) -> FactoryEvent {
    FactoryEvent::ProgramCreated { id, address, init_config }
}

/// The report of a new amount of gas, set by `updated_by`.
pub open spec fn gas_updated(updated_by: ActorId, new_gas_amount: u64) -> FactoryEvent {
    FactoryEvent::GasUpdatedSuccessfully { updated_by, new_gas_amount }
}

/// The report of a new code reference, set by `updated_by`.
pub open spec fn code_id_updated(updated_by: ActorId, new_code_id: CodeId) -> FactoryEvent {
    FactoryEvent::CodeIdUpdatedSuccessfully { updated_by, new_code_id }
}

/// The report of a new admin, added by `updated_by`.
pub open spec fn admin_added(updated_by: ActorId, admin_actor_id: ActorId) -> FactoryEvent {
    FactoryEvent::AdminAdded { updated_by, admin_actor_id }
}

/// The report of a removal, made by `removed_by`.
pub open spec fn registry_removed(removed_by: ActorId, program_for_id: Id) -> FactoryEvent {
    FactoryEvent::RegistryRemoved { removed_by, program_for_id }
}

/// The failure of a creation that the host refused, with the host's words.
pub open spec fn spawn_failed(detail: String) -> FactoryError {
    FactoryError::ProgramInitializationFailedWithContext(detail)
}

} // verus!
