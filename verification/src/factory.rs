//! The factory's state and the operations on it. None of them talks to the
//! host: the sender of a command, and the host's answer to a request for a new
//! program, are handed in by the caller.

use vstd::prelude::*;
use crate::io::{
    ActorId, CodeId, FactoryAction, FactoryError, FactoryEvent, Handled, Id, InitConfig,
    InitConfigFactory, Query, QueryReply, Record, SpawnRequest,
};
use crate::laws::{
    lemma_agreement_is_of_the_indexes, lemma_creation_keeps_agreement,
    lemma_removal_keeps_agreement,
};
use crate::model::{
    FactoryView, Step, is_first_position, lemma_first_position, list_holds, next_id,
};
use crate::tables::{AddressMap, RegistryMap};

verus! {

/// The state of a factory. It is made once, by [`init`], and changed in place by
/// the operations below. The two indexes agree as long as they are changed by
/// these operations alone and the counter has room to grow.
#[derive(Debug)]
pub struct StateFactory {
    pub number: Id,
    pub code_id: CodeId,
    pub factory_admin_account: Vec<ActorId>,
    pub gas_for_program: u64,
    pub id_to_address: AddressMap,
    pub registry: RegistryMap,
}

impl View for StateFactory {
    type V = FactoryView;

    open spec fn view(&self) -> FactoryView {
        FactoryView {
            number: self.number,
            code_id: self.code_id,
            factory_admin_account: self.factory_admin_account@,
            gas_for_program: self.gas_for_program,
            id_to_address: self.id_to_address@,
            registry: self.registry@,
        }
    }
}

/// The state of a factory that has done nothing yet: no program created, the
/// code, the admins and the gas as `config` gives them, both indexes empty.
pub open spec fn fresh(config: InitConfigFactory) -> FactoryView {
    FactoryView {
        number: 0,
        code_id: config.code_id,
        factory_admin_account: config.factory_admin_account@,
        gas_for_program: config.gas_for_program,
        id_to_address: Map::empty(),
        registry: Map::empty(),
    }
}

/// Makes the factory's state from its configuration.
pub fn init(config: InitConfigFactory) -> (factory: StateFactory)
    ensures
        factory@ == fresh(config),
        factory@.indexes_agree(),
{
    StateFactory {
        number: 0,
        code_id: config.code_id,
        factory_admin_account: config.factory_admin_account,
        gas_for_program: config.gas_for_program,
        id_to_address: AddressMap::empty(),
        registry: RegistryMap::empty(),
    }
}

impl Default for StateFactory {
    /// A factory with no admin, no gas and the all-zero code reference, which has
    /// done nothing yet.
    fn default() -> (factory: StateFactory)
        ensures
            factory@.number == 0,
            forall|i: int| 0 <= i < 32 ==> factory@.code_id.0[i] == 0,
            factory@.factory_admin_account == Seq::<ActorId>::empty(),
            factory@.gas_for_program == 0,
            factory@.id_to_address == Map::<Id, ActorId>::empty(),
            factory@.registry == Map::<ActorId, Seq<(Id, Record)>>::empty(),
    {
        StateFactory {
            number: 0,
            code_id: CodeId([0u8; 32]),
            factory_admin_account: Vec::new(),
            gas_for_program: 0,
            id_to_address: AddressMap::empty(),
            registry: RegistryMap::empty(),
        }
    }
}

/// Looks for the first entry of `list` that carries `id`.
pub fn position(list: &Vec<(Id, Record)>, id: Id) -> (found: Option<usize>)
    ensures
        found is Some ==> is_first_position(list@, id, found->Some_0 as int),
        found is None ==> !list_holds(list@, id),
{
    let mut i: usize = 0;
    while i < list.len()
        invariant
            i <= list.len(),
            forall|j: int| 0 <= j < i ==> (#[trigger] list[j]).0 != id,
        decreases list.len() - i,
    {
        if list[i].0 == id {
            return Some(i);
        }
        i += 1;
    }
    None
}

impl StateFactory {
    /// Whether `who` is one of the admins.
    pub fn is_admin(&self, who: ActorId) -> (yes: bool)
        ensures
            yes == self@.is_admin(who),
    {
        let mut i: usize = 0;
        while i < self.factory_admin_account.len()
            invariant
                i <= self.factory_admin_account.len(),
                forall|j: int| 0 <= j < i ==> self.factory_admin_account[j] != who,
            decreases self.factory_admin_account.len() - i,
        {
            if self.factory_admin_account[i] == who {
                return true;
            }
            i += 1;
        }
        false
    }

    /// The first half of creating a program: what to ask of the host. The
    /// payload is a copy of `init_config`; the state is not touched.
    pub fn spawn_request(&self, init_config: &InitConfig) -> (request: SpawnRequest)
        ensures
            request == self@.spawn_request(init_config.field),
    {
        SpawnRequest {
            code_id: self.code_id,
            payload: InitConfig { field: init_config.field.clone() },
            gas_limit: self.gas_for_program,
            value: 0,
            reply_deposit: 0,
        }
    }

    /// The second half of creating a program, for `source`, who may be anyone:
    /// `spawned` is what came of the request to the host, the address of the new
    /// program or the host's words on why there is none.
    ///
    /// Without an address nothing changes. With one, the program is entered
    /// under the next identifier in both indexes.
    pub fn create_program(
        &mut self,
        source: ActorId,
        init_config: InitConfig,
        spawned: Result<ActorId, String>,
    ) -> (reply: Result<FactoryEvent, FactoryError>)
        ensures
            old(self)@.creation(source, init_config, spawned, final(self)@, reply),
            spawned is Err ==> final(self)@ == old(self)@ && reply is Err,
            spawned is Ok ==> final(self).number == next_id(old(self).number) && reply is Ok,
            old(self)@.indexes_agree() && old(self).number < u64::MAX
                ==> final(self)@.indexes_agree(),
    {
        match spawned {
            Err(detail) => Err(FactoryError::ProgramInitializationFailedWithContext(detail)),
            Ok(address) => {
                proof {
                    if self@.indexes_agree() && self.number < u64::MAX {
                        lemma_creation_keeps_agreement(
                            self@,
                            source,
                            address,
                            Record { field: init_config.field },
                        );
                    }
                }
                self.number = self.number.saturating_add(1);
                let id = self.number;
                self.id_to_address.insert_if_absent(id, address);
                let record = Record { field: init_config.field.clone() };
                let programs_for_actor = self.registry.entry_or_default(source);
                programs_for_actor.push((id, record));
                Ok(FactoryEvent::ProgramCreated { id, address, init_config })
            },
        }
    }

    /// Sets the gas that each new program gets, if `source` is an admin.
    pub fn update_gas_for_program(&mut self, source: ActorId, new_gas_amount: u64) -> (reply: Result<
        FactoryEvent,
        FactoryError,
    >)
        ensures
            old(self)@.gas_update(source, new_gas_amount, final(self)@, reply),
            !old(self)@.is_admin(source) ==> final(self)@ == old(self)@ && reply is Err
                && reply->Err_0 == FactoryError::Unauthorized,
            old(self)@.indexes_agree() ==> final(self)@.indexes_agree(),
    {
        if self.is_admin(source) {
            self.gas_for_program = new_gas_amount;
            proof {
                if old(self)@.indexes_agree() {
                    lemma_agreement_is_of_the_indexes(old(self)@, self@);
                }
            }
            Ok(FactoryEvent::GasUpdatedSuccessfully { updated_by: source, new_gas_amount })
        } else {
            Err(FactoryError::Unauthorized)
        }
    }

    /// Sets the code from which new programs are made, if `source` is an admin.
    pub fn update_code_id(&mut self, source: ActorId, new_code_id: CodeId) -> (reply: Result<
        FactoryEvent,
        FactoryError,
    >)
        ensures
            old(self)@.code_update(source, new_code_id, final(self)@, reply),
            !old(self)@.is_admin(source) ==> final(self)@ == old(self)@ && reply is Err
                && reply->Err_0 == FactoryError::Unauthorized,
            old(self)@.indexes_agree() ==> final(self)@.indexes_agree(),
    {
        if self.is_admin(source) {
            self.code_id = new_code_id;
            proof {
                if old(self)@.indexes_agree() {
                    lemma_agreement_is_of_the_indexes(old(self)@, self@);
                }
            }
            Ok(FactoryEvent::CodeIdUpdatedSuccessfully { updated_by: source, new_code_id })
        } else {
            Err(FactoryError::Unauthorized)
        }
    }

    /// Adds `admin_actor_id` at the end of the admins, if `source` is an admin.
    /// One who is an admin already is added once more.
    pub fn add_admin_to_factory(&mut self, source: ActorId, admin_actor_id: ActorId) -> (reply:
        Result<FactoryEvent, FactoryError>)
        ensures
            old(self)@.admin_addition(source, admin_actor_id, final(self)@, reply),
            !old(self)@.is_admin(source) ==> final(self)@ == old(self)@ && reply is Err
                && reply->Err_0 == FactoryError::Unauthorized,
            old(self)@.indexes_agree() ==> final(self)@.indexes_agree(),
    {
        if self.is_admin(source) {
            self.factory_admin_account.push(admin_actor_id);
            proof {
                if old(self)@.indexes_agree() {
                    lemma_agreement_is_of_the_indexes(old(self)@, self@);
                }
            }
            Ok(FactoryEvent::AdminAdded { updated_by: source, admin_actor_id })
        } else {
            Err(FactoryError::Unauthorized)
        }
    }

    /// Removes the program `program_for_id` from both indexes, if `source` is an
    /// admin.
    ///
    /// The address goes first; an identifier without an address is reported and
    /// nothing changes. Then the creators are gone through, in the order in which
    /// the registry walks them, and the first whose list carries the identifier
    /// loses its first entry for it. If none does, that is reported, and the
    /// address stays gone.
    pub fn remove_registry(&mut self, source: ActorId, program_for_id: Id) -> (reply: Result<
        FactoryEvent,
        FactoryError,
    >)
        ensures
            old(self)@.removal(source, program_for_id, final(self)@, reply),
            !old(self)@.is_admin(source) ==> final(self)@ == old(self)@ && reply is Err
                && reply->Err_0 == FactoryError::Unauthorized,
            old(self)@.is_admin(source) && !old(self)@.id_to_address.contains_key(program_for_id)
                ==> final(self)@ == old(self)@ && reply is Err && reply->Err_0
                == FactoryError::IdNotFoundInAddress,
            old(self)@.is_admin(source) && old(self)@.id_to_address.contains_key(program_for_id)
                && !old(self)@.recorded(program_for_id) ==> final(self)@ == old(self)@.unlisted(
                program_for_id,
            ) && reply is Err && reply->Err_0 == FactoryError::IdNotFound,
            old(self)@.indexes_agree() ==> final(self)@.indexes_agree() && reply
                != Err::<FactoryEvent, FactoryError>(FactoryError::IdNotFound),
    {
        if !self.is_admin(source) {
            return Err(FactoryError::Unauthorized);
        }
        if self.id_to_address.remove(program_for_id).is_none() {
            assert(self.id_to_address@ =~= old(self).id_to_address@);
            return Err(FactoryError::IdNotFoundInAddress);
        }
        let owners = self.registry.owners();
        let mut i: usize = 0;
        while i < owners.len()
            invariant
                i <= owners.len(),
                old(self)@.is_admin(source),
                old(self)@.id_to_address.contains_key(program_for_id),
                self@ == old(self)@.unlisted(program_for_id),
                forall|owner: ActorId|
                    owners@.contains(owner) == self.registry@.contains_key(owner),
                forall|j: int| 0 <= j < i ==> !self@.holds(#[trigger] owners[j], program_for_id),
            decreases owners.len() - i,
        {
            let owner = owners[i];
            let ghost before = self@;
            assert(owners@.contains(owner));
            match self.registry.get_mut(owner) {
                Some(info) => {
                    match position(info, program_for_id) {
                        Some(pos) => {
                            proof {
                                lemma_first_position(info@, program_for_id, pos as int);
                            }
                            info.remove(pos);
                            proof {
                                assert(old(self)@.holds(owner, program_for_id));
                                assert(old(self)@.recorded(program_for_id));
                                assert(self@ == old(self)@.step(
                                    Step::Removed { id: program_for_id, owner },
                                ));
                                if old(self)@.indexes_agree() {
                                    lemma_removal_keeps_agreement(
                                        old(self)@,
                                        program_for_id,
                                        owner,
                                    );
                                }
                            }
                            return Ok(
                                FactoryEvent::RegistryRemoved { removed_by: source, program_for_id },
                            );
                        },
                        None => {},
                    }
                },
                None => {},
            }
            assert(self.registry@ =~= before.registry);
            i += 1;
        }
        assert forall|owner: ActorId| !old(self)@.holds(owner, program_for_id) by {
            if old(self)@.registry.contains_key(owner) {
                assert(owners@.contains(owner));
                let j = choose|j: int| 0 <= j < owners@.len() && owners@[j] == owner;
                assert(!self@.holds(owners[j], program_for_id));
            }
        }
        Err(FactoryError::IdNotFound)
    }

    /// Carries out `action`, sent by `source`, as far as that can be done without
    /// the host: every command but the creation of a program is done and
    /// answered; for a creation, the request to the host is made ready and the
    /// state is left as it is.
    pub fn handle(&mut self, source: ActorId, action: FactoryAction) -> (handled: Handled)
        ensures
            old(self)@.handling(source, action, final(self)@, handled),
            !(action is CreateProgram) ==> handled is Reply,
            !(action is CreateProgram) && !old(self)@.is_admin(source) ==> final(self)@
                == old(self)@ && handled->Reply_0 is Err && handled->Reply_0->Err_0
                == FactoryError::Unauthorized,
            old(self)@.indexes_agree() ==> final(self)@.indexes_agree(),
    {
        match action {
            FactoryAction::CreateProgram { init_config } => {
                let request = self.spawn_request(&init_config);
                Handled::Spawn { request, init_config }
            },
            FactoryAction::AddAdmin { admin_actor_id } => Handled::Reply(
                self.add_admin_to_factory(source, admin_actor_id),
            ),
            FactoryAction::UpdateGasProgram(new_gas_amount) => Handled::Reply(
                self.update_gas_for_program(source, new_gas_amount),
            ),
            FactoryAction::CodeIdUpdate { new_code_id } => Handled::Reply(
                self.update_code_id(source, new_code_id),
            ),
            FactoryAction::RemoveRegistry { id } => Handled::Reply(self.remove_registry(source, id)),
        }
    }

    /// The address of the program `id`, if it has one.
    pub fn address_of(&self, id: Id) -> (address: Option<ActorId>)
        ensures
            address is Some == self@.id_to_address.contains_key(id),
            address is Some ==> address->Some_0 == self@.id_to_address[id],
    {
        self.id_to_address.get(id)
    }

    /// The number of programs that have an address.
    pub fn live_programs(&self) -> (count: usize)
        ensures
            self@.id_to_address.dom().finite(),
            count == self@.id_to_address.len(),
    {
        self.id_to_address.len()
    }

    /// A copy of the list of programs that `owner` had created, oldest first;
    /// empty if there is none.
    pub fn programs_of(&self, owner: ActorId) -> (programs: Vec<(Id, Record)>)
        ensures
            programs@ == self@.programs_of(owner),
    {
        let mut programs: Vec<(Id, Record)> = Vec::new();
        match self.registry.get(owner) {
            Some(list) => {
                let mut i: usize = 0;
                while i < list.len()
                    invariant
                        i <= list.len(),
                        programs@ == list@.take(i as int),
                    decreases list.len() - i,
                {
                    programs.push((list[i].0, Record { field: list[i].1.field.clone() }));
                    assert(programs@ =~= list@.take(i + 1));
                    i += 1;
                }
                assert(list@.take(list.len() as int) =~= list@);
            },
            None => {},
        }
        programs
    }
}

/// Answers a read-only query from the factory's state, which is used up.
pub fn state(factory: StateFactory, query: Query) -> (reply: QueryReply)
    ensures
        factory@.answers(query, reply),
{
    match query {
        Query::Number => QueryReply::Number(factory.number),
        Query::CodeId => QueryReply::CodeId(factory.code_id),
        Query::FactoryAdminAccount => QueryReply::FactoryAdminAccount(factory.factory_admin_account),
        Query::GasForProgram => QueryReply::GasForProgram(factory.gas_for_program),
        Query::IdToAddress => QueryReply::IdToAddress(factory.id_to_address.into_pairs()),
        Query::Registry => QueryReply::Registry(factory.registry.into_pairs()),
    }
}

} // verus!
