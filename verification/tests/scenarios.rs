use program_factory::factory::{init, state, StateFactory};
use program_factory::io::{
    ActorId, CodeId, FactoryAction, FactoryError, FactoryEvent, Handled, InitConfig,
    InitConfigFactory, Query, QueryReply, Record, SpawnRequest,
};

fn actor(tag: u8) -> ActorId {
    ActorId([tag; 32])
}

fn code(tag: u8) -> CodeId {
    CodeId([tag; 32])
}

fn payload(text: &str) -> InitConfig {
    InitConfig { field: text.to_string() }
}

fn record(text: &str) -> Record {
    Record { field: text.to_string() }
}

/// Admin 1, gas 100, code 9.
fn fresh_factory() -> StateFactory {
    init(InitConfigFactory {
        code_id: code(9),
        factory_admin_account: vec![actor(1)],
        gas_for_program: 100,
    })
}

#[test]
fn init_takes_the_configuration_and_starts_empty() {
    let factory = init(InitConfigFactory {
        code_id: code(9),
        factory_admin_account: vec![actor(1), actor(3)],
        gas_for_program: 100,
    });
    assert_eq!(factory.number, 0);
    assert_eq!(factory.code_id, code(9));
    assert_eq!(factory.factory_admin_account, vec![actor(1), actor(3)]);
    assert_eq!(factory.gas_for_program, 100);
    assert_eq!(factory.live_programs(), 0);
    assert_eq!(factory.address_of(1), None);
    assert_eq!(factory.programs_of(actor(1)), vec![]);
    assert_eq!(state(factory, Query::Registry), QueryReply::Registry(vec![]));
}

#[test]
fn default_factory_has_nothing() {
    let factory = StateFactory::default();
    assert_eq!(factory.number, 0);
    assert_eq!(factory.code_id, CodeId([0; 32]));
    assert!(factory.factory_admin_account.is_empty());
    assert_eq!(factory.gas_for_program, 0);
    assert_eq!(factory.live_programs(), 0);
    assert_eq!(state(factory, Query::Registry), QueryReply::Registry(vec![]));
}

#[test]
fn create_program_enters_the_program_in_both_indexes() {
    let mut factory = fresh_factory();
    let reply = factory.create_program(actor(2), payload("x"), Ok(actor(7)));
    assert_eq!(
        reply,
        Ok(FactoryEvent::ProgramCreated { id: 1, address: actor(7), init_config: payload("x") })
    );
    assert_eq!(factory.number, 1);
    assert_eq!(factory.address_of(1), Some(actor(7)));
    assert_eq!(factory.live_programs(), 1);
    assert_eq!(factory.programs_of(actor(2)), vec![(1, record("x"))]);
    assert_eq!(factory.programs_of(actor(1)), vec![]);
    assert_eq!(factory.programs_of(actor(7)), vec![]);
}

#[test]
fn create_program_scenario_as_seen_by_queries() {
    let mut first = fresh_factory();
    first.create_program(actor(2), payload("x"), Ok(actor(7))).unwrap();
    assert_eq!(state(first, Query::IdToAddress), QueryReply::IdToAddress(vec![(1, actor(7))]));

    let mut second = fresh_factory();
    second.create_program(actor(2), payload("x"), Ok(actor(7))).unwrap();
    assert_eq!(
        state(second, Query::Registry),
        QueryReply::Registry(vec![(actor(2), vec![(1, record("x"))])])
    );
}

#[test]
fn update_gas_by_an_admin() {
    let mut factory = fresh_factory();
    assert_eq!(
        factory.update_gas_for_program(actor(1), 200),
        Ok(FactoryEvent::GasUpdatedSuccessfully { updated_by: actor(1), new_gas_amount: 200 })
    );
    assert_eq!(factory.gas_for_program, 200);
}

#[test]
fn update_gas_by_someone_else() {
    let mut factory = fresh_factory();
    assert_eq!(factory.update_gas_for_program(actor(2), 200), Err(FactoryError::Unauthorized));
    assert_eq!(factory.gas_for_program, 100);
}

#[test]
fn add_admin_twice_keeps_both() {
    let mut factory = fresh_factory();
    assert_eq!(
        factory.add_admin_to_factory(actor(1), actor(4)),
        Ok(FactoryEvent::AdminAdded { updated_by: actor(1), admin_actor_id: actor(4) })
    );
    assert_eq!(
        factory.add_admin_to_factory(actor(1), actor(4)),
        Ok(FactoryEvent::AdminAdded { updated_by: actor(1), admin_actor_id: actor(4) })
    );
    assert_eq!(factory.factory_admin_account, vec![actor(1), actor(4), actor(4)]);
}

#[test]
fn a_new_admin_may_act() {
    let mut factory = fresh_factory();
    assert!(!factory.is_admin(actor(4)));
    assert_eq!(factory.update_code_id(actor(4), code(5)), Err(FactoryError::Unauthorized));
    factory.add_admin_to_factory(actor(1), actor(4)).unwrap();
    assert!(factory.is_admin(actor(4)));
    assert!(factory.is_admin(actor(1)));
    assert_eq!(
        factory.update_code_id(actor(4), code(5)),
        Ok(FactoryEvent::CodeIdUpdatedSuccessfully { updated_by: actor(4), new_code_id: code(5) })
    );
    assert_eq!(factory.code_id, code(5));
}

#[test]
fn addresses_differ_when_one_byte_differs() {
    let mut bytes = [1u8; 32];
    bytes[31] = 2;
    let near = ActorId(bytes);
    assert!(near != actor(1));
    assert!(ActorId([1; 32]) == actor(1));
    let factory = fresh_factory();
    assert!(factory.is_admin(actor(1)));
    assert!(!factory.is_admin(near));

    let mut code_bytes = [9u8; 32];
    code_bytes[0] = 8;
    assert!(CodeId(code_bytes) != code(9));
    assert!(CodeId([9; 32]) == code(9));
}

#[test]
fn spawn_request_carries_code_gas_and_payload() {
    let mut factory = fresh_factory();
    assert_eq!(
        factory.spawn_request(&payload("x")),
        SpawnRequest {
            code_id: code(9),
            payload: payload("x"),
            gas_limit: 100,
            value: 0,
            reply_deposit: 0,
        }
    );
    factory.update_gas_for_program(actor(1), 250).unwrap();
    factory.update_code_id(actor(1), code(6)).unwrap();
    let request = factory.spawn_request(&payload("y"));
    assert_eq!(request.code_id, code(6));
    assert_eq!(request.gas_limit, 250);
    assert_eq!(request.payload, payload("y"));
    assert_eq!(factory.number, 0);
}

#[test]
fn identifiers_count_up_from_one() {
    let mut factory = fresh_factory();
    for expected in 1..=5u64 {
        let address = actor(10 + expected as u8);
        let reply = factory.create_program(actor(2), payload("p"), Ok(address));
        assert_eq!(
            reply,
            Ok(FactoryEvent::ProgramCreated { id: expected, address, init_config: payload("p") })
        );
        assert_eq!(factory.number, expected);
        assert_eq!(factory.live_programs() as u64, expected);
    }
    assert_eq!(
        factory.remove_registry(actor(1), 2),
        Ok(FactoryEvent::RegistryRemoved { removed_by: actor(1), program_for_id: 2 })
    );
    assert_eq!(
        factory.remove_registry(actor(1), 4),
        Ok(FactoryEvent::RegistryRemoved { removed_by: actor(1), program_for_id: 4 })
    );
    assert_eq!(factory.number, 5);
    assert_eq!(factory.live_programs(), 3);
    let reply = factory.create_program(actor(3), payload("q"), Ok(actor(30)));
    assert_eq!(
        reply,
        Ok(FactoryEvent::ProgramCreated { id: 6, address: actor(30), init_config: payload("q") })
    );
    assert_eq!(factory.number, 6);
    assert_eq!(factory.live_programs(), 4);
    assert_eq!(factory.address_of(2), None);
    assert_eq!(factory.address_of(4), None);
    assert_eq!(factory.address_of(5), Some(actor(15)));
    assert_eq!(factory.address_of(6), Some(actor(30)));
    assert_eq!(
        factory.programs_of(actor(2)),
        vec![(1, record("p")), (3, record("p")), (5, record("p"))]
    );
    assert_eq!(factory.programs_of(actor(3)), vec![(6, record("q"))]);
}

#[test]
fn a_refused_spawn_changes_nothing() {
    let mut factory = fresh_factory();
    factory.create_program(actor(2), payload("x"), Ok(actor(7))).unwrap();
    let reply = factory.create_program(actor(2), payload("y"), Err("no gas".to_string()));
    assert_eq!(
        reply,
        Err(FactoryError::ProgramInitializationFailedWithContext("no gas".to_string()))
    );
    assert_eq!(factory.number, 1);
    assert_eq!(factory.live_programs(), 1);
    assert_eq!(factory.address_of(1), Some(actor(7)));
    assert_eq!(factory.address_of(2), None);
    assert_eq!(factory.programs_of(actor(2)), vec![(1, record("x"))]);
    assert_eq!(factory.gas_for_program, 100);
    assert_eq!(factory.code_id, code(9));
    assert_eq!(factory.factory_admin_account, vec![actor(1)]);
}

#[test]
fn a_refused_spawn_on_a_new_factory_leaves_no_list() {
    let mut factory = fresh_factory();
    let reply = factory.create_program(actor(2), payload("y"), Err(String::new()));
    assert_eq!(reply, Err(FactoryError::ProgramInitializationFailedWithContext(String::new())));
    assert_eq!(factory.number, 0);
    assert_eq!(state(factory, Query::Registry), QueryReply::Registry(vec![]));
}

#[test]
fn one_who_is_no_admin_is_refused_everywhere() {
    let mut factory = fresh_factory();
    factory.create_program(actor(2), payload("x"), Ok(actor(7))).unwrap();
    let outsider = actor(2);

    assert_eq!(factory.update_gas_for_program(outsider, 1), Err(FactoryError::Unauthorized));
    assert_eq!(factory.update_code_id(outsider, code(1)), Err(FactoryError::Unauthorized));
    assert_eq!(factory.add_admin_to_factory(outsider, outsider), Err(FactoryError::Unauthorized));
    assert_eq!(factory.remove_registry(outsider, 1), Err(FactoryError::Unauthorized));
    assert_eq!(factory.remove_registry(outsider, 5), Err(FactoryError::Unauthorized));

    assert_eq!(factory.number, 1);
    assert_eq!(factory.code_id, code(9));
    assert_eq!(factory.factory_admin_account, vec![actor(1)]);
    assert_eq!(factory.gas_for_program, 100);
    assert_eq!(factory.address_of(1), Some(actor(7)));
    assert_eq!(factory.live_programs(), 1);
    assert_eq!(factory.programs_of(actor(2)), vec![(1, record("x"))]);
}

#[test]
fn a_factory_without_admins_refuses_all_but_creation() {
    let mut factory = StateFactory::default();
    assert_eq!(factory.update_gas_for_program(actor(1), 1), Err(FactoryError::Unauthorized));
    assert_eq!(factory.add_admin_to_factory(actor(1), actor(1)), Err(FactoryError::Unauthorized));
    assert!(factory.create_program(actor(1), payload("x"), Ok(actor(7))).is_ok());
    assert_eq!(factory.remove_registry(actor(1), 1), Err(FactoryError::Unauthorized));
    assert_eq!(factory.address_of(1), Some(actor(7)));
}

#[test]
fn removing_an_unknown_identifier() {
    let mut factory = fresh_factory();
    factory.create_program(actor(2), payload("x"), Ok(actor(7))).unwrap();
    assert_eq!(factory.remove_registry(actor(1), 2), Err(FactoryError::IdNotFoundInAddress));
    assert_eq!(factory.remove_registry(actor(1), 0), Err(FactoryError::IdNotFoundInAddress));
    assert_eq!(factory.live_programs(), 1);
    assert_eq!(factory.address_of(1), Some(actor(7)));
    assert_eq!(factory.programs_of(actor(2)), vec![(1, record("x"))]);
    assert_eq!(factory.number, 1);
}

#[test]
fn removing_twice_finds_nothing_the_second_time() {
    let mut factory = fresh_factory();
    factory.create_program(actor(2), payload("x"), Ok(actor(7))).unwrap();
    assert_eq!(
        factory.remove_registry(actor(1), 1),
        Ok(FactoryEvent::RegistryRemoved { removed_by: actor(1), program_for_id: 1 })
    );
    assert_eq!(factory.address_of(1), None);
    assert_eq!(factory.live_programs(), 0);
    assert_eq!(factory.programs_of(actor(2)), vec![]);
    assert_eq!(factory.remove_registry(actor(1), 1), Err(FactoryError::IdNotFoundInAddress));
    assert_eq!(factory.number, 1);
}

#[test]
fn the_emptied_list_of_a_creator_stays_in_the_registry() {
    let mut factory = fresh_factory();
    factory.create_program(actor(2), payload("x"), Ok(actor(7))).unwrap();
    factory.remove_registry(actor(1), 1).unwrap();
    assert_eq!(state(factory, Query::Registry), QueryReply::Registry(vec![(actor(2), vec![])]));
}

#[test]
fn an_address_without_an_entry_is_lost_on_removal() {
    let mut factory = fresh_factory();
    factory.create_program(actor(2), payload("x"), Ok(actor(7))).unwrap();
    factory.create_program(actor(2), payload("y"), Ok(actor(8))).unwrap();
    factory.registry = Default::default();
    assert_eq!(factory.live_programs(), 2);

    assert_eq!(factory.remove_registry(actor(1), 1), Err(FactoryError::IdNotFound));
    assert_eq!(factory.address_of(1), None);
    assert_eq!(factory.address_of(2), Some(actor(8)));
    assert_eq!(factory.live_programs(), 1);
    assert_eq!(factory.programs_of(actor(2)), vec![]);
    assert_eq!(factory.remove_registry(actor(1), 1), Err(FactoryError::IdNotFoundInAddress));
}

#[test]
fn an_address_whose_entry_is_elsewhere_missing_is_lost_too() {
    let mut factory = fresh_factory();
    factory.create_program(actor(2), payload("x"), Ok(actor(7))).unwrap();
    factory.registry = Default::default();
    factory.create_program(actor(3), payload("y"), Ok(actor(8))).unwrap();

    assert_eq!(factory.remove_registry(actor(1), 1), Err(FactoryError::IdNotFound));
    assert_eq!(factory.address_of(1), None);
    assert_eq!(factory.address_of(2), Some(actor(8)));
    assert_eq!(factory.programs_of(actor(3)), vec![(2, record("y"))]);
}

#[test]
fn an_entry_without_an_address_is_not_looked_for() {
    let mut factory = fresh_factory();
    factory.create_program(actor(2), payload("x"), Ok(actor(7))).unwrap();
    factory.id_to_address = Default::default();
    assert_eq!(factory.remove_registry(actor(1), 1), Err(FactoryError::IdNotFoundInAddress));
    assert_eq!(factory.programs_of(actor(2)), vec![(1, record("x"))]);
}

#[test]
fn removal_finds_the_entry_among_many_creators() {
    let mut factory = fresh_factory();
    for tag in 0..40u8 {
        factory.create_program(actor(100 + tag), payload("p"), Ok(actor(50 + tag))).unwrap();
    }
    assert_eq!(factory.live_programs(), 40);
    for id in [40u64, 1, 17, 23] {
        assert_eq!(
            factory.remove_registry(actor(1), id),
            Ok(FactoryEvent::RegistryRemoved { removed_by: actor(1), program_for_id: id })
        );
        assert_eq!(factory.address_of(id), None);
        assert_eq!(factory.programs_of(actor(99 + id as u8)), vec![]);
    }
    assert_eq!(factory.live_programs(), 36);
    for id in 1..=40u64 {
        if ![40u64, 1, 17, 23].contains(&id) {
            assert_eq!(factory.address_of(id), Some(actor(49 + id as u8)));
            assert_eq!(factory.programs_of(actor(99 + id as u8)), vec![(id, record("p"))]);
        }
    }
}

#[test]
fn removal_takes_one_entry_out_of_the_middle() {
    let mut factory = fresh_factory();
    factory.create_program(actor(2), payload("a"), Ok(actor(7))).unwrap();
    factory.create_program(actor(2), payload("b"), Ok(actor(8))).unwrap();
    factory.create_program(actor(2), payload("c"), Ok(actor(9))).unwrap();
    factory.remove_registry(actor(1), 2).unwrap();
    assert_eq!(factory.programs_of(actor(2)), vec![(1, record("a")), (3, record("c"))]);
    assert_eq!(factory.address_of(1), Some(actor(7)));
    assert_eq!(factory.address_of(2), None);
    assert_eq!(factory.address_of(3), Some(actor(9)));
}

#[test]
fn the_counter_stops_at_its_largest_value() {
    let mut factory = fresh_factory();
    factory.number = u64::MAX - 1;
    let reply = factory.create_program(actor(2), payload("a"), Ok(actor(7)));
    assert_eq!(
        reply,
        Ok(FactoryEvent::ProgramCreated {
            id: u64::MAX,
            address: actor(7),
            init_config: payload("a"),
        })
    );
    assert_eq!(factory.number, u64::MAX);

    let reply = factory.create_program(actor(3), payload("b"), Ok(actor(8)));
    assert_eq!(
        reply,
        Ok(FactoryEvent::ProgramCreated {
            id: u64::MAX,
            address: actor(8),
            init_config: payload("b"),
        })
    );
    assert_eq!(factory.number, u64::MAX);
    assert_eq!(factory.address_of(u64::MAX), Some(actor(7)));
    assert_eq!(factory.live_programs(), 1);
    assert_eq!(factory.programs_of(actor(2)), vec![(u64::MAX, record("a"))]);
    assert_eq!(factory.programs_of(actor(3)), vec![(u64::MAX, record("b"))]);
}

#[test]
fn removal_takes_the_first_of_two_entries_in_one_list() {
    let mut factory = fresh_factory();
    factory.number = u64::MAX - 1;
    factory.create_program(actor(2), payload("a"), Ok(actor(7))).unwrap();
    factory.create_program(actor(2), payload("b"), Ok(actor(8))).unwrap();
    assert_eq!(
        factory.programs_of(actor(2)),
        vec![(u64::MAX, record("a")), (u64::MAX, record("b"))]
    );
    assert_eq!(
        factory.remove_registry(actor(1), u64::MAX),
        Ok(FactoryEvent::RegistryRemoved { removed_by: actor(1), program_for_id: u64::MAX })
    );
    assert_eq!(factory.programs_of(actor(2)), vec![(u64::MAX, record("b"))]);
    assert_eq!(factory.address_of(u64::MAX), None);
    assert_eq!(factory.remove_registry(actor(1), u64::MAX), Err(FactoryError::IdNotFoundInAddress));
    assert_eq!(factory.programs_of(actor(2)), vec![(u64::MAX, record("b"))]);
}

#[test]
fn removal_takes_one_entry_where_two_lists_carry_the_identifier() {
    let mut factory = fresh_factory();
    factory.number = u64::MAX - 1;
    factory.create_program(actor(2), payload("a"), Ok(actor(7))).unwrap();
    factory.create_program(actor(3), payload("b"), Ok(actor(8))).unwrap();
    factory.remove_registry(actor(1), u64::MAX).unwrap();
    let left = factory.programs_of(actor(2)).len() + factory.programs_of(actor(3)).len();
    assert_eq!(left, 1);
    assert_eq!(factory.address_of(u64::MAX), None);
}

#[test]
fn queries_show_the_state() {
    let build = || {
        let mut factory = init(InitConfigFactory {
            code_id: code(9),
            factory_admin_account: vec![actor(1), actor(3)],
            gas_for_program: 100,
        });
        factory.create_program(actor(2), payload("x"), Ok(actor(7))).unwrap();
        factory.create_program(actor(4), payload("y"), Ok(actor(8))).unwrap();
        factory.create_program(actor(2), payload("z"), Ok(actor(9))).unwrap();
        factory
    };
    assert_eq!(state(build(), Query::Number), QueryReply::Number(3));
    assert_eq!(state(build(), Query::CodeId), QueryReply::CodeId(code(9)));
    assert_eq!(
        state(build(), Query::FactoryAdminAccount),
        QueryReply::FactoryAdminAccount(vec![actor(1), actor(3)])
    );
    assert_eq!(state(build(), Query::GasForProgram), QueryReply::GasForProgram(100));

    match state(build(), Query::IdToAddress) {
        QueryReply::IdToAddress(mut pairs) => {
            pairs.sort_by_key(|pair| pair.0);
            assert_eq!(pairs, vec![(1, actor(7)), (2, actor(8)), (3, actor(9))]);
        }
        other => panic!("wrong reply: {:?}", other),
    }
    match state(build(), Query::Registry) {
        QueryReply::Registry(mut pairs) => {
            pairs.sort_by_key(|pair| pair.0 .0);
            assert_eq!(
                pairs,
                vec![
                    (actor(2), vec![(1, record("x")), (3, record("z"))]),
                    (actor(4), vec![(2, record("y"))]),
                ]
            );
        }
        other => panic!("wrong reply: {:?}", other),
    }
}

#[test]
fn handle_answers_every_command_but_a_creation() {
    let mut factory = fresh_factory();
    assert_eq!(
        factory.handle(actor(1), FactoryAction::UpdateGasProgram(7)),
        Handled::Reply(Ok(FactoryEvent::GasUpdatedSuccessfully {
            updated_by: actor(1),
            new_gas_amount: 7,
        }))
    );
    assert_eq!(
        factory.handle(actor(1), FactoryAction::CodeIdUpdate { new_code_id: code(3) }),
        Handled::Reply(Ok(FactoryEvent::CodeIdUpdatedSuccessfully {
            updated_by: actor(1),
            new_code_id: code(3),
        }))
    );
    assert_eq!(
        factory.handle(actor(1), FactoryAction::AddAdmin { admin_actor_id: actor(5) }),
        Handled::Reply(Ok(FactoryEvent::AdminAdded {
            updated_by: actor(1),
            admin_actor_id: actor(5),
        }))
    );
    assert_eq!(
        factory.handle(actor(5), FactoryAction::RemoveRegistry { id: 1 }),
        Handled::Reply(Err(FactoryError::IdNotFoundInAddress))
    );
    assert_eq!(factory.gas_for_program, 7);
    assert_eq!(factory.code_id, code(3));
    assert_eq!(factory.factory_admin_account, vec![actor(1), actor(5)]);
}

#[test]
fn handle_asks_for_a_program_and_waits() {
    let mut factory = fresh_factory();
    let handled = factory.handle(actor(2), FactoryAction::CreateProgram { init_config: payload("x") });
    assert_eq!(
        handled,
        Handled::Spawn {
            request: SpawnRequest {
                code_id: code(9),
                payload: payload("x"),
                gas_limit: 100,
                value: 0,
                reply_deposit: 0,
            },
            init_config: payload("x"),
        }
    );
    assert_eq!(factory.number, 0);
    assert_eq!(factory.live_programs(), 0);
    match handled {
        Handled::Spawn { init_config, .. } => {
            let reply = factory.create_program(actor(2), init_config, Ok(actor(7)));
            assert_eq!(
                reply,
                Ok(FactoryEvent::ProgramCreated {
                    id: 1,
                    address: actor(7),
                    init_config: payload("x"),
                })
            );
        }
        Handled::Reply(reply) => panic!("answered at once: {:?}", reply),
    }
    assert_eq!(factory.address_of(1), Some(actor(7)));
}

#[test]
fn handle_refuses_one_who_is_no_admin() {
    let mut factory = fresh_factory();
    factory.create_program(actor(2), payload("x"), Ok(actor(7))).unwrap();
    let commands = vec![
        FactoryAction::UpdateGasProgram(7),
        FactoryAction::CodeIdUpdate { new_code_id: code(3) },
        FactoryAction::AddAdmin { admin_actor_id: actor(2) },
        FactoryAction::RemoveRegistry { id: 1 },
    ];
    for command in commands {
        assert_eq!(
            factory.handle(actor(2), command),
            Handled::Reply(Err(FactoryError::Unauthorized))
        );
    }
    assert_eq!(factory.gas_for_program, 100);
    assert_eq!(factory.code_id, code(9));
    assert_eq!(factory.factory_admin_account, vec![actor(1)]);
    assert_eq!(factory.address_of(1), Some(actor(7)));
    assert_eq!(factory.programs_of(actor(2)), vec![(1, record("x"))]);
}
