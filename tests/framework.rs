use dharitri_wasm_debug::call_value::{TxInput, TxTokenTransfer};
use dharitri_wasm_debug::ledger::RoleSet;
use dharitri_wasm_debug::payment::{DctTokenPayment, DctTokenPaymentMultiArg};
use dharitri_wasm_debug::tx::{BlockInfo, BlockchainMock, StateChange};

const TOKEN: &[u8] = b"COOL-123456";

fn address(name: &str) -> Vec<u8> {
    let mut a = name.as_bytes().to_vec();
    a.resize(32, b'_');
    a
}

fn tx(from: &[u8], to: &[u8], moax: u128, dcts: Vec<TxTokenTransfer>) -> TxInput {
    TxInput {
        from: from.to_vec(),
        to: to.to_vec(),
        moax_value: moax,
        dct_values: dcts,
        func_name: vec![],
    }
}

fn big_uint_bytes(v: u128) -> Vec<u8> {
    let bytes = v.to_be_bytes();
    let first = bytes.iter().position(|b| *b != 0).unwrap_or(bytes.len());
    bytes[first..].to_vec()
}

fn big_uint_of(bytes: &[u8]) -> u128 {
    bytes.iter().fold(0u128, |acc, b| (acc << 8) | *b as u128)
}

/// A world with a user `caller` and a contract `sc` deployed by it.
fn world_with(caller_balance: u128, sc_balance: u128) -> (BlockchainMock, Vec<u8>, Vec<u8>) {
    let mut world = BlockchainMock::new();
    let caller = address("caller");
    let sc = address("sc");
    world.ledger_mut().create_user_account(&caller, caller_balance).unwrap();
    world.ledger_mut().create_sc_account(&sc, sc_balance, &caller, &b"sc.wasm".to_vec()).unwrap();
    (world, caller, sc)
}

fn total_value_key() -> Vec<u8> {
    b"totalValue".to_vec()
}

fn per_caller_key(caller: &[u8]) -> Vec<u8> {
    let mut k = b"valuePerCaller".to_vec();
    k.extend_from_slice(caller);
    k
}

fn read_value(world: &BlockchainMock, sc: &[u8], key: &[u8]) -> u128 {
    big_uint_of(&world.ledger().get_storage(&sc.to_vec(), &key.to_vec()))
}

fn write_value(world: &mut BlockchainMock, sc: &[u8], key: &[u8], v: u128) {
    world.ledger_mut().set_storage(&sc.to_vec(), &key.to_vec(), &big_uint_bytes(v));
}

/// Deploys the adder-like contract state: total starts at 1.
fn init(world: &mut BlockchainMock, caller: &[u8], sc: &[u8]) {
    world.begin_call(tx(caller, sc, 0, vec![])).unwrap();
    write_value(world, sc, &total_value_key(), 1);
    world.end_call(StateChange::Commit);
}

/// Adds `v` to the total and to what the current caller added.
fn add(world: &mut BlockchainMock, sc: &[u8], v: u128) {
    let caller = world.current_input().from.clone();
    let total = read_value(world, sc, &total_value_key());
    write_value(world, sc, &total_value_key(), total + v);
    let mine = read_value(world, sc, &per_caller_key(&caller));
    write_value(world, sc, &per_caller_key(&caller), mine + v);
}

#[test]
fn test_sc_payment_ok() {
    let (mut world, caller, sc) = world_with(1_000, 2_000);
    world.begin_call(tx(&caller, &sc, 1_000, vec![])).unwrap();
    assert_eq!(world.current_input().moax_value(), 1_000);
    world.end_call(StateChange::Commit);
    assert_eq!(world.ledger().get_balance(&caller), 0);
    assert_eq!(world.ledger().get_balance(&sc), 3_000);
}

#[test]
fn test_sc_payment_reverted() {
    let (mut world, caller, sc) = world_with(1_000, 2_000);
    world.begin_call(tx(&caller, &sc, 1_000, vec![])).unwrap();
    assert_eq!(world.current_input().moax_value(), 1_000);
    world.end_call(StateChange::Revert);
    assert_eq!(world.ledger().get_balance(&caller), 1_000);
    assert_eq!(world.ledger().get_balance(&sc), 2_000);
}

#[test]
fn test_sc_half_payment() {
    let (mut world, caller, sc) = world_with(1_000, 2_000);
    world.begin_call(tx(&caller, &sc, 1_000, vec![])).unwrap();
    let half = world.current_input().moax_value() / 2;
    world.ledger_mut().transfer_moax(&sc, &caller, half).unwrap();
    world.end_call(StateChange::Commit);
    assert_eq!(world.ledger().get_balance(&caller), 500);
    assert_eq!(world.ledger().get_balance(&sc), 2_500);
}

#[test]
fn test_dct_balance() {
    let (mut world, caller, sc) = world_with(0, 0);
    world.ledger_mut().set_dct_balance(&sc, &TOKEN.to_vec(), 0, 1_000);
    assert_eq!(world.ledger().get_dct_balance(&sc, &TOKEN.to_vec(), 0), 1_000);
    world.begin_call(tx(&caller, &sc, 0, vec![])).unwrap();
    assert_eq!(world.ledger().get_dct_balance(&sc, &TOKEN.to_vec(), 0), 1_000);
    world.end_call(StateChange::Revert);
}

#[test]
fn test_dct_payment_ok() {
    let (mut world, caller, sc) = world_with(0, 0);
    world.ledger_mut().set_dct_balance(&caller, &TOKEN.to_vec(), 0, 1_000);
    world.ledger_mut().set_dct_balance(&sc, &TOKEN.to_vec(), 0, 2_000);
    let payment = TxTokenTransfer { token_identifier: TOKEN.to_vec(), nonce: 0, value: 1_000 };
    world.begin_call(tx(&caller, &sc, 0, vec![payment])).unwrap();
    assert_eq!(world.current_input().token().unwrap(), TOKEN.to_vec());
    assert_eq!(world.current_input().dct_value().unwrap(), 1_000);
    world.end_call(StateChange::Commit);
    assert_eq!(world.ledger().get_dct_balance(&caller, &TOKEN.to_vec(), 0), 0);
    assert_eq!(world.ledger().get_dct_balance(&sc, &TOKEN.to_vec(), 0), 3_000);
}

#[test]
fn test_dct_payment_reverted() {
    let (mut world, caller, sc) = world_with(0, 0);
    world.ledger_mut().set_dct_balance(&caller, &TOKEN.to_vec(), 0, 1_000);
    world.ledger_mut().set_dct_balance(&sc, &TOKEN.to_vec(), 0, 2_000);
    let payment = TxTokenTransfer { token_identifier: TOKEN.to_vec(), nonce: 0, value: 1_000 };
    world.begin_call(tx(&caller, &sc, 0, vec![payment])).unwrap();
    assert_eq!(world.current_input().token().unwrap(), TOKEN.to_vec());
    assert_eq!(world.current_input().dct_value().unwrap(), 1_000);
    world.end_call(StateChange::Revert);
    assert_eq!(world.ledger().get_dct_balance(&caller, &TOKEN.to_vec(), 0), 1_000);
    assert_eq!(world.ledger().get_dct_balance(&sc, &TOKEN.to_vec(), 0), 2_000);
}

fn nft_attributes() -> Vec<u8> {
    // creation epoch 666, cool factor 101
    let mut a = 666u64.to_be_bytes().to_vec();
    a.push(101);
    a
}

#[test]
fn test_nft_balance() {
    let (mut world, _caller, sc) = world_with(0, 0);
    world.ledger_mut().set_nft_balance(&sc, &TOKEN.to_vec(), 2, 1_000, &nft_attributes());
    assert_eq!(world.ledger().get_dct_balance(&sc, &TOKEN.to_vec(), 2), 1_000);
    assert_eq!(world.ledger().get_nft_attributes(&sc, &TOKEN.to_vec(), 2), nft_attributes());
}

#[test]
fn test_sc_send_nft_to_user() {
    let (mut world, caller, sc) = world_with(0, 0);
    world.ledger_mut().set_nft_balance(&sc, &TOKEN.to_vec(), 2, 1_000, &nft_attributes());
    world.begin_call(tx(&caller, &sc, 0, vec![])).unwrap();
    world.ledger_mut().transfer_dct(&sc, &caller, &TOKEN.to_vec(), 2, 400).unwrap();
    world.end_call(StateChange::Commit);
    assert_eq!(world.ledger().get_dct_balance(&caller, &TOKEN.to_vec(), 2), 400);
    assert_eq!(world.ledger().get_dct_balance(&sc, &TOKEN.to_vec(), 2), 600);
}

#[test]
fn test_sc_dct_mint_burn() {
    let (mut world, caller, sc) = world_with(0, 0);
    let roles = RoleSet { mint: true, burn: true, nft_create: false, nft_add_quantity: false, nft_burn: false };
    world.ledger_mut().set_roles(&sc, &TOKEN.to_vec(), roles);

    world.begin_call(tx(&caller, &sc, 0, vec![])).unwrap();
    world.ledger_mut().local_mint(&sc, &TOKEN.to_vec(), 0, 400).unwrap();
    world.end_call(StateChange::Commit);
    assert_eq!(world.ledger().get_dct_balance(&sc, &TOKEN.to_vec(), 0), 400);

    world.begin_call(tx(&caller, &sc, 0, vec![])).unwrap();
    world.ledger_mut().local_burn(&sc, &TOKEN.to_vec(), 0, 100).unwrap();
    world.end_call(StateChange::Commit);
    assert_eq!(world.ledger().get_dct_balance(&sc, &TOKEN.to_vec(), 0), 300);
}

#[test]
fn test_sc_nft() {
    let (mut world, caller, sc) = world_with(0, 0);
    let roles = RoleSet { mint: false, burn: false, nft_create: true, nft_add_quantity: true, nft_burn: true };
    world.ledger_mut().set_roles(&sc, &TOKEN.to_vec(), roles);

    world.begin_call(tx(&caller, &sc, 0, vec![])).unwrap();
    let first = world.ledger_mut().create_nft(&sc, &TOKEN.to_vec(), 100, &nft_attributes()).unwrap();
    assert_eq!(first, 1u64);
    let second = world.ledger_mut().create_nft(&sc, &TOKEN.to_vec(), 100, &nft_attributes()).unwrap();
    assert_eq!(second, 2u64);
    world.end_call(StateChange::Commit);
    assert_eq!(world.ledger().get_dct_balance(&sc, &TOKEN.to_vec(), 1), 100);
    assert_eq!(world.ledger().get_dct_balance(&sc, &TOKEN.to_vec(), 2), 100);
    assert_eq!(world.ledger().get_nft_attributes(&sc, &TOKEN.to_vec(), 1), nft_attributes());

    world.begin_call(tx(&caller, &sc, 0, vec![])).unwrap();
    world.ledger_mut().local_mint(&sc, &TOKEN.to_vec(), 1, 100).unwrap();
    world.end_call(StateChange::Commit);
    assert_eq!(world.ledger().get_dct_balance(&sc, &TOKEN.to_vec(), 1), 200);
    assert_eq!(world.ledger().get_dct_balance(&sc, &TOKEN.to_vec(), 2), 100);

    world.begin_call(tx(&caller, &sc, 0, vec![])).unwrap();
    world.ledger_mut().local_burn(&sc, &TOKEN.to_vec(), 2, 50).unwrap();
    world.end_call(StateChange::Commit);
    assert_eq!(world.ledger().get_dct_balance(&sc, &TOKEN.to_vec(), 1), 200);
    assert_eq!(world.ledger().get_dct_balance(&sc, &TOKEN.to_vec(), 2), 50);
}

#[test]
fn test_dct_multi_transfer() {
    let (mut world, caller, sc) = world_with(0, 0);
    let token_2 = b"VERYCOOL-123456".to_vec();
    world.ledger_mut().set_dct_balance(&caller, &TOKEN.to_vec(), 0, 100);
    world.ledger_mut().set_nft_balance(&caller, &token_2, 5, 1, &vec![]);
    let transfers = vec![
        TxTokenTransfer { token_identifier: TOKEN.to_vec(), nonce: 0, value: 100 },
        TxTokenTransfer { token_identifier: token_2.clone(), nonce: 5, value: 1 },
    ];
    world.begin_call(tx(&caller, &sc, 0, transfers)).unwrap();
    let input = world.current_input();
    let received: Vec<DctTokenPayment> = (0..input.dct_num_transfers())
        .map(|i| {
            DctTokenPayment::new(
                input.token_by_index(i),
                input.dct_token_nonce_by_index(i),
                input.dct_value_by_index(i),
            )
        })
        .collect();
    assert_eq!(received[0].token_identifier, TOKEN.to_vec());
    assert_eq!(received[0].token_nonce, 0);
    assert_eq!(received[0].amount, 100);
    assert_eq!(received[1].token_identifier, token_2);
    assert_eq!(received[1].token_nonce, 5);
    assert_eq!(received[1].amount, 1);
    world.end_call(StateChange::Commit);

    assert_eq!(world.ledger().get_dct_balance(&sc, &TOKEN.to_vec(), 0), 100);
    assert_eq!(world.ledger().get_dct_balance(&sc, &token_2, 5), 1);
}

#[test]
fn test_query() {
    let (mut world, caller, sc) = world_with(0, 2_000);
    world.begin_call(tx(&caller, &sc, 0, vec![])).unwrap();
    assert_eq!(world.ledger().get_balance(&sc), 2_000);
    world.end_call(StateChange::Revert);
}

#[test]
fn storage_check_test() {
    let (mut world, user, sc) = world_with(0, 0);
    init(&mut world, &user, &sc);

    world.begin_call(tx(&user, &sc, 0, vec![])).unwrap();
    assert_eq!(read_value(&world, &sc, &total_value_key()), 1);
    assert_eq!(read_value(&world, &sc, &per_caller_key(&user)), 0);
    add(&mut world, &sc, 50);
    assert_eq!(read_value(&world, &sc, &total_value_key()), 51);
    assert_eq!(read_value(&world, &sc, &per_caller_key(&user)), 50);
    world.end_call(StateChange::Commit);

    assert_eq!(read_value(&world, &sc, &total_value_key()), 51);
    assert_eq!(read_value(&world, &sc, &per_caller_key(&user)), 50);
}

#[test]
fn storage_revert_test() {
    let (mut world, user, sc) = world_with(0, 0);
    init(&mut world, &user, &sc);

    world.begin_call(tx(&user, &sc, 0, vec![])).unwrap();
    add(&mut world, &sc, 50);
    assert_eq!(read_value(&world, &sc, &total_value_key()), 51);
    assert_eq!(read_value(&world, &sc, &per_caller_key(&user)), 50);
    world.end_call(StateChange::Revert);

    assert_eq!(read_value(&world, &sc, &total_value_key()), 1);
    assert_eq!(read_value(&world, &sc, &per_caller_key(&user)), 0);
}

#[test]
fn storage_set_test() {
    let (mut world, user, sc) = world_with(0, 0);
    init(&mut world, &user, &sc);

    world.begin_call(tx(&user, &sc, 0, vec![])).unwrap();
    write_value(&mut world, &sc, &total_value_key(), 50);
    write_value(&mut world, &sc, &per_caller_key(&user), 50);
    world.end_call(StateChange::Commit);

    assert_eq!(read_value(&world, &sc, &total_value_key()), 50);
    assert_eq!(read_value(&world, &sc, &per_caller_key(&user)), 50);
}

#[test]
fn blockchain_state_test() {
    let (mut world, _user, _sc) = world_with(0, 0);
    world.set_block_info(BlockInfo { epoch: 10, nonce: 20, timestamp: 30, round: 0 });
    let block = world.block_info();
    assert_eq!(block.epoch, 10);
    assert_eq!(block.nonce, 20);
    assert_eq!(block.timestamp, 30);
}

#[test]
fn execute_on_dest_context_query_test() {
    let (mut world, user, sc) = world_with(0, 0);
    let other = address("other_sc");
    world.ledger_mut().create_sc_account(&other, 0, &user, &b"sc.wasm".to_vec()).unwrap();
    world.begin_call(tx(&user, &other, 0, vec![])).unwrap();
    write_value(&mut world, &other, &total_value_key(), 5);
    world.end_call(StateChange::Commit);

    world.begin_call(tx(&user, &sc, 0, vec![])).unwrap();
    world.begin_call(tx(&sc, &other, 0, vec![])).unwrap();
    let result = read_value(&world, &other, &total_value_key());
    world.end_call(StateChange::Commit);
    world.end_call(StateChange::Revert);
    assert_eq!(result, 5);
}

#[test]
fn execute_on_dest_context_change_state_test() {
    let (mut world, user, sc) = world_with(0, 0);
    let other = address("other_sc");
    world.ledger_mut().create_sc_account(&other, 0, &user, &b"sc.wasm".to_vec()).unwrap();
    world.begin_call(tx(&user, &other, 0, vec![])).unwrap();
    write_value(&mut world, &other, &total_value_key(), 5);
    world.end_call(StateChange::Commit);

    world.begin_call(tx(&user, &sc, 0, vec![])).unwrap();
    world.begin_call(tx(&sc, &other, 0, vec![])).unwrap();
    add(&mut world, &other, 5);
    world.end_call(StateChange::Commit);
    world.end_call(StateChange::Commit);

    assert_eq!(read_value(&world, &other, &total_value_key()), 10);
}

#[test]
fn payment_multi_arg_round_trip() {
    let payment = DctTokenPayment::new(TOKEN.to_vec(), 7, 300);
    let multi = DctTokenPaymentMultiArg::from(payment);
    let (token, nonce, amount) = multi.to_results();
    assert_eq!(token, TOKEN.to_vec());
    assert_eq!(nonce, 7);
    assert_eq!(amount, 300);
    let back = multi.into_dct_token_payment();
    assert_eq!(back.token_identifier, TOKEN.to_vec());
    assert_eq!(back.token_nonce, 7);
    assert_eq!(back.amount, 300);
    let from_args = DctTokenPaymentMultiArg::from_args(b"OTHER-1".to_vec(), 0, 9);
    assert_eq!(from_args.to_results(), (b"OTHER-1".to_vec(), 0, 9));
    assert!(DctTokenPaymentMultiArg::is_multi_arg_or_result());
}
