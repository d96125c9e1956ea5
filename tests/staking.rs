use fee_distribution::bank::get_bank_balance;
use fee_distribution::contract::{instantiate, register_staked_denom, reply, INSTANTIATE_REPLY_ID};
use fee_distribution::error::ContractError;
use fee_distribution::handle::{
    handle_claim, handle_pause, handle_stake, handle_unpause, handle_unstake, handle_update_config,
    handle_update_rewards, parse_funds,
};
use fee_distribution::msg::{InstantiateMsg, Msg};
use fee_distribution::query::{query_claimable, query_user_staked_amount};
use fee_distribution::rewards::{calculate_rewards, query_pending_rewards, update_accumulator, update_rewards};
use fee_distribution::state::{Chain, Coin, Config, Globals, State, UserStake};

const START: u64 = 1_000;
const CONTRACT: &str = "staking";
const OWNER: &str = "signer";
const COLLECTOR: &str = "collector";
const TOKEN: &str = "vetoken";

fn s(v: &str) -> String {
    v.to_string()
}

/// The protobuf encoding of an instantiation response naming `address`.
fn response_bytes(address: &str) -> Vec<u8> {
    let mut data = vec![0x0a, address.len() as u8];
    data.extend_from_slice(address.as_bytes());
    data
}

fn setup() -> (Config, Globals) {
    let msg = InstantiateMsg {
        fee_collector: s(COLLECTOR),
        deposit_denom: s("udeposit"),
        reward_denom: s("uusdc"),
        deposit_decimals: 6,
        reward_decimals: 6,
        tokens_per_interval: 1_000_000,
        token_code_id: 1,
        token_name: s("voting escrow"),
    };
    let (mut config, globals) = instantiate(msg, s(OWNER), START);
    assert_eq!(reply(&mut config, INSTANTIATE_REPLY_ID, &response_bytes(TOKEN)), Ok(s(TOKEN)));
    (config, globals)
}

fn open() -> (Config, Globals) {
    let (config, mut globals) = setup();
    handle_unpause(&config, &mut globals.state, &s(OWNER)).unwrap();
    (config, globals)
}

fn chain(time: u64, supply: u128) -> Chain {
    Chain { time, collector_balance: 1_000_000_000, derivative_supply: supply }
}

fn deposit(amount: u128) -> Vec<Coin> {
    vec![Coin { denom: s("udeposit"), amount }]
}

#[test]
fn instantiation_test_test_instantiation() {
    let (config, globals) = setup();
    assert_eq!(
        config,
        Config {
            owner: s(OWNER),
            fee_collector: s(COLLECTOR),
            deposit_denom: s("udeposit"),
            deposit_decimals: 6,
            staked_denom: s(TOKEN),
            reward_denom: s("uusdc"),
            reward_decimals: 6,
            tokens_per_interval: 1_000_000,
        }
    );
    assert_eq!(globals.state, State { is_open: false, last_distribution: START });
}

#[test]
fn test_query_config() {
    let (config, _) = setup();
    assert_eq!(config.owner, s(OWNER));
    assert_eq!(config.fee_collector, s(COLLECTOR));
    assert_eq!(config.deposit_denom, s("udeposit"));
    assert_eq!(config.reward_denom, s("uusdc"));
    assert_eq!(config.deposit_decimals, 6);
    assert_eq!(config.reward_decimals, 6);
    assert_eq!(config.tokens_per_interval, 1_000_000);
}

#[test]
fn test_query_state() {
    let (_, globals) = setup();
    assert_eq!(globals.state, State { is_open: false, last_distribution: START });
}

#[test]
fn reply_sets_staked_denom_once() {
    let (mut config, _) = setup();
    assert_eq!(
        reply(&mut config, INSTANTIATE_REPLY_ID, &response_bytes("other")),
        Err(ContractError::Unauthorized {})
    );
    assert_eq!(config.staked_denom, s(TOKEN));
    assert!(matches!(reply(&mut config, 7, &response_bytes("other")), Err(ContractError::Std { .. })));
    assert_eq!(register_staked_denom(&mut config, s("other")), Err(ContractError::Unauthorized {}));
    assert_eq!(config.staked_denom, s(TOKEN));
}

#[test]
fn reply_reads_address_from_response() {
    let msg = InstantiateMsg {
        fee_collector: s(COLLECTOR),
        deposit_denom: s("udeposit"),
        reward_denom: s("uusdc"),
        deposit_decimals: 6,
        reward_decimals: 6,
        tokens_per_interval: 1,
        token_code_id: 1,
        token_name: s("voting escrow"),
    };
    let (mut config, _) = instantiate(msg.clone(), s(OWNER), START);
    // a field other than the address: not a valid response
    assert!(matches!(reply(&mut config, INSTANTIATE_REPLY_ID, &vec![0x12, 1, b'a']), Err(ContractError::Std { .. })));
    assert_eq!(config.staked_denom, s(""));
    assert_eq!(reply(&mut config, INSTANTIATE_REPLY_ID, &response_bytes("cw20token")), Ok(s("cw20token")));
    assert_eq!(config.staked_denom, s("cw20token"));
    let (mut fresh, _) = instantiate(msg, s(OWNER), START);
    register_staked_denom(&mut fresh, s("direct")).unwrap();
    assert_eq!(fresh.staked_denom, s("direct"));
}

#[test]
fn test_unpause() {
    let (config, mut globals) = setup();
    assert!(!globals.state.is_open);
    assert_eq!(handle_pause(&config, &mut globals.state, &s(OWNER)), Err(ContractError::Paused {}));
    assert_eq!(handle_unpause(&config, &mut globals.state, &s("trader0")), Err(ContractError::Unauthorized {}));
    let mut user = UserStake::default();
    assert_eq!(
        handle_stake(&config, &mut globals, &mut user, &chain(START, 0), &s("trader0"), &s(CONTRACT), &vec![]),
        Err(ContractError::Paused {})
    );
    assert_eq!(
        handle_claim(&config, &mut globals, &mut user, &chain(START, 0), &s("trader0"), None, &s(CONTRACT)),
        Err(ContractError::Paused {})
    );
    handle_unpause(&config, &mut globals.state, &s(OWNER)).unwrap();
    assert!(globals.state.is_open);
}

#[test]
fn test_pause() {
    let (config, mut globals) = open();
    assert!(globals.state.is_open);
    assert_eq!(handle_pause(&config, &mut globals.state, &s("trader0")), Err(ContractError::Unauthorized {}));
    handle_pause(&config, &mut globals.state, &s(OWNER)).unwrap();
    assert!(!globals.state.is_open);
}

#[test]
fn unpause_of_open_contract_fails() {
    let (config, mut globals) = open();
    assert_eq!(handle_unpause(&config, &mut globals.state, &s(OWNER)), Err(ContractError::NotPaused {}));
    assert!(globals.state.is_open);
}

#[test]
fn execution_test_test_update_config() {
    let (mut config, _) = setup();
    let before = config.tokens_per_interval;
    handle_update_config(&mut config, &s(OWNER), Some(128)).unwrap();
    assert_eq!(config.tokens_per_interval, 128);
    assert_ne!(before, config.tokens_per_interval);
    assert_eq!(handle_update_config(&mut config, &s("trader0"), Some(128)), Err(ContractError::Unauthorized {}));
    handle_update_config(&mut config, &s(OWNER), None).unwrap();
    assert_eq!(config.tokens_per_interval, 128);
}

#[test]
fn test_staking() {
    let (config, mut globals) = open();
    let mut user = UserStake::default();
    let wrong = vec![Coin { denom: s("uosmo"), amount: 1_000_000 }];
    assert_eq!(
        handle_stake(&config, &mut globals, &mut user, &chain(START, 0), &s("trader0"), &s(CONTRACT), &wrong),
        Err(ContractError::InvalidFunds {})
    );
    let msgs = handle_stake(&config, &mut globals, &mut user, &chain(START, 0), &s("trader0"), &s(CONTRACT), &deposit(1_000_000))
        .unwrap();
    assert_eq!(
        user,
        UserStake {
            staked_amounts: 1_000_000,
            claimable_rewards: 0,
            previous_cumulative_rewards_per_token: 0,
            cumulative_rewards: 0,
            average_staked_amounts: 0,
        }
    );
    assert_eq!(msgs, vec![Msg::Mint { token: s(TOKEN), recipient: s("trader0"), amount: 1_000_000 }]);
    assert_eq!(globals.total_staked, 1_000_000);
    assert_eq!(query_user_staked_amount(None), UserStake::default());
}

#[test]
fn test_unstaking() {
    let (config, mut globals) = open();
    let mut user = UserStake::default();
    handle_stake(&config, &mut globals, &mut user, &chain(START, 0), &s("trader0"), &s(CONTRACT), &deposit(1_000_000))
        .unwrap();
    let before = (globals, user);
    assert_eq!(
        handle_unstake(&config, &mut globals, &mut user, &chain(START + 5, 1_000_000), &s(TOKEN), &s("trader0"),
            1_000_000_000_000_000, &s(CONTRACT)),
        Err(ContractError::InsufficientFunds {})
    );
    assert_eq!((globals, user), before);
    let msgs = handle_unstake(&config, &mut globals, &mut user, &chain(START + 10, 1_000_000), &s(TOKEN),
        &s("trader0"), 500_000, &s(CONTRACT))
        .unwrap();
    assert_eq!(user.staked_amounts, 500_000);
    assert_eq!(globals.total_staked, 500_000);
    assert_eq!(
        msgs,
        vec![
            Msg::CollectorSend { collector: s(COLLECTOR), token: s("uusdc"), amount: 10_000_000, recipient: s(CONTRACT) },
            Msg::Burn { token: s(TOKEN), amount: 500_000 },
            Msg::BankSend { to_address: s("trader0"), denom: s("udeposit"), amount: 500_000 },
        ]
    );
}

#[test]
fn unstake_from_wrong_caller_or_zero_fails() {
    let (config, mut globals) = open();
    let mut user = UserStake::default();
    assert_eq!(
        handle_unstake(&config, &mut globals, &mut user, &chain(START, 0), &s("intruder"), &s("trader0"), 5, &s(CONTRACT)),
        Err(ContractError::Unauthorized {})
    );
    assert_eq!(
        handle_unstake(&config, &mut globals, &mut user, &chain(START, 0), &s(TOKEN), &s("trader0"), 0, &s(CONTRACT)),
        Err(ContractError::InvalidFunds {})
    );
}

#[test]
fn test_claim() {
    let (config, mut globals) = open();
    let mut trader0 = UserStake::default();
    let mut trader1 = UserStake::default();
    handle_stake(&config, &mut globals, &mut trader0, &chain(START, 0), &s("trader0"), &s(CONTRACT), &deposit(1_000_000))
        .unwrap();
    assert_eq!(trader0.staked_amounts, 1_000_000);

    let previous = globals.state.last_distribution;
    let msgs = handle_update_rewards(&config, &mut globals, &chain(START + 100, 1_000_000), &s(CONTRACT)).unwrap();
    assert_eq!(globals.state.last_distribution - previous, 100);
    assert_eq!(
        msgs,
        vec![Msg::CollectorSend { collector: s(COLLECTOR), token: s("uusdc"), amount: 100_000_000, recipient: s(CONTRACT) }]
    );
    assert_eq!(query_claimable(&config, &globals, &trader0, &chain(START + 100, 1_000_000)), Ok(100_000_000));
    assert_eq!(trader0.claimable_rewards, 0);

    // nothing to claim: succeeds and pays nothing
    let msgs = handle_claim(&config, &mut globals, &mut trader1, &chain(START + 106, 1_000_000), &s("trader1"), None,
        &s(CONTRACT))
        .unwrap();
    assert!(msgs.iter().all(|m| !matches!(m, Msg::BankSend { .. })));

    let msgs = handle_claim(&config, &mut globals, &mut trader0, &chain(START + 112, 1_000_000), &s("trader0"), None,
        &s(CONTRACT))
        .unwrap();
    assert_eq!(
        msgs.last(),
        Some(&Msg::BankSend { to_address: s("trader0"), denom: s("uusdc"), amount: 112_000_000 })
    );
    assert_eq!(trader0.claimable_rewards, 0);
}

#[test]
fn test_query_get_claimable() {
    let (config, mut globals) = setup();
    let mut user = UserStake::default();
    assert_eq!(query_claimable(&config, &globals, &user, &chain(START, 0)), Ok(0));
    handle_unpause(&config, &mut globals.state, &s(OWNER)).unwrap();
    handle_stake(&config, &mut globals, &mut user, &chain(START, 0), &s("trader0"), &s(CONTRACT), &deposit(1_000_000))
        .unwrap();
    assert_eq!(query_claimable(&config, &globals, &user, &chain(START + 5, 1_000_000)), Ok(5_000_000));
}

#[test]
fn test_query_get_user_staked_amount() {
    let (config, mut globals) = open();
    let mut user = query_user_staked_amount(None);
    assert_eq!(user, UserStake::default());
    handle_stake(&config, &mut globals, &mut user, &chain(START, 0), &s("trader0"), &s(CONTRACT), &deposit(1_000_000))
        .unwrap();
    assert_eq!(
        query_user_staked_amount(Some(user)),
        UserStake {
            staked_amounts: 1_000_000,
            previous_cumulative_rewards_per_token: 0,
            claimable_rewards: 0,
            cumulative_rewards: 0,
            average_staked_amounts: 0,
        }
    );
    handle_claim(&config, &mut globals, &mut user, &chain(START + 10, 1_000_000), &s("trader0"), None, &s(CONTRACT))
        .unwrap();
    assert_eq!(
        query_user_staked_amount(Some(user)),
        UserStake {
            staked_amounts: 1_000_000,
            previous_cumulative_rewards_per_token: 10_000_000,
            claimable_rewards: 0,
            cumulative_rewards: 10_000_000,
            average_staked_amounts: 1_000_000,
        }
    );
}

#[test]
fn sole_staker_earns_full_emission() {
    let (config, mut globals) = open();
    let mut user = UserStake::default();
    handle_stake(&config, &mut globals, &mut user, &chain(START, 0), &s("trader0"), &s(CONTRACT), &deposit(1_000_000))
        .unwrap();
    handle_update_rewards(&config, &mut globals, &chain(START + 100, 1_000_000), &s(CONTRACT)).unwrap();
    update_rewards(&config, &mut globals, &mut user, &chain(START + 100, 1_000_000), &s("trader0"), &s(CONTRACT))
        .unwrap();
    assert_eq!(user.claimable_rewards, 100_000_000);
}

#[test]
fn zero_stake_is_invalid_and_paused_wins() {
    let (config, mut globals) = open();
    let mut user = UserStake::default();
    assert_eq!(
        handle_stake(&config, &mut globals, &mut user, &chain(START, 0), &s("trader0"), &s(CONTRACT), &deposit(0)),
        Err(ContractError::InvalidFunds {})
    );
    assert_eq!(
        handle_stake(&config, &mut globals, &mut user, &chain(START, 0), &s("trader0"), &s(CONTRACT), &vec![]),
        Err(ContractError::InvalidFunds {})
    );
    handle_pause(&config, &mut globals.state, &s(OWNER)).unwrap();
    assert_eq!(
        handle_stake(&config, &mut globals, &mut user, &chain(START, 0), &s("trader0"), &s(CONTRACT), &deposit(0)),
        Err(ContractError::Paused {})
    );
    assert_eq!(
        handle_stake(&config, &mut globals, &mut user, &chain(START, 0), &s("trader0"), &s(CONTRACT), &deposit(5)),
        Err(ContractError::Paused {})
    );
    assert_eq!(
        handle_unstake(&config, &mut globals, &mut user, &chain(START, 0), &s(TOKEN), &s("trader0"), 5, &s(CONTRACT)),
        Err(ContractError::Paused {})
    );
}

#[test]
fn rewards_follow_supply_at_settlement() {
    let (config, mut globals) = open();
    let mut a = UserStake::default();
    let mut b = UserStake::default();
    handle_stake(&config, &mut globals, &mut a, &chain(START, 0), &s("a"), &s(CONTRACT), &deposit(500_000)).unwrap();
    handle_stake(&config, &mut globals, &mut b, &chain(START, 500_000), &s("b"), &s(CONTRACT), &deposit(300_000)).unwrap();
    // 800,000 units pulled at a supply of 800,000
    let cfg = Config { tokens_per_interval: 80_000, ..config.clone() };
    let c = Chain { time: START + 10, collector_balance: 800_000, derivative_supply: 800_000 };
    handle_update_rewards(&cfg, &mut globals, &c, &s(CONTRACT)).unwrap();
    update_rewards(&cfg, &mut globals, &mut a, &c, &s("a"), &s(CONTRACT)).unwrap();
    update_rewards(&cfg, &mut globals, &mut b, &c, &s("b"), &s(CONTRACT)).unwrap();
    assert_eq!(a.claimable_rewards, 500_000);
    assert_eq!(b.claimable_rewards, 300_000);
    // supply doubled before the next accrual: each share halves
    let c2 = Chain { time: START + 20, collector_balance: 800_000, derivative_supply: 1_600_000 };
    handle_update_rewards(&cfg, &mut globals, &c2, &s(CONTRACT)).unwrap();
    update_rewards(&cfg, &mut globals, &mut a, &c2, &s("a"), &s(CONTRACT)).unwrap();
    update_rewards(&cfg, &mut globals, &mut b, &c2, &s("b"), &s(CONTRACT)).unwrap();
    assert_eq!(a.claimable_rewards, 750_000);
    assert_eq!(b.claimable_rewards, 450_000);
}

#[test]
fn second_update_at_same_time_adds_nothing() {
    let (config, mut globals) = open();
    let first = handle_update_rewards(&config, &mut globals, &chain(START + 50, 1_000), &s(CONTRACT)).unwrap();
    assert_eq!(first.len(), 1);
    let rpt = globals.rewards_per_token;
    let second = handle_update_rewards(&config, &mut globals, &chain(START + 50, 1_000), &s(CONTRACT)).unwrap();
    assert!(second.is_empty());
    assert_eq!(globals.rewards_per_token, rpt);
    assert_eq!(query_pending_rewards(&config, &globals.state, START + 50), Ok(0));
}

#[test]
fn settling_twice_keeps_claimable() {
    let (config, mut globals) = open();
    let mut user = UserStake::default();
    handle_stake(&config, &mut globals, &mut user, &chain(START, 0), &s("u"), &s(CONTRACT), &deposit(2_000)).unwrap();
    let c = chain(START + 7, 2_000);
    update_rewards(&config, &mut globals, &mut user, &c, &s("u"), &s(CONTRACT)).unwrap();
    let after_first = user.claimable_rewards;
    assert_eq!(after_first, 7_000_000);
    update_rewards(&config, &mut globals, &mut user, &c, &s("u"), &s(CONTRACT)).unwrap();
    assert_eq!(user.claimable_rewards, after_first);
}

#[test]
fn zero_supply_leaves_accumulator() {
    let (config, mut globals) = open();
    let msgs = handle_update_rewards(&config, &mut globals, &chain(START + 30, 0), &s(CONTRACT)).unwrap();
    assert_eq!(globals.rewards_per_token, 0);
    assert_eq!(globals.state.last_distribution, START + 30);
    assert_eq!(msgs.len(), 1);
    assert_eq!(update_accumulator(42, 1_000, 0, 1_000_000), Ok(42));
    assert_eq!(update_accumulator(42, 0, 10, 1_000_000), Ok(42));
    assert_eq!(update_accumulator(42, 1_000, 10, 1_000_000), Ok(100_000_042));
}

#[test]
fn rewards_are_capped_by_collector_balance() {
    let (config, globals) = open();
    let c = Chain { time: START + 10, collector_balance: 3_000, derivative_supply: 1 };
    assert_eq!(calculate_rewards(&config, &globals.state, &c), Ok(3_000));
    let c = Chain { time: START + 10, collector_balance: u128::MAX, derivative_supply: 1 };
    assert_eq!(calculate_rewards(&config, &globals.state, &c), Ok(10_000_000));
}

#[test]
fn clock_running_back_is_an_arithmetic_error() {
    let (config, globals) = open();
    assert_eq!(query_pending_rewards(&config, &globals.state, START - 1), Err(ContractError::Overflow {}));
}

#[test]
fn overflowing_accrual_changes_nothing() {
    let (config, mut globals) = open();
    let cfg = Config { tokens_per_interval: u128::MAX, ..config };
    let before = globals;
    let c = Chain { time: START + 2, collector_balance: u128::MAX, derivative_supply: 1 };
    assert_eq!(handle_update_rewards(&cfg, &mut globals, &c, &s(CONTRACT)), Err(ContractError::Overflow {}));
    assert_eq!(globals, before);
}

#[test]
fn contract_account_is_never_settled() {
    let (config, mut globals) = open();
    globals.rewards_per_token = 5;
    let mut record = UserStake { staked_amounts: 10, ..UserStake::default() };
    update_rewards(&config, &mut globals, &mut record, &chain(START, 0), &s(CONTRACT), &s(CONTRACT)).unwrap();
    assert_eq!(record, UserStake { staked_amounts: 10, ..UserStake::default() });
}

#[test]
fn claim_pays_named_recipient() {
    let (config, mut globals) = open();
    let mut user = UserStake::default();
    handle_stake(&config, &mut globals, &mut user, &chain(START, 0), &s("u"), &s(CONTRACT), &deposit(1_000_000)).unwrap();
    let msgs = handle_claim(&config, &mut globals, &mut user, &chain(START + 3, 1_000_000), &s("u"), Some(s("friend")),
        &s(CONTRACT))
        .unwrap();
    assert_eq!(
        msgs,
        vec![
            Msg::CollectorSend { collector: s(COLLECTOR), token: s("uusdc"), amount: 3_000_000, recipient: s(CONTRACT) },
            Msg::BankSend { to_address: s("friend"), denom: s("uusdc"), amount: 3_000_000 },
        ]
    );
}

#[test]
fn average_stake_is_reward_weighted() {
    let (config, mut globals) = open();
    globals.rewards_per_token = 2_000_000;
    let mut user = UserStake {
        staked_amounts: 3_000_000,
        claimable_rewards: 0,
        previous_cumulative_rewards_per_token: 0,
        cumulative_rewards: 2_000_000,
        average_staked_amounts: 1_000_000,
    };
    update_rewards(&config, &mut globals, &mut user, &chain(START, 0), &s("u"), &s(CONTRACT)).unwrap();
    // earned 3,000,000 * 2,000,000 / 10^6 = 6,000,000
    assert_eq!(user.claimable_rewards, 6_000_000);
    assert_eq!(user.cumulative_rewards, 8_000_000);
    // (1,000,000 * 2,000,000 + 3,000,000 * 6,000,000) / 8,000,000 = 2,500,000
    assert_eq!(user.average_staked_amounts, 2_500_000);
}

#[test]
fn parse_funds_cases() {
    assert_eq!(parse_funds(&vec![], &s("udeposit")), Ok(0));
    assert_eq!(parse_funds(&deposit(9), &s("udeposit")), Ok(9));
    let two = vec![Coin { denom: s("udeposit"), amount: 1 }, Coin { denom: s("udeposit"), amount: 1 }];
    assert_eq!(parse_funds(&two, &s("udeposit")), Err(ContractError::InvalidFunds {}));
}

#[test]
fn bank_balance_reads_amount_or_zero() {
    assert_eq!(get_bank_balance(None), Ok(0));
    assert_eq!(get_bank_balance(Some(s("1000000000"))), Ok(1_000_000_000));
    assert_eq!(get_bank_balance(Some(s("340282366920938463463374607431768211455"))), Ok(u128::MAX));
    assert!(get_bank_balance(Some(s("12a"))).is_err());
}

#[test]
fn fully_unstaked_account_keeps_its_claimable_balance() {
    let (config, mut globals) = open();
    let mut user = UserStake::default();
    handle_stake(&config, &mut globals, &mut user, &chain(START, 0), &s("u"), &s(CONTRACT), &deposit(1_000_000)).unwrap();
    handle_unstake(&config, &mut globals, &mut user, &chain(START + 4, 1_000_000), &s(TOKEN), &s("u"), 1_000_000,
        &s(CONTRACT))
        .unwrap();
    assert_eq!(user.staked_amounts, 0);
    assert_eq!(user.claimable_rewards, 4_000_000);
    assert_eq!(query_claimable(&config, &globals, &user, &chain(START + 9, 0)), Ok(4_000_000));
    let msgs = handle_claim(&config, &mut globals, &mut user, &chain(START + 9, 0), &s("u"), None, &s(CONTRACT)).unwrap();
    assert_eq!(msgs.last(), Some(&Msg::BankSend { to_address: s("u"), denom: s("uusdc"), amount: 4_000_000 }));
}

#[test]
fn claimable_query_with_zero_supply_adds_nothing_pending() {
    let (config, mut globals) = open();
    globals.rewards_per_token = 3_000_000;
    let user = UserStake {
        staked_amounts: 2_000,
        claimable_rewards: 7,
        previous_cumulative_rewards_per_token: 1_000_000,
        cumulative_rewards: 0,
        average_staked_amounts: 0,
    };
    // 7 + 2,000 * (3,000,000 - 1,000,000) / 10^6
    assert_eq!(query_claimable(&config, &globals, &user, &chain(START + 1_000, 0)), Ok(4_007));
    // even with a clock that ran back, nothing pending is consulted
    assert_eq!(query_claimable(&config, &globals, &user, &chain(START - 10, 0)), Ok(4_007));
}
