use cosmwasm_std::testing::mock_env;
use cosmwasm_std::{Decimal, Uint128};
use wynd::invest::contract::{
    execute, instantiate, invest, list_investments, query, query_config, query_info, register,
    store_oracle, withdraw, QueryResponse,
};
use wynd::invest::msg::{
    Cw20CoinVerified, Cw20ReceiveMsg, ExecuteMsg, InfoResponse, InstantiateMsg,
    InvestmentResponse, MigrateMsg, OracleValues, QueryMsg, ReceiveMsg,
};
use wynd::invest::response::{Event, Response};
use wynd::invest::state::{Config, Measurement};
use wynd::invest::store::Store;
use wynd::invest::version::{
    migrate, ContractVersion, CONTRACT_NAME, CONTRACT_VERSION,
};
use wynd::invest::ContractError;
use wynd::platform::{OverflowOperation, StdError, Transfer};
use wynd::text::text_less;

fn env_at(secs: u64) -> u64 {
    mock_env().block.time.plus_seconds(secs).seconds()
}

fn time_at(secs: u64) -> u64 {
    mock_env().block.time.seconds() + secs
}

fn percent(x: u64) -> u128 {
    Decimal::percent(x).atomics().u128()
}

fn init_with_locations(locs: &[&str]) -> InstantiateMsg {
    InstantiateMsg {
        oracle: "oracle".to_string(),
        locations: locs.iter().map(|s| s.to_string()).collect(),
        token: "token".to_string(),
        max_investment_hex: 12345678,
        maturity_days: 28,
        measurement_window: 7,
    }
}

fn oracle_msg(index: &str, value: u128, time: u64) -> ExecuteMsg {
    ExecuteMsg::StoreOracle {
        values: vec![OracleValues {
            index: index.to_string(),
            value,
            time,
        }],
    }
}

fn invest_msg(investor: &str, amount: u128, hex: &str) -> ExecuteMsg {
    ExecuteMsg::Receive(Cw20ReceiveMsg {
        sender: investor.to_string(),
        amount,
        msg: ReceiveMsg::Invest {
            hex: hex.to_string(),
        },
    })
}

#[test]
fn contract_proper_initialization() {
    let mut deps = Store::new();

    let msg = init_with_locations(&["8765437FFFFFFFF", "1284639ffffffff"]);

    // we can just call .unwrap() to assert this was a success
    let res = instantiate(&mut deps, msg.clone()).unwrap();
    assert_eq!(0, res.messages.len());

    // it worked, let's query the state
    let res = query_config(&deps).unwrap();
    let expected = Config {
        oracle: msg.oracle,
        token: msg.token,
        max_investment_hex: msg.max_investment_hex,
        maturity_days: msg.maturity_days,
        measurement_window: msg.measurement_window,
    };
    assert_eq!(res, expected);

    // check out the locations
    let info1 = query_info(&deps, "8765437FFFFFfff".into()).unwrap();
    assert_eq!(info1, InfoResponse::default());
    let info2 = query_info(&deps, "1284639ffFFffff".into()).unwrap();
    assert_eq!(info2, InfoResponse::default());
}

#[test]
fn validate_locations_in_init() {
    let mut deps = Store::new();

    let msg = init_with_locations(&["foobar"]);
    instantiate(&mut deps, msg).unwrap_err();
}

#[test]
fn set_oracle_data() {
    let mut deps = Store::new();

    let location = "8362718ffffffff";
    let msg = init_with_locations(&[location]);
    instantiate(&mut deps, msg).unwrap();

    let info = query_info(&deps, location.into()).unwrap();
    assert_eq!(info, InfoResponse::default());

    // set this with some oracle data
    let msg = oracle_msg(location, percent(1234), time_at(20));

    // error message if from the future
    let res = execute(&mut deps, env_at(0), "oracle".to_string(), msg.clone()).unwrap();
    assert_eq!(res.events.len(), 1);
    assert_eq!(
        res.events[0],
        Event::Oracle {
            succeeded: 0,
            failed: vec![ContractError::OracleFromTheFuture(time_at(20))],
        }
    );

    // fail if not oracle
    let err = execute(&mut deps, env_at(1234), "token".to_string(), msg.clone()).unwrap_err();
    assert_eq!(err, ContractError::Unauthorized {});

    // just right
    execute(&mut deps, env_at(1234), "oracle".to_string(), msg).unwrap();

    // check updated
    let info = query_info(&deps, location.into()).unwrap();
    let mut expected = InfoResponse::new();
    expected.cur_index = Some(Measurement {
        value: percent(1234),
        time: time_at(20),
    });
    assert_eq!(info, expected);

    // ignore bad location
    let msg = oracle_msg("9362718FFffffff", percent(1234), time_at(20));
    let res = execute(&mut deps, env_at(1234), "oracle".to_string(), msg).unwrap();
    assert_eq!(res.events.len(), 1);
    assert_eq!(
        res.events[0],
        Event::Oracle {
            succeeded: 0,
            failed: vec![ContractError::UnregisteredLocation(
                "9362718ffffffff".to_string()
            )],
        }
    );
}

#[test]
fn check_investment() {
    let mut deps = Store::new();

    let location = "8362718ffffffff";
    let msg = init_with_locations(&[location]);
    instantiate(&mut deps, msg).unwrap();

    let info = query_info(&deps, location.into()).unwrap();
    assert_eq!(info, InfoResponse::default());

    // cannot invest without data
    let amount = 777000u128;
    let wrapped = invest_msg("investor", amount, location);

    let err = execute(&mut deps, env_at(1234), "token".to_string(), wrapped.clone()).unwrap_err();
    assert_eq!(err, ContractError::NoDataPresent);

    // set this with some oracle data
    let measurement = Measurement {
        value: percent(1234),
        time: time_at(20),
    };
    let oracle = oracle_msg(location, measurement.value, measurement.time);
    execute(&mut deps, env_at(1234), "oracle".to_string(), oracle).unwrap();

    // try to invest again
    execute(&mut deps, env_at(5000), "token".to_string(), wrapped).unwrap();

    // check investment
    let mut invests =
        list_investments(&deps, env_at(6000), "investor".into(), Some(location.into())).unwrap();
    let invests2 = list_investments(&deps, env_at(6000), "investor".into(), None).unwrap();
    assert_eq!(invests, invests2);
    assert_eq!(invests.investments.len(), 1);
    let invest = invests.investments.pop().unwrap();
    let mut expected = InvestmentResponse {
        hex: location.to_string(),
        amount,
        baseline_index: measurement.value,
        latest_index: measurement,
        can_withdraw: false,
        withdraw_amount: amount,
        invested: time_at(5000),
        maturity_date: time_at(5000 + 28 * 86400),
    };
    assert_eq!(invest, expected);

    // update oracle
    let measurement2 = Measurement {
        value: percent(4321),
        time: time_at(86400 + 5000),
    };
    let oracle = oracle_msg(location, measurement2.value, measurement2.time);
    execute(
        &mut deps,
        env_at(86400 + 10000),
        "oracle".to_string(),
        oracle,
    )
    .unwrap();

    // invest again
    let amount2 = 12345678u128;
    let wrapped = invest_msg("investor", amount2, location);
    execute(&mut deps, env_at(2 * 86400), "token".to_string(), wrapped).unwrap();

    // note the first one is updated with new measurement
    expected.latest_index = measurement2;
    expected.withdraw_amount =
        (Uint128::new(amount) * Uint128::new(1234) / Uint128::new(4321)).u128();

    // the other one shows the values it was made with
    let expected2 = InvestmentResponse {
        hex: location.to_string(),
        amount: amount2,
        baseline_index: measurement2.value,
        latest_index: measurement2,
        can_withdraw: false,
        withdraw_amount: amount2,
        invested: time_at(2 * 86400),
        maturity_date: time_at(30 * 86400),
    };
    let invests = list_investments(&deps, env_at(2 * 86400), "investor".into(), None).unwrap();
    assert_eq!(invests.investments.len(), 2);
    assert_eq!(invests.investments, vec![expected, expected2]);
}

#[test]
fn withdraw_happy_path() {
    let mut deps = Store::new();

    let location = "8362718ffffffff";
    let location2 = "9362718ffffffff";
    let msg = init_with_locations(&[location, location2]);
    instantiate(&mut deps, msg).unwrap();

    // oracle info for one
    let oracle = oracle_msg(location, percent(1234), time_at(200));
    execute(&mut deps, env_at(86400), "oracle".to_string(), oracle).unwrap();

    // invest there
    let amount = 808000u128;
    let wrapped = invest_msg("investor", amount, location);
    execute(&mut deps, env_at(2 * 86400), "token".to_string(), wrapped).unwrap();

    // more oracle data
    let oracle = oracle_msg(location, percent(2468), time_at(86400 * 31));
    execute(
        &mut deps,
        env_at(86400 * 31 + 2000),
        "oracle".to_string(),
        oracle,
    )
    .unwrap();

    let invests = list_investments(&deps, env_at(0), "investor".into(), None).unwrap();
    assert_eq!(invests.investments.len(), 1);

    // now withdrawl works
    let withdraw = ExecuteMsg::Withdraw {};
    let res = execute(
        &mut deps,
        env_at(35 * 86400),
        "investor".to_string(),
        withdraw,
    )
    .unwrap();

    // value doubled, we get 50% out
    let end_amount = (Uint128::new(amount) * Decimal::percent(50)).u128();
    assert_eq!(end_amount, 404000);
    assert_eq!(
        res.messages,
        vec![Transfer {
            contract_addr: "token".to_string(),
            recipient: "investor".to_string(),
            amount: end_amount,
        }]
    );
    assert_eq!(
        res.events,
        vec![
            Event::Withdraw {
                invested: amount,
                payout: end_amount,
                hex: location.to_string(),
                investor: "investor".to_string(),
            },
            Event::WithdrawTotal {
                amount: end_amount,
                investor: "investor".to_string(),
            },
        ]
    );

    let invests = list_investments(&deps, env_at(0), "investor".into(), None).unwrap();
    assert_eq!(invests.investments.len(), 0);

    // the location has given up what was settled, and keeps its lifetime figures
    let info = query_info(&deps, location.into()).unwrap();
    assert_eq!(info.total_invested, amount);
    assert_eq!(info.current_invested, 0);
    assert_eq!(info.total_investments, 1);
    assert_eq!(info.current_investments, 0);

    // cannot withdraw again, no investments
    let withdraw = ExecuteMsg::Withdraw {};
    let res = execute(
        &mut deps,
        env_at(35 * 86400),
        "investor".to_string(),
        withdraw,
    )
    .unwrap();
    assert_eq!(res.messages, vec![]);
}

#[test]
fn withdraw_error_cases() {
    let mut deps = Store::new();

    let location = "8362718ffffffff";
    let location2 = "9362718ffffffff";
    let msg = init_with_locations(&[location, location2]);
    instantiate(&mut deps, msg).unwrap();

    // oracle info for one
    let oracle = oracle_msg(location, percent(1234), time_at(200));
    execute(&mut deps, env_at(86400), "oracle".to_string(), oracle).unwrap();

    // invest there
    let amount = 808000u128;
    let wrapped = invest_msg("investor", amount, location);
    execute(&mut deps, env_at(2 * 86400), "token".to_string(), wrapped).unwrap();

    // withdraw too early, no op
    let withdraw = ExecuteMsg::Withdraw {};
    let res = execute(
        &mut deps,
        env_at(22 * 86400),
        "investor".to_string(),
        withdraw,
    )
    .unwrap();
    assert_eq!(res.messages, vec![]);

    // withdraw later, no data, no op
    let withdraw = ExecuteMsg::Withdraw {};
    let res = execute(
        &mut deps,
        env_at(35 * 86400),
        "investor".to_string(),
        withdraw,
    )
    .unwrap();
    assert_eq!(res.messages, vec![]);
}

/// A store with two cells, a measurement of 12.34 for the first, and one
/// investment of 808000 in it, made two days in.
fn store_with_investment(location: &str, location2: &str) -> Store {
    let mut deps = Store::new();
    instantiate(&mut deps, init_with_locations(&[location, location2])).unwrap();
    let oracle = oracle_msg(location, percent(1234), time_at(200));
    execute(&mut deps, env_at(86400), "oracle".to_string(), oracle).unwrap();
    let wrapped = invest_msg("investor", 808000, location);
    execute(&mut deps, env_at(2 * 86400), "token".to_string(), wrapped).unwrap();
    deps
}

#[test]
fn withdraw_with_nothing_mature_changes_nothing() {
    let location = "8362718ffffffff";
    let mut deps = store_with_investment(location, "9362718ffffffff");
    let before_info = query_info(&deps, location.into()).unwrap();
    let before = list_investments(&deps, env_at(22 * 86400), "investor".into(), None).unwrap();

    let res = withdraw(&mut deps, env_at(22 * 86400), "investor".to_string()).unwrap();
    assert_eq!(res, Response::new());

    assert_eq!(query_info(&deps, location.into()).unwrap(), before_info);
    assert_eq!(
        list_investments(&deps, env_at(22 * 86400), "investor".into(), None).unwrap(),
        before
    );
    assert_eq!(before_info.current_invested, 808000);
    assert_eq!(before_info.current_investments, 1);
}

#[test]
fn withdraw_pays_the_principal_back_when_data_comes_late() {
    let location = "8362718ffffffff";
    let mut deps = store_with_investment(location, "9362718ffffffff");
    // maturity is 30 days in, the window is 7 days: a measurement 38 days in is late
    let oracle = oracle_msg(location, percent(2468), time_at(38 * 86400));
    execute(&mut deps, env_at(39 * 86400), "oracle".to_string(), oracle).unwrap();

    let res = withdraw(&mut deps, env_at(40 * 86400), "investor".to_string()).unwrap();
    assert_eq!(
        res.messages,
        vec![Transfer {
            contract_addr: "token".to_string(),
            recipient: "investor".to_string(),
            amount: 808000,
        }]
    );
}

#[test]
fn withdraw_at_the_edge_of_the_window_pays_the_ratio() {
    let location = "8362718ffffffff";
    let mut deps = store_with_investment(location, "9362718ffffffff");
    // exactly 7 days after maturity is still within the window
    let oracle = oracle_msg(location, percent(2468), time_at(37 * 86400));
    execute(&mut deps, env_at(39 * 86400), "oracle".to_string(), oracle).unwrap();
    let res = withdraw(&mut deps, env_at(40 * 86400), "investor".to_string()).unwrap();
    assert_eq!(res.messages[0].amount, 404000);
}

#[test]
fn withdraw_settles_all_cells_with_one_transfer() {
    let location = "8362718ffffffff";
    let location2 = "1362718ffffffff";
    let mut deps = Store::new();
    instantiate(&mut deps, init_with_locations(&[location, location2])).unwrap();
    let oracle = ExecuteMsg::StoreOracle {
        values: vec![
            OracleValues {
                index: location.to_string(),
                value: percent(450),
                time: time_at(10),
            },
            OracleValues {
                index: location2.to_string(),
                value: percent(200),
                time: time_at(10),
            },
        ],
    };
    let res = execute(&mut deps, env_at(20), "oracle".to_string(), oracle).unwrap();
    assert_eq!(
        res.events,
        vec![Event::Oracle {
            succeeded: 2,
            failed: vec![],
        }]
    );

    // two investments in the first cell, one in the second, one of another investor
    execute(&mut deps, env_at(100), "token".to_string(), invest_msg("investor", 10000, location))
        .unwrap();
    execute(&mut deps, env_at(200), "token".to_string(), invest_msg("investor", 500, location2))
        .unwrap();
    execute(&mut deps, env_at(300), "token".to_string(), invest_msg("other", 777, location))
        .unwrap();
    // this one is made later, and is not mature at the withdrawal
    execute(
        &mut deps,
        env_at(5 * 86400),
        "token".to_string(),
        invest_msg("investor", 40, location),
    )
    .unwrap();

    // the listing goes by cell, not by the time of investing
    let listed = list_investments(&deps, env_at(300), "investor".into(), None).unwrap();
    let cells: Vec<&str> = listed.investments.iter().map(|i| i.hex.as_str()).collect();
    assert_eq!(cells, vec![location2, location, location]);

    let oracle = ExecuteMsg::StoreOracle {
        values: vec![
            OracleValues {
                index: location.to_string(),
                value: percent(300),
                time: time_at(29 * 86400),
            },
            OracleValues {
                index: location2.to_string(),
                value: percent(400),
                time: time_at(29 * 86400),
            },
        ],
    };
    execute(&mut deps, env_at(29 * 86400), "oracle".to_string(), oracle).unwrap();

    let res = withdraw(&mut deps, env_at(30 * 86400), "investor".to_string()).unwrap();
    assert_eq!(
        res.messages,
        vec![Transfer {
            contract_addr: "token".to_string(),
            recipient: "investor".to_string(),
            amount: 15250,
        }]
    );
    assert_eq!(
        res.events,
        vec![
            Event::Withdraw {
                invested: 500,
                payout: 250,
                hex: location2.to_string(),
                investor: "investor".to_string(),
            },
            Event::Withdraw {
                invested: 10000,
                payout: 15000,
                hex: location.to_string(),
                investor: "investor".to_string(),
            },
            Event::WithdrawTotal {
                amount: 15250,
                investor: "investor".to_string(),
            },
        ]
    );

    // what is not mature stays, and so does what belongs to others
    let left = list_investments(&deps, env_at(30 * 86400), "investor".into(), None).unwrap();
    assert_eq!(left.investments.len(), 1);
    assert_eq!(left.investments[0].amount, 40);
    let other = list_investments(&deps, env_at(30 * 86400), "other".into(), None).unwrap();
    assert_eq!(other.investments.len(), 1);

    let info = query_info(&deps, location.into()).unwrap();
    assert_eq!(info.total_invested, 10000 + 777 + 40);
    assert_eq!(info.current_invested, 777 + 40);
    assert_eq!(info.total_investments, 3);
    assert_eq!(info.current_investments, 2);
    let info2 = query_info(&deps, location2.into()).unwrap();
    assert_eq!(info2.total_invested, 500);
    assert_eq!(info2.current_invested, 0);
    assert_eq!(info2.current_investments, 0);
}

#[test]
fn oracle_batch_keeps_the_valid_entries() {
    let location = "8362718ffffffff";
    let mut deps = Store::new();
    instantiate(&mut deps, init_with_locations(&[location])).unwrap();
    let values = vec![
        OracleValues {
            index: "8362718FFFFFFFF".to_string(),
            value: percent(1234),
            time: time_at(20),
        },
        OracleValues {
            index: location.to_string(),
            value: percent(9999),
            time: time_at(5000),
        },
        OracleValues {
            index: "nothex".to_string(),
            value: percent(1),
            time: time_at(1),
        },
    ];
    let res = store_oracle(&mut deps, env_at(1234), &"oracle".to_string(), values).unwrap();
    assert_eq!(
        res.events,
        vec![Event::Oracle {
            succeeded: 1,
            failed: vec![
                ContractError::OracleFromTheFuture(time_at(5000)),
                ContractError::InvalidR3("nothex".to_string()),
            ],
        }]
    );
    assert_eq!(res.messages, vec![]);
    let info = query_info(&deps, location.into()).unwrap();
    assert_eq!(
        info.cur_index,
        Some(Measurement {
            value: percent(1234),
            time: time_at(20),
        })
    );
}

#[test]
fn oracle_overwrites_with_an_older_measurement() {
    let location = "8362718ffffffff";
    let mut deps = Store::new();
    instantiate(&mut deps, init_with_locations(&[location])).unwrap();
    let oracle = "oracle".to_string();
    store_oracle(
        &mut deps,
        env_at(1000),
        &oracle,
        vec![OracleValues {
            index: location.to_string(),
            value: percent(500),
            time: time_at(900),
        }],
    )
    .unwrap();
    store_oracle(
        &mut deps,
        env_at(1000),
        &oracle,
        vec![OracleValues {
            index: location.to_string(),
            value: percent(100),
            time: time_at(10),
        }],
    )
    .unwrap();
    let info = query_info(&deps, location.into()).unwrap();
    assert_eq!(
        info.cur_index,
        Some(Measurement {
            value: percent(100),
            time: time_at(10),
        })
    );
}

#[test]
fn calls_before_initialization_find_no_config() {
    let mut deps = Store::new();
    let not_found = ContractError::Std(StdError::NotFound {
        kind: "Config".to_string(),
    });
    assert_eq!(query_config(&deps).unwrap_err(), not_found);
    assert_eq!(
        withdraw(&mut deps, env_at(0), "investor".to_string()).unwrap_err(),
        not_found
    );
    assert_eq!(
        store_oracle(&mut deps, env_at(0), &"oracle".to_string(), vec![]).unwrap_err(),
        not_found
    );
    assert_eq!(
        execute(&mut deps, env_at(0), "token".to_string(), invest_msg("investor", 1, "x"))
            .unwrap_err(),
        not_found
    );
    assert_eq!(
        list_investments(&deps, env_at(0), "investor".into(), None).unwrap_err(),
        not_found
    );
}

#[test]
fn invest_refuses_in_order() {
    let location = "8362718ffffffff";
    let location2 = "9362718ffffffff";
    let mut deps = Store::new();
    instantiate(&mut deps, init_with_locations(&[location, location2])).unwrap();
    let coin = |amount: u128| Cw20CoinVerified {
        address: "token".to_string(),
        amount,
    };

    // another token, and a bad cell: the token is looked at first
    let err = invest(
        &mut deps,
        env_at(10),
        "investor".to_string(),
        Cw20CoinVerified {
            address: "other".to_string(),
            amount: 5,
        },
        "foobar".to_string(),
    )
    .unwrap_err();
    assert_eq!(err, ContractError::InvalidToken("other".to_string()));

    let err = invest(&mut deps, env_at(10), "investor".to_string(), coin(5), "foobar".into())
        .unwrap_err();
    assert_eq!(err, ContractError::InvalidR3("foobar".to_string()));

    // a valid cell that was never registered never received a measurement
    let err = invest(
        &mut deps,
        env_at(10),
        "investor".to_string(),
        coin(5),
        "0000000000000ff".into(),
    )
    .unwrap_err();
    assert_eq!(err, ContractError::NoDataPresent);
    assert_eq!(
        query_info(&deps, "0000000000000ff".into()).unwrap_err(),
        ContractError::Std(StdError::NotFound {
            kind: "Location".to_string()
        })
    );

    // a registered cell without measurement, whatever the amount
    let err = invest(&mut deps, env_at(10), "investor".to_string(), coin(5), location.into())
        .unwrap_err();
    assert_eq!(err, ContractError::NoDataPresent);
    let err = invest(
        &mut deps,
        env_at(10),
        "investor".to_string(),
        coin(u128::MAX),
        location2.into(),
    )
    .unwrap_err();
    assert_eq!(err, ContractError::NoDataPresent);

    store_oracle(
        &mut deps,
        env_at(1000),
        &"oracle".to_string(),
        vec![OracleValues {
            index: location.to_string(),
            value: percent(500),
            time: time_at(1000),
        }],
    )
    .unwrap();

    // seven days later to the second the measurement still counts
    invest(
        &mut deps,
        env_at(1000 + 7 * 86400),
        "investor".to_string(),
        coin(5),
        location.into(),
    )
    .unwrap();
    // one second more and it is too old
    let err = invest(
        &mut deps,
        env_at(1001 + 7 * 86400),
        "investor".to_string(),
        coin(5),
        location.into(),
    )
    .unwrap_err();
    assert_eq!(err, ContractError::DataTooOld { days: 7 });

    // a refused investment is not counted
    let info = query_info(&deps, location.into()).unwrap();
    assert_eq!(info.total_invested, 5);
    assert_eq!(info.current_invested, 5);
    assert_eq!(info.total_investments, 1);
    assert_eq!(info.current_investments, 1);

    // the aggregates have no room for this one
    let err = invest(
        &mut deps,
        env_at(2000),
        "investor".to_string(),
        coin(u128::MAX),
        location.into(),
    )
    .unwrap_err();
    assert_eq!(
        err,
        ContractError::Std(StdError::Overflow {
            operation: OverflowOperation::Add
        })
    );
    // but where the data is too old, that is what refuses it
    let err = invest(
        &mut deps,
        env_at(1001 + 7 * 86400),
        "investor".to_string(),
        coin(u128::MAX),
        location.into(),
    )
    .unwrap_err();
    assert_eq!(err, ContractError::DataTooOld { days: 7 });
}

#[test]
fn invest_records_baseline_and_maturity() {
    let location = "8362718ffffffff";
    let mut deps = Store::new();
    instantiate(&mut deps, init_with_locations(&[location])).unwrap();
    store_oracle(
        &mut deps,
        env_at(1000),
        &"oracle".to_string(),
        vec![OracleValues {
            index: location.to_string(),
            value: percent(1234),
            time: time_at(1000),
        }],
    )
    .unwrap();
    let res = invest(
        &mut deps,
        env_at(5000),
        "investor".to_string(),
        Cw20CoinVerified {
            address: "token".to_string(),
            amount: 777000,
        },
        "8362718FFFFFFFF".into(),
    )
    .unwrap();
    assert_eq!(
        res.events,
        vec![Event::Invest {
            index: location.to_string(),
            amount: 777000,
            investor: "investor".to_string(),
        }]
    );
    let listed =
        list_investments(&deps, env_at(5000), "investor".into(), Some(location.into())).unwrap();
    assert_eq!(listed.investments.len(), 1);
    assert_eq!(listed.investments[0].baseline_index, percent(1234));
    assert_eq!(listed.investments[0].invested, time_at(5000));
    assert_eq!(
        listed.investments[0].maturity_date,
        time_at(5000) + 28 * 86400
    );
}

#[test]
fn invest_refuses_a_maturity_beyond_the_clock() {
    let location = "8362718ffffffff";
    let measured = |deps: &mut Store, time: u64| {
        store_oracle(
            deps,
            time,
            &"oracle".to_string(),
            vec![OracleValues {
                index: location.to_string(),
                value: percent(500),
                time,
            }],
        )
        .unwrap();
    };

    let mut deps = Store::new();
    let mut msg = init_with_locations(&[location]);
    msg.maturity_days = u64::MAX;
    instantiate(&mut deps, msg).unwrap();
    // without data, that is what refuses the investment
    let err = execute(
        &mut deps,
        env_at(10),
        "token".to_string(),
        invest_msg("investor", 5, location),
    )
    .unwrap_err();
    assert_eq!(err, ContractError::NoDataPresent);
    measured(&mut deps, env_at(5));
    let err = execute(
        &mut deps,
        env_at(10),
        "token".to_string(),
        invest_msg("investor", 5, location),
    )
    .unwrap_err();
    assert_eq!(
        err,
        ContractError::Std(StdError::Overflow {
            operation: OverflowOperation::Mul
        })
    );
    // with data that is too old, that is what refuses it
    let err = execute(
        &mut deps,
        env_at(6 + 7 * 86400),
        "token".to_string(),
        invest_msg("investor", 5, location),
    )
    .unwrap_err();
    assert_eq!(err, ContractError::DataTooOld { days: 7 });

    let mut deps = Store::new();
    let mut msg = init_with_locations(&[location]);
    msg.maturity_days = u64::MAX / 86400;
    instantiate(&mut deps, msg).unwrap();
    measured(&mut deps, env_at(5));
    let err = execute(
        &mut deps,
        env_at(10),
        "token".to_string(),
        invest_msg("investor", 5, location),
    )
    .unwrap_err();
    assert_eq!(
        err,
        ContractError::Std(StdError::Overflow {
            operation: OverflowOperation::Add
        })
    );
    // nothing was counted
    assert_eq!(query_info(&deps, location.into()).unwrap().total_investments, 0);
}

#[test]
fn withdraw_fails_whole_on_an_undefined_reward() {
    let location = "8362718ffffffff";
    let location2 = "1362718ffffffff";
    let mut deps = Store::new();
    instantiate(&mut deps, init_with_locations(&[location, location2])).unwrap();
    let oracle = "oracle".to_string();
    for cell in [location, location2] {
        store_oracle(
            &mut deps,
            env_at(10),
            &oracle,
            vec![OracleValues {
                index: cell.to_string(),
                value: percent(100),
                time: time_at(10),
            }],
        )
        .unwrap();
        execute(&mut deps, env_at(20), "token".to_string(), invest_msg("investor", 1000, cell))
            .unwrap();
    }
    // the first cell in the order of cells gets a good measurement, the second a zero
    store_oracle(
        &mut deps,
        env_at(29 * 86400),
        &oracle,
        vec![
            OracleValues {
                index: location2.to_string(),
                value: percent(50),
                time: time_at(29 * 86400),
            },
            OracleValues {
                index: location.to_string(),
                value: 0,
                time: time_at(29 * 86400),
            },
        ],
    )
    .unwrap();
    let before = list_investments(&deps, env_at(30 * 86400), "investor".into(), None).unwrap();
    let before_info = query_info(&deps, location2.into()).unwrap();

    let err = withdraw(&mut deps, env_at(30 * 86400), "investor".to_string()).unwrap_err();
    assert_eq!(err, ContractError::Std(StdError::DivideByZero));

    // nothing was settled, not even the cell that came first
    assert_eq!(
        list_investments(&deps, env_at(30 * 86400), "investor".into(), None).unwrap(),
        before
    );
    assert_eq!(query_info(&deps, location2.into()).unwrap(), before_info);
    assert_eq!(before.investments.len(), 2);
    // the listing shows the principal where no ratio is defined
    assert!(!before.investments[1].can_withdraw);
    assert_eq!(before.investments[1].withdraw_amount, 1000);
    assert!(before.investments[0].can_withdraw);
    assert_eq!(before.investments[0].withdraw_amount, 2000);
}

#[test]
fn register_resets_a_cell() {
    let location = "8362718ffffffff";
    let mut deps = store_with_investment(location, "9362718ffffffff");
    assert_eq!(
        register(&mut deps, "xyz".to_string()).unwrap_err(),
        ContractError::InvalidR3("xyz".to_string())
    );
    register(&mut deps, "8362718FFFFFFFF".to_string()).unwrap();
    assert_eq!(
        query_info(&deps, location.into()).unwrap(),
        InfoResponse::default()
    );
    register(&mut deps, "00000000000000a".to_string()).unwrap();
    assert_eq!(
        query_info(&deps, "00000000000000A".into()).unwrap(),
        InfoResponse::default()
    );
}

#[test]
fn instantiate_refuses_whole_on_one_bad_cell() {
    let mut deps = Store::new();
    let err = instantiate(
        &mut deps,
        init_with_locations(&["8362718ffffffff", "bad", "worse"]),
    )
    .unwrap_err();
    assert_eq!(err, ContractError::InvalidR3("bad".to_string()));
    assert_eq!(
        query_config(&deps).unwrap_err(),
        ContractError::Std(StdError::NotFound {
            kind: "Config".to_string()
        })
    );
}

#[test]
fn queries_answer_through_query() {
    let location = "8362718ffffffff";
    let deps = store_with_investment(location, "9362718ffffffff");
    match query(&deps, env_at(0), QueryMsg::Config {}).unwrap() {
        QueryResponse::Config(cfg) => assert_eq!(cfg.maturity_days, 28),
        other => panic!("unexpected answer: {:?}", other),
    }
    match query(
        &deps,
        env_at(0),
        QueryMsg::Info {
            hex: location.to_string(),
        },
    )
    .unwrap()
    {
        QueryResponse::Info(info) => assert_eq!(info.current_invested, 808000),
        other => panic!("unexpected answer: {:?}", other),
    }
    match query(
        &deps,
        env_at(0),
        QueryMsg::ListInvestments {
            investor: "investor".to_string(),
            hex: None,
        },
    )
    .unwrap()
    {
        QueryResponse::ListInvestments(list) => assert_eq!(list.investments.len(), 1),
        other => panic!("unexpected answer: {:?}", other),
    }
    // a cell in which the investor holds nothing
    assert_eq!(
        list_investments(
            &deps,
            env_at(0),
            "investor".into(),
            Some("9362718ffffffff".into())
        )
        .unwrap_err(),
        ContractError::Std(StdError::NotFound {
            kind: "Investments".to_string()
        })
    );
    assert_eq!(
        query_info(&deps, "0000000000000ff".into()).unwrap_err(),
        ContractError::Std(StdError::NotFound {
            kind: "Location".to_string()
        })
    );
    assert_eq!(
        query_info(&deps, "zzz".into()).unwrap_err(),
        ContractError::InvalidR3("zzz".to_string())
    );
}

#[test]
fn migration_passes() {
    let mut deps = Store::new();

    let msg = init_with_locations(&["8765437FFFFFFFF", "1284639ffffffff"]);

    // we can just call .unwrap() to assert this was a success
    instantiate(&mut deps, msg).unwrap();

    // and ensure migrate passes
    let stored = ContractVersion {
        contract: CONTRACT_NAME.to_string(),
        version: CONTRACT_VERSION.to_string(),
    };
    migrate(&stored, MigrateMsg {}).unwrap();
}

#[test]
fn migration_refuses_other_contracts_and_later_versions() {
    let stored = |contract: &str, version: &str| ContractVersion {
        contract: contract.to_string(),
        version: version.to_string(),
    };
    assert_eq!(
        migrate(&stored("crates.io:wynd-faucet", CONTRACT_VERSION), MigrateMsg {}).unwrap_err(),
        ContractError::InvalidMigration
    );
    assert_eq!(
        migrate(&stored(CONTRACT_NAME, "0.1.1"), MigrateMsg {}).unwrap_err(),
        ContractError::InvalidMigration
    );
    assert_eq!(
        migrate(&stored(CONTRACT_NAME, "0.1.0-beta"), MigrateMsg {}).unwrap_err(),
        ContractError::InvalidMigration
    );
    assert_eq!(
        migrate(&stored(CONTRACT_NAME, "0.2"), MigrateMsg {}).unwrap_err(),
        ContractError::InvalidMigration
    );
    assert_eq!(
        migrate(&stored(CONTRACT_NAME, "0.0.9"), MigrateMsg {}).unwrap(),
        Response::new()
    );
    assert_eq!(
        migrate(&stored(CONTRACT_NAME, "0.1"), MigrateMsg {}).unwrap(),
        Response::new()
    );
    assert_eq!(
        migrate(&stored(CONTRACT_NAME, ""), MigrateMsg {}).unwrap(),
        Response::new()
    );
    assert!(text_less("0.1.0", "0.1.0é"));
    assert!(!text_less("0.1.0", "0.1.0"));
    assert!(text_less("0.10.0", "0.9.0"));
}

#[test]
fn withdraw_fails_whole_when_the_sum_does_not_fit() {
    let location = "8362718ffffffff";
    let mut deps = Store::new();
    instantiate(&mut deps, init_with_locations(&[location])).unwrap();
    let oracle = "oracle".to_string();
    store_oracle(
        &mut deps,
        env_at(10),
        &oracle,
        vec![OracleValues {
            index: location.to_string(),
            value: percent(300),
            time: time_at(10),
        }],
    )
    .unwrap();
    // each of the two pays three times its principal once the index falls to 1.0
    let amount = 1u128 << 126;
    for investor in ["investor", "investor"] {
        execute(
            &mut deps,
            env_at(20),
            "token".to_string(),
            invest_msg(investor, amount, location),
        )
        .unwrap();
    }
    store_oracle(
        &mut deps,
        env_at(29 * 86400),
        &oracle,
        vec![OracleValues {
            index: location.to_string(),
            value: percent(100),
            time: time_at(29 * 86400),
        }],
    )
    .unwrap();
    let listed = list_investments(&deps, env_at(30 * 86400), "investor".into(), None).unwrap();
    assert_eq!(listed.investments[0].withdraw_amount, 3 * amount);
    assert!(listed.investments[0].can_withdraw);

    let err = withdraw(&mut deps, env_at(30 * 86400), "investor".to_string()).unwrap_err();
    assert_eq!(
        err,
        ContractError::Std(StdError::Overflow {
            operation: OverflowOperation::Add
        })
    );
    assert_eq!(
        list_investments(&deps, env_at(30 * 86400), "investor".into(), None).unwrap(),
        listed
    );
    let info = query_info(&deps, location.into()).unwrap();
    assert_eq!(info.current_invested, 2 * amount);
    assert_eq!(info.current_investments, 2);
}

#[test]
fn withdraw_that_pays_nothing_still_settles() {
    let location = "8362718ffffffff";
    let mut deps = Store::new();
    instantiate(&mut deps, init_with_locations(&[location])).unwrap();
    let oracle = "oracle".to_string();
    // a baseline of zero makes every ratio zero
    store_oracle(
        &mut deps,
        env_at(10),
        &oracle,
        vec![OracleValues {
            index: location.to_string(),
            value: 0,
            time: time_at(10),
        }],
    )
    .unwrap();
    execute(&mut deps, env_at(20), "token".to_string(), invest_msg("investor", 500, location))
        .unwrap();
    store_oracle(
        &mut deps,
        env_at(29 * 86400),
        &oracle,
        vec![OracleValues {
            index: location.to_string(),
            value: percent(100),
            time: time_at(29 * 86400),
        }],
    )
    .unwrap();
    let res = withdraw(&mut deps, env_at(30 * 86400), "investor".to_string()).unwrap();
    assert_eq!(res, Response::new());
    let left =
        list_investments(&deps, env_at(30 * 86400), "investor".into(), Some(location.into()))
            .unwrap();
    assert_eq!(left.investments.len(), 0);
    let info = query_info(&deps, location.into()).unwrap();
    assert_eq!(info.current_invested, 0);
    assert_eq!(info.total_invested, 500);
}
