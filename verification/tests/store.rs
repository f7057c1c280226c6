use wynd::invest::state::{Config, Investment, Location, Measurement};
use wynd::invest::store::Store;
use wynd::invest::ContractError;
use wynd::platform::StdError;

fn investment(amount: u128) -> Investment {
    Investment {
        amount,
        baseline_index: 7,
        invested_time: 10,
        maturity_time: 20,
    }
}

fn location(current: u128, total: u128) -> Location {
    Location {
        cur_index: Some(Measurement::new(3, 4)),
        total_invested: total,
        current_invested: current,
        total_investments: 2,
        current_investments: 1,
    }
}

#[test]
fn store_starts_empty() {
    let store = Store::new();
    assert!(store.config().is_none());
    assert_eq!(store.location_count(), 0);
    assert_eq!(store.partition_count(), 0);
}

#[test]
fn store_keeps_the_configuration() {
    let mut store = Store::new();
    let cfg = Config {
        oracle: "oracle".to_string(),
        token: "token".to_string(),
        max_investment_hex: 9,
        maturity_days: 3,
        measurement_window: 2,
    };
    store.set_config(cfg.clone());
    assert_eq!(store.config(), Some(&cfg));
    let copy = store.clone();
    assert_eq!(copy.config(), Some(&cfg));
}

#[test]
fn store_saves_locations_under_normalized_cells() {
    let mut store = Store::new();
    store
        .save_location("8362718FFFFFFFF".to_string(), location(5, 9))
        .unwrap();
    store
        .save_location("1362718ffffffff".to_string(), Location::new())
        .unwrap();
    assert_eq!(store.location_count(), 2);
    assert_eq!(store.location_hex_at(0).as_str(), "8362718ffffffff");
    assert_eq!(store.location_at(0), location(5, 9));
    assert_eq!(
        store.location_index(&"1362718ffffffff".to_string()),
        Some(1)
    );
    assert_eq!(store.location_index(&"1362718fffffff0".to_string()), None);

    // saving again replaces
    store
        .save_location("8362718ffffffff".to_string(), location(1, 1))
        .unwrap();
    assert_eq!(store.location_count(), 2);
    assert_eq!(store.location_at(0), location(1, 1));

    assert_eq!(
        store
            .save_location("nothex".to_string(), Location::new())
            .unwrap_err(),
        ContractError::InvalidR3("nothex".to_string())
    );
    // more open than was ever invested
    assert_eq!(
        store
            .save_location("8362718ffffffff".to_string(), location(10, 9))
            .unwrap_err(),
        ContractError::Std(StdError::GenericErr {
            msg: "Inconsistent location".to_string()
        })
    );
    assert_eq!(store.location_at(0), location(1, 1));
}

#[test]
fn store_keeps_lists_in_the_order_of_cells() {
    let mut store = Store::new();
    for cell in ["8362718ffffffff", "1362718ffffffff", "a362718ffffffff"] {
        store
            .save_location(cell.to_string(), Location::new())
            .unwrap();
    }
    let save = |store: &mut Store, investor: &str, cell: &str, amount: u128| {
        store.save_investments(
            investor.to_string(),
            cell.to_string(),
            vec![investment(amount)],
        )
    };
    save(&mut store, "ann", "8362718ffffffff", 1).unwrap();
    save(&mut store, "bob", "A362718FFFFFFFF", 2).unwrap();
    save(&mut store, "ann", "1362718ffffffff", 3).unwrap();
    save(&mut store, "bob", "1362718ffffffff", 4).unwrap();
    save(&mut store, "ann", "a362718ffffffff", 5).unwrap();

    let keys: Vec<(String, String, u128)> = (0..store.partition_count())
        .map(|i| {
            (
                store.partition_investor_at(i).clone(),
                store.partition_hex_at(i).clone(),
                store.investments_at(i)[0].amount,
            )
        })
        .collect();
    let cells_of = |who: &str| -> Vec<(String, u128)> {
        keys.iter()
            .filter(|k| k.0 == who)
            .map(|k| (k.1.clone(), k.2))
            .collect()
    };
    assert_eq!(
        cells_of("ann"),
        vec![
            ("1362718ffffffff".to_string(), 3),
            ("8362718ffffffff".to_string(), 1),
            ("a362718ffffffff".to_string(), 5),
        ]
    );
    assert_eq!(
        cells_of("bob"),
        vec![
            ("1362718ffffffff".to_string(), 4),
            ("a362718ffffffff".to_string(), 2),
        ]
    );

    // saving again replaces the list
    save(&mut store, "ann", "8362718ffffffff", 77).unwrap();
    assert_eq!(store.partition_count(), 5);
    let i = store
        .partition_index(&"ann".to_string(), &"8362718ffffffff".to_string())
        .unwrap();
    assert_eq!(store.investments_at(i), &vec![investment(77)]);
    assert_eq!(
        store.partition_index(&"cat".to_string(), &"8362718ffffffff".to_string()),
        None
    );

    // a cell that is not registered, and one that is no cell
    assert_eq!(
        save(&mut store, "ann", "0000000000000ff", 1).unwrap_err(),
        ContractError::Std(StdError::NotFound {
            kind: "Location".to_string()
        })
    );
    assert_eq!(
        save(&mut store, "ann", "zz", 1).unwrap_err(),
        ContractError::InvalidR3("zz".to_string())
    );
    assert_eq!(store.partition_count(), 5);

    // a copy holds the same
    let copy = store.clone();
    assert_eq!(copy.partition_count(), 5);
    assert_eq!(copy.location_count(), 3);
    assert_eq!(copy.investments_at(i), &vec![investment(77)]);
}
