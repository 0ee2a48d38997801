use cosmwasm_std::testing::{mock_env, mock_info};
use cosmwasm_std::{coins, MemoryStorage, Storage};
use counter::{execute, instantiate, query, ContractError, ExecuteMsg, InstantiateMsg, QueryMsg};

#[test]
fn proper_initialization() {
    let mut store = MemoryStorage::new();

    let msg = InstantiateMsg { count: 17 };
    let info = mock_info("creator", &coins(1000, "earth"));

    let res = instantiate(&mut store, mock_env(), info, msg).unwrap();
    assert_eq!(0, res.messages.len());

    let value = query(&store, mock_env(), QueryMsg::GetCount {}).unwrap();
    assert_eq!(17, value.count);
}

#[test]
fn increment() {
    let mut store = MemoryStorage::new();

    let msg = InstantiateMsg { count: 17 };
    let info = mock_info("creator", &coins(2, "token"));
    let _res = instantiate(&mut store, mock_env(), info, msg).unwrap();

    let info = mock_info("anyone", &coins(2, "token"));
    let msg = ExecuteMsg::Increment {};
    let _res = execute(&mut store, mock_env(), info, msg).unwrap();

    let value = query(&store, mock_env(), QueryMsg::GetCount {}).unwrap();
    assert_eq!(18, value.count);
}

#[test]
fn query_before_initialization_fails() {
    let store = MemoryStorage::new();

    let res = query(&store, mock_env(), QueryMsg::GetCount {});
    assert!(matches!(res, Err(ContractError::Uninitialized)));
}

#[test]
fn increment_before_initialization_fails() {
    let mut store = MemoryStorage::new();

    let info = mock_info("anyone", &[]);
    let res = execute(&mut store, mock_env(), info, ExecuteMsg::Increment {});
    assert!(matches!(res, Err(ContractError::Uninitialized)));

    // The failed call must not have initialized anything on the side.
    let res = query(&store, mock_env(), QueryMsg::GetCount {});
    assert!(matches!(res, Err(ContractError::Uninitialized)));
}

#[test]
fn reinitialization_overwrites() {
    let mut store = MemoryStorage::new();

    let info = mock_info("creator", &[]);
    instantiate(&mut store, mock_env(), info, InstantiateMsg { count: 5 }).unwrap();
    let info = mock_info("creator", &[]);
    instantiate(&mut store, mock_env(), info, InstantiateMsg { count: -42 }).unwrap();

    let value = query(&store, mock_env(), QueryMsg::GetCount {}).unwrap();
    assert_eq!(-42, value.count);
}

#[test]
fn repeated_increments_add_up() {
    let mut store = MemoryStorage::new();

    let info = mock_info("creator", &[]);
    instantiate(&mut store, mock_env(), info, InstantiateMsg { count: -3 }).unwrap();

    for _ in 0..5 {
        let info = mock_info("anyone", &[]);
        execute(&mut store, mock_env(), info, ExecuteMsg::Increment {}).unwrap();
    }

    let value = query(&store, mock_env(), QueryMsg::GetCount {}).unwrap();
    assert_eq!(2, value.count);
}

// The increment policy at the top of the range: rather than wrapping around,
// the contract rejects the call with `Overflow` and leaves the count as it was.
#[test]
fn increment_at_max_fails_with_overflow() {
    let mut store = MemoryStorage::new();

    let info = mock_info("creator", &[]);
    instantiate(&mut store, mock_env(), info, InstantiateMsg { count: i32::MAX }).unwrap();

    let info = mock_info("anyone", &[]);
    let res = execute(&mut store, mock_env(), info, ExecuteMsg::Increment {});
    assert!(matches!(res, Err(ContractError::Overflow)));

    let value = query(&store, mock_env(), QueryMsg::GetCount {}).unwrap();
    assert_eq!(i32::MAX, value.count);
}

#[test]
fn increment_from_min_works() {
    let mut store = MemoryStorage::new();

    let info = mock_info("creator", &[]);
    instantiate(&mut store, mock_env(), info, InstantiateMsg { count: i32::MIN }).unwrap();

    let info = mock_info("anyone", &[]);
    execute(&mut store, mock_env(), info, ExecuteMsg::Increment {}).unwrap();

    let value = query(&store, mock_env(), QueryMsg::GetCount {}).unwrap();
    assert_eq!(i32::MIN + 1, value.count);
}

#[test]
fn corrupted_slot_surfaces_storage_error() {
    let mut store = MemoryStorage::new();
    // Scribble bytes at the count key that no save ever wrote.
    store.set(b"count", b"not a number");

    let res = query(&store, mock_env(), QueryMsg::GetCount {});
    assert!(matches!(res, Err(ContractError::Std(_))));

    let info = mock_info("anyone", &[]);
    let res = execute(&mut store, mock_env(), info, ExecuteMsg::Increment {});
    assert!(matches!(res, Err(ContractError::Std(_))));
}
