use cosmwasm_std::attr;
use cosmwasm_std::testing::{mock_env, mock_info};
use counter::contract::{execute, instantiate, query};
use counter::msg::{DataResponse, ExecuteMsg, InstantiateMsg, QueryMsg};
use counter::response::Response;
use counter::state::Store;

#[test]
fn test_instantiate() {
    let mut store = Store::new();
    let env = mock_env();
    let owner = "owner";
    let info = mock_info(owner, &[]);
    let msg = InstantiateMsg {};
    let res = instantiate(&mut store, env, info.clone(), msg).unwrap();

    assert_eq!(2, res.attributes.len());

    let state = store.load().unwrap();
    assert_eq!(state.x, 0);
}

#[test]
fn test_execute_set() {
    let mut store = Store::new();
    let env = mock_env();
    let owner = "owner";
    let info = mock_info(owner, &[]);
    let msg = InstantiateMsg {};
    let _res = instantiate(&mut store, env.clone(), info.clone(), msg).unwrap();

    let msg = ExecuteMsg::SetValue { x: 10u64 };

    let res = execute(&mut store, env.clone(), info.clone(), msg.clone()).unwrap();
    let expected = Response {
        attributes: vec![attr("action", "set"), attr("x", 10u64.to_string())],
    };
    assert_eq!(expected, res);
    let expected = cosmwasm_std::Response::default()
        .add_attributes(vec![attr("action", "set"), attr("x", 10u64.to_string())]);
    let res: cosmwasm_std::Response = cosmwasm_std::Response::new().add_attributes(res.attributes);
    assert_eq!(expected, res);

    let query_msg = QueryMsg::Get {};

    let val: DataResponse = query(&store, env.clone(), query_msg).unwrap();
    let expected = DataResponse { x: 10u64 };
    assert_eq!(val, expected);
}

#[test]
fn test_execute_increment() {
    let mut store = Store::new();
    let env = mock_env();
    let owner = "owner";
    let info = mock_info(owner, &[]);
    let msg = InstantiateMsg {};
    let _res = instantiate(&mut store, env.clone(), info.clone(), msg).unwrap();

    let msg = ExecuteMsg::Increment {};

    let res = execute(&mut store, env.clone(), info.clone(), msg.clone()).unwrap();
    let expected = Response {
        attributes: vec![attr("action", "increment")],
    };
    assert_eq!(expected, res);
    let expected =
        cosmwasm_std::Response::default().add_attributes(vec![attr("action", "increment")]);
    let res: cosmwasm_std::Response = cosmwasm_std::Response::new().add_attributes(res.attributes);
    assert_eq!(expected, res);

    let query_msg = QueryMsg::Get {};

    let val: DataResponse = query(&store, env.clone(), query_msg).unwrap();
    let expected = DataResponse { x: 1u64 };
    assert_eq!(val, expected);
}
