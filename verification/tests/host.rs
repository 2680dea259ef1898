use cosmwasm_std::testing::{mock_dependencies, mock_dependencies_with_balance, MOCK_CONTRACT_ADDR};
use cosmwasm_std::{coin, Api, Coin as ChainCoin};
use nameservice::coin_helpers::Coin;
use nameservice::contract::{execute, instantiate};
use nameservice::error::ContractError;
use nameservice::msg::{
    Attribute, BankMsg, ExecuteMsg, Host, InstantiateMsg, MessageInfo, Response,
};
use nameservice::state::NameRecord;

fn judged(api: &dyn Api, address: &str) -> Result<String, String> {
    match api.addr_validate(address) {
        Ok(valid) => Ok(valid.into_string()),
        Err(e) => Err(e.to_string()),
    }
}

fn held(coins: Vec<ChainCoin>) -> Vec<Coin> {
    coins.into_iter().map(|c| Coin { denom: c.denom, amount: c.amount.u128() }).collect()
}

#[test]
fn admin_accepted_by_the_chain_becomes_owner() {
    let deps = mock_dependencies();
    let host = Host { addr_validate: judged(&deps.api, "admin"), balance: vec![] };
    let (state, _) = instantiate(
        host,
        MessageInfo::new("deployer", vec![]),
        InstantiateMsg { admin: Some("admin".to_string()) },
    );
    assert_eq!(state.config.owner, "admin");
}

#[test]
fn admin_refused_by_the_chain_leaves_the_deployer_owner() {
    let deps = mock_dependencies();
    // The mock chain takes no address of under three bytes, and none with capitals.
    for admin in ["ad", "Admin"] {
        let host = Host { addr_validate: judged(&deps.api, admin), balance: vec![] };
        assert!(host.addr_validate.is_err());
        let (state, _) = instantiate(
            host,
            MessageInfo::new("deployer", vec![]),
            InstantiateMsg { admin: Some(admin.to_string()) },
        );
        assert_eq!(state.config.owner, "deployer");
    }
}

#[test]
fn transfer_goes_by_the_chains_judgment() {
    let deps = mock_dependencies();
    let (mut state, _) = instantiate(
        Host { addr_validate: Err(String::new()), balance: vec![] },
        MessageInfo::new("deployer", vec![]),
        InstantiateMsg { admin: None },
    );
    let register = ExecuteMsg::Register {
        name: "alice".to_string(),
        bio: String::new(),
        website: String::new(),
    };
    let nothing = Host { addr_validate: Err(String::new()), balance: vec![] };
    assert!(execute(&mut state, nothing, MessageInfo::new("alice", vec![]), register).is_ok());

    let refused = Host { addr_validate: judged(&deps.api, "b"), balance: vec![] };
    let said = refused.addr_validate.clone().unwrap_err();
    assert!(said.contains("too short"));
    assert_eq!(
        execute(
            &mut state,
            refused,
            MessageInfo::new("alice", vec![]),
            ExecuteMsg::Transfer { name: "alice".to_string(), to: "b".to_string() },
        ),
        Err(ContractError::Std { msg: said })
    );
    assert_eq!(state.name_resolver.may_load("alice").unwrap().owner, "alice");

    let accepted = Host { addr_validate: judged(&deps.api, "bob"), balance: vec![] };
    assert!(execute(
        &mut state,
        accepted,
        MessageInfo::new("alice", vec![]),
        ExecuteMsg::Transfer { name: "alice".to_string(), to: "bob".to_string() },
    )
    .is_ok());
    assert_eq!(
        state.name_resolver.may_load("alice"),
        Some(NameRecord { owner: "bob".to_string(), bio: String::new(), website: String::new() })
    );
}

#[test]
fn refund_pays_out_what_the_bank_reports() {
    let deps = mock_dependencies_with_balance(&[coin(120, "uatom"), coin(7, "uosmo")]);
    let balance = deps.as_ref().querier.query_all_balances(MOCK_CONTRACT_ADDR).unwrap();
    let (mut state, _) = instantiate(
        Host { addr_validate: Err(String::new()), balance: vec![] },
        MessageInfo::new("owner", vec![]),
        InstantiateMsg { admin: None },
    );
    let host = Host { addr_validate: Err(String::new()), balance: held(balance) };
    assert_eq!(
        execute(&mut state, host, MessageInfo::new("owner", vec![]), ExecuteMsg::Refund {}),
        Ok(Response {
            messages: vec![BankMsg::Send {
                to_address: "owner".to_string(),
                amount: vec![Coin::new(120, "uatom"), Coin::new(7, "uosmo")],
            }],
            attributes: vec![
                Attribute { key: "action".to_string(), value: "refund".to_string() },
                Attribute { key: "to".to_string(), value: "owner".to_string() },
            ],
        })
    );
}
