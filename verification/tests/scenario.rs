use nameservice::coin_helpers::Coin;
use nameservice::contract::{execute, instantiate, query, query_resolver};
use nameservice::error::ContractError;
use nameservice::msg::{
    ExecuteMsg, Host, InstantiateMsg, MessageInfo, QueryMsg, QueryResponse,
    ResolveRecordResponse, Response,
};
use nameservice::state::NameRecord;

fn text(t: &str) -> String {
    t.to_string()
}

fn accepts(address: &str) -> Host {
    Host { addr_validate: Ok(address.to_string()), balance: vec![] }
}

fn ten_uatom(sender: &str) -> MessageInfo {
    MessageInfo::new(sender, vec![Coin::new(10, "uatom")])
}

#[test]
fn a_name_is_registered_contested_and_transferred() {
    let done = Ok(Response { messages: vec![], attributes: vec![] });

    // D deploys without naming an admin and so owns the registry; D sets the purchase price.
    let (mut state, _) =
        instantiate(accepts("unused"), MessageInfo::new("D", vec![]), InstantiateMsg { admin: None });
    assert_eq!(state.config.owner, "D");
    assert_eq!(
        execute(
            &mut state,
            accepts("unused"),
            MessageInfo::new("D", vec![]),
            ExecuteMsg::Editconf {
                purchase_price: Some(Coin::new(10, "uatom")),
                transfer_price: None,
                edit_price: None,
            },
        ),
        done
    );
    assert_eq!(state.config.purchase_price, Some(Coin::new(10, "uatom")));

    // D registers "alice-1".
    assert_eq!(
        execute(
            &mut state,
            accepts("unused"),
            ten_uatom("D"),
            ExecuteMsg::Register { name: text("alice-1"), bio: text("hi"), website: text("") },
        ),
        done
    );
    assert_eq!(
        state.name_resolver.may_load("alice-1"),
        Some(NameRecord { owner: text("D"), bio: text("hi"), website: text("") })
    );

    // E cannot register it again.
    assert_eq!(
        execute(
            &mut state,
            accepts("unused"),
            ten_uatom("E"),
            ExecuteMsg::Register { name: text("alice-1"), bio: text(""), website: text("") },
        ),
        Err(ContractError::NameTaken { name: text("alice-1") })
    );

    // E cannot give it away: the transfer is free, but E does not own the name.
    assert_eq!(
        execute(
            &mut state,
            accepts("F"),
            MessageInfo::new("E", vec![]),
            ExecuteMsg::Transfer { name: text("alice-1"), to: text("F") },
        ),
        Err(ContractError::Unauthorized)
    );
    assert_eq!(
        state.name_resolver.may_load("alice-1"),
        Some(NameRecord { owner: text("D"), bio: text("hi"), website: text("") })
    );

    // D can.
    assert_eq!(
        execute(
            &mut state,
            accepts("F"),
            MessageInfo::new("D", vec![]),
            ExecuteMsg::Transfer { name: text("alice-1"), to: text("F") },
        ),
        done
    );
    assert_eq!(
        query_resolver(&state, text("alice-1")),
        ResolveRecordResponse {
            address: Some(text("F")),
            bio: Some(text("hi")),
            website: Some(text("")),
        }
    );
    assert_eq!(
        query(&state, QueryMsg::ResolveRecord { name: text("alice-1") }),
        QueryResponse::ResolveRecord(ResolveRecordResponse {
            address: Some(text("F")),
            bio: Some(text("hi")),
            website: Some(text("")),
        })
    );
    assert_eq!(state.name_resolver.len(), 1);
}
