//! The request handlers.

use crate::coin_helpers::{assert_sent_sufficient_coin, Coin};
use crate::error::{fails_with, ContractError};
use crate::model;
use crate::laws::law_execute_keeps_well_formed;
use crate::model::{
    ErrorView, ExecuteMsgView, HostView, State, Step, CONTRACT_NAME, MAX_BIO_LENGTH,
    MAX_NAME_LENGTH, MAX_WEBSITE_LENGTH, MIN_NAME_LENGTH,
};
use crate::msg::{
    verdict_view, BankMsg, ConfigResponse, ExecuteMsg, Host, InstantiateMsg, MessageInfo,
    MigrateMsg, QueryMsg, QueryResponse, ResolveRecordResponse, Response,
};
use crate::state::{Config, ContractVersion, NameRecord, Registry};
use vstd::prelude::*;

verus! {

/// The number of bytes that `text` occupies when stored.
pub fn byte_length(text: &str) -> (n: u64)
    ensures
        n == model::byte_len(text@),
{
    text.as_bytes().len() as u64
}

/// Whether `c` may not occur in a name.
pub fn invalid_char(c: char) -> (bad: bool)
    ensures
        bad == !model::is_name_char(c),
{
    let is_valid = (c >= '0' && c <= '9') || (c >= 'a' && c <= 'z') || c == '-';
    !is_valid
}

/// The first character of `name` that may not occur in a name.
fn find_invalid_char(name: &str) -> (found: Option<char>)
    ensures
        found == model::first_invalid(name@),
{
    let chars = name.chars();
    for c in it: chars
        invariant
            it.seq() == name@,
            forall|j: int| 0 <= j < it.index() ==> model::is_name_char(#[trigger] name@[j]),
    {
        if invalid_char(c) {
            proof {
                assert(model::is_first_invalid(name@, it.index()));
                model::lemma_first_invalid(name@);
            }
            return Some(c);
        }
    }
    proof {
        model::lemma_first_invalid(name@);
    }
    None
}

/// Judges whether `name` may be registered.
///
/// A name has 3 to 30 bytes and is spelled with lowercase ASCII letters, ASCII
/// digits and hyphens. The length is judged first; a character that is
/// reported is the first one that no name may hold, whole, however many bytes
/// it takes.
pub fn validate_name(name: &str) -> (res: Result<(), ContractError>)
    ensures
        match model::validate_name(name@) {
            Ok(()) => res is Ok,
            Err(e) => fails_with(res, e),
        },
{
    let length = byte_length(name);
    if length < MIN_NAME_LENGTH {
        Err(ContractError::NameTooShort { length, min_length: MIN_NAME_LENGTH })
    } else if length > MAX_NAME_LENGTH {
        Err(ContractError::NameTooLong { length, max_length: MAX_NAME_LENGTH })
    } else {
        match find_invalid_char(name) {
            None => Ok(()),
            Some(c) => Err(ContractError::InvalidCharacter { c }),
        }
    }
}

/// Answers of a host that was asked nothing.
pub open spec fn no_answers() -> HostView {
    HostView { addr_validate: Err(Seq::empty()), balance: Seq::empty() }
}

/// The handler did what the model expects of it: on success it gave the
/// expected response and left the expected state; on failure it gave the
/// expected error and left the state as it was.
pub open spec fn conforms(
    pre: State,
    post: State,
    res: Result<Response, ContractError>,
    expected: Result<Step, ErrorView>,
) -> bool {
    match expected {
        Ok(step) => res matches Ok(response) && response@ == step.response && post == step.next,
        Err(e) => fails_with(res, e) && post == pre,
    }
}

/// Judges whether `bio` and `website` fit a record, the bio first.
pub fn check_texts(bio: &str, website: &str) -> (res: Result<(), ContractError>)
    ensures
        match model::check_texts(bio@, website@) {
            Ok(()) => res is Ok,
            Err(e) => fails_with(res, e),
        },
{
    let bio_length = byte_length(bio);
    let website_length = byte_length(website);
    if bio_length > MAX_BIO_LENGTH {
        return Err(ContractError::BioTooLong { bio_length, max_length: MAX_BIO_LENGTH });
    }
    if website_length > MAX_WEBSITE_LENGTH {
        return Err(
            ContractError::WebsiteTooLong { website_length, max_length: MAX_WEBSITE_LENGTH },
        );
    }
    Ok(())
}

/// The change that an edit makes to the record found under `name`: the
/// record with the new texts, if there is a record, `sender` owns it, and the
/// texts fit, judged in this order.
pub fn edit_record(
    found: Option<NameRecord>,
    sender: &String,
    name: &str,
    bio: String,
    website: String,
) -> (res: Result<NameRecord, ContractError>)
    ensures
        match model::edit_record(found.deep_view(), sender@, name@, bio@, website@) {
            Ok(record) => res matches Ok(changed) && changed@ == record,
            Err(e) => fails_with(res, e),
        },
{
    match found {
        None => Err(ContractError::NameNotExists { name: name.to_owned() }),
        Some(record) => {
            if *sender != record.owner {
                return Err(ContractError::Unauthorized);
            }
            check_texts(bio.as_str(), website.as_str())?;
            Ok(NameRecord { owner: record.owner, bio, website })
        },
    }
}

/// Replaces the bio and the website of the record under `name`.
///
/// The funds must cover the edit price, the name must be registered, the
/// sender must own it, and the texts must fit, judged in this order. The
/// owner stays. A request that fails changes nothing.
pub fn execute_edit(
    state: &mut Registry,
    info: MessageInfo,
    name: String,
    bio: String,
    website: String,
) -> (res: Result<Response, ContractError>)
    ensures
        conforms(
            old(state)@,
            final(state)@,
            res,
            model::edit(old(state)@, info@, name@, bio@, website@),
        ),
        old(state).wf() ==> final(state).wf(),
{
    proof {
        if state.wf() {
            law_execute_keeps_well_formed(
                state@,
                no_answers(),
                info@,
                ExecuteMsgView::Edit { name: name@, bio: bio@, website: website@ },
            );
        }
    }
    assert_sent_sufficient_coin(info.funds.as_slice(), &state.config.edit_price)?;
    let sender = info.sender;
    let action = |found: Option<NameRecord>| -> (res: Result<NameRecord, ContractError>)
        ensures
            match model::edit_record(found.deep_view(), sender@, name@, bio@, website@) {
                Ok(record) => res matches Ok(changed) && changed@ == record,
                Err(e) => fails_with(res, e),
            },
        { edit_record(found, &sender, name.as_str(), bio, website) };
    state.name_resolver.update(name.as_str(), action)?;
    Ok(Response::default())
}

/// Registers `name` for the sender, with `bio` and `website`.
///
/// The name must be valid, the funds must cover the purchase price, the
/// texts must fit, and the name must be free, judged in this order. A
/// request that fails changes nothing.
pub fn execute_register(
    state: &mut Registry,
    info: MessageInfo,
    name: String,
    bio: String,
    website: String,
) -> (res: Result<Response, ContractError>)
    ensures
        conforms(
            old(state)@,
            final(state)@,
            res,
            model::register(old(state)@, info@, name@, bio@, website@),
        ),
        old(state).wf() ==> final(state).wf(),
{
    proof {
        if state.wf() {
            law_execute_keeps_well_formed(
                state@,
                no_answers(),
                info@,
                ExecuteMsgView::Register { name: name@, bio: bio@, website: website@ },
            );
        }
    }
    validate_name(name.as_str())?;
    assert_sent_sufficient_coin(info.funds.as_slice(), &state.config.purchase_price)?;
    check_texts(bio.as_str(), website.as_str())?;
    if state.name_resolver.has(name.as_str()) {
        return Err(ContractError::NameTaken { name });
    }
    let record = NameRecord { owner: info.sender, bio, website };
    state.name_resolver.save(name.as_str(), record);
    Ok(Response::default())
}

/// The change that a transfer makes to the record found under `name`: the
/// record with `new_owner` as owner, if there is a record and `sender` owns
/// it.
pub fn transfer_record(
    found: Option<NameRecord>,
    sender: &String,
    name: &str,
    new_owner: String,
) -> (res: Result<NameRecord, ContractError>)
    ensures
        match model::transfer_record(found.deep_view(), sender@, name@, new_owner@) {
            Ok(record) => res matches Ok(changed) && changed@ == record,
            Err(e) => fails_with(res, e),
        },
{
    match found {
        None => Err(ContractError::NameNotExists { name: name.to_owned() }),
        Some(record) => {
            if *sender != record.owner {
                return Err(ContractError::Unauthorized);
            }
            Ok(NameRecord { owner: new_owner, bio: record.bio, website: record.website })
        },
    }
}

/// Hands the record under `name` to a new owner.
///
/// `to` is the host's judgment of the new owner's address: the address in
/// its accepted form, or what the host said when it refused. The funds must
/// cover the transfer price, the host must have accepted the address, the
/// name must be registered, and the sender must own it, judged in this
/// order. The bio and the website stay. A request that fails changes nothing.
pub fn execute_transfer(
    state: &mut Registry,
    info: MessageInfo,
    name: String,
    to: Result<String, String>,
) -> (res: Result<Response, ContractError>)
    ensures
        conforms(
            old(state)@,
            final(state)@,
            res,
            model::transfer(old(state)@, info@, name@, verdict_view(to)),
        ),
        old(state).wf() ==> final(state).wf(),
{
    proof {
        if state.wf() {
            law_execute_keeps_well_formed(
                state@,
                HostView { addr_validate: verdict_view(to), balance: Seq::empty() },
                info@,
                ExecuteMsgView::Transfer { name: name@, to: Seq::empty() },
            );
        }
    }
    assert_sent_sufficient_coin(info.funds.as_slice(), &state.config.transfer_price)?;
    let new_owner = match to {
        Ok(address) => address,
        Err(msg) => {
            return Err(ContractError::Std { msg });
        },
    };
    let sender = info.sender;
    let action = |found: Option<NameRecord>| -> (res: Result<NameRecord, ContractError>)
        ensures
            match model::transfer_record(found.deep_view(), sender@, name@, new_owner@) {
                Ok(record) => res matches Ok(changed) && changed@ == record,
                Err(e) => fails_with(res, e),
            },
        { transfer_record(found, &sender, name.as_str(), new_owner) };
    state.name_resolver.update(name.as_str(), action)?;
    Ok(Response::default())
}

/// Deploys a registry.
///
/// Its administrator is the address named as admin if one is named and the
/// host accepts it (`host.addr_validate`), else the sender. Every operation
/// starts out free, and no name is registered.
pub fn instantiate(host: Host, info: MessageInfo, msg: InstantiateMsg) -> (out: (
    Registry,
    Response,
))
    ensures
        out.0@ == model::instantiate(host@, info@, msg.admin.deep_view()).next,
        out.1@ == model::instantiate(host@, info@, msg.admin.deep_view()).response,
        out.0.wf(),
{
    let owner = match (msg.admin, host.addr_validate) {
        (Some(_), Ok(valid)) => valid,
        _ => info.sender,
    };
    let response = Response::new().add_attribute("method", "instantiate").add_attribute(
        "owner",
        owner.as_str(),
    );
    let state = Registry::new(
        Config { owner, purchase_price: None, transfer_price: None, edit_price: None },
    );
    assert(response@.attributes =~= seq![("method"@, "instantiate"@), ("owner"@, owner@)]);
    (state, response)
}

/// What is known of `name`: the three fields of its record, or nothing.
pub fn query_resolver(state: &Registry, name: String) -> (found: ResolveRecordResponse)
    ensures
        found@ == model::resolve(state@, name@),
{
    match state.name_resolver.may_load(name.as_str()) {
        Some(record) => ResolveRecordResponse {
            address: Some(record.owner),
            bio: Some(record.bio),
            website: Some(record.website),
        },
        None => ResolveRecordResponse { address: None, bio: None, website: None },
    }
}

/// Replaces the three prices.
///
/// The funds must cover the transfer price in force, and the sender must be
/// the registry owner, judged in this order. All three prices are replaced:
/// one given as `None` becomes free. A request that fails changes nothing.
pub fn execute_edit_conf(
    state: &mut Registry,
    info: MessageInfo,
    purchase_price: Option<Coin>,
    transfer_price: Option<Coin>,
    edit_price: Option<Coin>,
) -> (res: Result<Response, ContractError>)
    ensures
        conforms(
            old(state)@,
            final(state)@,
            res,
            model::edit_conf(
                old(state)@,
                info@,
                purchase_price.deep_view(),
                transfer_price.deep_view(),
                edit_price.deep_view(),
            ),
        ),
        old(state).wf() ==> final(state).wf(),
{
    proof {
        if state.wf() {
            law_execute_keeps_well_formed(
                state@,
                no_answers(),
                info@,
                ExecuteMsgView::Editconf {
                    purchase_price: purchase_price.deep_view(),
                    transfer_price: transfer_price.deep_view(),
                    edit_price: edit_price.deep_view(),
                },
            );
        }
    }
    assert_sent_sufficient_coin(info.funds.as_slice(), &state.config.transfer_price)?;
    if state.config.owner != info.sender {
        return Err(ContractError::Unauthorized);
    }
    state.config.purchase_price = purchase_price;
    state.config.transfer_price = transfer_price;
    state.config.edit_price = edit_price;
    Ok(Response::default())
}

/// The response that pays `amount` to `address` and logs `action` and the
/// address.
pub fn send_tokens(amount: Vec<Coin>, action: &str, address: String) -> (response: Response)
    ensures
        response@ == model::send_tokens(amount.deep_view(), action@, address@),
{
    let response = Response::new().add_message(
        BankMsg::Send { to_address: address.clone(), amount },
    ).add_attribute("action", action).add_attribute("to", address.as_str());
    assert(response@.messages =~= model::send_tokens(
        amount.deep_view(),
        action@,
        address@,
    ).messages);
    assert(response@.attributes =~= model::send_tokens(
        amount.deep_view(),
        action@,
        address@,
    ).attributes);
    response
}

/// Pays out what the registry's account holds.
///
/// `balance` is the whole balance of that account, as the host reports it.
/// Only the registry owner may ask; all of it goes to the registry owner in
/// one payment. The stored state stays as it is.
pub fn execute_refund(state: &Registry, info: MessageInfo, balance: Vec<Coin>) -> (res: Result<
    Response,
    ContractError,
>)
    ensures
        conforms(state@, state@, res, model::refund(state@, info@, balance.deep_view())),
{
    if state.config.owner != info.sender {
        return Err(ContractError::Unauthorized);
    }
    Ok(send_tokens(balance, "refund", state.config.owner.clone()))
}

/// Upgrades a registry whose stored state carries `marker`.
///
/// Fails on the marker of another kind of contract and leaves it as it was;
/// else brings the marker up to date. The stored version plays no part.
pub fn migrate(marker: &mut ContractVersion, msg: MigrateMsg) -> (res: Result<
    Response,
    ContractError,
>)
    ensures
        match model::migrate(old(marker)@) {
            Ok(next) => res matches Ok(response) && response@ == model::empty_response()
                && final(marker)@ == next,
            Err(e) => fails_with(res, e) && final(marker)@ == old(marker)@,
        },
{
    if marker.contract != CONTRACT_NAME.to_owned() {
        return Err(ContractError::Std { msg: "Can only upgrade from same type".to_owned() });
    }
    *marker = ContractVersion::current();
    Ok(Response::default())
}

/// Carries out a request that may change the stored state.
///
/// A transfer takes the host's judgment of the address it names from
/// `host.addr_validate`; a refund takes the balance from `host.balance`.
pub fn execute(state: &mut Registry, host: Host, info: MessageInfo, msg: ExecuteMsg) -> (res:
    Result<Response, ContractError>)
    ensures
        conforms(
            old(state)@,
            final(state)@,
            res,
            model::execute(old(state)@, host@, info@, msg@),
        ),
        old(state).wf() ==> final(state).wf(),
{
    match msg {
        ExecuteMsg::Register { name, bio, website } => execute_register(
            state,
            info,
            name,
            bio,
            website,
        ),
        ExecuteMsg::Transfer { name, to } => execute_transfer(state, info, name, host.addr_validate),
        ExecuteMsg::Refund {  } => execute_refund(state, info, host.balance),
        ExecuteMsg::Edit { name, bio, website } => execute_edit(state, info, name, bio, website),
        ExecuteMsg::Editconf { purchase_price, transfer_price, edit_price } => execute_edit_conf(
            state,
            info,
            purchase_price,
            transfer_price,
            edit_price,
        ),
    }
}

/// Answers a query.
pub fn query(state: &Registry, msg: QueryMsg) -> (answer: QueryResponse)
    ensures
        answer@ == model::query(state@, msg@),
{
    match msg {
        QueryMsg::ResolveRecord { name } => QueryResponse::ResolveRecord(
            query_resolver(state, name),
        ),
        QueryMsg::Config {  } => QueryResponse::Config(
            ConfigResponse::from(state.config.clone()),
        ),
    }
}

} // verus!
