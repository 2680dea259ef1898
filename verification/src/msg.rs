//! Requests, what comes with them, and what is handed back.

use crate::coin_helpers::Coin;
use crate::model::{
    empty_response, BankSendView, ConfigView, ExecuteMsgView, HostView, InfoView,
    QueryMsgView, QueryResponseView, ResolveView, ResponseView,
};
use crate::state::Config;
use vstd::prelude::*;

verus! {

/// Who sent a request, and the funds that came with it.
#[derive(Debug, PartialEq, Eq)]
pub struct MessageInfo {
    pub sender: String,
    pub funds: Vec<Coin>,
}

impl View for MessageInfo {
    type V = InfoView;

    open spec fn view(&self) -> InfoView {
        InfoView { sender: self.sender@, funds: self.funds.deep_view() }
    }
}

impl MessageInfo {
    /// A request from `sender` that comes with `funds`.
    pub fn new(sender: &str, funds: Vec<Coin>) -> (info: Self)
        ensures
            info@ == (InfoView { sender: sender@, funds: funds.deep_view() }),
    {
        MessageInfo { sender: sender.to_owned(), funds }
    }
}

/// The host's judgment of an address, as the model sees it.
pub open spec fn verdict_view(verdict: Result<String, String>) -> Result<Seq<char>, Seq<char>> {
    match verdict {
        Ok(address) => Ok(address@),
        Err(msg) => Err(msg@),
    }
}

/// What the host answers to the questions a request may raise.
///
/// `addr_validate` is its judgment of the address that the request names (the
/// new owner in a transfer, the admin at deployment): the address in its
/// accepted form, or what the host said when it refused. `balance` is what
/// the registry's own account holds. A request that raises neither question
/// reads neither answer.
#[derive(Debug, PartialEq, Eq)]
pub struct Host {
    pub addr_validate: Result<String, String>,
    pub balance: Vec<Coin>,
}

impl View for Host {
    type V = HostView;

    open spec fn view(&self) -> HostView {
        HostView {
            addr_validate: verdict_view(self.addr_validate),
            balance: self.balance.deep_view(),
        }
    }
}

/// The request that deploys a registry.
#[derive(Debug, PartialEq, Eq)]
pub struct InstantiateMsg {
    pub admin: Option<String>,
}

/// The request that upgrades a registry.
#[derive(Debug, PartialEq, Eq)]
pub struct MigrateMsg {}

/// A request that may change the stored state.
#[derive(Debug, PartialEq, Eq)]
pub enum ExecuteMsg {
    Register { name: String, bio: String, website: String },
    Transfer { name: String, to: String },
    Refund {},
    Edit { name: String, bio: String, website: String },
    Editconf {
        purchase_price: Option<Coin>,
        transfer_price: Option<Coin>,
        edit_price: Option<Coin>,
    },
}

impl View for ExecuteMsg {
    type V = ExecuteMsgView;

    open spec fn view(&self) -> ExecuteMsgView {
        match *self {
            ExecuteMsg::Register { name, bio, website } => ExecuteMsgView::Register {
                name: name@,
                bio: bio@,
                website: website@,
            },
            ExecuteMsg::Transfer { name, to } => ExecuteMsgView::Transfer { name: name@, to: to@ },
            ExecuteMsg::Refund {  } => ExecuteMsgView::Refund,
            ExecuteMsg::Edit { name, bio, website } => ExecuteMsgView::Edit {
                name: name@,
                bio: bio@,
                website: website@,
            },
            ExecuteMsg::Editconf {
                purchase_price,
                transfer_price,
                edit_price,
            } => ExecuteMsgView::Editconf {
                purchase_price: purchase_price.deep_view(),
                transfer_price: transfer_price.deep_view(),
                edit_price: edit_price.deep_view(),
            },
        }
    }
}

/// A request that only reads.
#[derive(Debug, PartialEq, Eq)]
pub enum QueryMsg {
    ResolveRecord { name: String },
    Config {},
}

impl View for QueryMsg {
    type V = QueryMsgView;

    open spec fn view(&self) -> QueryMsgView {
        match *self {
            QueryMsg::ResolveRecord { name } => QueryMsgView::ResolveRecord { name: name@ },
            QueryMsg::Config {  } => QueryMsgView::Config,
        }
    }
}

/// What is known of a name: all three fields of its record, or nothing.
#[derive(Debug, PartialEq, Eq)]
pub struct ResolveRecordResponse {
    pub address: Option<String>,
    pub bio: Option<String>,
    pub website: Option<String>,
}

impl View for ResolveRecordResponse {
    type V = ResolveView;

    open spec fn view(&self) -> ResolveView {
        ResolveView {
            address: self.address.deep_view(),
            bio: self.bio.deep_view(),
            website: self.website.deep_view(),
        }
    }
}

/// The registry's settings, as a query reports them.
#[derive(Debug, PartialEq, Eq)]
pub struct ConfigResponse {
    pub owner: String,
    pub purchase_price: Option<Coin>,
    pub transfer_price: Option<Coin>,
    pub edit_price: Option<Coin>,
}

impl View for ConfigResponse {
    type V = ConfigView;

    open spec fn view(&self) -> ConfigView {
        ConfigView {
            owner: self.owner@,
            purchase_price: self.purchase_price.deep_view(),
            transfer_price: self.transfer_price.deep_view(),
            edit_price: self.edit_price.deep_view(),
        }
    }
}

impl From<Config> for ConfigResponse {
    /// The report of `config`, field for field.
    fn from(config: Config) -> (report: Self) {
        ConfigResponse {
            owner: config.owner,
            purchase_price: config.purchase_price,
            transfer_price: config.transfer_price,
            edit_price: config.edit_price,
        }
    }
}

impl vstd::std_specs::convert::FromSpecImpl<Config> for ConfigResponse {
    open spec fn obeys_from_spec() -> bool {
        true
    }

    open spec fn from_spec(config: Config) -> Self {
        ConfigResponse {
            owner: config.owner,
            purchase_price: config.purchase_price,
            transfer_price: config.transfer_price,
            edit_price: config.edit_price,
        }
    }
}

/// The answer to a query.
#[derive(Debug, PartialEq, Eq)]
pub enum QueryResponse {
    ResolveRecord(ResolveRecordResponse),
    Config(ConfigResponse),
}

impl View for QueryResponse {
    type V = QueryResponseView;

    open spec fn view(&self) -> QueryResponseView {
        match *self {
            QueryResponse::ResolveRecord(found) => QueryResponseView::ResolveRecord(found@),
            QueryResponse::Config(config) => QueryResponseView::Config(config@),
        }
    }
}

/// An order to the bank.
#[derive(Debug, PartialEq, Eq)]
pub enum BankMsg {
    /// Pay `amount` to `to_address` out of the registry's account.
    Send { to_address: String, amount: Vec<Coin> },
}

impl View for BankMsg {
    type V = BankSendView;

    open spec fn view(&self) -> BankSendView {
        match *self {
            BankMsg::Send { to_address, amount } => BankSendView {
                to_address: to_address@,
                amount: amount.deep_view(),
            },
        }
    }
}

impl DeepView for BankMsg {
    type V = BankSendView;

    open spec fn deep_view(&self) -> BankSendView {
        self@
    }
}

/// A key and a value for the host to log.
#[derive(Debug, PartialEq, Eq)]
pub struct Attribute {
    pub key: String,
    pub value: String,
}

impl View for Attribute {
    type V = (Seq<char>, Seq<char>);

    open spec fn view(&self) -> (Seq<char>, Seq<char>) {
        (self.key@, self.value@)
    }
}

impl DeepView for Attribute {
    type V = (Seq<char>, Seq<char>);

    open spec fn deep_view(&self) -> (Seq<char>, Seq<char>) {
        self@
    }
}

/// What a request hands back to the host: payments to carry out, and
/// attributes to log, each in the order in which it was added.
#[derive(Debug, PartialEq, Eq)]
pub struct Response {
    pub messages: Vec<BankMsg>,
    pub attributes: Vec<Attribute>,
}

impl View for Response {
    type V = ResponseView;

    open spec fn view(&self) -> ResponseView {
        ResponseView {
            messages: self.messages.deep_view(),
            attributes: self.attributes.deep_view(),
        }
    }
}

impl Response {
    /// The response that asks for nothing and logs nothing.
    pub fn new() -> (response: Self)
        ensures
            response@ == empty_response(),
    {
        let response = Response { messages: Vec::new(), attributes: Vec::new() };
        assert(response@.messages =~= Seq::empty());
        assert(response@.attributes =~= Seq::empty());
        response
    }

    /// This response with one more attribute to log.
    pub fn add_attribute(self, key: &str, value: &str) -> (response: Self)
        ensures
            response@.messages == self@.messages,
            response@.attributes == self@.attributes.push((key@, value@)),
    {
        let mut response = self;
        response.attributes.push(Attribute { key: key.to_owned(), value: value.to_owned() });
        assert(response@.attributes =~= self@.attributes.push((key@, value@)));
        response
    }

    /// This response with one more order to the bank.
    pub fn add_message(self, msg: BankMsg) -> (response: Self)
        ensures
            response@.messages == self@.messages.push(msg@),
            response@.attributes == self@.attributes,
    {
        let mut response = self;
        response.messages.push(msg);
        assert(response@.messages =~= self@.messages.push(msg@));
        response
    }
}

impl Default for Response {
    fn default() -> (response: Self)
        ensures
            response@ == empty_response(),
    {
        Response::new()
    }
}

} // verus!
