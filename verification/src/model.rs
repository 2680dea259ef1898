//! The registry as a mathematical state machine.
//!
//! Strings appear as sequences of characters, amounts and lengths as natural
//! numbers, and the record table as a map. Lengths are counted in bytes of the
//! UTF-8 encoding, which is how names and texts are stored.

use vstd::prelude::*;
use vstd::utf8::encode_utf8;

verus! {

/// The least number of bytes in a name.
pub const MIN_NAME_LENGTH: u64 = 3;

/// The greatest number of bytes in a name.
pub const MAX_NAME_LENGTH: u64 = 30;

/// The greatest number of bytes in a bio.
pub const MAX_BIO_LENGTH: u64 = 200;

/// The greatest number of bytes in a website.
pub const MAX_WEBSITE_LENGTH: u64 = 100;

/// The kind of contract that this registry is, as its version marker says it.
pub const CONTRACT_NAME: &'static str = "nameservice";

/// The version of this registry, as its version marker says it.
pub const CONTRACT_VERSION: &'static str = "0.1.0";

/// The reasons for which a request is turned down.
pub enum ErrorView {
    Std { msg: Seq<char> },
    Unauthorized,
    InsufficientFunds,
    NameNotExists { name: Seq<char> },
    NameTaken { name: Seq<char> },
    NameTooShort { length: nat, min_length: nat },
    NameTooLong { length: nat, max_length: nat },
    InvalidCharacter { c: char },
    BioTooLong { bio_length: nat, max_length: nat },
    WebsiteTooLong { website_length: nat, max_length: nat },
}

/// The number of bytes that `text` occupies when stored.
pub open spec fn byte_len(text: Seq<char>) -> nat {
    encode_utf8(text).len()
}

/// A name is spelled with lowercase ASCII letters, ASCII digits and hyphens.
pub open spec fn is_name_char(c: char) -> bool {
    ('0' <= c && c <= '9') || ('a' <= c && c <= 'z') || c == '-'
}

/// Every character of `name` may occur in a name.
pub open spec fn all_name_chars(name: Seq<char>) -> bool {
    forall|i: int| 0 <= i < name.len() ==> is_name_char(#[trigger] name[i])
}

/// Position `i` holds the first character of `name` that may not occur in a name.
pub open spec fn is_first_invalid(name: Seq<char>, i: int) -> bool {
    &&& 0 <= i < name.len()
    &&& !is_name_char(name[i])
    &&& forall|j: int| 0 <= j < i ==> is_name_char(#[trigger] name[j])
}

/// The first character of `name` that may not occur in a name, if there is one.
pub open spec fn first_invalid(name: Seq<char>) -> Option<char> {
    if exists|i: int| is_first_invalid(name, i) {
        Some(name[choose|i: int| is_first_invalid(name, i)])
    } else {
        None
    }
}

/// Whether `name` may be registered, and if not, why.
///
/// The length is judged before the spelling, too short before too long.
pub open spec fn validate_name(name: Seq<char>) -> Result<(), ErrorView> {
    let length = byte_len(name);
    if length < MIN_NAME_LENGTH {
        Err(ErrorView::NameTooShort { length, min_length: MIN_NAME_LENGTH as nat })
    } else if length > MAX_NAME_LENGTH {
        Err(ErrorView::NameTooLong { length, max_length: MAX_NAME_LENGTH as nat })
    } else {
        match first_invalid(name) {
            Some(c) => Err(ErrorView::InvalidCharacter { c }),
            None => Ok(()),
        }
    }
}

/// A name that may be registered.
pub open spec fn is_valid_name(name: Seq<char>) -> bool {
    validate_name(name) is Ok
}

/// At most one position holds the first invalid character.
pub proof fn lemma_first_invalid_unique(name: Seq<char>, i: int, k: int)
    requires
        is_first_invalid(name, i),
        is_first_invalid(name, k),
    ensures
        i == k,
{
    if i < k {
        assert(is_name_char(name[i]));
    } else if k < i {
        assert(is_name_char(name[k]));
    }
}

/// If some character of `name` is invalid, one of them is the first.
pub proof fn lemma_first_invalid_exists(name: Seq<char>, k: int)
    requires
        0 <= k < name.len(),
        !is_name_char(name[k]),
    ensures
        exists|i: int| is_first_invalid(name, i) && i <= k,
    decreases k,
{
    if forall|j: int| 0 <= j < k ==> is_name_char(#[trigger] name[j]) {
        assert(is_first_invalid(name, k));
    } else {
        let j = choose|j: int| 0 <= j < k && !is_name_char(#[trigger] name[j]);
        lemma_first_invalid_exists(name, j);
    }
}

/// `first_invalid` is `None` exactly on names spelled with name characters only,
/// and otherwise the character at the one first invalid position.
pub proof fn lemma_first_invalid(name: Seq<char>)
    ensures
        first_invalid(name) is None <==> all_name_chars(name),
        forall|i: int| is_first_invalid(name, i) ==> first_invalid(name) == Some(name[i]),
{
    if !all_name_chars(name) {
        let k = choose|k: int| 0 <= k < name.len() && !is_name_char(#[trigger] name[k]);
        lemma_first_invalid_exists(name, k);
    }
    assert forall|i: int| is_first_invalid(name, i) implies first_invalid(name) == Some(
        name[i],
    ) by {
        lemma_first_invalid_unique(name, i, choose|k: int| is_first_invalid(name, k));
    }
}

/// An amount of one currency.
pub struct CoinView {
    pub denom: Seq<char>,
    pub amount: nat,
}

/// The registry's settings: who administers it and what each operation
/// costs. A price that is `None` makes the operation free.
pub struct ConfigView {
    pub owner: Seq<char>,
    pub purchase_price: Option<CoinView>,
    pub transfer_price: Option<CoinView>,
    pub edit_price: Option<CoinView>,
}

/// What is stored under a registered name.
pub struct RecordView {
    pub owner: Seq<char>,
    pub bio: Seq<char>,
    pub website: Seq<char>,
}

/// The marker that says which kind of contract wrote the stored state, and in
/// which version.
pub struct VersionView {
    pub contract: Seq<char>,
    pub version: Seq<char>,
}

/// Everything the registry stores: its settings, and the record of each
/// registered name.
pub struct State {
    pub config: ConfigView,
    pub names: Map<Seq<char>, RecordView>,
}

/// Who sent a request, and the funds that came with it.
pub struct InfoView {
    pub sender: Seq<char>,
    pub funds: Seq<CoinView>,
}

/// What the host answers to the questions a request may raise: its judgment
/// of the address that the request names (the address in its accepted form,
/// or the host's refusal), and what the registry's own account holds.
pub struct HostView {
    pub addr_validate: Result<Seq<char>, Seq<char>>,
    pub balance: Seq<CoinView>,
}

/// An order to pay `amount` to `to_address` out of the registry's account.
pub struct BankSendView {
    pub to_address: Seq<char>,
    pub amount: Seq<CoinView>,
}

/// What a request hands back to the host: payments to carry out, and
/// attributes to log.
pub struct ResponseView {
    pub messages: Seq<BankSendView>,
    pub attributes: Seq<(Seq<char>, Seq<char>)>,
}

/// A request that may change the stored state.
pub enum ExecuteMsgView {
    Register { name: Seq<char>, bio: Seq<char>, website: Seq<char> },
    Transfer { name: Seq<char>, to: Seq<char> },
    Refund,
    Edit { name: Seq<char>, bio: Seq<char>, website: Seq<char> },
    Editconf {
        purchase_price: Option<CoinView>,
        transfer_price: Option<CoinView>,
        edit_price: Option<CoinView>,
    },
}

/// A request that only reads.
pub enum QueryMsgView {
    ResolveRecord { name: Seq<char> },
    Config,
}

/// What is known of a name: all three fields of its record, or nothing.
pub struct ResolveView {
    pub address: Option<Seq<char>>,
    pub bio: Option<Seq<char>>,
    pub website: Option<Seq<char>>,
}

/// The answer to a query.
pub enum QueryResponseView {
    ResolveRecord(ResolveView),
    Config(ConfigView),
}

/// A successful request: the state it leaves and the response it gives.
pub struct Step {
    pub next: State,
    pub response: ResponseView,
}

/// The state in which a request leaves the registry that it found in state
/// `s`: the next state if it succeeded, `s` itself if it failed.
pub open spec fn after(s: State, outcome: Result<Step, ErrorView>) -> State {
    match outcome {
        Ok(step) => step.next,
        Err(_) => s,
    }
}

/// The response that asks for nothing and logs nothing.
pub open spec fn empty_response() -> ResponseView {
    ResponseView { messages: Seq::empty(), attributes: Seq::empty() }
}

/// The kind of contract that this registry is.
pub open spec fn contract_name() -> Seq<char> {
    CONTRACT_NAME@
}

/// The version of this registry.
pub open spec fn contract_version() -> Seq<char> {
    CONTRACT_VERSION@
}

/// The marker that this registry writes.
pub open spec fn current_version() -> VersionView {
    VersionView { contract: contract_name(), version: contract_version() }
}

/// The entry at position `i` of `sent` pays `price`: same currency, and at
/// least the amount.
pub open spec fn pays(sent: Seq<CoinView>, i: int, price: CoinView) -> bool {
    0 <= i < sent.len() && sent[i].denom == price.denom && sent[i].amount >= price.amount
}

/// Some entry of `sent` pays `price` alone.
pub open spec fn covers(sent: Seq<CoinView>, price: CoinView) -> bool {
    exists|i: int| #[trigger] pays(sent, i, price)
}

/// The fee gate: a free operation needs no funds; a priced one needs one
/// entry among the funds sent that pays the price alone. What is sent beyond
/// the price is kept.
pub open spec fn sufficient(sent: Seq<CoinView>, required: Option<CoinView>) -> bool {
    match required {
        None => true,
        Some(price) => covers(sent, price),
    }
}

/// Whether `bio` and `website` fit a record, the bio judged first.
pub open spec fn check_texts(bio: Seq<char>, website: Seq<char>) -> Result<(), ErrorView> {
    if byte_len(bio) > MAX_BIO_LENGTH {
        Err(ErrorView::BioTooLong { bio_length: byte_len(bio), max_length: MAX_BIO_LENGTH as nat })
    } else if byte_len(website) > MAX_WEBSITE_LENGTH {
        Err(
            ErrorView::WebsiteTooLong {
                website_length: byte_len(website),
                max_length: MAX_WEBSITE_LENGTH as nat,
            },
        )
    } else {
        Ok(())
    }
}

/// The state that holds `record` under `name` and is otherwise `s`.
pub open spec fn with_record(s: State, name: Seq<char>, record: RecordView) -> State {
    State { names: s.names.insert(name, record), ..s }
}

/// Deployment. The administrator is the address named as admin if one is
/// named and the host accepts it, else the deployer. Every operation starts
/// out free, and no name is registered.
pub open spec fn instantiate(host: HostView, info: InfoView, admin: Option<Seq<char>>) -> Step {
    let owner = match (admin, host.addr_validate) {
        (Some(_), Ok(valid)) => valid,
        _ => info.sender,
    };
    Step {
        next: State {
            config: ConfigView {
                owner,
                purchase_price: None,
                transfer_price: None,
                edit_price: None,
            },
            names: Map::empty(),
        },
        response: ResponseView {
            messages: Seq::empty(),
            attributes: seq![("method"@, "instantiate"@), ("owner"@, owner)],
        },
    }
}

/// Registration. The checks run in this order: the name, the fee against the
/// purchase price, the bio, the website, and whether the name is free. Only
/// when all pass is the record written, with the sender as owner.
pub open spec fn register(
    s: State,
    info: InfoView,
    name: Seq<char>,
    bio: Seq<char>,
    website: Seq<char>,
) -> Result<Step, ErrorView> {
    if let Err(e) = validate_name(name) {
        Err(e)
    } else if !sufficient(info.funds, s.config.purchase_price) {
        Err(ErrorView::InsufficientFunds)
    } else if let Err(e) = check_texts(bio, website) {
        Err(e)
    } else if s.names.contains_key(name) {
        Err(ErrorView::NameTaken { name })
    } else {
        Ok(
            Step {
                next: with_record(s, name, RecordView { owner: info.sender, bio, website }),
                response: empty_response(),
            },
        )
    }
}

/// The change that a transfer makes to the record it finds under `name`.
pub open spec fn transfer_record(
    found: Option<RecordView>,
    sender: Seq<char>,
    name: Seq<char>,
    new_owner: Seq<char>,
) -> Result<RecordView, ErrorView> {
    match found {
        None => Err(ErrorView::NameNotExists { name }),
        Some(record) => if sender != record.owner {
            Err(ErrorView::Unauthorized)
        } else {
            Ok(RecordView { owner: new_owner, ..record })
        },
    }
}

/// Transfer. The checks run in this order: the fee against the transfer
/// price, the host's judgment of the new owner's address (`to`), whether the
/// name is registered, and whether the sender owns it. Only the owner changes.
pub open spec fn transfer(
    s: State,
    info: InfoView,
    name: Seq<char>,
    to: Result<Seq<char>, Seq<char>>,
) -> Result<Step, ErrorView> {
    if !sufficient(info.funds, s.config.transfer_price) {
        Err(ErrorView::InsufficientFunds)
    } else {
        match to {
            Err(msg) => Err(ErrorView::Std { msg }),
            Ok(new_owner) => match transfer_record(
                s.names.get(name),
                info.sender,
                name,
                new_owner,
            ) {
                Err(e) => Err(e),
                Ok(record) => Ok(
                    Step { next: with_record(s, name, record), response: empty_response() },
                ),
            },
        }
    }
}

/// The change that an edit makes to the record it finds under `name`. The
/// texts are judged only once the sender is known to own the record.
pub open spec fn edit_record(
    found: Option<RecordView>,
    sender: Seq<char>,
    name: Seq<char>,
    bio: Seq<char>,
    website: Seq<char>,
) -> Result<RecordView, ErrorView> {
    match found {
        None => Err(ErrorView::NameNotExists { name }),
        Some(record) => if sender != record.owner {
            Err(ErrorView::Unauthorized)
        } else if let Err(e) = check_texts(bio, website) {
            Err(e)
        } else {
            Ok(RecordView { bio, website, ..record })
        },
    }
}

/// Edit. The checks run in this order: the fee against the edit price,
/// whether the name is registered, whether the sender owns it, the bio, the
/// website. The owner stays.
pub open spec fn edit(
    s: State,
    info: InfoView,
    name: Seq<char>,
    bio: Seq<char>,
    website: Seq<char>,
) -> Result<Step, ErrorView> {
    if !sufficient(info.funds, s.config.edit_price) {
        Err(ErrorView::InsufficientFunds)
    } else {
        match edit_record(s.names.get(name), info.sender, name, bio, website) {
            Err(e) => Err(e),
            Ok(record) => Ok(
                Step { next: with_record(s, name, record), response: empty_response() },
            ),
        }
    }
}

/// Change of prices. The fee is judged against the transfer price in force,
/// then the sender must be the registry owner. All three prices are replaced:
/// one given as `None` becomes free.
pub open spec fn edit_conf(
    s: State,
    info: InfoView,
    purchase_price: Option<CoinView>,
    transfer_price: Option<CoinView>,
    edit_price: Option<CoinView>,
) -> Result<Step, ErrorView> {
    if !sufficient(info.funds, s.config.transfer_price) {
        Err(ErrorView::InsufficientFunds)
    } else if s.config.owner != info.sender {
        Err(ErrorView::Unauthorized)
    } else {
        Ok(
            Step {
                next: State {
                    config: ConfigView {
                        owner: s.config.owner,
                        purchase_price,
                        transfer_price,
                        edit_price,
                    },
                    ..s
                },
                response: empty_response(),
            },
        )
    }
}

/// The response that pays `amount` to `address` and logs why.
pub open spec fn send_tokens(
    amount: Seq<CoinView>,
    action: Seq<char>,
    address: Seq<char>,
) -> ResponseView {
    ResponseView {
        messages: seq![BankSendView { to_address: address, amount }],
        attributes: seq![("action"@, action), ("to"@, address)],
    }
}

/// Refund. Only the registry owner may ask; the whole `balance` of the
/// registry's account goes to the registry owner in one payment.
pub open spec fn refund(s: State, info: InfoView, balance: Seq<CoinView>) -> Result<
    Step,
    ErrorView,
> {
    if s.config.owner != info.sender {
        Err(ErrorView::Unauthorized)
    } else {
        Ok(Step { next: s, response: send_tokens(balance, "refund"@, s.config.owner) })
    }
}

/// What is said to a state written by another kind of contract.
pub open spec fn wrong_contract_msg() -> Seq<char> {
    "Can only upgrade from same type"@
}

/// Upgrade. The stored state must have been written by this kind of
/// contract, whatever its version; the marker is then brought up to date.
pub open spec fn migrate(stored: VersionView) -> Result<VersionView, ErrorView> {
    if stored.contract != contract_name() {
        Err(ErrorView::Std { msg: wrong_contract_msg() })
    } else {
        Ok(current_version())
    }
}

/// What each request does. A transfer takes the host's judgment of the
/// address it names, a refund the balance that the host reports.
pub open spec fn execute(
    s: State,
    host: HostView,
    info: InfoView,
    msg: ExecuteMsgView,
) -> Result<Step, ErrorView> {
    match msg {
        ExecuteMsgView::Register { name, bio, website } => register(s, info, name, bio, website),
        ExecuteMsgView::Transfer { name, to } => transfer(s, info, name, host.addr_validate),
        ExecuteMsgView::Refund => refund(s, info, host.balance),
        ExecuteMsgView::Edit { name, bio, website } => edit(s, info, name, bio, website),
        ExecuteMsgView::Editconf { purchase_price, transfer_price, edit_price } => edit_conf(
            s,
            info,
            purchase_price,
            transfer_price,
            edit_price,
        ),
    }
}

/// What is known of `name`: the three fields of its record, or nothing.
pub open spec fn resolve(s: State, name: Seq<char>) -> ResolveView {
    match s.names.get(name) {
        Some(record) => ResolveView {
            address: Some(record.owner),
            bio: Some(record.bio),
            website: Some(record.website),
        },
        None => ResolveView { address: None, bio: None, website: None },
    }
}

/// The answer to each query.
pub open spec fn query(s: State, msg: QueryMsgView) -> QueryResponseView {
    match msg {
        QueryMsgView::ResolveRecord { name } => QueryResponseView::ResolveRecord(resolve(s, name)),
        QueryMsgView::Config => QueryResponseView::Config(s.config),
    }
}

/// The texts of `record` fit a record.
pub open spec fn record_fits(record: RecordView) -> bool {
    check_texts(record.bio, record.website) is Ok
}

/// What holds of every state that a registry reaches: the registered names
/// are finitely many, each is a valid name, and each record's texts fit.
pub open spec fn well_formed(s: State) -> bool {
    &&& s.names.dom().finite()
    &&& forall|name: Seq<char>| #[trigger]
        s.names.contains_key(name) ==> is_valid_name(name) && record_fits(s.names[name])
}

} // verus!
