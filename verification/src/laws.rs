//! What the registry guarantees, proved of the model that the handlers
//! implement.

use crate::model::{
    after, all_name_chars, byte_len, check_texts, contract_name, current_version, edit,
    edit_conf, execute, instantiate, is_first_invalid, is_name_char, is_valid_name,
    lemma_first_invalid, migrate, pays, record_fits, refund, register, resolve, sufficient,
    transfer, validate_name, well_formed, BankSendView, CoinView, ConfigView, ErrorView,
    ExecuteMsgView, HostView, InfoView, RecordView, ResolveView, State, Step, VersionView,
};
use vstd::prelude::*;
use vstd::utf8::{is_ascii_chars, is_ascii_chars_encode_utf8};

verus! {

/// A name spelled with name characters only takes one byte per character.
pub proof fn lemma_name_chars_one_byte_each(name: Seq<char>)
    requires
        all_name_chars(name),
    ensures
        byte_len(name) == name.len(),
{
    assert(is_ascii_chars(name)) by {
        assert forall|i: int| 0 <= i < name.len() implies '\0' <= #[trigger] name[i] <= '\u{7f}' by {
            assert(is_name_char(name[i]));
        }
    }
    is_ascii_chars_encode_utf8(name);
}

/// The valid names are exactly the texts of 3 to 30 characters, each of them
/// a lowercase ASCII letter, an ASCII digit or a hyphen.
pub proof fn law_valid_names(name: Seq<char>)
    ensures
        is_valid_name(name) <==> 3 <= name.len() <= 30 && all_name_chars(name),
{
    lemma_first_invalid(name);
    if all_name_chars(name) {
        lemma_name_chars_one_byte_each(name);
    }
}

/// A text that is no valid name is rejected with the error that says why: too
/// short (under 3 bytes) before too long (over 30 bytes) before misspelled,
/// and a misspelled one with the first of its characters that no name may
/// hold.
pub proof fn law_invalid_names(name: Seq<char>)
    ensures
        byte_len(name) < 3 ==> validate_name(name) == Err::<(), ErrorView>(
            ErrorView::NameTooShort { length: byte_len(name), min_length: 3 },
        ),
        byte_len(name) > 30 ==> validate_name(name) == Err::<(), ErrorView>(
            ErrorView::NameTooLong { length: byte_len(name), max_length: 30 },
        ),
        3 <= byte_len(name) <= 30 && !all_name_chars(name) ==> exists|i: int|
            is_first_invalid(name, i) && validate_name(name) == Err::<(), ErrorView>(
                ErrorView::InvalidCharacter { c: name[i] },
            ),
        forall|i: int|
            3 <= byte_len(name) <= 30 && is_first_invalid(name, i) ==> validate_name(name) == Err::<
                (),
                ErrorView,
            >(ErrorView::InvalidCharacter { c: name[i] }),
{
    lemma_first_invalid(name);
    if 3 <= byte_len(name) <= 30 && !all_name_chars(name) {
        let i = choose|i: int| is_first_invalid(name, i);
        assert(is_first_invalid(name, i));
    }
}

/// Registering a free, valid name with funds that cover the purchase price
/// and texts that fit succeeds. It adds the record of that name, owned by the
/// sender, and changes nothing else: one record more than before. Whoever
/// then registers the same name again fails, with `NameTaken` if the request
/// gets as far as the table, and the first record stays as it is.
pub proof fn law_register_once(
    s: State,
    info: InfoView,
    name: Seq<char>,
    bio: Seq<char>,
    website: Seq<char>,
    again: InfoView,
    bio2: Seq<char>,
    website2: Seq<char>,
)
    requires
        is_valid_name(name),
        sufficient(info.funds, s.config.purchase_price),
        check_texts(bio, website) is Ok,
        !s.names.contains_key(name),
    ensures
        register(s, info, name, bio, website) is Ok,
        ({
            let first = after(s, register(s, info, name, bio, website));
            let second = register(first, again, name, bio2, website2);
            &&& first.names == s.names.insert(name, RecordView { owner: info.sender, bio, website })
            &&& first.names.dom() == s.names.dom().insert(name)
            &&& forall|other: Seq<char>|
                other != name && s.names.contains_key(other) ==> first.names[other]
                    == s.names[other]
            &&& s.names.dom().finite() ==> first.names.len() == s.names.len() + 1
            &&& first.config == s.config
            &&& second is Err
            &&& sufficient(again.funds, s.config.purchase_price) && check_texts(bio2, website2) is Ok
                ==> second == Err::<Step, ErrorView>(ErrorView::NameTaken { name })
            &&& after(first, second) == first
        }),
{
}

/// Registering a valid name with funds that do not cover the purchase price
/// fails with `InsufficientFunds`, and no record is created.
pub proof fn law_register_unpaid(
    s: State,
    info: InfoView,
    name: Seq<char>,
    bio: Seq<char>,
    website: Seq<char>,
)
    requires
        is_valid_name(name),
        !sufficient(info.funds, s.config.purchase_price),
    ensures
        s.config.purchase_price is Some,
        register(s, info, name, bio, website) == Err::<Step, ErrorView>(
            ErrorView::InsufficientFunds,
        ),
        after(s, register(s, info, name, bio, website)) == s,
{
}

/// Funds cover a price exactly when one entry among them has the price's
/// currency and at least its amount; nothing sent covers a price, and
/// anything sent covers a free operation.
pub proof fn law_fee_gate(sent: Seq<CoinView>, price: CoinView)
    ensures
        sufficient(sent, None),
        !sufficient(Seq::empty(), Some(price)),
        sufficient(sent, Some(price)) <==> exists|i: int|
            0 <= i < sent.len() && (#[trigger] sent[i]).denom == price.denom && sent[i].amount
                >= price.amount,
{
    if sufficient(sent, Some(price)) {
        let i = choose|i: int| pays(sent, i, price);
        assert(0 <= i < sent.len() && sent[i].denom == price.denom && sent[i].amount
            >= price.amount);
    }
    if exists|i: int|
        0 <= i < sent.len() && (#[trigger] sent[i]).denom == price.denom && sent[i].amount
            >= price.amount {
        let i = choose|i: int|
            0 <= i < sent.len() && (#[trigger] sent[i]).denom == price.denom && sent[i].amount
                >= price.amount;
        assert(pays(sent, i, price));
    }
}

/// A transfer by the owner, with funds that cover the transfer price and a
/// new owner whom the host accepts, succeeds: the record gets the new owner
/// and keeps its bio and website, and nothing else changes.
pub proof fn law_transfer_by_owner(
    s: State,
    info: InfoView,
    name: Seq<char>,
    new_owner: Seq<char>,
)
    requires
        sufficient(info.funds, s.config.transfer_price),
        s.names.contains_key(name),
        s.names[name].owner == info.sender,
    ensures
        transfer(s, info, name, Ok(new_owner)) is Ok,
        ({
            let next = after(s, transfer(s, info, name, Ok(new_owner)));
            &&& next.names[name].owner == new_owner
            &&& next.names[name].bio == s.names[name].bio
            &&& next.names[name].website == s.names[name].website
            &&& next.names.dom() == s.names.dom()
            &&& forall|other: Seq<char>|
                other != name && s.names.contains_key(other) ==> next.names[other]
                    == s.names[other]
            &&& next.config == s.config
        }),
{
}

/// A transfer by anyone but the owner fails with `Unauthorized`, and a
/// transfer of a name that is not registered fails with `NameNotExists`, each
/// when the funds cover the transfer price and the host accepts the new
/// owner. Either way the state stays as it is.
pub proof fn law_transfer_refused(
    s: State,
    info: InfoView,
    name: Seq<char>,
    new_owner: Seq<char>,
)
    requires
        sufficient(info.funds, s.config.transfer_price),
    ensures
        s.names.contains_key(name) && s.names[name].owner != info.sender ==> transfer(
            s,
            info,
            name,
            Ok(new_owner),
        ) == Err::<Step, ErrorView>(ErrorView::Unauthorized),
        !s.names.contains_key(name) ==> transfer(s, info, name, Ok(new_owner)) == Err::<
            Step,
            ErrorView,
        >(ErrorView::NameNotExists { name }),
        !s.names.contains_key(name) || s.names[name].owner != info.sender ==> after(
            s,
            transfer(s, info, name, Ok(new_owner)),
        ) == s,
{
}

/// A transfer to an address that the host refuses fails with what the host
/// said, once the funds cover the transfer price, and changes nothing.
pub proof fn law_transfer_to_refused_address(
    s: State,
    info: InfoView,
    name: Seq<char>,
    msg: Seq<char>,
)
    requires
        sufficient(info.funds, s.config.transfer_price),
    ensures
        transfer(s, info, name, Err(msg)) == Err::<Step, ErrorView>(ErrorView::Std { msg }),
{
}

/// An edit by the owner, with funds that cover the edit price, a bio of at
/// most 200 bytes and a website of at most 100, succeeds: the record gets
/// both texts and keeps its owner, and nothing else changes.
pub proof fn law_edit_by_owner(
    s: State,
    info: InfoView,
    name: Seq<char>,
    bio: Seq<char>,
    website: Seq<char>,
)
    requires
        sufficient(info.funds, s.config.edit_price),
        s.names.contains_key(name),
        s.names[name].owner == info.sender,
        byte_len(bio) <= 200,
        byte_len(website) <= 100,
    ensures
        edit(s, info, name, bio, website) is Ok,
        ({
            let next = after(s, edit(s, info, name, bio, website));
            &&& next.names[name] == RecordView { owner: s.names[name].owner, bio, website }
            &&& next.names.dom() == s.names.dom()
            &&& forall|other: Seq<char>|
                other != name && s.names.contains_key(other) ==> next.names[other]
                    == s.names[other]
            &&& next.config == s.config
        }),
{
}

/// An edit by the owner with a bio over 200 bytes fails with `BioTooLong`,
/// and one with a website over 100 bytes (and a bio that fits) with
/// `WebsiteTooLong`, once the funds cover the edit price. The record stays as
/// it is, though the caller was its owner.
pub proof fn law_edit_too_long(
    s: State,
    info: InfoView,
    name: Seq<char>,
    bio: Seq<char>,
    website: Seq<char>,
)
    requires
        sufficient(info.funds, s.config.edit_price),
        s.names.contains_key(name),
        s.names[name].owner == info.sender,
        byte_len(bio) > 200 || byte_len(website) > 100,
    ensures
        byte_len(bio) > 200 ==> edit(s, info, name, bio, website) == Err::<Step, ErrorView>(
            ErrorView::BioTooLong { bio_length: byte_len(bio), max_length: 200 },
        ),
        byte_len(bio) <= 200 ==> edit(s, info, name, bio, website) == Err::<Step, ErrorView>(
            ErrorView::WebsiteTooLong { website_length: byte_len(website), max_length: 100 },
        ),
        after(s, edit(s, info, name, bio, website)) == s,
{
}

/// An edit by anyone but the owner fails with `Unauthorized`, whatever the
/// texts, and an edit of a name that is not registered with `NameNotExists`,
/// once the funds cover the edit price. The state stays as it is.
pub proof fn law_edit_refused(
    s: State,
    info: InfoView,
    name: Seq<char>,
    bio: Seq<char>,
    website: Seq<char>,
)
    requires
        sufficient(info.funds, s.config.edit_price),
    ensures
        s.names.contains_key(name) && s.names[name].owner != info.sender ==> edit(
            s,
            info,
            name,
            bio,
            website,
        ) == Err::<Step, ErrorView>(ErrorView::Unauthorized),
        !s.names.contains_key(name) ==> edit(s, info, name, bio, website) == Err::<
            Step,
            ErrorView,
        >(ErrorView::NameNotExists { name }),
        !s.names.contains_key(name) || s.names[name].owner != info.sender ==> after(
            s,
            edit(s, info, name, bio, website),
        ) == s,
{
}

/// A change of prices by the registry owner, with funds that cover the
/// transfer price in force, replaces all three prices by those given, a
/// price given as `None` becoming free, and changes nothing else. By anyone
/// else it fails with `Unauthorized` and the settings stay as they are.
pub proof fn law_edit_conf(
    s: State,
    info: InfoView,
    purchase_price: Option<CoinView>,
    transfer_price: Option<CoinView>,
    edit_price: Option<CoinView>,
)
    requires
        sufficient(info.funds, s.config.transfer_price),
    ensures
        info.sender == s.config.owner ==> edit_conf(
            s,
            info,
            purchase_price,
            transfer_price,
            edit_price,
        ) is Ok,
        info.sender == s.config.owner ==> after(
            s,
            edit_conf(s, info, purchase_price, transfer_price, edit_price),
        ) == (State {
            config: ConfigView {
                owner: s.config.owner,
                purchase_price,
                transfer_price,
                edit_price,
            },
            ..s
        }),
        info.sender != s.config.owner ==> edit_conf(
            s,
            info,
            purchase_price,
            transfer_price,
            edit_price,
        ) == Err::<Step, ErrorView>(ErrorView::Unauthorized),
        info.sender != s.config.owner ==> after(
            s,
            edit_conf(s, info, purchase_price, transfer_price, edit_price),
        ) == s,
{
}

/// A name that is not registered resolves to nothing; a registered one to
/// the owner, the bio and the website of its record.
pub proof fn law_resolve(s: State, name: Seq<char>)
    ensures
        !s.names.contains_key(name) ==> resolve(s, name) == (ResolveView {
            address: None,
            bio: None,
            website: None,
        }),
        s.names.contains_key(name) ==> resolve(s, name) == (ResolveView {
            address: Some(s.names[name].owner),
            bio: Some(s.names[name].bio),
            website: Some(s.names[name].website),
        }),
{
}

/// A refund asked by the registry owner pays the whole balance to the
/// registry owner in one payment; asked by anyone else it fails with
/// `Unauthorized`. The state stays as it is either way.
pub proof fn law_refund(s: State, info: InfoView, balance: Seq<CoinView>)
    ensures
        info.sender == s.config.owner ==> refund(s, info, balance) is Ok && refund(
            s,
            info,
            balance,
        )->Ok_0.response.messages == seq![
            BankSendView { to_address: s.config.owner, amount: balance },
        ],
        info.sender != s.config.owner ==> refund(s, info, balance) == Err::<Step, ErrorView>(
            ErrorView::Unauthorized,
        ),
        after(s, refund(s, info, balance)) == s,
{
}

/// An upgrade from this kind of contract, whatever its version, leaves the
/// marker that this registry writes; an upgrade from any other kind fails.
pub proof fn law_migrate(stored: VersionView)
    ensures
        stored.contract == contract_name() ==> migrate(stored) == Ok::<VersionView, ErrorView>(
            current_version(),
        ),
        stored.contract != contract_name() ==> migrate(stored) is Err,
        migrate(current_version()) == Ok::<VersionView, ErrorView>(current_version()),
{
}

/// A fresh registry is well formed, belongs to the deployer unless an admin
/// is named whom the host accepts, holds no name, and charges nothing.
pub proof fn law_instantiate(host: HostView, info: InfoView, admin: Option<Seq<char>>)
    ensures
        well_formed(instantiate(host, info, admin).next),
        instantiate(host, info, admin).next.names == Map::<Seq<char>, RecordView>::empty(),
        instantiate(host, info, admin).next.config.purchase_price is None,
        instantiate(host, info, admin).next.config.transfer_price is None,
        instantiate(host, info, admin).next.config.edit_price is None,
        admin is None || host.addr_validate is Err ==> instantiate(
            host,
            info,
            admin,
        ).next.config.owner == info.sender,
        admin is Some && host.addr_validate is Ok ==> instantiate(
            host,
            info,
            admin,
        ).next.config.owner == host.addr_validate->Ok_0,
{
}

/// Every request leaves a well-formed registry well formed: the names stay
/// finitely many, each of them valid, each record with texts that fit.
pub proof fn law_execute_keeps_well_formed(
    s: State,
    host: HostView,
    info: InfoView,
    msg: ExecuteMsgView,
)
    requires
        well_formed(s),
    ensures
        well_formed(after(s, execute(s, host, info, msg))),
{
}

/// `msg` is a transfer or an edit of `name`.
pub open spec fn changes_record_of(msg: ExecuteMsgView, name: Seq<char>) -> bool {
    match msg {
        ExecuteMsgView::Transfer { name: target, .. } => target == name,
        ExecuteMsgView::Edit { name: target, .. } => target == name,
        _ => false,
    }
}

/// Records are permanent: no request removes a name, and no request but a
/// transfer or an edit of that very name by its owner changes its record.
pub proof fn law_records_are_permanent(
    s: State,
    host: HostView,
    info: InfoView,
    msg: ExecuteMsgView,
    name: Seq<char>,
)
    requires
        s.names.contains_key(name),
    ensures
        after(s, execute(s, host, info, msg)).names.contains_key(name),
        after(s, execute(s, host, info, msg)).names[name] != s.names[name] ==> info.sender
            == s.names[name].owner && changes_record_of(msg, name),
{
}

/// Only the registry owner changes the settings, and only by a change of
/// prices, which leaves the owner in place.
pub proof fn law_config_is_the_owners(
    s: State,
    host: HostView,
    info: InfoView,
    msg: ExecuteMsgView,
)
    ensures
        after(s, execute(s, host, info, msg)).config.owner == s.config.owner,
        after(s, execute(s, host, info, msg)).config != s.config ==> info.sender == s.config.owner
            && msg is Editconf,
{
}

} // verus!
