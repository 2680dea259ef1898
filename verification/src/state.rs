//! What the registry stores: its settings, its version marker, and the table
//! of records.

use crate::coin_helpers::Coin;
use crate::error::ContractError;
use crate::model::{
    current_version, well_formed, ConfigView, RecordView, State, VersionView, CONTRACT_NAME,
    CONTRACT_VERSION,
};
use vstd::hash_map::StringHashMap;
use vstd::prelude::*;

verus! {

/// The registry's settings: who administers it and what each operation
/// costs. A price that is `None` makes the operation free.
#[derive(Debug, PartialEq, Eq)]
pub struct Config {
    pub owner: String,
    pub purchase_price: Option<Coin>,
    pub transfer_price: Option<Coin>,
    pub edit_price: Option<Coin>,
}

impl View for Config {
    type V = ConfigView;

    open spec fn view(&self) -> ConfigView {
        ConfigView {
            owner: self.owner@,
            purchase_price: self.purchase_price.deep_view(),
            transfer_price: self.transfer_price.deep_view(),
            edit_price: self.edit_price.deep_view(),
        }
    }
}

impl DeepView for Config {
    type V = ConfigView;

    open spec fn deep_view(&self) -> ConfigView {
        self@
    }
}

impl Clone for Config {
    fn clone(&self) -> (copy: Self)
        ensures
            copy == *self,
    {
        Config {
            owner: self.owner.clone(),
            purchase_price: self.purchase_price.clone(),
            transfer_price: self.transfer_price.clone(),
            edit_price: self.edit_price.clone(),
        }
    }
}

/// What is stored under a registered name.
#[derive(Debug, PartialEq, Eq)]
pub struct NameRecord {
    pub owner: String,
    pub bio: String,
    pub website: String,
}

impl View for NameRecord {
    type V = RecordView;

    open spec fn view(&self) -> RecordView {
        RecordView { owner: self.owner@, bio: self.bio@, website: self.website@ }
    }
}

impl DeepView for NameRecord {
    type V = RecordView;

    open spec fn deep_view(&self) -> RecordView {
        self@
    }
}

impl Clone for NameRecord {
    fn clone(&self) -> (copy: Self)
        ensures
            copy == *self,
    {
        NameRecord {
            owner: self.owner.clone(),
            bio: self.bio.clone(),
            website: self.website.clone(),
        }
    }
}

/// The marker that says which kind of contract wrote the stored state, and in
/// which version.
#[derive(Debug, PartialEq, Eq)]
pub struct ContractVersion {
    pub contract: String,
    pub version: String,
}

impl View for ContractVersion {
    type V = VersionView;

    open spec fn view(&self) -> VersionView {
        VersionView { contract: self.contract@, version: self.version@ }
    }
}

impl DeepView for ContractVersion {
    type V = VersionView;

    open spec fn deep_view(&self) -> VersionView {
        self@
    }
}

impl ContractVersion {
    /// The marker that this registry writes: its own kind and version.
    pub fn current() -> (marker: Self)
        ensures
            marker@ == current_version(),
    {
        ContractVersion {
            contract: CONTRACT_NAME.to_owned(),
            version: CONTRACT_VERSION.to_owned(),
        }
    }
}

impl Clone for ContractVersion {
    fn clone(&self) -> (copy: Self)
        ensures
            copy == *self,
    {
        ContractVersion { contract: self.contract.clone(), version: self.version.clone() }
    }
}

/// The table of records, keyed by name. A name has at most one record.
pub struct NameResolver {
    pub records: StringHashMap<NameRecord>,
}

impl View for NameResolver {
    type V = Map<Seq<char>, RecordView>;

    open spec fn view(&self) -> Map<Seq<char>, RecordView> {
        self.records@.map_values(|record: NameRecord| record@)
    }
}

impl NameResolver {
    /// The table without records.
    pub fn new() -> (table: Self)
        ensures
            table@ == Map::<Seq<char>, RecordView>::empty(),
    {
        let table = NameResolver { records: StringHashMap::new() };
        assert(table@ =~= Map::<Seq<char>, RecordView>::empty());
        table
    }

    /// The record stored under `name`, if there is one.
    pub fn may_load(&self, name: &str) -> (found: Option<NameRecord>)
        ensures
            found == self.records@.get(name@),
            found.deep_view() == self@.get(name@),
    {
        match self.records.get(name) {
            Some(record) => Some(record.clone()),
            None => None,
        }
    }

    /// The number of records.
    pub fn len(&self) -> (n: usize)
        ensures
            n == self@.len(),
    {
        broadcast use vstd::hash_map::group_hash_map_axioms;

        assert(self@.dom() =~= self.records@.dom());
        self.records.len()
    }

    /// Whether a record is stored under `name`.
    pub fn has(&self, name: &str) -> (found: bool)
        ensures
            found == self@.contains_key(name@),
    {
        self.records.contains_key(name)
    }

    /// Stores `record` under `name`, in place of what was stored there.
    pub fn save(&mut self, name: &str, record: NameRecord)
        ensures
            final(self)@ == old(self)@.insert(name@, record@),
    {
        self.records.insert(name.to_owned(), record);
        assert(self@ =~= old(self)@.insert(name@, record@));
    }

    /// Reads what is stored under `name`, lets `action` decide on it, and
    /// stores what `action` gives, as one step: when `action` fails, its
    /// error is returned and the table stays as it was.
    pub fn update<A>(&mut self, name: &str, action: A) -> (res: Result<NameRecord, ContractError>)
        where A: FnOnce(Option<NameRecord>) -> Result<NameRecord, ContractError>
        requires
            action.requires((old(self).records@.get(name@),)),
        ensures
            action.ensures((old(self).records@.get(name@),), res),
            match res {
                Ok(record) => final(self)@ == old(self)@.insert(name@, record@),
                Err(_) => final(self)@ == old(self)@,
            },
    {
        let found = self.may_load(name);
        match action(found) {
            Ok(record) => {
                self.save(name, record.clone());
                Ok(record)
            },
            Err(e) => Err(e),
        }
    }
}

/// Everything the registry stores: its settings, and the table of records.
pub struct Registry {
    pub config: Config,
    pub name_resolver: NameResolver,
}

impl View for Registry {
    type V = State;

    open spec fn view(&self) -> State {
        State { config: self.config@, names: self.name_resolver@ }
    }
}

impl Registry {
    /// What holds of a registry that requests alone have shaped: the
    /// registered names are finitely many, each is a valid name, and each
    /// record's bio and website fit.
    pub open spec fn wf(&self) -> bool {
        well_formed(self@)
    }

    /// A registry with these settings and no name registered.
    pub fn new(config: Config) -> (state: Self)
        ensures
            state@ == (State { config: config@, names: Map::empty() }),
            state.wf(),
    {
        Registry { config, name_resolver: NameResolver::new() }
    }
}

} // verus!
