//! Records and storage of the contract factory.

use vstd::prelude::*;
use crate::common::{Address, Symbol};
use crate::store::Store;

verus! {

#[derive(Clone, Copy, Debug, PartialEq, Eq, Structural)]
pub enum FactoryError {
    NotInitialized,
    AlreadyInitialized,
    Unauthorized,
    Paused,
    TemplateNotFound,
    TemplateAlreadyExists,
    TemplateInactive,
    InstanceNotFound,
    InstanceInactive,
    InstanceAlreadyInactive,
    InvalidWasmHash,
}

impl FactoryError {
    /// The contract error code.
    pub fn code(&self) -> (c: u32)
        ensures
            1 <= c <= 11,
            c == match *self {
                FactoryError::NotInitialized => 1u32,
                FactoryError::AlreadyInitialized => 2,
                FactoryError::Unauthorized => 3,
                FactoryError::Paused => 4,
                FactoryError::TemplateNotFound => 5,
                FactoryError::TemplateAlreadyExists => 6,
                FactoryError::TemplateInactive => 7,
                FactoryError::InstanceNotFound => 8,
                FactoryError::InstanceInactive => 9,
                FactoryError::InstanceAlreadyInactive => 10,
                FactoryError::InvalidWasmHash => 11,
            },
    {
        match *self {
            FactoryError::NotInitialized => 1,
            FactoryError::AlreadyInitialized => 2,
            FactoryError::Unauthorized => 3,
            FactoryError::Paused => 4,
            FactoryError::TemplateNotFound => 5,
            FactoryError::TemplateAlreadyExists => 6,
            FactoryError::TemplateInactive => 7,
            FactoryError::InstanceNotFound => 8,
            FactoryError::InstanceInactive => 9,
            FactoryError::InstanceAlreadyInactive => 10,
            FactoryError::InvalidWasmHash => 11,
        }
    }
}

/// A registered template: the code hash that instances are deployed from.
#[derive(Clone, Copy, Debug)]
pub struct Template {
    pub name: Symbol,
    pub wasm_hash: [u8; 32],
    pub version: u32,
    pub active: bool,
}

/// A contract deployed by the factory.
#[derive(Clone, Copy, Debug, PartialEq, Eq, Structural)]
pub struct DeployedInstance {
    pub address: Address,
    pub template_name: Symbol,
    pub template_version: u32,
    pub owner: Address,
    pub deployed_at: u32,
    pub active: bool,
}

#[derive(Clone, Copy, Debug, PartialEq, Eq, Structural)]
pub struct FactoryStats {
    pub total_deployed: u64,
    pub total_templates: u32,
}

#[derive(Clone, Copy, Debug)]
pub enum DataKey {
    Admin,
    Paused,
    TotalDeployed,
    TemplateNames,
    Template(Symbol),
    Instance(Address),
    OwnerInstances(Address),
}

/// Storage key of a template.
pub open spec fn spec_name_key(n: Symbol) -> u128 {
    n.0 as u128
}

pub fn name_key(n: Symbol) -> (k: u128)
    ensures
        k == spec_name_key(n),
{
    n.0 as u128
}

/// Contract storage of the factory and the ledger it runs on.
pub struct FactoryEnv {
    pub ledger_sequence: u32,
    pub admin: Option<Address>,
    pub paused: bool,
    pub total_deployed: u64,
    /// Template names in registration order.
    pub template_names: Vec<Symbol>,
    pub templates: Store<Template>,
    pub instances: Store<DeployedInstance>,
    pub owner_instances: Store<Vec<Address>>,
}

#[verifier::ext_equal]
pub struct FactoryView {
    pub ledger_sequence: u32,
    pub admin: Option<Address>,
    pub paused: bool,
    pub total_deployed: u64,
    pub template_names: Seq<Symbol>,
    pub templates: Map<u128, Template>,
    pub instances: Map<u128, DeployedInstance>,
    pub owner_instances: Map<u128, Seq<Address>>,
}

impl View for FactoryEnv {
    type V = FactoryView;

    open spec fn view(&self) -> FactoryView {
        FactoryView {
            ledger_sequence: self.ledger_sequence,
            admin: self.admin,
            paused: self.paused,
            total_deployed: self.total_deployed,
            template_names: self.template_names@,
            templates: self.templates@,
            instances: self.instances@,
            owner_instances: self.owner_instances@.map_values(|v: Vec<Address>| v@),
        }
    }
}

impl FactoryEnv {
    /// The name list holds each registered template once, in the order in
    /// which the templates were stored, and every record sits under its own
    /// name or address.
    pub open spec fn wf(&self) -> bool {
        &&& self.templates.wf()
        &&& self.instances.wf()
        &&& self.owner_instances.wf()
        &&& self.template_names@.map_values(|n: Symbol| spec_name_key(n)) == self.templates.keys()
        &&& forall|k: u128| #[trigger] self.templates@.contains_key(k) ==> spec_name_key(self.templates@[k].name) == k
    }

    /// A factory with empty storage at ledger `ledger_sequence`.
    pub fn new(ledger_sequence: u32) -> (e: Self)
        ensures
            e.wf(),
            e@ == (FactoryView {
                ledger_sequence,
                admin: None,
                paused: false,
                total_deployed: 0,
                template_names: Seq::empty(),
                templates: Map::empty(),
                instances: Map::empty(),
                owner_instances: Map::empty(),
            }),
    {
        let e = FactoryEnv {
            ledger_sequence,
            admin: None,
            paused: false,
            total_deployed: 0,
            template_names: Vec::new(),
            templates: Store::new(),
            instances: Store::new(),
            owner_instances: Store::new(),
        };
        assert(e.template_names@.map_values(|n: Symbol| spec_name_key(n)) =~= e.templates.keys());
        assert(e@.owner_instances =~= Map::empty());
        e
    }
}

} // verus!
