//! The factory's entry points. `caller` is the address that authorized the
//! invocation; admin entry points refuse any other caller. Deploying is
//! split in two around the host's deployment: `prepare_deploy` checks the
//! request and gives the code hash and salt to deploy with, `deploy` records
//! the address the host deployed to.

use vstd::prelude::*;
use crate::common::{Address, Symbol};
use crate::contract_factory::types::{
    DeployedInstance, FactoryEnv, FactoryError, FactoryStats, FactoryView, Template,
};
use crate::contract_factory::registry::{
    self, has_instance, has_template, instance_of, spec_owner_instances, spec_template_list, template_of,
};
use crate::contract_factory::deployer::{compute_salt, spec_salt};
use crate::common::spec_addr_key;
use crate::contract_factory::types::spec_name_key;

verus! {

/// Outcome of the admin check.
pub open spec fn spec_require_admin(v: FactoryView, caller: Address) -> Result<(), FactoryError> {
    match v.admin {
        None => Err(FactoryError::NotInitialized),
        Some(a) => if a == caller { Ok(()) } else { Err(FactoryError::Unauthorized) },
    }
}

/// Outcome of the checks made before a deployment from `template_name`.
pub open spec fn spec_deploy_check(v: FactoryView, template_name: Symbol) -> Result<Template, FactoryError> {
    if v.paused {
        Err(FactoryError::Paused)
    } else if !has_template(v, template_name) {
        Err(FactoryError::TemplateNotFound)
    } else if !template_of(v, template_name).active {
        Err(FactoryError::TemplateInactive)
    } else {
        Ok(template_of(v, template_name))
    }
}

/// Outcome of the checks made before `caller` upgrades or deactivates
/// `instance_addr`: the caller must be its owner or the admin.
pub open spec fn spec_owner_or_admin(v: FactoryView, caller: Address, instance_addr: Address) -> Result<(), FactoryError> {
    if !has_instance(v, instance_addr) {
        Err(FactoryError::InstanceNotFound)
    } else if v.admin is None {
        Err(FactoryError::NotInitialized)
    } else if instance_of(v, instance_addr).owner != caller && v.admin != Some(caller) {
        Err(FactoryError::Unauthorized)
    } else {
        Ok(())
    }
}

/// The record of an instance deployed now from `template_name`.
pub open spec fn spec_new_instance(v: FactoryView, template_name: Symbol, owner: Address, addr: Address) -> DeployedInstance {
    DeployedInstance {
        address: addr,
        template_name,
        template_version: template_of(v, template_name).version,
        owner,
        deployed_at: v.ledger_sequence,
        active: true,
    }
}

/// Storage after recording a deployment at `addr`.
pub open spec fn spec_after_deploy(v: FactoryView, template_name: Symbol, owner: Address, addr: Address) -> FactoryView {
    FactoryView {
        instances: v.instances.insert(spec_addr_key(addr), spec_new_instance(v, template_name, owner, addr)),
        owner_instances: v.owner_instances.insert(spec_addr_key(owner), spec_owner_instances(v, owner).push(addr)),
        total_deployed: (v.total_deployed + 1) as u64,
        ..v
    }
}

/// Outcome of an upgrade request: the code hash to upgrade to, or why not.
pub open spec fn spec_upgrade_result(v: FactoryView, caller: Address, instance_addr: Address) -> Result<[u8; 32], FactoryError> {
    let i = instance_of(v, instance_addr);
    if v.paused {
        Err(FactoryError::Paused)
    } else if !has_instance(v, instance_addr) {
        Err(FactoryError::InstanceNotFound)
    } else if !i.active {
        Err(FactoryError::InstanceInactive)
    } else if v.admin is None {
        Err(FactoryError::NotInitialized)
    } else if i.owner != caller && v.admin != Some(caller) {
        Err(FactoryError::Unauthorized)
    } else if !has_template(v, i.template_name) {
        Err(FactoryError::TemplateNotFound)
    } else {
        Ok(template_of(v, i.template_name).wasm_hash)
    }
}

/// What the host is to deploy: the template's code under the salt of the
/// owner's next deployment.
#[derive(Debug)]
pub struct DeployPlan {
    pub wasm_hash: [u8; 32],
    pub salt: Vec<u8>,
}

pub struct ContractFactory;

impl ContractFactory {
    fn require_admin(env: &FactoryEnv, caller: Address) -> (r: Result<(), FactoryError>)
        ensures
            r == spec_require_admin(env@, caller),
    {
        match env.admin {
            None => Err(FactoryError::NotInitialized),
            Some(a) => if a == caller { Ok(()) } else { Err(FactoryError::Unauthorized) },
        }
    }

    /// Set the admin once; the factory starts unpaused with no deployments.
    pub fn initialize(env: &mut FactoryEnv, admin: Address) -> (r: Result<(), FactoryError>)
        requires
            old(env).wf(),
        ensures
            final(env).wf(),
            r == (if old(env)@.admin is Some { Err(FactoryError::AlreadyInitialized) } else { Ok(()) }),
            r is Err ==> final(env)@ == old(env)@,
            r is Ok ==> final(env)@ == (FactoryView { admin: Some(admin), paused: false, total_deployed: 0, ..old(env)@ }),
    {
        if env.admin.is_some() {
            return Err(FactoryError::AlreadyInitialized);
        }
        env.admin = Some(admin);
        env.paused = false;
        env.total_deployed = 0;
        Ok(())
    }

    /// Register template `name` at version 1, active.
    pub fn register_template(env: &mut FactoryEnv, caller: Address, name: Symbol, wasm_hash: [u8; 32]) -> (r: Result<(), FactoryError>)
        requires
            old(env).wf(),
            old(env).template_names@.len() < u32::MAX,
        ensures
            final(env).wf(),
            ({
                let v = old(env)@;
                let t = Template { name, wasm_hash, version: 1, active: true };
                &&& r == (if spec_require_admin(v, caller) is Err {
                    spec_require_admin(v, caller)
                } else if has_template(v, name) {
                    Err(FactoryError::TemplateAlreadyExists)
                } else {
                    Ok(())
                })
                &&& r is Err ==> final(env)@ == v
                &&& r is Ok ==> final(env)@ == (FactoryView {
                    template_names: v.template_names.push(name),
                    templates: v.templates.insert(spec_name_key(name), t),
                    ..v
                })
            }),
    {
        Self::require_admin(env, caller)?;
        let template = Template { name, wasm_hash, version: 1, active: true };
        registry::register_template(env, template)
    }

    /// Point template `name` at new code; its version goes up by one.
    pub fn update_template(env: &mut FactoryEnv, caller: Address, name: Symbol, new_wasm_hash: [u8; 32]) -> (r: Result<(), FactoryError>)
        requires
            old(env).wf(),
            has_template(old(env)@, name) ==> template_of(old(env)@, name).version < u32::MAX,
        ensures
            final(env).wf(),
            ({
                let v = old(env)@;
                let t = template_of(v, name);
                &&& r == (if spec_require_admin(v, caller) is Err {
                    spec_require_admin(v, caller)
                } else if !has_template(v, name) {
                    Err(FactoryError::TemplateNotFound)
                } else {
                    Ok(())
                })
                &&& r is Err ==> final(env)@ == v
                &&& r is Ok ==> final(env)@ == (FactoryView {
                    templates: v.templates.insert(
                        spec_name_key(name),
                        Template { wasm_hash: new_wasm_hash, version: (t.version + 1) as u32, ..t },
                    ),
                    ..v
                })
            }),
    {
        Self::require_admin(env, caller)?;
        let _updated = registry::update_template(env, name, new_wasm_hash)?;
        Ok(())
    }

    fn set_template_active_as_admin(env: &mut FactoryEnv, caller: Address, name: Symbol, active: bool) -> (r: Result<(), FactoryError>)
        requires
            old(env).wf(),
        ensures
            final(env).wf(),
            ({
                let v = old(env)@;
                &&& r == (if spec_require_admin(v, caller) is Err {
                    spec_require_admin(v, caller)
                } else if !has_template(v, name) {
                    Err(FactoryError::TemplateNotFound)
                } else {
                    Ok(())
                })
                &&& r is Err ==> final(env)@ == v
                &&& r is Ok ==> final(env)@ == (FactoryView {
                    templates: v.templates.insert(spec_name_key(name), Template { active, ..template_of(v, name) }),
                    ..v
                })
            }),
    {
        Self::require_admin(env, caller)?;
        registry::set_template_active(env, name, active)
    }

    /// Stop new deployments from template `name`.
    pub fn deactivate_template(env: &mut FactoryEnv, caller: Address, name: Symbol) -> (r: Result<(), FactoryError>)
        requires
            old(env).wf(),
        ensures
            final(env).wf(),
            ({
                let v = old(env)@;
                &&& r == (if spec_require_admin(v, caller) is Err {
                    spec_require_admin(v, caller)
                } else if !has_template(v, name) {
                    Err(FactoryError::TemplateNotFound)
                } else {
                    Ok(())
                })
                &&& r is Err ==> final(env)@ == v
                &&& r is Ok ==> final(env)@ == (FactoryView {
                    templates: v.templates.insert(spec_name_key(name), Template { active: false, ..template_of(v, name) }),
                    ..v
                })
            }),
    {
        Self::set_template_active_as_admin(env, caller, name, false)
    }

    /// Allow deployments from template `name` again.
    pub fn reactivate_template(env: &mut FactoryEnv, caller: Address, name: Symbol) -> (r: Result<(), FactoryError>)
        requires
            old(env).wf(),
        ensures
            final(env).wf(),
            ({
                let v = old(env)@;
                &&& r == (if spec_require_admin(v, caller) is Err {
                    spec_require_admin(v, caller)
                } else if !has_template(v, name) {
                    Err(FactoryError::TemplateNotFound)
                } else {
                    Ok(())
                })
                &&& r is Err ==> final(env)@ == v
                &&& r is Ok ==> final(env)@ == (FactoryView {
                    templates: v.templates.insert(spec_name_key(name), Template { active: true, ..template_of(v, name) }),
                    ..v
                })
            }),
    {
        Self::set_template_active_as_admin(env, caller, name, true)
    }

    fn check_deploy(env: &FactoryEnv, template_name: Symbol) -> (r: Result<Template, FactoryError>)
        requires
            env.wf(),
        ensures
            r == spec_deploy_check(env@, template_name),
    {
        if env.paused {
            return Err(FactoryError::Paused);
        }
        let template = registry::get_template(env, template_name)?;
        if !template.active {
            return Err(FactoryError::TemplateInactive);
        }
        Ok(template)
    }

    /// Check a deployment request and give the code hash and salt the host
    /// is to deploy with; the salt is that of deployment number
    /// `total_deployed` for the owner whose address bytes (its host
    /// encoding) are `owner_bytes`.
    pub fn prepare_deploy(env: &FactoryEnv, template_name: Symbol, owner_bytes: &Vec<u8>) -> (r: Result<DeployPlan, FactoryError>)
        requires
            env.wf(),
        ensures
            r matches Err(e) ==> spec_deploy_check(env@, template_name) == Err::<Template, FactoryError>(e),
            r is Ok <==> spec_deploy_check(env@, template_name) is Ok,
            r matches Ok(p) ==> p.wasm_hash == template_of(env@, template_name).wasm_hash
                && p.salt@ == spec_salt(owner_bytes@, env@.total_deployed),
    {
        let template = Self::check_deploy(env, template_name)?;
        let salt = compute_salt(owner_bytes, env.total_deployed);
        Ok(DeployPlan { wasm_hash: template.wasm_hash, salt })
    }

    /// Record the instance the host deployed at `deployed_addr` from
    /// template `template_name` for `owner`, after the same checks as
    /// `prepare_deploy`; returns the address.
    pub fn deploy(env: &mut FactoryEnv, template_name: Symbol, owner: Address, deployed_addr: Address) -> (r: Result<Address, FactoryError>)
        requires
            old(env).wf(),
            old(env).total_deployed < u64::MAX,
        ensures
            final(env).wf(),
            ({
                let v = old(env)@;
                &&& r is Err <==> spec_deploy_check(v, template_name) is Err
                &&& r matches Err(e) ==> spec_deploy_check(v, template_name) == Err::<Template, FactoryError>(e)
                &&& r is Err ==> final(env)@ == v
                &&& r is Ok ==> r == Ok::<Address, FactoryError>(deployed_addr)
                &&& r is Ok ==> final(env)@ == spec_after_deploy(v, template_name, owner, deployed_addr)
            }),
    {
        let template = Self::check_deploy(env, template_name)?;
        let instance = DeployedInstance {
            address: deployed_addr,
            template_name,
            template_version: template.version,
            owner,
            deployed_at: env.ledger_sequence,
            active: true,
        };
        registry::record_instance(env, instance);
        Ok(deployed_addr)
    }

    fn check_owner_or_admin(env: &FactoryEnv, caller: Address, instance_addr: Address) -> (r: Result<DeployedInstance, FactoryError>)
        requires
            env.wf(),
        ensures
            r is Ok <==> spec_owner_or_admin(env@, caller, instance_addr) is Ok,
            r matches Err(e) ==> spec_owner_or_admin(env@, caller, instance_addr) == Err::<(), FactoryError>(e),
            r is Ok ==> r == Ok::<DeployedInstance, FactoryError>(instance_of(env@, instance_addr)),
    {
        let instance = registry::get_instance(env, instance_addr)?;
        match env.admin {
            None => Err(FactoryError::NotInitialized),
            Some(admin) => {
                if instance.owner != caller && admin != caller {
                    Err(FactoryError::Unauthorized)
                } else {
                    Ok(instance)
                }
            },
        }
    }

    /// Check that `caller` may upgrade the active instance `instance_addr`
    /// and give the code hash the host is to upgrade it to: the current code
    /// of its template. Nothing is stored.
    pub fn upgrade_instance(env: &FactoryEnv, caller: Address, instance_addr: Address) -> (r: Result<[u8; 32], FactoryError>)
        requires
            env.wf(),
        ensures
            r == spec_upgrade_result(env@, caller, instance_addr),
    {
        if env.paused {
            return Err(FactoryError::Paused);
        }
        let instance = registry::get_instance(env, instance_addr)?;
        if !instance.active {
            return Err(FactoryError::InstanceInactive);
        }
        match env.admin {
            None => {
                return Err(FactoryError::NotInitialized);
            },
            Some(admin) => {
                if instance.owner != caller && admin != caller {
                    return Err(FactoryError::Unauthorized);
                }
            },
        }
        let template = registry::get_template(env, instance.template_name)?;
        Ok(template.wasm_hash)
    }

    /// Deactivate an instance; only its owner or the admin may.
    pub fn deactivate_instance(env: &mut FactoryEnv, caller: Address, instance_addr: Address) -> (r: Result<(), FactoryError>)
        requires
            old(env).wf(),
        ensures
            final(env).wf(),
            ({
                let v = old(env)@;
                let i = instance_of(v, instance_addr);
                &&& r == (if spec_owner_or_admin(v, caller, instance_addr) is Err {
                    spec_owner_or_admin(v, caller, instance_addr)
                } else if !i.active {
                    Err(FactoryError::InstanceAlreadyInactive)
                } else {
                    Ok(())
                })
                &&& r is Err ==> final(env)@ == v
                &&& r is Ok ==> final(env)@ == (FactoryView {
                    instances: v.instances.insert(spec_addr_key(instance_addr), DeployedInstance { active: false, ..i }),
                    ..v
                })
            }),
    {
        let _instance = Self::check_owner_or_admin(env, caller, instance_addr)?;
        registry::set_instance_active(env, instance_addr, false)
    }

    pub fn pause(env: &mut FactoryEnv, caller: Address) -> (r: Result<(), FactoryError>)
        requires
            old(env).wf(),
        ensures
            final(env).wf(),
            r == spec_require_admin(old(env)@, caller),
            r is Err ==> final(env)@ == old(env)@,
            r is Ok ==> final(env)@ == (FactoryView { paused: true, ..old(env)@ }),
    {
        Self::require_admin(env, caller)?;
        env.paused = true;
        Ok(())
    }

    pub fn unpause(env: &mut FactoryEnv, caller: Address) -> (r: Result<(), FactoryError>)
        requires
            old(env).wf(),
        ensures
            final(env).wf(),
            r == spec_require_admin(old(env)@, caller),
            r is Err ==> final(env)@ == old(env)@,
            r is Ok ==> final(env)@ == (FactoryView { paused: false, ..old(env)@ }),
    {
        Self::require_admin(env, caller)?;
        env.paused = false;
        Ok(())
    }

    /// Hand the admin role to `new_admin`.
    pub fn transfer_admin(env: &mut FactoryEnv, caller: Address, new_admin: Address) -> (r: Result<(), FactoryError>)
        requires
            old(env).wf(),
        ensures
            final(env).wf(),
            r == spec_require_admin(old(env)@, caller),
            r is Err ==> final(env)@ == old(env)@,
            r is Ok ==> final(env)@ == (FactoryView { admin: Some(new_admin), ..old(env)@ }),
    {
        Self::require_admin(env, caller)?;
        env.admin = Some(new_admin);
        Ok(())
    }

    pub fn get_template(env: &FactoryEnv, name: Symbol) -> (r: Result<Template, FactoryError>)
        requires
            env.wf(),
        ensures
            r == (if has_template(env@, name) { Ok(template_of(env@, name)) } else { Err(FactoryError::TemplateNotFound) }),
    {
        registry::get_template(env, name)
    }

    pub fn list_templates(env: &FactoryEnv) -> (r: Vec<Template>)
        requires
            env.wf(),
        ensures
            r@ == spec_template_list(env@),
    {
        registry::list_templates(env)
    }

    pub fn get_instance(env: &FactoryEnv, address: Address) -> (r: Result<DeployedInstance, FactoryError>)
        requires
            env.wf(),
        ensures
            r == (if has_instance(env@, address) { Ok(instance_of(env@, address)) } else { Err(FactoryError::InstanceNotFound) }),
    {
        registry::get_instance(env, address)
    }

    pub fn get_owner_instances(env: &FactoryEnv, owner: Address) -> (r: Vec<Address>)
        requires
            env.wf(),
        ensures
            r@ == spec_owner_instances(env@, owner),
    {
        registry::get_owner_instances(env, owner)
    }

    pub fn get_stats(env: &FactoryEnv) -> (s: FactoryStats)
        requires
            env.wf(),
            env.template_names@.len() <= u32::MAX,
        ensures
            s == (FactoryStats { total_deployed: env@.total_deployed, total_templates: env@.template_names.len() as u32 }),
    {
        registry::get_stats(env)
    }

    pub fn is_paused(env: &FactoryEnv) -> (b: bool)
        ensures
            b == env@.paused,
    {
        env.paused
    }
}

} // verus!
