//! Template and instance records of the factory.

use vstd::prelude::*;
use crate::common::{Address, Symbol, addr_key, spec_addr_key, copy_addrs};
use crate::contract_factory::types::{
    DeployedInstance, FactoryEnv, FactoryError, FactoryStats, FactoryView, Template, name_key, spec_name_key,
};

verus! {

pub open spec fn has_template(v: FactoryView, name: Symbol) -> bool {
    v.templates.contains_key(spec_name_key(name))
}

pub open spec fn template_of(v: FactoryView, name: Symbol) -> Template {
    v.templates[spec_name_key(name)]
}

pub open spec fn has_instance(v: FactoryView, a: Address) -> bool {
    v.instances.contains_key(spec_addr_key(a))
}

pub open spec fn instance_of(v: FactoryView, a: Address) -> DeployedInstance {
    v.instances[spec_addr_key(a)]
}

/// The instances recorded for `owner`, oldest first.
pub open spec fn spec_owner_instances(v: FactoryView, owner: Address) -> Seq<Address> {
    if v.owner_instances.contains_key(spec_addr_key(owner)) {
        v.owner_instances[spec_addr_key(owner)]
    } else {
        Seq::empty()
    }
}

/// The templates in registration order.
pub open spec fn spec_template_list(v: FactoryView) -> Seq<Template> {
    v.template_names.map_values(|n: Symbol| v.templates[spec_name_key(n)])
}

/// Store a new template under its name; a name is registered once.
pub fn register_template(env: &mut FactoryEnv, template: Template) -> (r: Result<(), FactoryError>)
    requires
        old(env).wf(),
        old(env).template_names@.len() < u32::MAX,
    ensures
        final(env).wf(),
        r == (if has_template(old(env)@, template.name) { Err(FactoryError::TemplateAlreadyExists) } else { Ok(()) }),
        r is Err ==> final(env)@ == old(env)@,
        r is Ok ==> final(env)@ == (FactoryView {
            template_names: old(env)@.template_names.push(template.name),
            templates: old(env)@.templates.insert(spec_name_key(template.name), template),
            ..old(env)@
        }),
{
    let k = name_key(template.name);
    if env.templates.contains(k) {
        return Err(FactoryError::TemplateAlreadyExists);
    }
    let ghost pre = *env;
    env.template_names.push(template.name);
    env.templates.set(k, template);
    proof {
        assert(env.template_names@.map_values(|n: Symbol| spec_name_key(n)) =~= pre.template_names@.map_values(
            |n: Symbol| spec_name_key(n),
        ).push(k));
    }
    assert(env@ =~= FactoryView {
        template_names: pre@.template_names.push(template.name),
        templates: pre@.templates.insert(spec_name_key(template.name), template),
        ..pre@
    });
    Ok(())
}

pub fn get_template(env: &FactoryEnv, name: Symbol) -> (r: Result<Template, FactoryError>)
    requires
        env.wf(),
    ensures
        r == (if has_template(env@, name) { Ok(template_of(env@, name)) } else { Err(FactoryError::TemplateNotFound) }),
{
    match env.templates.get(name_key(name)) {
        Some(t) => Ok(*t),
        None => Err(FactoryError::TemplateNotFound),
    }
}

/// Point a template at new code and raise its version by one.
pub fn update_template(env: &mut FactoryEnv, name: Symbol, new_wasm_hash: [u8; 32]) -> (r: Result<Template, FactoryError>)
    requires
        old(env).wf(),
        has_template(old(env)@, name) ==> template_of(old(env)@, name).version < u32::MAX,
    ensures
        final(env).wf(),
        ({
            let v = old(env)@;
            let t = template_of(v, name);
            let updated = Template { wasm_hash: new_wasm_hash, version: (t.version + 1) as u32, ..t };
            &&& r == (if has_template(v, name) { Ok(updated) } else { Err(FactoryError::TemplateNotFound) })
            &&& r is Err ==> final(env)@ == v
            &&& r is Ok ==> final(env)@ == (FactoryView { templates: v.templates.insert(spec_name_key(name), updated), ..v })
        }),
{
    let mut template = get_template(env, name)?;
    template.wasm_hash = new_wasm_hash;
    template.version = template.version + 1;
    let ghost pre = *env;
    env.templates.set(name_key(name), template);
    assert(env@ =~= FactoryView { templates: pre@.templates.insert(spec_name_key(name), template), ..pre@ });
    Ok(template)
}

/// Mark a template usable or not for new deployments.
pub fn set_template_active(env: &mut FactoryEnv, name: Symbol, active: bool) -> (r: Result<(), FactoryError>)
    requires
        old(env).wf(),
    ensures
        final(env).wf(),
        ({
            let v = old(env)@;
            &&& r == (if has_template(v, name) { Ok(()) } else { Err(FactoryError::TemplateNotFound) })
            &&& r is Err ==> final(env)@ == v
            &&& r is Ok ==> final(env)@ == (FactoryView {
                templates: v.templates.insert(spec_name_key(name), Template { active, ..template_of(v, name) }),
                ..v
            })
        }),
{
    let mut template = get_template(env, name)?;
    template.active = active;
    let ghost pre = *env;
    env.templates.set(name_key(name), template);
    assert(env@ =~= FactoryView { templates: pre@.templates.insert(spec_name_key(name), template), ..pre@ });
    Ok(())
}

/// Every registered template, in registration order.
pub fn list_templates(env: &FactoryEnv) -> (r: Vec<Template>)
    requires
        env.wf(),
    ensures
        r@ == spec_template_list(env@),
        r@.len() == env@.template_names.len(),
{
    let mut out: Vec<Template> = Vec::new();
    let mut i: usize = 0;
    while i < env.template_names.len()
        invariant
            env.wf(),
            0 <= i <= env.template_names@.len(),
            out@ == spec_template_list(env@).subrange(0, i as int),
        decreases env.template_names@.len() - i,
    {
        let name = env.template_names[i];
        proof {
            let keys = env.templates.keys();
            assert(keys.len() == env.templates.entries@.len());
            assert(env.template_names@.map_values(|n: Symbol| spec_name_key(n))[i as int] == spec_name_key(name));
            assert(keys[i as int] == spec_name_key(name));
            env.templates.lemma_at(i as int);
        }
        match env.templates.get(name_key(name)) {
            Some(t) => {
                out.push(*t);
            },
            None => {},
        }
        assert(out@ =~= spec_template_list(env@).subrange(0, i + 1));
        i = i + 1;
    }
    assert(out@ =~= spec_template_list(env@));
    out
}

/// Store an instance record, append it to its owner's list and count the
/// deployment.
pub fn record_instance(env: &mut FactoryEnv, instance: DeployedInstance)
    requires
        old(env).wf(),
        old(env).total_deployed < u64::MAX,
    ensures
        final(env).wf(),
        ({
            let v = old(env)@;
            final(env)@ == (FactoryView {
                instances: v.instances.insert(spec_addr_key(instance.address), instance),
                owner_instances: v.owner_instances.insert(
                    spec_addr_key(instance.owner),
                    spec_owner_instances(v, instance.owner).push(instance.address),
                ),
                total_deployed: (v.total_deployed + 1) as u64,
                ..v
            })
        }),
{
    let ghost pre = *env;
    env.instances.set(addr_key(instance.address), instance);
    let mut list: Vec<Address> = match env.owner_instances.get(addr_key(instance.owner)) {
        Some(l) => copy_addrs(l),
        None => Vec::new(),
    };
    list.push(instance.address);
    let ghost lv = list@;
    env.owner_instances.set(addr_key(instance.owner), list);
    env.total_deployed = env.total_deployed + 1;
    assert(env@.owner_instances =~= pre@.owner_instances.insert(spec_addr_key(instance.owner), lv));
    assert(env@ =~= FactoryView {
        instances: pre@.instances.insert(spec_addr_key(instance.address), instance),
        owner_instances: pre@.owner_instances.insert(spec_addr_key(instance.owner), lv),
        total_deployed: (pre@.total_deployed + 1) as u64,
        ..pre@
    });
}

pub fn get_instance(env: &FactoryEnv, address: Address) -> (r: Result<DeployedInstance, FactoryError>)
    requires
        env.wf(),
    ensures
        r == (if has_instance(env@, address) { Ok(instance_of(env@, address)) } else { Err(FactoryError::InstanceNotFound) }),
{
    match env.instances.get(addr_key(address)) {
        Some(i) => Ok(*i),
        None => Err(FactoryError::InstanceNotFound),
    }
}

/// Mark an instance active or inactive; deactivating an inactive instance
/// is refused.
pub fn set_instance_active(env: &mut FactoryEnv, address: Address, active: bool) -> (r: Result<(), FactoryError>)
    requires
        old(env).wf(),
    ensures
        final(env).wf(),
        ({
            let v = old(env)@;
            let i = instance_of(v, address);
            &&& r == (if !has_instance(v, address) {
                Err(FactoryError::InstanceNotFound)
            } else if !i.active && !active {
                Err(FactoryError::InstanceAlreadyInactive)
            } else {
                Ok(())
            })
            &&& r is Err ==> final(env)@ == v
            &&& r is Ok ==> final(env)@ == (FactoryView {
                instances: v.instances.insert(spec_addr_key(address), DeployedInstance { active, ..i }),
                ..v
            })
        }),
{
    let mut instance = get_instance(env, address)?;
    if !instance.active && !active {
        return Err(FactoryError::InstanceAlreadyInactive);
    }
    instance.active = active;
    let ghost pre = *env;
    env.instances.set(addr_key(address), instance);
    assert(env@ =~= FactoryView { instances: pre@.instances.insert(spec_addr_key(address), instance), ..pre@ });
    Ok(())
}

pub fn get_owner_instances(env: &FactoryEnv, owner: Address) -> (r: Vec<Address>)
    requires
        env.wf(),
    ensures
        r@ == spec_owner_instances(env@, owner),
{
    match env.owner_instances.get(addr_key(owner)) {
        Some(l) => copy_addrs(l),
        None => Vec::new(),
    }
}

pub fn get_stats(env: &FactoryEnv) -> (s: FactoryStats)
    requires
        env.wf(),
        env.template_names@.len() <= u32::MAX,
    ensures
        s == (FactoryStats { total_deployed: env@.total_deployed, total_templates: env@.template_names.len() as u32 }),
{
    FactoryStats { total_deployed: env.total_deployed, total_templates: env.template_names.len() as u32 }
}

} // verus!
