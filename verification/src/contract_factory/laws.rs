//! Properties of the factory that span its entry points.

use vstd::prelude::*;
use crate::common::{Address, Symbol};
use crate::contract_factory::types::FactoryView;
use crate::contract_factory::registry::{has_instance, instance_of, spec_owner_instances, spec_template_list, template_of};
use crate::contract_factory::contract::{spec_after_deploy, spec_deploy_check, spec_upgrade_result};

verus! {

/// A recorded deployment is found afterwards: the instance is active, carries
/// the version its template had, is the last entry of its owner's list, and
/// the deployment count went up by one.
pub proof fn law_deployment_is_recorded(v: FactoryView, template_name: Symbol, owner: Address, addr: Address)
    requires
        spec_deploy_check(v, template_name) is Ok,
        v.total_deployed < u64::MAX,
    ensures
        ({
            let w = spec_after_deploy(v, template_name, owner, addr);
            &&& has_instance(w, addr)
            &&& instance_of(w, addr).active
            &&& instance_of(w, addr).owner == owner
            &&& instance_of(w, addr).template_version == template_of(v, template_name).version
            &&& spec_owner_instances(w, owner).last() == addr
            &&& spec_owner_instances(w, owner).len() == spec_owner_instances(v, owner).len() + 1
            &&& w.total_deployed == v.total_deployed + 1
        }),
{
}

/// Nothing is deployed from a paused factory or an inactive template.
pub proof fn law_no_deploy_when_paused_or_inactive(v: FactoryView, template_name: Symbol)
    requires
        v.paused || !template_of(v, template_name).active,
    ensures
        spec_deploy_check(v, template_name) is Err,
{
}

/// An inactive instance is never upgraded, and no one but its owner or the
/// admin upgrades an instance.
pub proof fn law_upgrade_needs_active_instance_and_owner_or_admin(v: FactoryView, caller: Address, a: Address)
    requires
        has_instance(v, a),
        !instance_of(v, a).active || (instance_of(v, a).owner != caller && v.admin != Some(caller)),
    ensures
        spec_upgrade_result(v, caller, a) is Err,
{
}

/// The template list has one entry per registered name, in order.
pub proof fn law_template_list_follows_names(v: FactoryView)
    ensures
        spec_template_list(v).len() == v.template_names.len(),
        forall|i: int| 0 <= i < v.template_names.len() ==> #[trigger] spec_template_list(v)[i] == template_of(v, v.template_names[i]),
{
}

} // verus!
