//! Storage of the vesting contract: instance values, schedules by id, each
//! user's schedule ids, the index of active schedules, and migration from
//! the legacy layout.

use vstd::prelude::*;
use crate::common::{Address, addr_key, spec_addr_key};
use crate::store::Store;
use crate::academy::vesting::{VestingSchedule, VestingScheduleV2, VestingScheduleV2View, copy_v2};

verus! {

/// Storage layout version this code writes.
pub const CONTRACT_VERSION: u32 = 2;

/// The keys of the storage layout.
#[derive(Clone, Copy, Debug, PartialEq, Eq, Structural)]
pub enum AcademyDataKey {
    Init,
    Admin,
    Token,
    Governance,
    Counter,
    Schedule(u64),
    UserScheduleIds(Address),
    ActiveSchedules,
    ScheduleV2(u64),
    UserTransferRestriction(Address),
}

/// Contract storage and ledger of the vesting contract.
pub struct AcademyEnv {
    /// Ledger timestamp.
    pub timestamp: u64,
    /// This contract's address (holder of the reward tokens).
    pub contract_address: Address,
    pub initialized: bool,
    pub admin: Option<Address>,
    pub token: Option<Address>,
    pub governance: Option<Address>,
    pub counter: u64,
    pub version: u32,
    pub schedules: Store<VestingSchedule>,
    pub schedules_v2: Store<VestingScheduleV2>,
    pub user_schedule_ids: Store<Vec<u64>>,
    pub transfer_restrictions: Store<bool>,
    pub active: Vec<u64>,
    /// Values under the keys of the legacy layout.
    pub legacy_admin: Option<Address>,
    pub legacy_token: Option<Address>,
    pub legacy_governance: Option<Address>,
    pub legacy_counter: Option<u64>,
}

#[verifier::ext_equal]
pub struct AcademyView {
    pub timestamp: u64,
    pub contract_address: Address,
    pub initialized: bool,
    pub admin: Option<Address>,
    pub token: Option<Address>,
    pub governance: Option<Address>,
    pub counter: u64,
    pub version: u32,
    pub schedules: Map<u128, VestingSchedule>,
    pub schedules_v2: Map<u128, VestingScheduleV2View>,
    pub user_schedule_ids: Map<u128, Seq<u64>>,
    pub transfer_restrictions: Map<u128, bool>,
    pub active: Seq<u64>,
    pub legacy_admin: Option<Address>,
    pub legacy_token: Option<Address>,
    pub legacy_governance: Option<Address>,
    pub legacy_counter: Option<u64>,
}

impl View for AcademyEnv {
    type V = AcademyView;

    open spec fn view(&self) -> AcademyView {
        AcademyView {
            timestamp: self.timestamp,
            contract_address: self.contract_address,
            initialized: self.initialized,
            admin: self.admin,
            token: self.token,
            governance: self.governance,
            counter: self.counter,
            version: self.version,
            schedules: self.schedules@,
            schedules_v2: self.schedules_v2@.map_values(|s: VestingScheduleV2| s@),
            user_schedule_ids: self.user_schedule_ids@.map_values(|v: Vec<u64>| v@),
            transfer_restrictions: self.transfer_restrictions@,
            active: self.active@,
            legacy_admin: self.legacy_admin,
            legacy_token: self.legacy_token,
            legacy_governance: self.legacy_governance,
            legacy_counter: self.legacy_counter,
        }
    }
}

impl AcademyEnv {
    pub open spec fn wf(&self) -> bool {
        &&& self.schedules.wf()
        &&& self.schedules_v2.wf()
        &&& self.user_schedule_ids.wf()
        &&& self.transfer_restrictions.wf()
    }

    /// Empty storage for the contract at `contract_address`.
    pub fn new(contract_address: Address, timestamp: u64) -> (e: Self)
        ensures
            e.wf(),
            e@ == (AcademyView {
                timestamp,
                contract_address,
                initialized: false,
                admin: None,
                token: None,
                governance: None,
                counter: 0,
                version: 0,
                schedules: Map::empty(),
                schedules_v2: Map::empty(),
                user_schedule_ids: Map::empty(),
                transfer_restrictions: Map::empty(),
                active: Seq::empty(),
                legacy_admin: None,
                legacy_token: None,
                legacy_governance: None,
                legacy_counter: None,
            }),
    {
        let e = AcademyEnv {
            timestamp,
            contract_address,
            initialized: false,
            admin: None,
            token: None,
            governance: None,
            counter: 0,
            version: 0,
            schedules: Store::new(),
            schedules_v2: Store::new(),
            user_schedule_ids: Store::new(),
            transfer_restrictions: Store::new(),
            active: Vec::new(),
            legacy_admin: None,
            legacy_token: None,
            legacy_governance: None,
            legacy_counter: None,
        };
        assert(e@ =~= AcademyView {
            timestamp,
            contract_address,
            initialized: false,
            admin: None,
            token: None,
            governance: None,
            counter: 0,
            version: 0,
            schedules: Map::empty(),
            schedules_v2: Map::empty(),
            user_schedule_ids: Map::empty(),
            transfer_restrictions: Map::empty(),
            active: Seq::empty(),
            legacy_admin: None,
            legacy_token: None,
            legacy_governance: None,
            legacy_counter: None,
        });
        e
    }
}

/// Storage key of schedule `id`.
pub open spec fn schedule_key(id: u64) -> u128 {
    id as u128
}

/// The schedule ids recorded for `user` (none if the user has no entry).
pub open spec fn user_ids(v: AcademyView, user: Address) -> Seq<u64> {
    if v.user_schedule_ids.contains_key(spec_addr_key(user)) {
        v.user_schedule_ids[spec_addr_key(user)]
    } else {
        Seq::empty()
    }
}

/// `ids` without `id`, the rest in order.
pub open spec fn without_id(ids: Seq<u64>, id: u64) -> Seq<u64> {
    ids.filter(|x: u64| x != id)
}

/// The schedules `ids` name, skipping ids with no schedule.
pub open spec fn schedules_of(schedules: Map<u128, VestingSchedule>, ids: Seq<u64>) -> Seq<VestingSchedule>
    decreases ids.len(),
{
    if ids.len() == 0 {
        Seq::empty()
    } else {
        let rest = schedules_of(schedules, ids.drop_last());
        if schedules.contains_key(schedule_key(ids.last())) {
            rest.push(schedules[schedule_key(ids.last())])
        } else {
            rest
        }
    }
}

/// The version-two schedules `ids` name, skipping ids with none.
pub open spec fn schedules_v2_of(schedules: Map<u128, VestingScheduleV2View>, ids: Seq<u64>) -> Seq<VestingScheduleV2View>
    decreases ids.len(),
{
    if ids.len() == 0 {
        Seq::empty()
    } else {
        let rest = schedules_v2_of(schedules, ids.drop_last());
        if schedules.contains_key(schedule_key(ids.last())) {
            rest.push(schedules[schedule_key(ids.last())])
        } else {
            rest
        }
    }
}

/// Records carried over by a migration from the legacy layout.
pub open spec fn legacy_count(v: AcademyView) -> u64 {
    ((if v.legacy_admin is Some { 1int } else { 0 }) + (if v.legacy_token is Some { 1int } else { 0 }) + (
    if v.legacy_governance is Some { 1int } else { 0 }) + (if v.legacy_counter is Some { 1int } else { 0 })) as u64
}

/// State after the legacy values are copied into the current layout.
pub open spec fn spec_migrated(v: AcademyView) -> AcademyView {
    AcademyView {
        admin: if v.legacy_admin is Some { v.legacy_admin } else { v.admin },
        token: if v.legacy_token is Some { v.legacy_token } else { v.token },
        governance: if v.legacy_governance is Some { v.legacy_governance } else { v.governance },
        counter: if v.legacy_counter is Some { v.legacy_counter.unwrap() } else { v.counter },
        ..v
    }
}

fn copy_ids(v: &Vec<u64>) -> (r: Vec<u64>)
    ensures
        r@ == v@,
{
    let mut r: Vec<u64> = Vec::new();
    let mut i: usize = 0;
    while i < v.len()
        invariant
            0 <= i <= v@.len(),
            r@ == v@.subrange(0, i as int),
        decreases v@.len() - i,
    {
        r.push(v[i]);
        assert(v@.subrange(0, i + 1) =~= v@.subrange(0, i as int).push(v@[i as int]));
        i = i + 1;
    }
    assert(v@.subrange(0, v@.len() as int) =~= v@);
    r
}

pub struct AcademyStorage;

impl AcademyStorage {
    pub fn is_initialized(env: &AcademyEnv) -> (b: bool)
        ensures
            b == env@.initialized,
    {
        env.initialized
    }

    /// Mark the contract initialized and reset the grant counter.
    pub fn set_initialized(env: &mut AcademyEnv)
        requires
            old(env).wf(),
        ensures
            final(env).wf(),
            final(env)@ == (AcademyView { initialized: true, counter: 0, ..old(env)@ }),
    {
        env.initialized = true;
        env.counter = 0;
    }

    pub fn get_version(env: &AcademyEnv) -> (v: u32)
        ensures
            v == env@.version,
    {
        env.version
    }

    pub fn set_version(env: &mut AcademyEnv, version: u32)
        requires
            old(env).wf(),
        ensures
            final(env).wf(),
            final(env)@ == (AcademyView { version, ..old(env)@ }),
    {
        env.version = version;
    }

    pub fn set_admin(env: &mut AcademyEnv, admin: Address)
        requires
            old(env).wf(),
        ensures
            final(env).wf(),
            final(env)@ == (AcademyView { admin: Some(admin), ..old(env)@ }),
    {
        env.admin = Some(admin);
    }

    pub fn get_admin(env: &AcademyEnv) -> (a: Option<Address>)
        ensures
            a == env@.admin,
    {
        env.admin
    }

    pub fn set_token(env: &mut AcademyEnv, token: Address)
        requires
            old(env).wf(),
        ensures
            final(env).wf(),
            final(env)@ == (AcademyView { token: Some(token), ..old(env)@ }),
    {
        env.token = Some(token);
    }

    pub fn get_token(env: &AcademyEnv) -> (t: Option<Address>)
        ensures
            t == env@.token,
    {
        env.token
    }

    pub fn set_governance(env: &mut AcademyEnv, governance: Address)
        requires
            old(env).wf(),
        ensures
            final(env).wf(),
            final(env)@ == (AcademyView { governance: Some(governance), ..old(env)@ }),
    {
        env.governance = Some(governance);
    }

    pub fn get_governance(env: &AcademyEnv) -> (g: Option<Address>)
        ensures
            g == env@.governance,
    {
        env.governance
    }

    pub fn get_counter(env: &AcademyEnv) -> (c: u64)
        ensures
            c == env@.counter,
    {
        env.counter
    }

    /// Increment the grant counter and return the new value: the next
    /// schedule id.
    pub fn increment_counter(env: &mut AcademyEnv) -> (id: u64)
        requires
            old(env).wf(),
            old(env)@.counter < u64::MAX,
        ensures
            final(env).wf(),
            id == old(env)@.counter + 1,
            final(env)@ == (AcademyView { counter: id, ..old(env)@ }),
    {
        let next = env.counter + 1;
        env.counter = next;
        next
    }

    pub fn set_schedule(env: &mut AcademyEnv, schedule_id: u64, schedule: VestingSchedule)
        requires
            old(env).wf(),
        ensures
            final(env).wf(),
            final(env)@ == (AcademyView {
                schedules: old(env)@.schedules.insert(schedule_key(schedule_id), schedule),
                ..old(env)@
            }),
    {
        env.schedules.set(schedule_id as u128, schedule);
        assert(env@ =~= AcademyView {
            schedules: old(env)@.schedules.insert(schedule_key(schedule_id), schedule),
            ..old(env)@
        });
    }

    pub fn get_schedule(env: &AcademyEnv, schedule_id: u64) -> (r: Option<VestingSchedule>)
        requires
            env.wf(),
        ensures
            r is Some <==> env@.schedules.contains_key(schedule_key(schedule_id)),
            r matches Some(s) ==> s == env@.schedules[schedule_key(schedule_id)],
    {
        match env.schedules.get(schedule_id as u128) {
            Some(s) => Some(*s),
            None => None,
        }
    }

    pub fn has_schedule(env: &AcademyEnv, schedule_id: u64) -> (b: bool)
        requires
            env.wf(),
        ensures
            b == env@.schedules.contains_key(schedule_key(schedule_id)),
    {
        env.schedules.contains(schedule_id as u128)
    }

    pub fn set_schedule_v2(env: &mut AcademyEnv, schedule_id: u64, schedule: VestingScheduleV2)
        requires
            old(env).wf(),
        ensures
            final(env).wf(),
            final(env)@ == (AcademyView {
                schedules_v2: old(env)@.schedules_v2.insert(schedule_key(schedule_id), schedule@),
                ..old(env)@
            }),
    {
        let ghost sv = schedule@;
        env.schedules_v2.set(schedule_id as u128, schedule);
        assert(env@.schedules_v2 =~= old(env)@.schedules_v2.insert(schedule_key(schedule_id), sv));
        assert(env@ =~= AcademyView {
            schedules_v2: old(env)@.schedules_v2.insert(schedule_key(schedule_id), sv),
            ..old(env)@
        });
    }

    pub fn get_schedule_v2(env: &AcademyEnv, schedule_id: u64) -> (r: Option<VestingScheduleV2>)
        requires
            env.wf(),
        ensures
            r is Some <==> env@.schedules_v2.contains_key(schedule_key(schedule_id)),
            r matches Some(s) ==> s@ == env@.schedules_v2[schedule_key(schedule_id)],
    {
        match env.schedules_v2.get(schedule_id as u128) {
            Some(s) => Some(copy_v2(s)),
            None => None,
        }
    }

    pub fn has_schedule_v2(env: &AcademyEnv, schedule_id: u64) -> (b: bool)
        requires
            env.wf(),
        ensures
            b == env@.schedules_v2.contains_key(schedule_key(schedule_id)),
    {
        env.schedules_v2.contains(schedule_id as u128)
    }

    /// Restrict (or free) `user` from claiming.
    pub fn set_user_transfer_restriction(env: &mut AcademyEnv, user: Address, restricted: bool)
        requires
            old(env).wf(),
        ensures
            final(env).wf(),
            final(env)@ == (AcademyView {
                transfer_restrictions: old(env)@.transfer_restrictions.insert(spec_addr_key(user), restricted),
                ..old(env)@
            }),
    {
        env.transfer_restrictions.set(addr_key(user), restricted);
        assert(env@ =~= AcademyView {
            transfer_restrictions: old(env)@.transfer_restrictions.insert(spec_addr_key(user), restricted),
            ..old(env)@
        });
    }

    /// Whether `user` is restricted (false if never set).
    pub fn is_transfer_restricted(env: &AcademyEnv, user: Address) -> (b: bool)
        requires
            env.wf(),
        ensures
            b == (env@.transfer_restrictions.contains_key(spec_addr_key(user))
                && env@.transfer_restrictions[spec_addr_key(user)]),
    {
        match env.transfer_restrictions.get(addr_key(user)) {
            Some(b) => *b,
            None => false,
        }
    }

    /// Append `schedule_id` to `user`'s schedule ids.
    pub fn add_schedule_to_user_index(env: &mut AcademyEnv, user: Address, schedule_id: u64)
        requires
            old(env).wf(),
        ensures
            final(env).wf(),
            final(env)@ == (AcademyView {
                user_schedule_ids: old(env)@.user_schedule_ids.insert(
                    spec_addr_key(user),
                    user_ids(old(env)@, user).push(schedule_id),
                ),
                ..old(env)@
            }),
    {
        let mut ids = Self::get_user_schedule_ids(env, user);
        ids.push(schedule_id);
        let ghost iv = ids@;
        env.user_schedule_ids.set(addr_key(user), ids);
        assert(env@.user_schedule_ids =~= old(env)@.user_schedule_ids.insert(spec_addr_key(user), iv));
        assert(env@ =~= AcademyView {
            user_schedule_ids: old(env)@.user_schedule_ids.insert(spec_addr_key(user), iv),
            ..old(env)@
        });
    }

    /// `user`'s schedule ids, in grant order.
    pub fn get_user_schedule_ids(env: &AcademyEnv, user: Address) -> (r: Vec<u64>)
        requires
            env.wf(),
        ensures
            r@ == user_ids(env@, user),
    {
        match env.user_schedule_ids.get(addr_key(user)) {
            Some(v) => copy_ids(v),
            None => Vec::new(),
        }
    }

    /// `user`'s schedules, in grant order.
    pub fn get_user_schedules(env: &AcademyEnv, user: Address) -> (r: Vec<VestingSchedule>)
        requires
            env.wf(),
        ensures
            r@ == schedules_of(env@.schedules, user_ids(env@, user)),
    {
        let ids = Self::get_user_schedule_ids(env, user);
        let mut r: Vec<VestingSchedule> = Vec::new();
        let mut i: usize = 0;
        while i < ids.len()
            invariant
                env.wf(),
                0 <= i <= ids@.len(),
                r@ == schedules_of(env@.schedules, ids@.subrange(0, i as int)),
            decreases ids@.len() - i,
        {
            assert(ids@.subrange(0, i + 1).drop_last() =~= ids@.subrange(0, i as int));
            match Self::get_schedule(env, ids[i]) {
                Some(s) => r.push(s),
                None => {},
            }
            i = i + 1;
        }
        assert(ids@.subrange(0, ids@.len() as int) =~= ids@);
        r
    }

    /// `user`'s version-two schedules, in grant order.
    pub fn get_user_schedules_v2(env: &AcademyEnv, user: Address) -> (r: Vec<VestingScheduleV2>)
        requires
            env.wf(),
        ensures
            r@.map_values(|s: VestingScheduleV2| s@) == schedules_v2_of(env@.schedules_v2, user_ids(env@, user)),
    {
        let ids = Self::get_user_schedule_ids(env, user);
        let mut r: Vec<VestingScheduleV2> = Vec::new();
        let mut i: usize = 0;
        while i < ids.len()
            invariant
                env.wf(),
                0 <= i <= ids@.len(),
                r@.map_values(|s: VestingScheduleV2| s@) == schedules_v2_of(env@.schedules_v2, ids@.subrange(0, i as int)),
            decreases ids@.len() - i,
        {
            assert(ids@.subrange(0, i + 1).drop_last() =~= ids@.subrange(0, i as int));
            match Self::get_schedule_v2(env, ids[i]) {
                Some(s) => {
                    let ghost before = r@;
                    let ghost sv = s@;
                    r.push(s);
                    assert(r@.map_values(|s: VestingScheduleV2| s@) =~= before.map_values(|s: VestingScheduleV2| s@).push(sv));
                },
                None => {},
            }
            i = i + 1;
        }
        assert(ids@.subrange(0, ids@.len() as int) =~= ids@);
        r
    }

    pub fn add_to_active_index(env: &mut AcademyEnv, schedule_id: u64)
        requires
            old(env).wf(),
        ensures
            final(env).wf(),
            final(env)@ == (AcademyView { active: old(env)@.active.push(schedule_id), ..old(env)@ }),
    {
        env.active.push(schedule_id);
    }

    /// Drop `schedule_id` from the active index.
    pub fn remove_from_active_index(env: &mut AcademyEnv, schedule_id: u64)
        requires
            old(env).wf(),
        ensures
            final(env).wf(),
            final(env)@ == (AcademyView { active: without_id(old(env)@.active, schedule_id), ..old(env)@ }),
    {
        let mut kept: Vec<u64> = Vec::new();
        let mut i: usize = 0;
        while i < env.active.len()
            invariant
                0 <= i <= env.active@.len(),
                kept@ == without_id(env.active@.subrange(0, i as int), schedule_id),
            decreases env.active@.len() - i,
        {
            proof {
                reveal_with_fuel(Seq::<_>::filter, 1);
                assert(env.active@.subrange(0, i + 1).drop_last() =~= env.active@.subrange(0, i as int));
            }
            if env.active[i] != schedule_id {
                kept.push(env.active[i]);
            }
            i = i + 1;
        }
        assert(env.active@.subrange(0, env.active@.len() as int) =~= env.active@);
        env.active = kept;
    }

    pub fn get_active_schedule_ids(env: &AcademyEnv) -> (r: Vec<u64>)
        ensures
            r@ == env@.active,
    {
        copy_ids(&env.active)
    }

    /// Whether the stored layout version is behind this code's.
    pub fn needs_migration(env: &AcademyEnv) -> (b: bool)
        ensures
            b == (env@.version < CONTRACT_VERSION),
    {
        env.version < CONTRACT_VERSION
    }

    /// Bring the storage layout to the current version; returns how many
    /// legacy records were carried over.
    pub fn migrate_storage(env: &mut AcademyEnv) -> (n: u64)
        requires
            old(env).wf(),
        ensures
            final(env).wf(),
            n == (if old(env)@.version == 1 { legacy_count(old(env)@) } else { 0 }),
            final(env)@ == (if old(env)@.version == 0 {
                AcademyView { version: CONTRACT_VERSION, ..old(env)@ }
            } else if old(env)@.version == 1 {
                AcademyView { version: CONTRACT_VERSION, ..spec_migrated(old(env)@) }
            } else {
                old(env)@
            }),
    {
        let current = Self::get_version(env);
        if current == 0 {
            Self::set_version(env, CONTRACT_VERSION);
            0
        } else if current == 1 {
            let migrated = Self::migrate_from_legacy(env);
            Self::set_version(env, CONTRACT_VERSION);
            migrated
        } else {
            0
        }
    }

    fn migrate_from_legacy(env: &mut AcademyEnv) -> (n: u64)
        requires
            old(env).wf(),
        ensures
            final(env).wf(),
            n == legacy_count(old(env)@),
            final(env)@ == spec_migrated(old(env)@),
    {
        let mut migrated: u64 = 0;
        if let Some(admin) = env.legacy_admin {
            env.admin = Some(admin);
            migrated = migrated + 1;
        }
        if let Some(token) = env.legacy_token {
            env.token = Some(token);
            migrated = migrated + 1;
        }
        if let Some(gov) = env.legacy_governance {
            env.governance = Some(gov);
            migrated = migrated + 1;
        }
        if let Some(counter) = env.legacy_counter {
            env.counter = counter;
            migrated = migrated + 1;
        }
        assert(env@ =~= spec_migrated(old(env)@));
        migrated
    }

    /// Whether any value sits under a legacy key.
    pub fn has_legacy_data(env: &AcademyEnv) -> (b: bool)
        ensures
            b == (env@.legacy_admin is Some || env@.legacy_token is Some || env@.legacy_governance is Some
                || env@.legacy_counter is Some),
    {
        env.legacy_admin.is_some() || env.legacy_token.is_some() || env.legacy_governance.is_some()
            || env.legacy_counter.is_some()
    }
}

} // verus!
