//! Role-based administration and the versioned configuration history.

use vstd::prelude::*;
use crate::bytes::{copy_vec, eq32};
use crate::contract::{
    touch, touched_until, valid_config, valid_fee, valid_limits, valid_multipliers, CoinflipContract,
    MAX_CONFIG_HISTORY, MAX_FEE_BPS, MAX_LABEL_BYTES, MIN_FEE_BPS,
};
use crate::env::Env;
use crate::errors::Error;
use crate::labels::{make_rollback_label, rollback_label};
use crate::payout::BPS_DENOMINATOR;
use crate::types::{
    role_rank, Address, AdminActionKind, ConfigDiff, ConfigField, ConfigVersion, ContractConfig, Event,
    MultiplierConfig, Role,
};

verus! {

broadcast use vstd::std_specs::hash::group_hash_axioms;

/// The bytes of an optional label (empty when absent).
pub open spec fn label_view(label: Option<Vec<u8>>) -> Seq<u8> {
    match label {
        Some(v) => v@,
        None => Seq::empty(),
    }
}

/// The versions kept when one more is recorded: the oldest is evicted once
/// the history is full.
pub open spec fn kept_versions(versions: Seq<ConfigVersion>) -> Seq<ConfigVersion> {
    if versions.len() >= MAX_CONFIG_HISTORY {
        versions.drop_first()
    } else {
        versions
    }
}

/// Adopting configuration `c`, `pre` to `post`: the configuration is live,
/// recorded as version `pre.next_version` with `label`, its lifetime is
/// refreshed and `event` is published.
pub open spec fn adopt_post(
    pre: CoinflipContract,
    post: CoinflipContract,
    sequence: u32,
    c: ContractConfig,
    label: Seq<u8>,
    event: Event,
) -> bool {
    let kept = kept_versions(pre.versions@);
    &&& post.config == Some(c)
    &&& post.versions@.len() == kept.len() + 1
    &&& post.versions@.drop_last() == kept
    &&& post.versions@.last().version_number == pre.next_version
    &&& post.versions@.last().config == c
    &&& post.versions@.last().label@ == label
    &&& post.versions@.last().ledger == sequence
    &&& post.next_version == pre.next_version + 1
    &&& post.config_live_until == touched_until(sequence)
    &&& post.events@ == pre.events@.push(event)
    &&& post == (CoinflipContract {
        config: post.config,
        versions: post.versions,
        next_version: post.next_version,
        config_live_until: post.config_live_until,
        events: post.events,
        ..pre
    })
}

impl CoinflipContract {
    /// An account's role: the configured admin is always a super admin.
    pub open spec fn role_of(&self, a: Address) -> Option<Role> {
        if self.config is Some && self.config.unwrap().admin == a {
            Some(Role::SuperAdmin)
        } else if self.roles@.contains_key(a.id) {
            Some(self.roles@[a.id])
        } else {
            None
        }
    }

    pub open spec fn has_role(&self, a: Address, min: Role) -> bool {
        self.role_of(a) matches Some(r) && role_rank(r) >= role_rank(min)
    }

    /// An account's role, if it has one.
    pub fn get_role_of(&self, a: Address) -> (r: Option<Role>)
        ensures
            r == self.role_of(a),
    {
        match self.config {
            Some(c) => {
                if c.admin == a {
                    return Some(Role::SuperAdmin);
                }
            },
            None => {},
        }
        match self.roles.get(&a.id) {
            Some(r) => Some(*r),
            None => None,
        }
    }

    pub fn has_role_at_least(&self, a: Address, min: Role) -> (ok: bool)
        ensures
            ok == self.has_role(a, min),
    {
        match self.get_role_of(a) {
            Some(r) => rank(r) >= rank(min),
            None => false,
        }
    }

    /// Records the live configuration as a new version and publishes `event`.
    pub(crate) fn adopt_config(&mut self, env: &Env, c: ContractConfig, label: Vec<u8>, event: Event)
        requires
            old(self).next_version < u32::MAX,
        ensures
            adopt_post(*old(self), *final(self), env.sequence, c, label@, event),
            old(self).wf() && valid_config(c) && label@.len() <= MAX_LABEL_BYTES ==> final(self).wf(),
    {
        let ghost pre = *old(self);
        if self.versions.len() >= MAX_CONFIG_HISTORY {
            self.versions.remove(0);
            assert(self.versions@ =~= pre.versions@.drop_first());
        }
        let version = ConfigVersion { version_number: self.next_version, config: c, label, ledger: env.sequence };
        self.versions.push(version);
        self.next_version = self.next_version + 1;
        self.config = Some(c);
        self.config_live_until = touch(env.sequence);
        self.events.push(event);
        assert(self.versions@.drop_last() =~= kept_versions(pre.versions@));
        proof {
            if pre.wf() && valid_config(c) && label@.len() <= MAX_LABEL_BYTES {
                let kept = kept_versions(pre.versions@);
                assert forall|i: int| 0 <= i < kept.len() implies #[trigger] pre.versions@.contains(kept[i]) by {
                    if pre.versions@.len() >= MAX_CONFIG_HISTORY {
                        assert(kept[i] == pre.versions@[i + 1]);
                    } else {
                        assert(kept[i] == pre.versions@[i]);
                    }
                }
                assert forall|i: int, j: int| 0 <= i < j < self.versions@.len() implies
                    (#[trigger] self.versions@[i]).version_number < (#[trigger] self.versions@[j]).version_number by {
                    if j == self.versions@.len() - 1 {
                        assert(self.versions@[i] == kept[i]);
                        assert(pre.versions@.contains(kept[i]));
                    } else {
                        assert(self.versions@[i] == kept[i]);
                        assert(self.versions@[j] == kept[j]);
                        if pre.versions@.len() >= MAX_CONFIG_HISTORY {
                            assert(kept[i] == pre.versions@[i + 1]);
                            assert(kept[j] == pre.versions@[j + 1]);
                        } else {
                            assert(kept[i] == pre.versions@[i]);
                            assert(kept[j] == pre.versions@[j]);
                        }
                    }
                }
                assert forall|i: int| 0 <= i < self.versions@.len() - 1 implies
                    pre.versions@.contains(#[trigger] self.versions@[i]) by {
                    assert(self.versions@[i] == kept[i]);
                }
            }
        }
    }
    /// The first guard a role-gated configuration change fails, if any:
    /// the caller's role, the label's length, the new values' validity, then
    /// room for another version number.
    pub open spec fn update_error(&self, caller: Address, min: Role, label: Option<Vec<u8>>, invalid: Option<Error>) -> Option<Error> {
        if !self.has_role(caller, min) {
            Some(Error::InsufficientRole)
        } else if label_view(label).len() > MAX_LABEL_BYTES {
            Some(Error::InvalidVersionLabel)
        } else if invalid is Some {
            invalid
        } else if self.next_version == u32::MAX {
            Some(Error::VersionLimitReached)
        } else {
            None
        }
    }

    fn update_config(
        &mut self,
        env: &Env,
        caller: Address,
        min: Role,
        c: ContractConfig,
        label: Option<Vec<u8>>,
        invalid: Option<Error>,
        action: AdminActionKind,
    ) -> (r: Result<(), Error>)
        ensures
            old(self).wf() && valid_config(c) ==> final(self).wf(),
            match old(self).update_error(caller, min, label, invalid) {
                Some(e) => r == Err::<(), Error>(e) && *final(self) == *old(self),
                None => r is Ok && adopt_post(
                    *old(self),
                    *final(self),
                    env.sequence,
                    c,
                    label_view(label),
                    Event::AdminAction { action, admin: caller },
                ),
            },
    {
        if !self.has_role_at_least(caller, min) {
            return Err(Error::InsufficientRole);
        }
        let bytes = match label {
            Some(v) => v,
            None => Vec::new(),
        };
        if bytes.len() > MAX_LABEL_BYTES {
            return Err(Error::InvalidVersionLabel);
        }
        match invalid {
            Some(e) => return Err(e),
            None => {},
        }
        if self.next_version == u32::MAX {
            return Err(Error::VersionLimitReached);
        }
        self.adopt_config(env, c, bytes, Event::AdminAction { action, admin: caller });
        Ok(())
    }

    /// Pauses or resumes new games (pause admins and above).
    pub fn set_paused(&mut self, env: &Env, caller: Address, paused: bool, label: Option<Vec<u8>>) -> (r: Result<(), Error>)
        requires
            old(self).config is Some,
        ensures
            old(self).wf() ==> final(self).wf(),
            match old(self).update_error(caller, Role::PauseAdmin, label, None) {
                Some(e) => r == Err::<(), Error>(e) && *final(self) == *old(self),
                None => r is Ok && adopt_post(
                    *old(self),
                    *final(self),
                    env.sequence,
                    ContractConfig { paused, ..old(self).config.unwrap() },
                    label_view(label),
                    Event::AdminAction { action: AdminActionKind::SetPaused, admin: caller },
                ),
            },
    {
        let c = ContractConfig { paused, ..self.config.unwrap() };
        self.update_config(env, caller, Role::PauseAdmin, c, label, None, AdminActionKind::SetPaused)
    }
    /// Sets the protocol fee, which must stay within 2% to 5% (config
    /// admins and above).  Games already started keep their fee snapshot.
    pub fn set_fee(&mut self, env: &Env, caller: Address, fee_bps: u32, label: Option<Vec<u8>>) -> (r: Result<(), Error>)
        requires
            old(self).config is Some,
        ensures
            old(self).wf() ==> final(self).wf(),
            match old(self).update_error(
                caller,
                Role::ConfigAdmin,
                label,
                if valid_fee(fee_bps) { None } else { Some(Error::InvalidFeePercentage) },
            ) {
                Some(e) => r == Err::<(), Error>(e) && *final(self) == *old(self),
                None => r is Ok && adopt_post(
                    *old(self),
                    *final(self),
                    env.sequence,
                    ContractConfig { fee_bps, ..old(self).config.unwrap() },
                    label_view(label),
                    Event::AdminAction { action: AdminActionKind::SetFee, admin: caller },
                ),
            },
    {
        let c = ContractConfig { fee_bps, ..self.config.unwrap() };
        let invalid = if MIN_FEE_BPS <= fee_bps && fee_bps <= MAX_FEE_BPS { None } else { Some(Error::InvalidFeePercentage) };
        self.update_config(env, caller, Role::ConfigAdmin, c, label, invalid, AdminActionKind::SetFee)
    }

    /// Sets the inclusive wager bounds, which need `0 < min_wager < max_wager`
    /// (config admins and above).
    pub fn set_wager_limits(
        &mut self,
        env: &Env,
        caller: Address,
        min_wager: i128,
        max_wager: i128,
        label: Option<Vec<u8>>,
    ) -> (r: Result<(), Error>)
        requires
            old(self).config is Some,
        ensures
            old(self).wf() ==> final(self).wf(),
            match old(self).update_error(
                caller,
                Role::ConfigAdmin,
                label,
                if valid_limits(min_wager, max_wager) { None } else { Some(Error::InvalidWagerLimits) },
            ) {
                Some(e) => r == Err::<(), Error>(e) && *final(self) == *old(self),
                None => r is Ok && adopt_post(
                    *old(self),
                    *final(self),
                    env.sequence,
                    ContractConfig { min_wager, max_wager, ..old(self).config.unwrap() },
                    label_view(label),
                    Event::AdminAction { action: AdminActionKind::SetWagerLimits, admin: caller },
                ),
            },
    {
        let c = ContractConfig { min_wager, max_wager, ..self.config.unwrap() };
        let invalid = if 0 < min_wager && min_wager < max_wager { None } else { Some(Error::InvalidWagerLimits) };
        self.update_config(env, caller, Role::ConfigAdmin, c, label, invalid, AdminActionKind::SetWagerLimits)
    }

    /// Sets the streak multipliers, which must exceed 1x and not decrease
    /// from tier to tier (config admins and above).
    pub fn set_multipliers(
        &mut self,
        env: &Env,
        caller: Address,
        streak1: u32,
        streak2: u32,
        streak3: u32,
        streak4_plus: u32,
        label: Option<Vec<u8>>,
    ) -> (r: Result<(), Error>)
        requires
            old(self).config is Some,
        ensures
            old(self).wf() ==> final(self).wf(),
            ({
                let m = MultiplierConfig { streak1, streak2, streak3, streak4_plus };
                match old(self).update_error(
                    caller,
                    Role::ConfigAdmin,
                    label,
                    if valid_multipliers(m) { None } else { Some(Error::InvalidMultiplier) },
                ) {
                    Some(e) => r == Err::<(), Error>(e) && *final(self) == *old(self),
                    None => r is Ok && adopt_post(
                        *old(self),
                        *final(self),
                        env.sequence,
                        ContractConfig { multipliers: m, ..old(self).config.unwrap() },
                        label_view(label),
                        Event::AdminAction { action: AdminActionKind::SetMultipliers, admin: caller },
                    ),
                }
            }),
    {
        let m = MultiplierConfig { streak1, streak2, streak3, streak4_plus };
        let c = ContractConfig { multipliers: m, ..self.config.unwrap() };
        let ok = (BPS_DENOMINATOR as u32) < streak1 && streak1 <= streak2 && streak2 <= streak3 && streak3 <= streak4_plus;
        let invalid = if ok { None } else { Some(Error::InvalidMultiplier) };
        self.update_config(env, caller, Role::ConfigAdmin, c, label, invalid, AdminActionKind::SetMultipliers)
    }

    /// Sets the fee treasury, which may not be the admin (super admins only).
    pub fn set_treasury(&mut self, env: &Env, caller: Address, treasury: Address, label: Option<Vec<u8>>) -> (r: Result<(), Error>)
        requires
            old(self).config is Some,
        ensures
            old(self).wf() ==> final(self).wf(),
            match old(self).update_error(
                caller,
                Role::SuperAdmin,
                label,
                if treasury != old(self).config.unwrap().admin { None } else { Some(Error::AdminTreasuryConflict) },
            ) {
                Some(e) => r == Err::<(), Error>(e) && *final(self) == *old(self),
                None => r is Ok && adopt_post(
                    *old(self),
                    *final(self),
                    env.sequence,
                    ContractConfig { treasury, ..old(self).config.unwrap() },
                    label_view(label),
                    Event::AdminAction { action: AdminActionKind::SetTreasury, admin: caller },
                ),
            },
    {
        let c = ContractConfig { treasury, ..self.config.unwrap() };
        let invalid = if treasury != c.admin { None } else { Some(Error::AdminTreasuryConflict) };
        self.update_config(env, caller, Role::SuperAdmin, c, label, invalid, AdminActionKind::SetTreasury)
    }

    /// The first guard `set_min_reserve_threshold` fails, if any.
    pub open spec fn threshold_error(&self, caller: Address, threshold: i128) -> Option<Error> {
        if caller != self.config.unwrap().admin {
            Some(Error::Unauthorized)
        } else if threshold < 0 {
            Some(Error::InvalidReserveThreshold)
        } else if self.next_version == u32::MAX {
            Some(Error::VersionLimitReached)
        } else {
            None
        }
    }

    /// Sets the reserve level at or below which new games are refused
    /// (0 disables the circuit breaker; the admin only).
    pub fn set_min_reserve_threshold(&mut self, env: &Env, caller: Address, threshold: i128) -> (r: Result<(), Error>)
        requires
            old(self).config is Some,
        ensures
            old(self).wf() ==> final(self).wf(),
            match old(self).threshold_error(caller, threshold) {
                Some(e) => r == Err::<(), Error>(e) && *final(self) == *old(self),
                None => r is Ok && adopt_post(
                    *old(self),
                    *final(self),
                    env.sequence,
                    ContractConfig { min_reserve_threshold: threshold, ..old(self).config.unwrap() },
                    Seq::empty(),
                    Event::AdminAction { action: AdminActionKind::SetMinReserveThreshold, admin: caller },
                ),
            },
    {
        let c = ContractConfig { min_reserve_threshold: threshold, ..self.config.unwrap() };
        if caller != c.admin {
            return Err(Error::Unauthorized);
        }
        if threshold < 0 {
            return Err(Error::InvalidReserveThreshold);
        }
        if self.next_version == u32::MAX {
            return Err(Error::VersionLimitReached);
        }
        let label: Vec<u8> = Vec::new();
        self.adopt_config(env, c, label, Event::AdminAction { action: AdminActionKind::SetMinReserveThreshold, admin: caller });
        Ok(())
    }

    /// Grants a role to an account (super admins only); a later grant
    /// replaces an earlier one.
    pub fn grant_role(&mut self, caller: Address, target: Address, role: Role) -> (r: Result<(), Error>)
        ensures
            old(self).wf() ==> final(self).wf(),
            !old(self).has_role(caller, Role::SuperAdmin) ==> r == Err::<(), Error>(Error::InsufficientRole) && *final(self) == *old(self),
            old(self).has_role(caller, Role::SuperAdmin) ==> {
                &&& r is Ok
                &&& final(self).roles@ == old(self).roles@.insert(target.id, role)
                &&& final(self).events@ == old(self).events@.push(
                    Event::AdminAction { action: AdminActionKind::GrantRole, admin: caller },
                )
                &&& *final(self) == (CoinflipContract { roles: final(self).roles, events: final(self).events, ..*old(self) })
            },
    {
        if !self.has_role_at_least(caller, Role::SuperAdmin) {
            return Err(Error::InsufficientRole);
        }
        self.roles.insert(target.id, role);
        self.events.push(Event::AdminAction { action: AdminActionKind::GrantRole, admin: caller });
        Ok(())
    }

    /// Withdraws an account's granted role (super admins only).
    pub fn revoke_role(&mut self, caller: Address, target: Address) -> (r: Result<(), Error>)
        ensures
            old(self).wf() ==> final(self).wf(),
            !old(self).has_role(caller, Role::SuperAdmin) ==> r == Err::<(), Error>(Error::InsufficientRole) && *final(self) == *old(self),
            old(self).has_role(caller, Role::SuperAdmin) ==> {
                &&& r is Ok
                &&& final(self).roles@ == old(self).roles@.remove(target.id)
                &&& final(self).events@ == old(self).events@.push(
                    Event::AdminAction { action: AdminActionKind::RevokeRole, admin: caller },
                )
                &&& *final(self) == (CoinflipContract { roles: final(self).roles, events: final(self).events, ..*old(self) })
            },
    {
        if !self.has_role_at_least(caller, Role::SuperAdmin) {
            return Err(Error::InsufficientRole);
        }
        self.roles.remove(&target.id);
        self.events.push(Event::AdminAction { action: AdminActionKind::RevokeRole, admin: caller });
        Ok(())
    }
}

pub fn rank(r: Role) -> (k: u8)
    ensures
        k == role_rank(r),
{
    match r {
        Role::PauseAdmin => 1,
        Role::ConfigAdmin => 2,
        Role::SuperAdmin => 3,
    }
}

} // verus!
