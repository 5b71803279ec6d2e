//! Queries over the configuration history, comparison of versions, and
//! rollback to an earlier version.

use vstd::prelude::*;
use crate::admin::adopt_post;
use crate::bytes::{copy_vec, eq32};
use crate::contract::{valid_config, CoinflipContract};
use crate::env::Env;
use crate::errors::Error;
use crate::labels::{make_rollback_label, rollback_label};
use crate::types::{ConfigDiff, ConfigField, ConfigVersion, ContractConfig, Event, MultiplierConfig};

verus! {

/// Two versions hold the same data.
pub open spec fn same_version(a: ConfigVersion, b: ConfigVersion) -> bool {
    &&& a.version_number == b.version_number
    &&& a.config == b.config
    &&& a.label@ == b.label@
    &&& a.ledger == b.ledger
}

pub fn copy_version(v: &ConfigVersion) -> (c: ConfigVersion)
    ensures
        same_version(c, *v),
{
    ConfigVersion { version_number: v.version_number, config: v.config, label: copy_vec(&v.label), ledger: v.ledger }
}

pub open spec fn push_if(s: Seq<ConfigDiff>, differs: bool, field: ConfigField) -> Seq<ConfigDiff> {
    if differs {
        s.push(ConfigDiff { field })
    } else {
        s
    }
}

/// The fields in which two configurations differ, in declaration order.
pub open spec fn diff_fields(a: ContractConfig, b: ContractConfig) -> Seq<ConfigDiff> {
    let s = push_if(Seq::empty(), a.admin != b.admin, ConfigField::Admin);
    let s = push_if(s, a.treasury != b.treasury, ConfigField::Treasury);
    let s = push_if(s, a.token != b.token, ConfigField::Token);
    let s = push_if(s, a.fee_bps != b.fee_bps, ConfigField::FeeBps);
    let s = push_if(s, a.min_wager != b.min_wager, ConfigField::MinWager);
    let s = push_if(s, a.max_wager != b.max_wager, ConfigField::MaxWager);
    let s = push_if(s, a.paused != b.paused, ConfigField::Paused);
    let s = push_if(s, a.multipliers != b.multipliers, ConfigField::Multipliers);
    let s = push_if(s, a.min_reserve_threshold != b.min_reserve_threshold, ConfigField::MinReserveThreshold);
    push_if(s, a.oracle_vrf_pk@ != b.oracle_vrf_pk@, ConfigField::OracleVrfPk)
}

fn push_diff(out: &mut Vec<ConfigDiff>, differs: bool, field: ConfigField)
    ensures
        final(out)@ == push_if(old(out)@, differs, field),
{
    if differs {
        out.push(ConfigDiff { field });
    }
}

fn same_multipliers(a: &MultiplierConfig, b: &MultiplierConfig) -> (r: bool)
    ensures
        r == (*a == *b),
{
    a.streak1 == b.streak1 && a.streak2 == b.streak2 && a.streak3 == b.streak3 && a.streak4_plus == b.streak4_plus
}

/// The fields in which two configurations differ.
pub fn config_diff(a: &ContractConfig, b: &ContractConfig) -> (d: Vec<ConfigDiff>)
    ensures
        d@ == diff_fields(*a, *b),
{
    let mut out: Vec<ConfigDiff> = Vec::new();
    push_diff(&mut out, a.admin != b.admin, ConfigField::Admin);
    push_diff(&mut out, a.treasury != b.treasury, ConfigField::Treasury);
    push_diff(&mut out, a.token != b.token, ConfigField::Token);
    push_diff(&mut out, a.fee_bps != b.fee_bps, ConfigField::FeeBps);
    push_diff(&mut out, a.min_wager != b.min_wager, ConfigField::MinWager);
    push_diff(&mut out, a.max_wager != b.max_wager, ConfigField::MaxWager);
    push_diff(&mut out, a.paused != b.paused, ConfigField::Paused);
    push_diff(&mut out, !same_multipliers(&a.multipliers, &b.multipliers), ConfigField::Multipliers);
    push_diff(&mut out, a.min_reserve_threshold != b.min_reserve_threshold, ConfigField::MinReserveThreshold);
    push_diff(&mut out, !eq32(&a.oracle_vrf_pk, &b.oracle_vrf_pk), ConfigField::OracleVrfPk);
    out
}

impl CoinflipContract {
    /// Whether a version with this number is retained.
    pub open spec fn has_version(&self, n: u32) -> bool {
        exists|i: int| 0 <= i < self.versions@.len() && #[trigger] self.versions@[i].version_number == n
    }

    /// The position of the retained version with this number.
    pub fn find_version(&self, n: u32) -> (r: Option<usize>)
        ensures
            r matches Some(i) ==> i < self.versions@.len() && self.versions@[i as int].version_number == n,
            r is None <==> !self.has_version(n),
    {
        let mut i: usize = 0;
        while i < self.versions.len()
            invariant
                0 <= i <= self.versions@.len(),
                forall|j: int| 0 <= j < i ==> self.versions@[j].version_number != n,
            decreases self.versions@.len() - i,
        {
            if self.versions[i].version_number == n {
                return Some(i);
            }
            i = i + 1;
        }
        None
    }

    /// Every retained version, oldest first.
    pub fn list_config_versions(&self) -> (r: Vec<ConfigVersion>)
        ensures
            r@.len() == self.versions@.len(),
            forall|i: int| 0 <= i < r@.len() ==> same_version(#[trigger] r@[i], self.versions@[i]),
    {
        let mut out: Vec<ConfigVersion> = Vec::new();
        let mut i: usize = 0;
        while i < self.versions.len()
            invariant
                0 <= i <= self.versions@.len(),
                out@.len() == i,
                forall|j: int| 0 <= j < i ==> same_version(#[trigger] out@[j], self.versions@[j]),
            decreases self.versions@.len() - i,
        {
            out.push(copy_version(&self.versions[i]));
            i = i + 1;
        }
        out
    }

    /// The retained version with this number, or `VersionNotFound`.
    pub fn get_config_version(&self, n: u32) -> (r: Result<ConfigVersion, Error>)
        ensures
            !self.has_version(n) ==> r == Err::<ConfigVersion, Error>(Error::VersionNotFound),
            self.has_version(n) ==> (r matches Ok(v) && exists|i: int|
                0 <= i < self.versions@.len() && self.versions@[i].version_number == n
                    && same_version(v, #[trigger] self.versions@[i])),
    {
        match self.find_version(n) {
            Some(i) => Ok(copy_version(&self.versions[i])),
            None => Err(Error::VersionNotFound),
        }
    }

    /// The fields in which version `a` differs from version `b`;
    /// `VersionNotFound` when either is not retained.
    pub fn compare_config_versions(&self, a: u32, b: u32) -> (r: Result<Vec<ConfigDiff>, Error>)
        ensures
            !(self.has_version(a) && self.has_version(b)) ==> r == Err::<Vec<ConfigDiff>, Error>(Error::VersionNotFound),
            self.has_version(a) && self.has_version(b) ==> (r matches Ok(d) && exists|i: int, j: int|
                0 <= i < self.versions@.len() && 0 <= j < self.versions@.len()
                    && self.versions@[i].version_number == a && self.versions@[j].version_number == b
                    && d@ == diff_fields(#[trigger] self.versions@[i].config, #[trigger] self.versions@[j].config)),
    {
        let i = match self.find_version(a) {
            Some(i) => i,
            None => return Err(Error::VersionNotFound),
        };
        let j = match self.find_version(b) {
            Some(j) => j,
            None => return Err(Error::VersionNotFound),
        };
        Ok(config_diff(&self.versions[i].config, &self.versions[j].config))
    }

    /// The first guard `rollback_config` fails, if any.
    pub open spec fn rollback_error(&self, caller: crate::types::Address, target: u32) -> Option<Error> {
        if caller != self.config.unwrap().admin {
            Some(Error::Unauthorized)
        } else if !self.has_version(target) {
            Some(Error::VersionNotFound)
        } else if self.next_version == u32::MAX {
            Some(Error::VersionLimitReached)
        } else {
            None
        }
    }

    /// Restores the configuration of a retained version (the admin only).
    /// The restoration is itself recorded as a new version labelled
    /// `"rollback to v<target>"`, whose number is returned.
    pub fn rollback_config(&mut self, env: &Env, caller: crate::types::Address, target: u32) -> (r: Result<u32, Error>)
        requires
            old(self).config is Some,
        ensures
            old(self).wf() ==> final(self).wf(),
            match old(self).rollback_error(caller, target) {
                Some(e) => r == Err::<u32, Error>(e) && *final(self) == *old(self),
                None => {
                    &&& r == Ok::<u32, Error>(old(self).next_version)
                    &&& exists|i: int|
                        0 <= i < old(self).versions@.len() && old(self).versions@[i].version_number == target
                            && adopt_post(
                            *old(self),
                            *final(self),
                            env.sequence,
                            #[trigger] old(self).versions@[i].config,
                            rollback_label(target),
                            Event::ConfigRollback { target_version: target, new_version: old(self).next_version },
                        )
                },
            },
    {
        if caller != self.config.unwrap().admin {
            return Err(Error::Unauthorized);
        }
        let i = match self.find_version(target) {
            Some(i) => i,
            None => return Err(Error::VersionNotFound),
        };
        if self.next_version == u32::MAX {
            return Err(Error::VersionLimitReached);
        }
        let c = self.versions[i].config;
        let new_version = self.next_version;
        let label = make_rollback_label(target);
        self.adopt_config(env, c, label, Event::ConfigRollback { target_version: target, new_version });
        Ok(new_version)
    }
}

} // verus!
