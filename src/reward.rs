use vstd::prelude::*;

use crate::amount::Uint256;

verus! {

/// A decoded reward-schedule record. The address and the three rates are
/// held in their canonical text forms; the target is the decoded integer.
#[derive(Debug)]
pub struct RewardRecord {
    pub name: String,
    pub address: String,
    pub max_reward_rate: String,
    pub kp_gain: String,
    pub kd_gain: String,
    pub locked_amount_target: Uint256,
}

/// A reward-schedule record in the form handed to the host: every field a
/// string, but the target, a native `u64`.
#[derive(Debug)]
pub struct SerializableMaspTokenRewardData {
    pub name: String,
    pub address: String,
    pub max_reward_rate: String,
    pub kp_gain: String,
    pub kd_gain: String,
    pub locked_amount_target: u64,
}

impl RewardRecord {
    /// The record's target fits the host's native integer.
    pub open spec fn target_fits(&self) -> bool {
        self.locked_amount_target.fits_u64()
    }
}

impl SerializableMaspTokenRewardData {
    /// `self` is the host form of `data`: the same texts, and the same target
    /// number.
    pub open spec fn normalizes(&self, data: RewardRecord) -> bool {
        &&& self.name@ == data.name@
        &&& self.address@ == data.address@
        &&& self.max_reward_rate@ == data.max_reward_rate@
        &&& self.kp_gain@ == data.kp_gain@
        &&& self.kd_gain@ == data.kd_gain@
        &&& self.locked_amount_target as int == data.locked_amount_target.value()
    }

    /// The host form of one record.
    pub fn from(data: RewardRecord) -> (r: SerializableMaspTokenRewardData)
        requires
            data.target_fits(),
        ensures
            r.normalizes(data),
    {
        let locked_amount_target = data.locked_amount_target.as_u64();
        SerializableMaspTokenRewardData {
            name: data.name,
            address: data.address,
            max_reward_rate: data.max_reward_rate,
            kp_gain: data.kp_gain,
            kd_gain: data.kd_gain,
            locked_amount_target,
        }
    }

    /// The host form of a borrowed record.
    fn from_ref(data: &RewardRecord) -> (r: SerializableMaspTokenRewardData)
        requires
            data.target_fits(),
        ensures
            r.normalizes(*data),
    {
        SerializableMaspTokenRewardData {
            name: data.name.clone(),
            address: data.address.clone(),
            max_reward_rate: data.max_reward_rate.clone(),
            kp_gain: data.kp_gain.clone(),
            kd_gain: data.kd_gain.clone(),
            locked_amount_target: data.locked_amount_target.as_u64(),
        }
    }
}

/// Every record's target fits the host's native integer.
pub open spec fn all_targets_fit(records: Seq<RewardRecord>) -> bool {
    forall|i: int| 0 <= i < records.len() ==> (#[trigger] records[i]).target_fits()
}

/// Whether every record's target fits the host's native integer.
pub fn targets_fit(records: &[RewardRecord]) -> (r: bool)
    ensures
        r == all_targets_fit(records@),
{
    let mut i: usize = 0;
    while i < records.len()
        invariant
            i <= records@.len(),
            all_targets_fit(records@.subrange(0, i as int)),
        decreases records@.len() - i,
    {
        if !records[i].locked_amount_target.fits_word() {
            assert(!records@[i as int].target_fits());
            return false;
        }
        assert(records@.subrange(0, i + 1) =~= records@.subrange(0, i as int).push(records@[i as int]));
        i = i + 1;
    }
    assert(records@.subrange(0, i as int) =~= records@);
    true
}

/// The host form of each record, in the same order.
pub fn normalize_records(records: &[RewardRecord]) -> (r: Vec<SerializableMaspTokenRewardData>)
    requires
        all_targets_fit(records@),
    ensures
        r@.len() == records@.len(),
        forall|i: int| 0 <= i < records@.len() ==> (#[trigger] r@[i]).normalizes(records@[i]),
{
    let mut out: Vec<SerializableMaspTokenRewardData> = Vec::new();
    let mut i: usize = 0;
    while i < records.len()
        invariant
            i <= records@.len(),
            out@.len() == i,
            all_targets_fit(records@),
            forall|j: int| 0 <= j < i ==> (#[trigger] out@[j]).normalizes(records@[j]),
        decreases records@.len() - i,
    {
        out.push(SerializableMaspTokenRewardData::from_ref(&records[i]));
        i = i + 1;
    }
    out
}

} // verus!
