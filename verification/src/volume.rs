//! Per-channel volume levels.
//!
//! A device reports one level per channel, but every command sets a single
//! level that is broadcast to all channels.

use vstd::prelude::*;

verus! {

/// The levels of a device with `channels` channels after `level` was
/// broadcast to each of them.
pub open spec fn broadcast_levels(channels: nat, level: u32) -> Seq<u32> {
    Seq::new(channels, |i: int| level)
}

/// True when every channel of `levels` reports `level`.
pub open spec fn all_channels_at(levels: Seq<u32>, level: u32) -> bool {
    forall|i: int| 0 <= i < levels.len() ==> levels[i] == level
}

/// Sets every channel of `volume` to `new_volume`; the channel count is kept.
pub fn set_volume(volume: &mut [u32], new_volume: u32)
    ensures
        final(volume)@ == broadcast_levels(old(volume)@.len(), new_volume),
        final(volume)@.len() == old(volume)@.len(),
        all_channels_at(final(volume)@, new_volume),
{
    let n: usize = volume.len();
    let mut i: usize = 0;
    while i < n
        invariant
            i <= n,
            volume@.len() == n,
            forall|j: int| 0 <= j < i ==> volume@[j] == new_volume,
        decreases n - i,
    {
        volume[i] = new_volume;
        i = i + 1;
    }
    assert(volume@ =~= broadcast_levels(n as nat, new_volume));
}

/// The level shown for a device: that of its first channel.
pub fn get_volume_level(volume: &[u32]) -> (level: u32)
    requires
        volume@.len() > 0,
    ensures
        level == volume@[0],
{
    volume[0]
}

} // verus!
