//! Clock alignment and adaptive buffering.
//!
//! A [`SyncManager`] follows the broadcaster's clock: every time beacon
//! replaces the offset that is added to the local wall clock. It also keeps the
//! last latency reported by each node, from which the playback buffer is
//! sized. [`AudioSync`] gates playback on the manager's state.

use vstd::prelude::*;
use crate::clock::wall_clock_ms;
use crate::registry::{distinct_keys, lookup, upsert, Registry};

verus! {

/// Largest tolerated distance between two clocks, in milliseconds.
pub const MAX_JITTER_MS: u32 = 5;

/// Hard ceiling on the playback buffer, in milliseconds.
pub const MAX_BUFFER_MS: u32 = 40;

/// Head-room added on top of the measured latency, in milliseconds.
pub const BUFFER_MARGIN_MS: u32 = 10;

/// Playback buffer used while no latency has been recorded, in milliseconds.
pub const DEFAULT_BUFFER_MS: u32 = 20;

/// `x` brought into the range from `low` to `high`.
pub open spec fn clamp(x: int, low: int, high: int) -> int {
    if x < low {
        low
    } else if x > high {
        high
    } else {
        x
    }
}

/// The offset that a beacon carrying `master_time` sets when it arrives at
/// local time `local_time`: their difference, as far as 64 signed bits hold it.
pub open spec fn beacon_offset(master_time: u64, local_time: u64) -> i64 {
    clamp(master_time - local_time, i64::MIN as int, i64::MAX as int) as i64
}

/// The synchronized time at local time `local_time` under `offset`: their sum,
/// as far as 64 unsigned bits hold it.
pub open spec fn adjusted_time(local_time: u64, offset: i64) -> u64 {
    clamp(local_time + offset, 0, u64::MAX as int) as u64
}

/// Whether a clock showing `reported_time` is further than the tolerated
/// jitter from one showing `current_time`.
pub open spec fn drifted(current_time: u64, reported_time: u64) -> bool {
    current_time - reported_time > MAX_JITTER_MS || reported_time - current_time > MAX_JITTER_MS
}

/// Sum of the latencies on record.
pub open spec fn total_latency(entries: Seq<(Seq<char>, u32)>) -> nat
    decreases entries.len(),
{
    if entries.len() == 0 {
        0
    } else {
        total_latency(entries.drop_last()) + entries.last().1 as nat
    }
}

/// Mean of the latencies on record in whole milliseconds, rounded down;
/// `None` while there is none.
pub open spec fn mean_latency(entries: Seq<(Seq<char>, u32)>) -> Option<u32> {
    if entries.len() == 0 {
        None
    } else {
        Some((total_latency(entries) / entries.len()) as u32)
    }
}

/// The buffer that absorbs a latency of `latency_ms`: the latency plus the
/// margin, never more than the ceiling.
pub open spec fn buffer_for_latency(latency_ms: u32) -> u32 {
    if latency_ms + BUFFER_MARGIN_MS > MAX_BUFFER_MS {
        MAX_BUFFER_MS
    } else {
        (latency_ms + BUFFER_MARGIN_MS) as u32
    }
}

/// The playback buffer for the latencies on record.
pub open spec fn optimal_buffer(entries: Seq<(Seq<char>, u32)>) -> u32 {
    match mean_latency(entries) {
        Some(mean) => buffer_for_latency(mean),
        None => DEFAULT_BUFFER_MS,
    }
}

/// No sum of `u32` latencies exceeds their number times the largest `u32`.
pub proof fn lemma_total_latency_bound(entries: Seq<(Seq<char>, u32)>)
    ensures
        total_latency(entries) <= entries.len() * u32::MAX,
    decreases entries.len(),
{
    if entries.len() > 0 {
        lemma_total_latency_bound(entries.drop_last());
    }
}

/// A beacon aligns the clocks. At the local time at which a beacon arrived
/// the synchronized time is the broadcaster's, and from then on the two
/// advance together, as long as the offset fits 64 signed bits and the times
/// fit 64 unsigned bits.
pub proof fn lemma_beacon_aligns_clock(master_time: u64, local_time: u64, elapsed: u64)
    requires
        i64::MIN <= master_time - local_time <= i64::MAX,
        local_time + elapsed <= u64::MAX,
        master_time + elapsed <= u64::MAX,
    ensures
        adjusted_time((local_time + elapsed) as u64, beacon_offset(master_time, local_time))
            == master_time + elapsed,
        !drifted(
            adjusted_time((local_time + elapsed) as u64, beacon_offset(master_time, local_time)),
            (master_time + elapsed) as u64,
        ),
{
}

/// The playback buffer never exceeds the ceiling, is the default while
/// nothing is on record, and otherwise is the mean latency plus the margin
/// wherever that stays under the ceiling.
pub proof fn lemma_optimal_buffer_is_capped(entries: Seq<(Seq<char>, u32)>)
    ensures
        optimal_buffer(entries) <= MAX_BUFFER_MS,
        entries.len() == 0 ==> optimal_buffer(entries) == DEFAULT_BUFFER_MS,
        mean_latency(entries) matches Some(mean) ==> optimal_buffer(entries) == if mean
            <= MAX_BUFFER_MS - BUFFER_MARGIN_MS {
            mean + BUFFER_MARGIN_MS
        } else {
            MAX_BUFFER_MS as int
        },
{
}

/// Keeps the local clock aligned with the broadcaster's.
pub struct SyncManager {
    time_offset: i64,
    last_beacon: Option<u64>,
    node_latencies: Registry<u32>,
    is_synced: bool,
    max_jitter_ms: u32,
}

impl SyncManager {
    #[verifier::type_invariant]
    spec fn inv(self) -> bool {
        &&& self.is_synced ==> self.last_beacon is Some
        &&& self.max_jitter_ms == MAX_JITTER_MS
    }

    /// Milliseconds added to the local wall clock.
    pub closed spec fn time_offset(&self) -> i64 {
        self.time_offset
    }

    /// Local time at which the last beacon arrived.
    pub closed spec fn last_beacon(&self) -> Option<u64> {
        self.last_beacon
    }

    /// The last latency reported by each node, oldest node first.
    pub closed spec fn latencies(&self) -> Seq<(Seq<char>, u32)> {
        self.node_latencies.entries()
    }

    /// Whether a beacon has been taken in.
    pub closed spec fn synchronized(&self) -> bool {
        self.is_synced && self.last_beacon is Some
    }

    /// Whether the manager has seen no beacon and no latency.
    pub open spec fn is_fresh(&self) -> bool {
        &&& !self.synchronized()
        &&& self.time_offset() == 0
        &&& self.last_beacon() is None
        &&& self.latencies() == Seq::<(Seq<char>, u32)>::empty()
    }

    /// A manager that has seen no beacon and no latency.
    pub fn new() -> (manager: Self)
        ensures
            manager.is_fresh(),
    {
        SyncManager {
            time_offset: 0,
            last_beacon: None,
            node_latencies: Registry::new(),
            is_synced: false,
            max_jitter_ms: MAX_JITTER_MS,
        }
    }

    /// The synchronized time when the local clock shows `local_time`.
    pub fn now_at(&self, local_time: u64) -> (time: u64)
        ensures
            time == adjusted_time(local_time, self.time_offset()),
    {
        let offset = self.time_offset;
        if offset >= 0 {
            let forward: u64 = offset as u64;
            if forward > u64::MAX - local_time {
                u64::MAX
            } else {
                local_time + forward
            }
        } else {
            let back: u64 = (-(offset + 1)) as u64 + 1;
            if back > local_time {
                0
            } else {
                local_time - back
            }
        }
    }

    /// The synchronized time now. It is the local wall clock moved by the
    /// offset, whatever the wall clock shows.
    pub fn now(&self) -> (time: u64)
        ensures
            exists|local_time: u64| time == adjusted_time(local_time, self.time_offset()),
    {
        let local_time = wall_clock_ms();
        self.now_at(local_time)
    }

    /// Takes in a beacon that carries `master_time` and arrives when the local
    /// clock shows `local_time`. The offset is replaced, never merged.
    pub fn handle_time_beacon_at(&mut self, master_time: u64, local_time: u64) -> (done: Result<
        (),
        String,
    >)
        ensures
            done is Ok,
            final(self).synchronized(),
            final(self).time_offset() == beacon_offset(master_time, local_time),
            final(self).last_beacon() == Some(local_time),
            final(self).latencies() == old(self).latencies(),
    {
        let offset: i64 = if master_time >= local_time {
            let ahead: u64 = master_time - local_time;
            if ahead > i64::MAX as u64 {
                i64::MAX
            } else {
                ahead as i64
            }
        } else {
            let behind: u64 = local_time - master_time;
            if behind > i64::MAX as u64 {
                i64::MIN
            } else {
                -(behind as i64)
            }
        };
        proof {
            use_type_invariant(&*self);
        }
        self.time_offset = offset;
        self.last_beacon = Some(local_time);
        self.is_synced = true;
        Ok(())
    }

    /// Takes in a beacon that carries `master_time`, at whatever the local
    /// wall clock shows on arrival.
    pub fn handle_time_beacon(&mut self, master_time: u64) -> (done: Result<(), String>)
        ensures
            done is Ok,
            final(self).synchronized(),
            exists|local_time: u64|
                final(self).time_offset() == beacon_offset(master_time, local_time)
                    && final(self).last_beacon() == Some(local_time),
            final(self).latencies() == old(self).latencies(),
    {
        let local_time = wall_clock_ms();
        self.handle_time_beacon_at(master_time, local_time)
    }

    /// Milliseconds added to the local wall clock.
    pub fn get_time_offset(&self) -> (offset: i64)
        ensures
            offset == self.time_offset(),
    {
        self.time_offset
    }

    /// The last latency reported by `node_id`, if it reported any.
    pub fn get_node_latency(&self, node_id: &str) -> (latency: Option<u32>)
        ensures
            latency == lookup(self.latencies(), node_id@),
    {
        match self.node_latencies.get(node_id) {
            Some(latency) => Some(*latency),
            None => None,
        }
    }

    /// Whether a beacon has been taken in. Once true it stays true, and
    /// the time of the last beacon is then on record.
    pub fn is_synchronized(&self) -> (synced: bool)
        ensures
            synced == self.synchronized(),
            synced ==> self.last_beacon() is Some,
    {
        self.last_beacon.is_some() && self.is_synced
    }

    /// Records `latency` as the last one reported by `node_id`.
    pub fn update_node_latency(&mut self, node_id: &str, latency: u32)
        ensures
            final(self).latencies() == upsert(old(self).latencies(), node_id@, latency),
            distinct_keys(old(self).latencies()),
            distinct_keys(final(self).latencies()),
            final(self).synchronized() == old(self).synchronized(),
            final(self).time_offset() == old(self).time_offset(),
            final(self).last_beacon() == old(self).last_beacon(),
    {
        proof {
            use_type_invariant(&*self);
            use_type_invariant(&self.node_latencies);
        }
        let mut latencies = Registry::new();
        core::mem::swap(&mut self.node_latencies, &mut latencies);
        latencies.insert(node_id.to_string(), latency);
        self.node_latencies = latencies;
    }

    /// How many nodes have a latency on record.
    pub fn get_latency_count(&self) -> (count: usize)
        ensures
            count == self.latencies().len(),
    {
        self.node_latencies.len()
    }

    /// Sum of the latencies on record, in milliseconds.
    pub fn get_total_latency(&self) -> (total: u128)
        ensures
            total == total_latency(self.latencies()),
            total <= self.latencies().len() * u32::MAX,
    {
        let count = self.node_latencies.len();
        let mut total: u128 = 0;
        let mut i: usize = 0;
        while i < count
            invariant
                i <= count,
                count == self.latencies().len(),
                total == total_latency(self.latencies().take(i as int)),
            decreases count - i,
        {
            let latency = *self.node_latencies.value_at(i);
            proof {
                let upto = self.latencies().take(i + 1);
                assert(upto.drop_last() =~= self.latencies().take(i as int));
                lemma_total_latency_bound(upto);
            }
            total = total + latency as u128;
            i += 1;
        }
        proof {
            assert(self.latencies().take(count as int) =~= self.latencies());
            lemma_total_latency_bound(self.latencies());
        }
        total
    }

    /// Mean of the recorded latencies in whole milliseconds, rounded down;
    /// `None` while there is none.
    pub fn get_average_latency(&self) -> (mean: Option<u32>)
        ensures
            mean == mean_latency(self.latencies()),
    {
        let count = self.get_latency_count();
        if count == 0 {
            return None;
        }
        let total = self.get_total_latency();
        assert(total / (count as u128) <= u32::MAX) by (nonlinear_arith)
            requires
                total <= count * u32::MAX,
                count > 0,
        ;
        Some((total / count as u128) as u32)
    }

    /// Whether a node whose clock shows `reported_time` has drifted out of
    /// the tolerated jitter, when the local clock shows `local_time`.
    pub fn is_node_out_of_sync_at(
        &self,
        node_id: &str,
        reported_time: u64,
        local_time: u64,
    ) -> (out: bool)
        ensures
            out == drifted(adjusted_time(local_time, self.time_offset()), reported_time),
    {
        proof {
            use_type_invariant(self);
        }
        let current_time = self.now_at(local_time);
        let distance = if current_time > reported_time {
            current_time - reported_time
        } else {
            reported_time - current_time
        };
        distance > self.max_jitter_ms as u64
    }

    /// Whether a node whose clock shows `reported_time` has drifted out of
    /// the tolerated jitter, judged against the synchronized time now. The
    /// state is left as it is.
    pub fn is_node_out_of_sync(&self, node_id: &str, reported_time: u64) -> (out: bool)
        ensures
            exists|local_time: u64|
                out == drifted(adjusted_time(local_time, self.time_offset()), reported_time),
    {
        let local_time = wall_clock_ms();
        self.is_node_out_of_sync_at(node_id, reported_time, local_time)
    }

    /// The buffer that absorbs `node_latency`.
    pub fn calculate_buffer_adjustment(&self, node_latency: u32) -> (buffer: u32)
        ensures
            buffer == buffer_for_latency(node_latency),
            buffer <= MAX_BUFFER_MS,
    {
        if node_latency > MAX_BUFFER_MS - BUFFER_MARGIN_MS {
            MAX_BUFFER_MS
        } else {
            node_latency + BUFFER_MARGIN_MS
        }
    }

    /// The playback buffer for the latencies on record.
    pub fn get_optimal_buffer_size(&self) -> (buffer: u32)
        ensures
            buffer == optimal_buffer(self.latencies()),
            buffer <= MAX_BUFFER_MS,
    {
        match self.get_average_latency() {
            Some(latency) => self.calculate_buffer_adjustment(latency),
            None => DEFAULT_BUFFER_MS,
        }
    }

    /// Takes in `master_time` as a fresh beacon arriving at local time
    /// `local_time` and forgets every recorded latency.
    pub fn emergency_sync_at(&mut self, master_time: u64, local_time: u64) -> (done: Result<
        (),
        String,
    >)
        ensures
            done is Ok,
            final(self).synchronized(),
            final(self).time_offset() == beacon_offset(master_time, local_time),
            final(self).last_beacon() == Some(local_time),
            final(self).latencies() == Seq::<(Seq<char>, u32)>::empty(),
    {
        match self.handle_time_beacon_at(master_time, local_time) {
            Ok(()) => {},
            Err(reason) => {
                return Err(reason);
            },
        }
        proof {
            use_type_invariant(&*self);
        }
        self.node_latencies = Registry::new();
        Ok(())
    }

    /// Forces a fresh synchronization on `master_time` and forgets every
    /// recorded latency.
    pub fn emergency_sync(&mut self, master_time: u64) -> (done: Result<(), String>)
        ensures
            done is Ok,
            final(self).synchronized(),
            exists|local_time: u64|
                final(self).time_offset() == beacon_offset(master_time, local_time)
                    && final(self).last_beacon() == Some(local_time),
            final(self).latencies() == Seq::<(Seq<char>, u32)>::empty(),
    {
        let local_time = wall_clock_ms();
        self.emergency_sync_at(master_time, local_time)
    }
}

/// Sample rate used for music, in hertz.
pub const MUSIC_SAMPLE_RATE_HZ: u32 = 48000;

/// Sample rate used for voice, in hertz.
pub const VOICE_SAMPLE_RATE_HZ: u32 = 16000;

/// Link quality, in percent, under which the bitrate is lowered.
pub const WEAK_LINK_PERCENT: u8 = 50;

/// The sample rate of a mode.
pub open spec fn sample_rate_for(is_music: bool) -> u32 {
    if is_music {
        MUSIC_SAMPLE_RATE_HZ
    } else {
        VOICE_SAMPLE_RATE_HZ
    }
}

/// The bitrate in kbit/s for a sample rate and a link quality in percent:
/// 128 for music and 64 for voice, halved while the link is weak.
pub open spec fn bitrate_for(sample_rate: u32, quality_percent: u8) -> u32 {
    if quality_percent < WEAK_LINK_PERCENT {
        if sample_rate == MUSIC_SAMPLE_RATE_HZ {
            64
        } else {
            32
        }
    } else {
        if sample_rate == MUSIC_SAMPLE_RATE_HZ {
            128
        } else {
            64
        }
    }
}

/// Reason given when playback is asked for before the first beacon.
pub open spec fn not_synchronized_reason() -> Seq<char> {
    "Impossibile avviare la riproduzione: dispositivo non sincronizzato"@
}

/// Playback state, gated on synchronization.
pub struct AudioSync {
    jitter_buffer: u32,
    is_playing: bool,
    sample_rate: u32,
    bitrate: u32,
}

impl AudioSync {
    #[verifier::type_invariant]
    spec fn inv(self) -> bool {
        &&& self.jitter_buffer <= MAX_BUFFER_MS
        &&& self.sample_rate == MUSIC_SAMPLE_RATE_HZ || self.sample_rate == VOICE_SAMPLE_RATE_HZ
        &&& self.bitrate == bitrate_for(self.sample_rate, 0) || self.bitrate == bitrate_for(
            self.sample_rate,
            100,
        )
    }

    /// Playback delay that absorbs the network's timing variance, in
    /// milliseconds.
    pub closed spec fn jitter_buffer(&self) -> u32 {
        self.jitter_buffer
    }

    /// Whether audio is playing.
    pub closed spec fn playing(&self) -> bool {
        self.is_playing
    }

    /// Sample rate in hertz, fixed at construction.
    pub closed spec fn sample_rate(&self) -> u32 {
        self.sample_rate
    }

    /// Bitrate in kbit/s.
    pub closed spec fn bitrate(&self) -> u32 {
        self.bitrate
    }

    /// Whether playback is stopped, in the format of the mode and with the
    /// default buffer.
    pub open spec fn is_fresh(&self, is_music: bool) -> bool {
        &&& self.jitter_buffer() == DEFAULT_BUFFER_MS
        &&& !self.playing()
        &&& self.sample_rate() == sample_rate_for(is_music)
        &&& self.bitrate() == bitrate_for(sample_rate_for(is_music), 100)
    }

    /// Stopped playback for music (48 kHz at 128 kbit/s) or for voice (16 kHz
    /// at 64 kbit/s), with the default buffer.
    pub fn new(is_music: bool) -> (audio: Self)
        ensures
            audio.is_fresh(is_music),
    {
        let sample_rate = if is_music {
            MUSIC_SAMPLE_RATE_HZ
        } else {
            VOICE_SAMPLE_RATE_HZ
        };
        let bitrate: u32 = if is_music {
            128
        } else {
            64
        };
        AudioSync { jitter_buffer: DEFAULT_BUFFER_MS, is_playing: false, sample_rate, bitrate }
    }

    /// Playback delay in milliseconds.
    pub fn get_jitter_buffer(&self) -> (buffer: u32)
        ensures
            buffer == self.jitter_buffer(),
            buffer <= MAX_BUFFER_MS,
    {
        proof {
            use_type_invariant(self);
        }
        self.jitter_buffer
    }

    /// Whether audio is playing.
    pub fn is_playing(&self) -> (playing: bool)
        ensures
            playing == self.playing(),
    {
        self.is_playing
    }

    /// Sample rate in hertz: 48000 for music, 16000 for voice.
    pub fn get_sample_rate(&self) -> (rate: u32)
        ensures
            rate == self.sample_rate(),
            rate == MUSIC_SAMPLE_RATE_HZ || rate == VOICE_SAMPLE_RATE_HZ,
    {
        proof {
            use_type_invariant(self);
        }
        self.sample_rate
    }

    /// Bitrate in kbit/s: 128 or 64 for music, 64 or 32 for voice.
    pub fn get_bitrate(&self) -> (bitrate: u32)
        ensures
            bitrate == self.bitrate(),
            bitrate == bitrate_for(self.sample_rate(), 0) || bitrate == bitrate_for(
                self.sample_rate(),
                100,
            ),
    {
        proof {
            use_type_invariant(self);
        }
        self.bitrate
    }

    /// Starts playback if `sync` has taken in a beacon, sizing the buffer
    /// from the latencies on record at this moment. Otherwise nothing changes.
    pub fn start_playback(&mut self, sync: &SyncManager) -> (started: Result<(), String>)
        ensures
            started is Ok <==> sync.synchronized(),
            started is Ok ==> {
                &&& final(self).playing()
                &&& final(self).jitter_buffer() == optimal_buffer(sync.latencies())
                &&& final(self).sample_rate() == old(self).sample_rate()
                &&& final(self).bitrate() == old(self).bitrate()
            },
            started matches Err(reason) ==> reason@ == not_synchronized_reason() && *final(self)
                == *old(self),
    {
        if !sync.is_synchronized() {
            return Err(
                "Impossibile avviare la riproduzione: dispositivo non sincronizzato".to_string(),
            );
        }
        proof {
            use_type_invariant(&*self);
        }
        self.jitter_buffer = sync.get_optimal_buffer_size();
        self.is_playing = true;
        Ok(())
    }

    /// Stops playback.
    pub fn stop_playback(&mut self)
        ensures
            !final(self).playing(),
            final(self).jitter_buffer() == old(self).jitter_buffer(),
            final(self).sample_rate() == old(self).sample_rate(),
            final(self).bitrate() == old(self).bitrate(),
    {
        proof {
            use_type_invariant(&*self);
        }
        self.is_playing = false;
    }

    /// Picks the bitrate for a link whose quality is `quality_percent`
    /// percent. Only the sample rate and the quality decide.
    pub fn adjust_bitrate(&mut self, quality_percent: u8)
        ensures
            final(self).bitrate() == bitrate_for(old(self).sample_rate(), quality_percent),
            final(self).sample_rate() == old(self).sample_rate(),
            final(self).playing() == old(self).playing(),
            final(self).jitter_buffer() == old(self).jitter_buffer(),
    {
        proof {
            use_type_invariant(&*self);
        }
        let music = self.sample_rate == MUSIC_SAMPLE_RATE_HZ;
        let bitrate: u32 = if quality_percent < WEAK_LINK_PERCENT {
            if music {
                64
            } else {
                32
            }
        } else {
            if music {
                128
            } else {
                64
            }
        };
        self.bitrate = bitrate;
    }

    /// Mean latency on record in `sync`, 0 while there is none.
    pub fn get_current_latency(&self, sync: &SyncManager) -> (latency: u32)
        ensures
            latency == match mean_latency(sync.latencies()) {
                Some(mean) => mean,
                None => 0,
            },
    {
        match sync.get_average_latency() {
            Some(latency) => latency,
            None => 0,
        }
    }

    /// Whether audio is playing on a synchronized clock.
    pub fn is_playback_synchronized(&self, sync: &SyncManager) -> (synced: bool)
        ensures
            synced == (sync.synchronized() && self.playing()),
    {
        sync.is_synchronized() && self.is_playing
    }
}

} // verus!
