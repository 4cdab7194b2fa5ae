//! Connection quality: raw transport measurements and the score derived
//! from them.
//!
//! Measurements are held as integers in fine units so that every threshold
//! is an exact comparison: times in microseconds, packet loss in parts per
//! million, audio level in thousandths of a decibel, bitrate in bits per
//! second.

use vstd::prelude::*;

verus! {

/// How long to wait between two samplings of the transport statistics, in
/// milliseconds.
pub const SAMPLE_INTERVAL_MS: u64 = 1000;

/// Round-trip times below this many microseconds earn the best band.
pub const RTT_GOOD_US: u64 = 150_000;

/// Round-trip times below this many microseconds earn the middle band.
pub const RTT_FAIR_US: u64 = 300_000;

/// Jitter below this many microseconds earns the best band.
pub const JITTER_GOOD_US: u64 = 30_000;

/// Jitter below this many microseconds earns the middle band.
pub const JITTER_FAIR_US: u64 = 50_000;

/// Packet loss below this many parts per million (1%) earns the best band.
pub const LOSS_GOOD_PPM: u32 = 10_000;

/// Packet loss below this many parts per million (3%) earns the second band.
pub const LOSS_FAIR_PPM: u32 = 30_000;

/// Packet loss below this many parts per million (5%) earns the third band.
pub const LOSS_POOR_PPM: u32 = 50_000;

/// The largest packet loss: every packet, in parts per million.
pub const LOSS_MAX_PPM: u32 = 1_000_000;

/// The quietest audio level, in thousandths of a decibel.
pub const AUDIO_LEVEL_MIN_MDB: i32 = -127_000;

/// Points earned by a round-trip time given in microseconds.
pub open spec fn rtt_points(rtt_us: int) -> int {
    if rtt_us < 150_000 {
        40
    } else if rtt_us < 300_000 {
        30
    } else {
        20
    }
}

/// Points earned by a jitter given in microseconds.
pub open spec fn jitter_points(jitter_us: int) -> int {
    if jitter_us < 30_000 {
        20
    } else if jitter_us < 50_000 {
        15
    } else {
        10
    }
}

/// Points earned by a packet loss given in parts per million.
pub open spec fn loss_points(loss_ppm: int) -> int {
    if loss_ppm < 10_000 {
        40
    } else if loss_ppm < 30_000 {
        30
    } else if loss_ppm < 50_000 {
        20
    } else {
        10
    }
}

/// The quality score: the sum of the three bands.
pub open spec fn quality_score(rtt_us: int, jitter_us: int, loss_ppm: int) -> int {
    rtt_points(rtt_us) + jitter_points(jitter_us) + loss_points(loss_ppm)
}

/// The score never leaves the range 40 to 100, whatever the measurements:
/// no band gives fewer points than its floor, and none more than its top.
pub proof fn lemma_quality_score_bounds(rtt_us: int, jitter_us: int, loss_ppm: int)
    ensures
        40 <= quality_score(rtt_us, jitter_us, loss_ppm) <= 100,
{
}

/// The score is worse or equal when every measurement is worse or equal.
pub proof fn lemma_quality_score_monotone(
    rtt_a: int,
    jitter_a: int,
    loss_a: int,
    rtt_b: int,
    jitter_b: int,
    loss_b: int,
)
    requires
        rtt_a <= rtt_b,
        jitter_a <= jitter_b,
        loss_a <= loss_b,
    ensures
        quality_score(rtt_a, jitter_a, loss_a) >= quality_score(rtt_b, jitter_b, loss_b),
{
}

/// The style class under which a score is shown.
pub fn get_quality_class(score: u8) -> (class: &'static str)
    ensures
        90 <= score <= 100 ==> class@ == "quality-excellent"@,
        70 <= score <= 89 ==> class@ == "quality-good"@,
        50 <= score <= 69 ==> class@ == "quality-fair"@,
        score < 50 || score > 100 ==> class@ == "quality-poor"@,
{
    if 90 <= score && score <= 100 {
        "quality-excellent"
    } else if 70 <= score && score <= 89 {
        "quality-good"
    } else if 50 <= score && score <= 69 {
        "quality-fair"
    } else {
        "quality-poor"
    }
}

/// One reading of the transport statistics, as the media engine reports it.
#[derive(Clone, Copy, Debug, PartialEq, Eq)]
pub struct TransportSample {
    /// Round-trip time in microseconds.
    pub round_trip_time_us: u64,
    /// Jitter in microseconds.
    pub jitter_us: u64,
    /// Packet loss in parts per million, at most 1,000,000.
    pub packet_loss_ppm: u32,
    /// Audio level in thousandths of a decibel, from -127,000 to 0.
    pub audio_level_mdb: i32,
    /// Bitrate in bits per second.
    pub bitrate_bps: u64,
}

impl TransportSample {
    /// A reading is usable when loss and audio level lie in their ranges.
    pub open spec fn in_range(self) -> bool {
        &&& self.packet_loss_ppm <= 1_000_000
        &&& -127_000 <= self.audio_level_mdb <= 0
    }

    /// Tells whether the reading is usable.
    pub fn is_in_range(&self) -> (ok: bool)
        ensures
            ok == self.in_range(),
    {
        self.packet_loss_ppm <= LOSS_MAX_PPM && AUDIO_LEVEL_MIN_MDB <= self.audio_level_mdb
            && self.audio_level_mdb <= 0
    }
}

/// The quality of a connection: the latest usable reading and its score.
///
/// The score is never set on its own: it is always the score of the three
/// measurements held beside it.
#[derive(Clone, Copy, Debug, PartialEq, Eq)]
pub struct ConnectionQuality {
    sample: TransportSample,
    quality_score: u8,
}

impl ConnectionQuality {
    #[verifier::type_invariant]
    spec fn inv(self) -> bool {
        &&& self.sample.in_range()
        &&& self.quality_score as int == quality_score(
            self.sample.round_trip_time_us as int,
            self.sample.jitter_us as int,
            self.sample.packet_loss_ppm as int,
        )
    }

    /// The reading behind this quality value.
    pub closed spec fn sample(self) -> TransportSample {
        self.sample
    }

    /// The score held in this quality value.
    pub closed spec fn score(self) -> int {
        self.quality_score as int
    }

    /// What holds of every quality value: the reading is in range and the
    /// score is the score of the reading.
    pub open spec fn wf(self) -> bool {
        &&& self.sample().in_range()
        &&& self.score() == quality_score(
            self.sample().round_trip_time_us as int,
            self.sample().jitter_us as int,
            self.sample().packet_loss_ppm as int,
        )
    }

    /// The reading before any reading has come: no delay, no loss, silence.
    pub open spec fn initial() -> TransportSample {
        TransportSample {
            round_trip_time_us: 0,
            jitter_us: 0,
            packet_loss_ppm: 0,
            audio_level_mdb: -127_000i32,
            bitrate_bps: 0,
        }
    }

    /// Computes the quality score of three measurements: round-trip time and
    /// jitter in microseconds, packet loss in parts per million.
    pub fn calculate_quality_score(rtt_us: u64, jitter_us: u64, loss_ppm: u32) -> (score: u8)
        ensures
            score as int == quality_score(rtt_us as int, jitter_us as int, loss_ppm as int),
            40 <= score <= 100,
    {
        let rtt_score: u8 = if rtt_us < RTT_GOOD_US {
            40
        } else if rtt_us < RTT_FAIR_US {
            30
        } else {
            20
        };
        let jitter_score: u8 = if jitter_us < JITTER_GOOD_US {
            20
        } else if jitter_us < JITTER_FAIR_US {
            15
        } else {
            10
        };
        let loss_score: u8 = if loss_ppm < LOSS_GOOD_PPM {
            40
        } else if loss_ppm < LOSS_FAIR_PPM {
            30
        } else if loss_ppm < LOSS_POOR_PPM {
            20
        } else {
            10
        };
        rtt_score + jitter_score + loss_score
    }

    /// The quality value of a reading, or `None` when the reading is out of
    /// range.
    pub fn from_sample(sample: TransportSample) -> (quality: Option<ConnectionQuality>)
        ensures
            quality is Some <==> sample.in_range(),
            quality is Some ==> quality->0.wf() && quality->0.sample() == sample,
    {
        if sample.is_in_range() {
            let quality_score = ConnectionQuality::calculate_quality_score(
                sample.round_trip_time_us,
                sample.jitter_us,
                sample.packet_loss_ppm,
            );
            Some(ConnectionQuality { sample, quality_score })
        } else {
            None
        }
    }

    /// Round-trip time in microseconds.
    pub fn round_trip_time_us(&self) -> (value: u64)
        ensures
            value == self.sample().round_trip_time_us,
    {
        self.sample.round_trip_time_us
    }

    /// Jitter in microseconds.
    pub fn jitter_us(&self) -> (value: u64)
        ensures
            value == self.sample().jitter_us,
    {
        self.sample.jitter_us
    }

    /// Packet loss in parts per million: at most 1,000,000.
    pub fn packet_loss_ppm(&self) -> (value: u32)
        ensures
            value == self.sample().packet_loss_ppm,
            value <= 1_000_000,
    {
        proof {
            use_type_invariant(self);
        }
        self.sample.packet_loss_ppm
    }

    /// Audio level in thousandths of a decibel: from -127,000 to 0.
    pub fn audio_level_mdb(&self) -> (value: i32)
        ensures
            value == self.sample().audio_level_mdb,
            -127_000 <= value <= 0,
    {
        proof {
            use_type_invariant(self);
        }
        self.sample.audio_level_mdb
    }

    /// Bitrate in bits per second.
    pub fn bitrate_bps(&self) -> (value: u64)
        ensures
            value == self.sample().bitrate_bps,
    {
        self.sample.bitrate_bps
    }

    /// The quality score: the score of the measurements held, from 40 to 100.
    pub fn quality_score(&self) -> (value: u8)
        ensures
            value as int == self.score(),
            self.wf(),
            40 <= value <= 100,
    {
        proof {
            use_type_invariant(self);
        }
        self.quality_score
    }
}

impl Default for ConnectionQuality {
    fn default() -> (quality: ConnectionQuality)
        ensures
            quality.wf(),
            quality.sample() == ConnectionQuality::initial(),
            quality.score() == 100,
    {
        ConnectionQuality {
            sample: TransportSample {
                round_trip_time_us: 0,
                jitter_us: 0,
                packet_loss_ppm: 0,
                audio_level_mdb: AUDIO_LEVEL_MIN_MDB,
                bitrate_bps: 0,
            },
            quality_score: 100,
        }
    }
}

/// Keeps the latest quality of one media session.
///
/// The caller samples the engine at its own pace and hands each outcome to
/// [`QualityMonitor::record_sample`]; a failed sampling leaves the quality
/// that was there.
#[derive(Clone, Copy, Debug, PartialEq, Eq)]
pub struct QualityMonitor {
    stats: Option<TransportSample>,
    quality: ConnectionQuality,
}

impl QualityMonitor {
    #[verifier::type_invariant]
    spec fn inv(self) -> bool {
        self.wf()
    }

    /// The latest usable reading, if there has been one.
    pub closed spec fn stats(self) -> Option<TransportSample> {
        self.stats
    }

    /// The quality that observers see.
    pub closed spec fn quality(self) -> ConnectionQuality {
        self.quality
    }

    /// What holds of every monitor: before the first usable reading the
    /// quality is the initial one; afterwards it is the quality of the latest
    /// usable reading.
    pub open spec fn wf(self) -> bool {
        &&& self.quality().wf()
        &&& match self.stats() {
            Some(sample) => self.quality().sample() == sample,
            None => self.quality().sample() == ConnectionQuality::initial(),
        }
    }

    /// What a sampling outcome makes of the latest reading: a usable reading
    /// replaces it, anything else leaves it.
    pub open spec fn stats_after(
        stats: Option<TransportSample>,
        outcome: Option<TransportSample>,
    ) -> Option<TransportSample> {
        match outcome {
            Some(sample) if sample.in_range() => Some(sample),
            _ => stats,
        }
    }

    /// A monitor that has seen no reading yet.
    pub fn new() -> (monitor: QualityMonitor)
        ensures
            monitor.wf(),
            monitor.stats() is None,
            monitor.quality().score() == 100,
    {
        QualityMonitor { stats: None, quality: ConnectionQuality::default() }
    }

    /// Takes in the outcome of one sampling: `Some` reading, or `None` when
    /// the engine had none to give. A reading out of range counts as none.
    pub fn record_sample(&mut self, outcome: Option<TransportSample>)
        ensures
            final(self).wf(),
            final(self).stats() == QualityMonitor::stats_after(old(self).stats(), outcome),
            final(self).stats() == old(self).stats() ==> final(self).quality()
                == old(self).quality(),
    {
        proof {
            use_type_invariant(&*self);
        }
        if let Some(sample) = outcome {
            if let Some(quality) = ConnectionQuality::from_sample(sample) {
                *self = QualityMonitor { stats: Some(sample), quality };
            }
        }
    }

    /// The latest usable reading, if there has been one.
    pub fn get_current_stats(&self) -> (stats: Option<TransportSample>)
        ensures
            stats == self.stats(),
            self.wf(),
    {
        proof {
            use_type_invariant(self);
        }
        self.stats
    }

    /// The quality that observers see: the quality of the latest usable
    /// reading, or the initial one.
    pub fn current_quality(&self) -> (quality: ConnectionQuality)
        ensures
            quality == self.quality(),
            self.wf(),
    {
        proof {
            use_type_invariant(self);
        }
        self.quality
    }
}

} // verus!
