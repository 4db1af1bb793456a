//! Sound-effect parameterization.
//!
//! Gameplay emits abstract [`SoundRequest`]s; this module fixes, exactly and
//! deterministically, the synthesis recipe each request stands for: wave
//! shape, frequency (milli-hertz), duration (milliseconds), volume and decay
//! rate (milli-units). A playback shell renders the recipe into samples and
//! owns the output device; the simulation never blocks on it.

use vstd::prelude::*;

verus! {

#[derive(Clone, Copy, Debug, PartialEq, Eq, Structural)]
pub enum WaveType {
    Sine,
    Square,
}

/// An abstract sound trigger, as gameplay raises it.
#[derive(Clone, Copy, Debug, PartialEq, Eq, Structural)]
pub enum SoundRequest {
    /// Primary fire; pitch factor in milli-units (1000 = unchanged).
    Shoot { pitch_milli: u32 },
    /// Small impact.
    Hit,
    /// Enemy destruction.
    Explosion,
    /// Special attack chord.
    Special,
    /// Upgraded-fire sweep between two frequencies, milli-hertz.
    LaserSweep { start_mhz: u32, end_mhz: u32 },
    /// A plain tone, milli-hertz and milliseconds.
    Tone { freq_mhz: u32, dur_ms: u32 },
}

/// One synthesized voice: a periodic wave under an exponential-decay
/// envelope (`None` means a constant envelope).
#[derive(Clone, Copy, Debug, PartialEq, Eq, Structural)]
pub struct TonePlan {
    pub wave: WaveType,
    pub freq_mhz: u64,
    pub dur_ms: u32,
    pub volume_milli: u32,
    pub decay_milli: Option<u32>,
}

/// A complete synthesis recipe for one request.
#[derive(Clone, Debug)]
pub enum SynthPlan {
    /// A single voice.
    Tone(TonePlan),
    /// Frequency slides linearly from start to end while the volume fades
    /// linearly to zero.
    Gliss { wave: WaveType, start_mhz: u64, end_mhz: u64, dur_ms: u32, volume_milli: u32 },
    /// Uniform noise in `[-1, 1]` under an exponential-decay envelope.
    Noise { dur_ms: u32, volume_milli: u32, decay_milli: u32 },
    /// Voices summed sample-wise and hard-clamped to `[-1, 1]`.
    Chord { voices: Vec<TonePlan> },
}

/// The chord voices of the special-attack sound: four sine tones at
/// 220/330/440/660 Hz with per-voice volume 180/(i+1) milli-units.
pub open spec fn special_voice(i: int) -> TonePlan {
    TonePlan {
        wave: WaveType::Sine,
        freq_mhz: if i == 0 {
            220_000u64
        } else if i == 1 {
            330_000u64
        } else if i == 2 {
            440_000u64
        } else {
            660_000u64
        },
        dur_ms: 350u32,
        volume_milli: if i == 0 {
            180u32
        } else if i == 1 {
            90u32
        } else if i == 2 {
            60u32
        } else {
            45u32
        },
        decay_milli: Some(4_000u32),
    }
}

/// Whether `p` is exactly the recipe `req` stands for.
pub open spec fn plan_matches(req: SoundRequest, p: SynthPlan) -> bool {
    match req {
        SoundRequest::Shoot { pitch_milli } => p == SynthPlan::Tone(
            TonePlan {
                wave: WaveType::Square,
                freq_mhz: (800 * pitch_milli) as u64,
                dur_ms: 80u32,
                volume_milli: 250u32,
                decay_milli: Some(60_000u32),
            },
        ),
        SoundRequest::Hit => p == (SynthPlan::Noise {
            dur_ms: 70u32,
            volume_milli: 200u32,
            decay_milli: 20_000u32,
        }),
        SoundRequest::Explosion => p == (SynthPlan::Noise {
            dur_ms: 250u32,
            volume_milli: 280u32,
            decay_milli: 8_000u32,
        }),
        SoundRequest::Special => p matches SynthPlan::Chord { voices } && voices@ == Seq::new(
            4,
            |i: int| special_voice(i),
        ),
        SoundRequest::LaserSweep { start_mhz, end_mhz } => p == (SynthPlan::Gliss {
            wave: WaveType::Sine,
            start_mhz: start_mhz as u64,
            end_mhz: end_mhz as u64,
            dur_ms: 180u32,
            volume_milli: 220u32,
        }),
        SoundRequest::Tone { freq_mhz, dur_ms } => p == SynthPlan::Tone(
            TonePlan {
                wave: WaveType::Sine,
                freq_mhz: freq_mhz as u64,
                dur_ms: dur_ms,
                volume_milli: 250u32,
                decay_milli: Some(60_000u32),
            },
        ),
    }
}

/// Turns an abstract request into its synthesis recipe. Deterministic: the
/// recipe is a function of the request alone.
pub fn plan_sound(req: &SoundRequest) -> (p: SynthPlan)
    ensures
        plan_matches(*req, p),
{
    match *req {
        SoundRequest::Shoot { pitch_milli } => SynthPlan::Tone(
            TonePlan {
                wave: WaveType::Square,
                freq_mhz: 800u64 * pitch_milli as u64,
                dur_ms: 80,
                volume_milli: 250,
                decay_milli: Some(60_000),
            },
        ),
        SoundRequest::Hit => SynthPlan::Noise { dur_ms: 70, volume_milli: 200, decay_milli: 20_000 },
        SoundRequest::Explosion => SynthPlan::Noise {
            dur_ms: 250,
            volume_milli: 280,
            decay_milli: 8_000,
        },
        SoundRequest::Special => {
            let mut voices: Vec<TonePlan> = Vec::new();
            voices.push(
                TonePlan {
                    wave: WaveType::Sine,
                    freq_mhz: 220_000,
                    dur_ms: 350,
                    volume_milli: 180,
                    decay_milli: Some(4_000),
                },
            );
            voices.push(
                TonePlan {
                    wave: WaveType::Sine,
                    freq_mhz: 330_000,
                    dur_ms: 350,
                    volume_milli: 90,
                    decay_milli: Some(4_000),
                },
            );
            voices.push(
                TonePlan {
                    wave: WaveType::Sine,
                    freq_mhz: 440_000,
                    dur_ms: 350,
                    volume_milli: 60,
                    decay_milli: Some(4_000),
                },
            );
            voices.push(
                TonePlan {
                    wave: WaveType::Sine,
                    freq_mhz: 660_000,
                    dur_ms: 350,
                    volume_milli: 45,
                    decay_milli: Some(4_000),
                },
            );
            proof {
                assert(voices@ =~= Seq::new(4, |i: int| special_voice(i)));
            }
            SynthPlan::Chord { voices }
        },
        SoundRequest::LaserSweep { start_mhz, end_mhz } => SynthPlan::Gliss {
            wave: WaveType::Sine,
            start_mhz: start_mhz as u64,
            end_mhz: end_mhz as u64,
            dur_ms: 180,
            volume_milli: 220,
        },
        SoundRequest::Tone { freq_mhz, dur_ms } => SynthPlan::Tone(
            TonePlan {
                wave: WaveType::Sine,
                freq_mhz: freq_mhz as u64,
                dur_ms: dur_ms,
                volume_milli: 250,
                decay_milli: Some(60_000),
            },
        ),
    }
}

/// How many samples a recipe of the given duration renders at the given
/// sample rate: `rate * dur / 1000`, truncated.
pub fn sample_count(sample_rate: u32, dur_ms: u32) -> (n: u64)
    ensures
        n == (sample_rate * dur_ms) / 1000,
{
    proof {
        assert((sample_rate as int) * (dur_ms as int) < 0x1_0000_0000_0000_0000int)
            by (nonlinear_arith)
            requires
                sample_rate < 0x1_0000_0000,
                dur_ms < 0x1_0000_0000,
        ;
    }
    ((sample_rate as u64) * (dur_ms as u64)) / 1000
}

} // verus!
