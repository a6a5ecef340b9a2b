//! Radio tuner: maps the player-tuned AM frequency to each station's
//! audibility and volume, the background white-noise level, and stereo
//! panning.
//!
//! A station is audible within its outer bandwidth around its center
//! frequency, at full volume within the inner bandwidth, and falls off
//! quadratically between the two. Volumes are exact rationals kept as
//! numerators over fixed denominators: a station volume of `v` out of
//! `VOLUME_SCALE` means `v / 400`, and a white-noise volume of `w` out of
//! `WHITE_NOISE_SCALE` means `w / 800`.

use vstd::prelude::*;

verus! {

/// Frequency distance from a station's center at which it starts to be heard.
pub const STATION_OUTER_BANDWIDTH_DELTA: i32 = 30;

/// Frequency distance from a station's center within which it plays at full
/// volume.
pub const STATION_INNER_BANDWIDTH_DELTA: i32 = 10;

/// Denominator of station volumes: a numerator of 400 is full volume.
pub const VOLUME_SCALE: u32 = 400;

/// Denominator of the white-noise volume: a numerator of 800 is full volume.
pub const WHITE_NOISE_SCALE: u32 = 800;

/// Denominator of panning values: 0 is hard left, 50 is center.
pub const PAN_CENTER_X100: u32 = 50;

/// A player-tuned AM dial value in kHz.
#[derive(Clone, Copy, Debug, PartialEq, Eq, Structural)]
pub struct AmRadioFreq(pub i32);

/// The four broadcast stations, by programme.
#[derive(Clone, Copy, Debug, PartialEq, Eq, Structural)]
pub enum PresetAmRadioFreq {
    Morse,
    Music,
    News,
    Numbers,
}

/// Center frequency of each station's broadcast, in kHz.
pub open spec fn spec_preset_value(p: PresetAmRadioFreq) -> int {
    match p {
        PresetAmRadioFreq::Morse => 650,
        PresetAmRadioFreq::Music => 750,
        PresetAmRadioFreq::News => 610,
        PresetAmRadioFreq::Numbers => 700,
    }
}

impl PresetAmRadioFreq {
    /// Center frequency of this station's broadcast, in kHz.
    pub fn value(self) -> (r: i32)
        ensures
            r == spec_preset_value(self),
    {
        match self {
            Self::Morse => 650,
            Self::Music => 750,
            Self::News => 610,
            Self::Numbers => 700,
        }
    }
}

/// Distance between a dial value and a station center, in kHz.
pub open spec fn spec_freq_delta(center: int, freq: int) -> int {
    if freq >= center {
        freq - center
    } else {
        center - freq
    }
}

/// Whether a dial value lies within a station's audible band.
pub open spec fn spec_in_band(center: int, freq: int) -> bool {
    spec_freq_delta(center, freq) <= STATION_OUTER_BANDWIDTH_DELTA
}

/// Station volume for a given distance from its center, as a numerator over
/// `VOLUME_SCALE`: silent outside the outer bandwidth, full within the inner
/// one, and a quadratic falloff between the two.
pub open spec fn spec_volume_of_delta(delta: int) -> int {
    if delta > STATION_OUTER_BANDWIDTH_DELTA {
        0
    } else if delta <= STATION_INNER_BANDWIDTH_DELTA {
        VOLUME_SCALE as int
    } else {
        (STATION_OUTER_BANDWIDTH_DELTA - delta) * (STATION_OUTER_BANDWIDTH_DELTA - delta)
    }
}

/// Station volume at a dial value, as a numerator over `VOLUME_SCALE`.
pub open spec fn spec_volume_x400(center: int, freq: int) -> int {
    spec_volume_of_delta(spec_freq_delta(center, freq))
}

/// One playing radio station: its fixed center frequency and whether its
/// audio is currently running.
#[derive(Clone, Copy, Debug, PartialEq, Eq, Structural)]
pub struct RadioStation {
    pub frequency: AmRadioFreq,
    pub playing: bool,
}

/// Audio decision the tuner takes for one station on one tick.
#[derive(Clone, Copy, Debug, PartialEq, Eq, Structural)]
pub enum RadioCommand {
    /// Keep the station audible at the given volume and panning; when
    /// `resync` is set the station was paused and must seek to the current
    /// playback clock before resuming, so long pauses cause no drift.
    Play { resync: bool, volume_x400: u32, pan_x100: u32 },
    /// Keep the station inaudible.
    Pause,
}

/// Panning applied to every channel: center normally, hard left while the
/// right speaker is broken.
pub open spec fn spec_pan_x100(right_speaker_broken: bool) -> int {
    if right_speaker_broken {
        0
    } else {
        PAN_CENTER_X100 as int
    }
}

/// Panning numerator over 100 for the current narrative state: hard left (0)
/// while the right speaker is broken, center (50) otherwise.
pub fn pan_x100(right_speaker_broken: bool) -> (r: u32)
    ensures
        r == spec_pan_x100(right_speaker_broken),
{
    if right_speaker_broken {
        0
    } else {
        PAN_CENTER_X100
    }
}

impl RadioStation {
    /// Whether the dial value lies within this station's audible band.
    pub fn freq_in_band(&self, freq: i32) -> (r: bool)
        ensures
            r == spec_in_band(self.frequency.0 as int, freq as int),
    {
        let delta = (freq as i64) - (self.frequency.0 as i64);
        let distance = if delta >= 0 {
            delta
        } else {
            -delta
        };
        distance <= STATION_OUTER_BANDWIDTH_DELTA as i64
    }

    /// This station's volume at the dial value, as a numerator over
    /// `VOLUME_SCALE`.
    pub fn freq_to_volume_x400(&self, freq: i32) -> (r: u32)
        ensures
            r == spec_volume_x400(self.frequency.0 as int, freq as int),
            r <= VOLUME_SCALE,
    {
        let delta = (freq as i64) - (self.frequency.0 as i64);
        let distance = if delta >= 0 {
            delta
        } else {
            -delta
        };
        if distance > STATION_OUTER_BANDWIDTH_DELTA as i64 {
            0
        } else if distance <= STATION_INNER_BANDWIDTH_DELTA as i64 {
            VOLUME_SCALE
        } else {
            let falloff = STATION_OUTER_BANDWIDTH_DELTA as i64 - distance;
            proof {
                assert(0 <= falloff < 20);
                assert(falloff * falloff < 400) by (nonlinear_arith)
                    requires
                        0 <= falloff < 20,
                ;
            }
            (falloff * falloff) as u32
        }
    }

    /// Take this station's audio decision for one tick: audible in band and
    /// silent out of band, with exactly one play or pause decision per tick.
    /// A station that re-enters its band is resynchronized to the playback
    /// clock, and panning follows the broken-speaker flag.
    pub fn station_tick(&mut self, freq: i32, right_speaker_broken: bool) -> (cmd: RadioCommand)
        ensures
            final(self).frequency == old(self).frequency,
            final(self).playing == spec_in_band(old(self).frequency.0 as int, freq as int),
            cmd == if spec_in_band(old(self).frequency.0 as int, freq as int) {
                (RadioCommand::Play {
                    resync: !old(self).playing,
                    volume_x400: spec_volume_x400(
                        old(self).frequency.0 as int,
                        freq as int,
                    ) as u32,
                    pan_x100: spec_pan_x100(right_speaker_broken) as u32,
                })
            } else {
                RadioCommand::Pause
            },
    {
        if self.freq_in_band(freq) {
            let resync = !self.playing;
            self.playing = true;
            RadioCommand::Play {
                resync,
                volume_x400: self.freq_to_volume_x400(freq),
                pan_x100: pan_x100(right_speaker_broken),
            }
        } else {
            self.playing = false;
            RadioCommand::Pause
        }
    }
}

/// The loudest station volume among `stations` at the dial value, as a
/// numerator over `VOLUME_SCALE`; zero when no station is in band.
pub open spec fn spec_strongest_signal_x400(stations: Seq<RadioStation>, freq: int) -> int
    decreases stations.len(),
{
    if stations.len() == 0 {
        0
    } else {
        let rest = spec_strongest_signal_x400(stations.drop_last(), freq);
        let last = spec_volume_x400(stations.last().frequency.0 as int, freq);
        if last > rest {
            last
        } else {
            rest
        }
    }
}

/// The loudest station volume at the dial value, over `VOLUME_SCALE`.
pub fn strongest_signal_x400(stations: &Vec<RadioStation>, freq: i32) -> (r: u32)
    ensures
        r == spec_strongest_signal_x400(stations@, freq as int),
        r <= VOLUME_SCALE,
{
    let mut best: u32 = 0;
    let mut i: usize = 0;
    while i < stations.len()
        invariant
            i <= stations@.len(),
            best == spec_strongest_signal_x400(stations@.subrange(0, i as int), freq as int),
            best <= VOLUME_SCALE,
        decreases stations@.len() - i,
    {
        let v = stations[i].freq_to_volume_x400(freq);
        if v > best {
            best = v;
        }
        proof {
            assert(stations@.subrange(0, i + 1).drop_last() =~= stations@.subrange(0, i as int));
            assert(stations@.subrange(0, i + 1).last() == stations@[i as int]);
        }
        i += 1;
    }
    proof {
        assert(stations@.subrange(0, stations@.len() as int) =~= stations@);
    }
    best
}

/// White-noise level for a given loudest station volume, over
/// `WHITE_NOISE_SCALE`: noise dominates when no station is clearly tuned and
/// recedes to a half-volume floor when one is at full volume.
pub open spec fn spec_white_noise_x800(strongest_x400: int) -> int {
    WHITE_NOISE_SCALE - strongest_x400
}

/// White-noise volume as a numerator over `WHITE_NOISE_SCALE`, given the
/// loudest station volume. The noise never falls below half volume and never
/// rises above full volume.
pub fn white_noise_volume_x800(strongest_x400: u32) -> (r: u32)
    requires
        strongest_x400 <= VOLUME_SCALE,
    ensures
        r == spec_white_noise_x800(strongest_x400 as int),
        VOLUME_SCALE <= r <= WHITE_NOISE_SCALE,
{
    WHITE_NOISE_SCALE - strongest_x400
}

/// What the morse-code translator prints: the morse station must be tuned,
/// and its message depends on whether the right speaker is broken.
pub open spec fn spec_translator_reading(freq: int, right_speaker_broken: bool) -> Seq<char> {
    if freq == spec_preset_value(PresetAmRadioFreq::Morse) {
        if right_speaker_broken {
            "SEE"@
        } else {
            "BEHIND"@
        }
    } else {
        "???"@
    }
}

/// The text the installed morse-code translator shows for a dial value.
pub fn translator_reading(freq: i32, right_speaker_broken: bool) -> (r: &'static str)
    ensures
        r@ == spec_translator_reading(freq as int, right_speaker_broken),
{
    if freq == PresetAmRadioFreq::Morse.value() {
        if right_speaker_broken {
            "SEE"
        } else {
            "BEHIND"
        }
    } else {
        "???"
    }
}

/// Audio parameters one tuner tick hands to the mixer: one command per
/// station, in order, plus the white-noise volume and the panning shared by
/// every channel.
pub struct RadioTickOutput {
    pub commands: Vec<RadioCommand>,
    pub white_noise_x800: u32,
    pub pan_x100: u32,
}

/// The command `station_tick` takes for one station.
pub open spec fn spec_station_command(
    station: RadioStation,
    freq: int,
    right_speaker_broken: bool,
) -> RadioCommand {
    if spec_in_band(station.frequency.0 as int, freq) {
        (RadioCommand::Play {
            resync: !station.playing,
            volume_x400: spec_volume_x400(station.frequency.0 as int, freq) as u32,
            pan_x100: spec_pan_x100(right_speaker_broken) as u32,
        })
    } else {
        RadioCommand::Pause
    }
}

/// Retune every station to the dial value: each station gets exactly one
/// play or pause command and its playing flag follows its band membership,
/// while the white noise recedes as the loudest station gets clearer and all
/// channels share the same panning.
pub fn radio_tick(
    stations: &mut Vec<RadioStation>,
    freq: i32,
    right_speaker_broken: bool,
) -> (out: RadioTickOutput)
    ensures
        final(stations)@.len() == old(stations)@.len(),
        out.commands@.len() == old(stations)@.len(),
        forall|i: int|
            0 <= i < old(stations)@.len() ==> #[trigger] out.commands@[i] == spec_station_command(
                old(stations)@[i],
                freq as int,
                right_speaker_broken,
            ),
        forall|i: int|
            0 <= i < old(stations)@.len() ==> #[trigger] final(stations)@[i] == (RadioStation {
                playing: spec_in_band(old(stations)@[i].frequency.0 as int, freq as int),
                ..old(stations)@[i]
            }),
        out.white_noise_x800 == spec_white_noise_x800(
            spec_strongest_signal_x400(old(stations)@, freq as int),
        ),
        out.pan_x100 == spec_pan_x100(right_speaker_broken),
{
    let strongest = strongest_signal_x400(stations, freq);
    let white_noise = white_noise_volume_x800(strongest);
    let pan = pan_x100(right_speaker_broken);
    let mut commands: Vec<RadioCommand> = Vec::new();
    let mut i: usize = 0;
    while i < stations.len()
        invariant
            i <= stations@.len(),
            stations@.len() == old(stations)@.len(),
            commands@.len() == i,
            forall|j: int|
                0 <= j < i ==> #[trigger] commands@[j] == spec_station_command(
                    old(stations)@[j],
                    freq as int,
                    right_speaker_broken,
                ),
            forall|j: int|
                0 <= j < i ==> #[trigger] stations@[j] == (RadioStation {
                    playing: spec_in_band(old(stations)@[j].frequency.0 as int, freq as int),
                    ..old(stations)@[j]
                }),
            forall|j: int| i <= j < stations@.len() ==> stations@[j] == old(stations)@[j],
        decreases stations@.len() - i,
    {
        let mut station = stations[i];
        let cmd = station.station_tick(freq, right_speaker_broken);
        stations.set(i, station);
        commands.push(cmd);
        i += 1;
    }
    RadioTickOutput { commands, white_noise_x800: white_noise, pan_x100: pan }
}

/// Between the inner and outer bandwidth edges, a station's volume strictly
/// falls as the dial moves away from its center, on either side of it.
pub proof fn lemma_volume_strictly_decreasing(center: int, d1: int, d2: int)
    requires
        STATION_INNER_BANDWIDTH_DELTA <= d1 < d2 <= STATION_OUTER_BANDWIDTH_DELTA,
    ensures
        spec_volume_of_delta(d1) > spec_volume_of_delta(d2),
        spec_volume_x400(center, center + d1) > spec_volume_x400(center, center + d2),
        spec_volume_x400(center, center - d1) > spec_volume_x400(center, center - d2),
{
    assert(spec_volume_of_delta(d1) > spec_volume_of_delta(d2)) by (nonlinear_arith)
        requires
            STATION_INNER_BANDWIDTH_DELTA <= d1 < d2 <= STATION_OUTER_BANDWIDTH_DELTA,
    {
        assert((30 - d1) * (30 - d1) > (30 - d2) * (30 - d2) || d1 <= 10);
    }
}

} // verus!
