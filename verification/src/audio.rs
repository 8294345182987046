//! Audio mixing: bus identities, channel configurations, pan laws,
//! effect kinds, track strips and the mixer's mute/solo and routing
//! rules. Levels are stored in thousandths; the sample-level gain and
//! metering mathematics belongs to the rendering side.

use crate::errors::VideoEditorResult;
use vstd::prelude::*;

verus! {

/// Unique identifier for an audio bus.
#[derive(Debug, Clone, Copy, PartialEq, Eq, Structural, Hash)]
pub struct AudioBusId(pub u64);

impl AudioBusId {
    /// Creates a new audio bus id.
    pub fn new(id: u64) -> (r: Self)
        ensures
            r.0 == id,
    {
        AudioBusId(id)
    }

    /// Returns the inner id value.
    pub fn inner(&self) -> (r: u64)
        ensures
            r == self.0,
    {
        self.0
    }
}

/// Audio channel configuration.
#[derive(Debug, Clone, Copy, PartialEq, Eq, Structural, Hash)]
pub enum AudioChannelConfig {
    /// Mono (1 channel).
    Mono,
    /// Stereo (2 channels).
    Stereo,
    /// 5.1 surround (6 channels).
    Surround51,
    /// 7.1 surround (8 channels).
    Surround71,
    /// Custom channel count.
    Custom(u8),
}

impl AudioChannelConfig {
    /// Returns the number of channels.
    pub fn channel_count(&self) -> (r: u8)
        ensures
            self is Mono ==> r == 1,
            self is Stereo ==> r == 2,
            self is Surround51 ==> r == 6,
            self is Surround71 ==> r == 8,
            self matches AudioChannelConfig::Custom(n) ==> r == n,
    {
        match self {
            AudioChannelConfig::Mono => 1,
            AudioChannelConfig::Stereo => 2,
            AudioChannelConfig::Surround51 => 6,
            AudioChannelConfig::Surround71 => 8,
            AudioChannelConfig::Custom(n) => *n,
        }
    }
}

impl Default for AudioChannelConfig {
    /// The default configuration is stereo.
    fn default() -> (r: Self)
        ensures
            r is Stereo,
    {
        AudioChannelConfig::Stereo
    }
}

/// Pan law: how volume is distributed between channels while panning.
#[derive(Debug, Clone, Copy, PartialEq, Eq, Structural, Hash)]
pub enum PanLaw {
    /// Linear pan (simple left/right balance).
    Linear,
    /// -3 dB center (constant power).
    ConstantPower3dB,
    /// -4.5 dB center.
    ConstantPower45dB,
    /// -6 dB center (constant voltage).
    ConstantPower6dB,
}

impl Default for PanLaw {
    /// The default pan law is -3 dB constant power.
    fn default() -> (r: Self)
        ensures
            r is ConstantPower3dB,
    {
        PanLaw::ConstantPower3dB
    }
}

/// Audio effect kind.
#[derive(Debug, Clone, Copy, PartialEq, Eq, Structural, Hash)]
pub enum AudioEffectType {
    /// Parametric EQ.
    ParametricEQ,
    /// Compressor.
    Compressor,
    /// Limiter.
    Limiter,
    /// Noise gate.
    NoiseGate,
    /// De-esser.
    DeEsser,
    /// Reverb.
    Reverb,
    /// Delay.
    Delay,
    /// Chorus.
    Chorus,
    /// Low-pass filter.
    LowPassFilter,
    /// High-pass filter.
    HighPassFilter,
    /// Notch filter.
    NotchFilter,
}

/// Audio bus kind.
#[derive(Debug, Clone, Copy, PartialEq, Eq, Structural, Hash)]
pub enum AudioBusType {
    /// Master output bus.
    Master,
    /// Auxiliary/effects bus.
    Aux,
    /// Group/submix bus.
    Group,
}

impl Default for AudioBusType {
    /// The default bus kind is master.
    fn default() -> (r: Self)
        ensures
            r is Master,
    {
        AudioBusType::Master
    }
}


/// A mixer channel strip for one timeline track. The volume is in
/// thousandths of unity gain (0 to 2000) and the pan in thousandths from
/// hard left (-1000) to hard right (1000).
#[derive(Debug, Clone)]
pub struct AudioTrackStrip {
    /// Timeline track this strip belongs to.
    pub track_id: u64,
    /// Track name.
    pub name: String,
    /// Volume in thousandths of unity gain (1000 = unity).
    pub volume_permille: u32,
    /// Pan position in thousandths (-1000 left to 1000 right).
    pub pan_permille: i32,
    /// Whether the track is muted.
    pub muted: bool,
    /// Whether the track is soloed.
    pub solo: bool,
    /// Output bus.
    pub output_bus: AudioBusId,
    /// Channel configuration.
    pub channels: AudioChannelConfig,
}

impl AudioTrackStrip {
    /// Creates an unmuted, unsoloed stereo strip at unity gain, panned
    /// center, routed to the given bus.
    pub fn new(track_id: u64, name: String, output_bus: AudioBusId) -> (r: Self)
        ensures
            r.track_id == track_id,
            r.name == name,
            r.volume_permille == 1000,
            r.pan_permille == 0,
            !r.muted,
            !r.solo,
            r.output_bus == output_bus,
            r.channels is Stereo,
    {
        AudioTrackStrip {
            track_id,
            name,
            volume_permille: 1000,
            pan_permille: 0,
            muted: false,
            solo: false,
            output_bus,
            channels: AudioChannelConfig::Stereo,
        }
    }

    /// Sets the volume, clamped to twice unity gain.
    pub fn set_volume(&mut self, volume_permille: u32)
        ensures
            *final(self) == (AudioTrackStrip {
                volume_permille: if volume_permille <= 2000 {
                    volume_permille
                } else {
                    2000
                },
                ..*old(self)
            }),
    {
        self.volume_permille = if volume_permille <= 2000 {
            volume_permille
        } else {
            2000
        };
    }

    /// Sets the pan position, clamped to the hard-left/hard-right range.
    pub fn set_pan(&mut self, pan_permille: i32)
        ensures
            *final(self) == (AudioTrackStrip {
                pan_permille: if pan_permille > 1000 {
                    1000i32
                } else if pan_permille < -1000 {
                    -1000i32
                } else {
                    pan_permille
                },
                ..*old(self)
            }),
    {
        self.pan_permille = if pan_permille > 1000 {
            1000
        } else if pan_permille < -1000 {
            -1000
        } else {
            pan_permille
        };
    }

    /// Sets the muted state.
    pub fn set_muted(&mut self, muted: bool)
        ensures
            *final(self) == (AudioTrackStrip { muted, ..*old(self) }),
    {
        self.muted = muted;
    }

    /// Flips the muted state.
    pub fn toggle_mute(&mut self)
        ensures
            *final(self) == (AudioTrackStrip { muted: !old(self).muted, ..*old(self) }),
    {
        self.muted = !self.muted;
    }

    /// Sets the solo state.
    pub fn set_solo(&mut self, solo: bool)
        ensures
            *final(self) == (AudioTrackStrip { solo, ..*old(self) }),
    {
        self.solo = solo;
    }

    /// Flips the solo state.
    pub fn toggle_solo(&mut self)
        ensures
            *final(self) == (AudioTrackStrip { solo: !old(self).solo, ..*old(self) }),
    {
        self.solo = !self.solo;
    }

    /// Routes the strip to another bus.
    pub fn set_output_bus(&mut self, bus: AudioBusId)
        ensures
            *final(self) == (AudioTrackStrip { output_bus: bus, ..*old(self) }),
    {
        self.output_bus = bus;
    }
}

/// An audio bus: master, auxiliary or group.
#[derive(Debug, Clone)]
pub struct AudioBus {
    /// Bus id; the master bus owns id 0.
    pub id: AudioBusId,
    /// Bus name.
    pub name: String,
    /// Bus kind.
    pub bus_type: AudioBusType,
    /// Volume in thousandths of unity gain.
    pub volume_permille: u32,
    /// Whether the bus is muted.
    pub muted: bool,
    /// Whether the bus is soloed.
    pub solo: bool,
    /// The bus this one feeds, if any; the master feeds none.
    pub output: Option<AudioBusId>,
}

impl AudioBus {
    /// Creates an unmuted bus at unity gain, feeding nothing.
    pub fn new(id: AudioBusId, name: String, bus_type: AudioBusType) -> (r: Self)
        ensures
            r.id == id,
            r.name == name,
            r.bus_type == bus_type,
            r.volume_permille == 1000,
            !r.muted,
            !r.solo,
            r.output is None,
    {
        AudioBus {
            id,
            name,
            bus_type,
            volume_permille: 1000,
            muted: false,
            solo: false,
            output: None,
        }
    }

    /// Creates the master bus under its reserved id.
    pub fn master() -> (r: Self)
        ensures
            r.id.0 == 0,
            r.bus_type is Master,
            r.output is None,
            !r.muted,
    {
        AudioBus::new(AudioBusId::new(0), String::from_str("Master"), AudioBusType::Master)
    }
}

/// Some track in the sequence is soloed.
pub open spec fn spec_any_solo(tracks: Seq<AudioTrackStrip>) -> bool {
    exists|i: int| 0 <= i < tracks.len() && (#[trigger] tracks[i]).solo
}

/// The strip at `k` is the first one for the given track id.
pub open spec fn spec_first_strip(tracks: Seq<AudioTrackStrip>, k: int, track_id: u64) -> bool {
    &&& 0 <= k < tracks.len()
    &&& tracks[k].track_id == track_id
    &&& forall|j: int| 0 <= j < k ==> (#[trigger] tracks[j]).track_id != track_id
}

/// The audio mixer: track strips, the master and the auxiliary and group
/// buses, with the mute/solo audibility rule. The sample processing
/// itself is an external collaborator.
pub struct AudioMixer {
    master: AudioBus,
    aux_buses: Vec<AudioBus>,
    group_buses: Vec<AudioBus>,
    tracks: Vec<AudioTrackStrip>,
    pan_law: PanLaw,
    sample_rate: u32,
    buffer_size: usize,
    next_bus_id: u64,
    has_solo: bool,
}

impl AudioMixer {
    /// The track strips, in creation order.
    pub closed spec fn spec_tracks(self) -> Seq<AudioTrackStrip> {
        self.tracks@
    }

    /// The auxiliary buses.
    pub closed spec fn spec_aux_buses(self) -> Seq<AudioBus> {
        self.aux_buses@
    }

    /// The group buses.
    pub closed spec fn spec_group_buses(self) -> Seq<AudioBus> {
        self.group_buses@
    }

    /// The master bus.
    pub closed spec fn spec_master(self) -> AudioBus {
        self.master
    }

    /// The pan law.
    pub closed spec fn spec_pan_law(self) -> PanLaw {
        self.pan_law
    }

    /// The sample rate.
    pub closed spec fn spec_sample_rate(self) -> u32 {
        self.sample_rate
    }

    /// The next bus id to be handed out.
    pub closed spec fn spec_next_bus_id(self) -> u64 {
        self.next_bus_id
    }

    /// The cached any-track-soloed flag.
    pub closed spec fn spec_has_solo(self) -> bool {
        self.has_solo
    }

    /// The solo flag is exactly "some track is soloed".
    pub open spec fn spec_solo_ok(self) -> bool {
        self.spec_has_solo() == spec_any_solo(self.spec_tracks())
    }

    /// Creates a mixer with a master bus, no tracks, the default pan law
    /// and the given engine parameters. Bus id 0 is reserved for the
    /// master.
    pub fn new(sample_rate: u32, buffer_size: usize) -> (r: Self)
        ensures
            r.spec_tracks().len() == 0,
            r.spec_aux_buses().len() == 0,
            r.spec_group_buses().len() == 0,
            r.spec_master().id.0 == 0,
            r.spec_master().bus_type is Master,
            r.spec_pan_law() is ConstantPower3dB,
            r.spec_sample_rate() == sample_rate,
            r.spec_next_bus_id() == 1,
            !r.spec_has_solo(),
            r.spec_solo_ok(),
    {
        AudioMixer {
            master: AudioBus::master(),
            aux_buses: Vec::new(),
            group_buses: Vec::new(),
            tracks: Vec::new(),
            pan_law: PanLaw::ConstantPower3dB,
            sample_rate,
            buffer_size,
            next_bus_id: 1,
            has_solo: false,
        }
    }

    /// Returns the master bus.
    pub fn master(&self) -> (r: &AudioBus)
        ensures
            *r == self.spec_master(),
    {
        &self.master
    }

    /// Adds a strip for a timeline track, routed to the master bus.
    pub fn add_track(&mut self, track_id: u64, name: String) -> (r: VideoEditorResult<()>)
        ensures
            r is Ok,
            final(self).spec_tracks() == old(self).spec_tracks().push(
                final(self).spec_tracks().last(),
            ),
            ({
                let t = final(self).spec_tracks().last();
                &&& t.track_id == track_id
                &&& t.name == name
                &&& t.volume_permille == 1000
                &&& !t.muted
                &&& !t.solo
                &&& t.output_bus == old(self).spec_master().id
            }),
            final(self).spec_has_solo() == old(self).spec_has_solo(),
            old(self).spec_solo_ok() ==> final(self).spec_solo_ok(),
            final(self).spec_master() == old(self).spec_master(),
            final(self).spec_next_bus_id() == old(self).spec_next_bus_id(),
    {
        let strip = AudioTrackStrip::new(track_id, name, self.master.id);
        self.tracks.push(strip);
        proof {
            let t = self.spec_tracks();
            let s = old(self).spec_tracks();
            assert(t.drop_last() =~= s);
            if old(self).spec_solo_ok() {
                if spec_any_solo(t) {
                    let i = choose|i: int| 0 <= i < t.len() && (#[trigger] t[i]).solo;
                    assert(i < t.len() - 1);
                    assert(s[i].solo);
                }
            }
        }
        Ok(())
    }

    /// Removes the strip for a track id and refreshes the solo flag;
    /// returns whether one was removed (exactly when a strip with the id
    /// existed).
    pub fn remove_track(&mut self, track_id: u64) -> (r: bool)
        ensures
            r <==> exists|k: int|
                0 <= k < old(self).spec_tracks().len() && (#[trigger] old(self).spec_tracks()[k]).track_id == track_id,
            !r ==> *final(self) == *old(self),
            r ==> exists|k: int|
                0 <= k < old(self).spec_tracks().len() && (#[trigger] old(self).spec_tracks()[k]).track_id == track_id && final(self).spec_tracks() == old(self).spec_tracks().remove(k),
            r ==> final(self).spec_solo_ok(),
            old(self).spec_solo_ok() ==> final(self).spec_solo_ok(),
            final(self).spec_master() == old(self).spec_master(),
            final(self).spec_next_bus_id() == old(self).spec_next_bus_id(),
    {
        let mut i: usize = 0;
        while i < self.tracks.len()
            invariant
                0 <= i <= self.tracks@.len(),
                forall|k: int| 0 <= k < i ==> (#[trigger] self.tracks@[k]).track_id != track_id,
                self == old(self),
            decreases self.tracks@.len() - i,
        {
            if self.tracks[i].track_id == track_id {
                self.tracks.remove(i);
                self.update_solo_state();
                return true;
            }
            i = i + 1;
        }
        false
    }

    /// Returns the first strip for a track id, or `None`.
    pub fn get_track(&self, track_id: u64) -> (r: Option<&AudioTrackStrip>)
        ensures
            r is None ==> forall|i: int|
                0 <= i < self.spec_tracks().len() ==> (#[trigger] self.spec_tracks()[i]).track_id
                    != track_id,
            r is Some ==> exists|k: int|
                #![trigger self.spec_tracks()[k]]
                spec_first_strip(self.spec_tracks(), k, track_id) && *r->Some_0
                    == self.spec_tracks()[k],
    {
        let mut i: usize = 0;
        while i < self.tracks.len()
            invariant
                0 <= i <= self.tracks@.len(),
                forall|k: int| 0 <= k < i ==> (#[trigger] self.spec_tracks()[k]).track_id != track_id,
            decreases self.tracks@.len() - i,
        {
            if self.tracks[i].track_id == track_id {
                let res = &self.tracks[i];
                proof {
                    assert(spec_first_strip(self.spec_tracks(), i as int, track_id));
                    assert(*res == self.spec_tracks()[i as int]);
                }
                return Some(res);
            }
            i = i + 1;
        }
        None
    }

    /// Returns mutable access to the first strip for a track id, or
    /// `None`, changing nothing. A caller that flips the solo flag this
    /// way must refresh the mixer's solo state through `set_track_solo`.
    pub fn get_track_mut(&mut self, track_id: u64) -> (r: Option<&mut AudioTrackStrip>)
        ensures
            r is None ==> *final(self) == *old(self) && forall|i: int|
                0 <= i < old(self).spec_tracks().len() ==> (#[trigger] old(self).spec_tracks()[i]).track_id != track_id,
            r is Some ==> exists|k: int|
                #![trigger old(self).spec_tracks()[k]]
                spec_first_strip(old(self).spec_tracks(), k, track_id) && *r->Some_0 == old(self).spec_tracks()[k] && final(self).spec_tracks() == old(self).spec_tracks().update(
                    k,
                    *final(r->Some_0),
                ) && final(self).spec_master() == old(self).spec_master() && final(self).spec_next_bus_id() == old(self).spec_next_bus_id(),
    {
        let mut i: usize = 0;
        while i < self.tracks.len()
            invariant
                0 <= i <= self.tracks@.len(),
                forall|k: int| 0 <= k < i ==> (#[trigger] self.spec_tracks()[k]).track_id != track_id,
                self == old(self),
            decreases self.tracks@.len() - i,
        {
            if self.tracks[i].track_id == track_id {
                proof {
                    assert(spec_first_strip(old(self).spec_tracks(), i as int, track_id));
                }
                return Some(&mut self.tracks[i]);
            }
            i = i + 1;
        }
        None
    }

    /// Returns all track strips.
    pub fn tracks(&self) -> (r: &Vec<AudioTrackStrip>)
        ensures
            r@ == self.spec_tracks(),
    {
        &self.tracks
    }

    /// Creates an auxiliary bus feeding the master, under a fresh id.
    pub fn create_aux_bus(&mut self, name: String) -> (r: AudioBusId)
        requires
            old(self).spec_next_bus_id() < u64::MAX,
        ensures
            r.0 == old(self).spec_next_bus_id(),
            final(self).spec_next_bus_id() == old(self).spec_next_bus_id() + 1,
            final(self).spec_aux_buses() == old(self).spec_aux_buses().push(
                final(self).spec_aux_buses().last(),
            ),
            ({
                let b = final(self).spec_aux_buses().last();
                &&& b.id == r
                &&& b.name == name
                &&& b.bus_type is Aux
                &&& b.output == Some(old(self).spec_master().id)
            }),
            final(self).spec_tracks() == old(self).spec_tracks(),
            final(self).spec_group_buses() == old(self).spec_group_buses(),
            final(self).spec_has_solo() == old(self).spec_has_solo(),
    {
        let id = AudioBusId::new(self.next_bus_id);
        self.next_bus_id = self.next_bus_id + 1;
        let mut bus = AudioBus::new(id, name, AudioBusType::Aux);
        bus.output = Some(self.master.id);
        self.aux_buses.push(bus);
        id
    }

    /// Creates a group bus feeding the master, under a fresh id.
    pub fn create_group_bus(&mut self, name: String) -> (r: AudioBusId)
        requires
            old(self).spec_next_bus_id() < u64::MAX,
        ensures
            r.0 == old(self).spec_next_bus_id(),
            final(self).spec_next_bus_id() == old(self).spec_next_bus_id() + 1,
            final(self).spec_group_buses() == old(self).spec_group_buses().push(
                final(self).spec_group_buses().last(),
            ),
            ({
                let b = final(self).spec_group_buses().last();
                &&& b.id == r
                &&& b.name == name
                &&& b.bus_type is Group
                &&& b.output == Some(old(self).spec_master().id)
            }),
            final(self).spec_tracks() == old(self).spec_tracks(),
            final(self).spec_aux_buses() == old(self).spec_aux_buses(),
            final(self).spec_has_solo() == old(self).spec_has_solo(),
    {
        let id = AudioBusId::new(self.next_bus_id);
        self.next_bus_id = self.next_bus_id + 1;
        let mut bus = AudioBus::new(id, name, AudioBusType::Group);
        bus.output = Some(self.master.id);
        self.group_buses.push(bus);
        id
    }

    /// Returns a bus by id: id 0 is the master, then the auxiliary buses
    /// are searched before the group buses.
    pub fn get_bus(&self, id: AudioBusId) -> (r: Option<&AudioBus>)
        ensures
            id.0 == 0 ==> r == Some(&self.spec_master()),
            r is None ==> id.0 != 0 && (forall|i: int|
                0 <= i < self.spec_aux_buses().len() ==> (#[trigger] self.spec_aux_buses()[i]).id
                    != id) && (forall|i: int|
                0 <= i < self.spec_group_buses().len() ==> (#[trigger] self.spec_group_buses()[i]).id != id),
    {
        if id.0 == 0 {
            return Some(&self.master);
        }
        let mut i: usize = 0;
        while i < self.aux_buses.len()
            invariant
                0 <= i <= self.aux_buses@.len(),
                id.0 != 0,
                forall|k: int| 0 <= k < i ==> (#[trigger] self.spec_aux_buses()[k]).id != id,
            decreases self.aux_buses@.len() - i,
        {
            if self.aux_buses[i].id.0 == id.0 {
                return Some(&self.aux_buses[i]);
            }
            i = i + 1;
        }
        let mut j: usize = 0;
        while j < self.group_buses.len()
            invariant
                0 <= j <= self.group_buses@.len(),
                id.0 != 0,
                forall|k: int| 0 <= k < j ==> (#[trigger] self.spec_group_buses()[k]).id != id,
                forall|k: int|
                    0 <= k < self.spec_aux_buses().len() ==> (#[trigger] self.spec_aux_buses()[k]).id != id,
            decreases self.group_buses@.len() - j,
        {
            if self.group_buses[j].id.0 == id.0 {
                return Some(&self.group_buses[j]);
            }
            j = j + 1;
        }
        None
    }

    /// Returns the pan law.
    pub fn pan_law(&self) -> (r: PanLaw)
        ensures
            r == self.spec_pan_law(),
    {
        self.pan_law
    }

    /// Sets the pan law.
    pub fn set_pan_law(&mut self, pan_law: PanLaw)
        ensures
            final(self).spec_pan_law() == pan_law,
            final(self).spec_tracks() == old(self).spec_tracks(),
            final(self).spec_has_solo() == old(self).spec_has_solo(),
    {
        self.pan_law = pan_law;
    }

    /// Returns the sample rate.
    pub fn sample_rate(&self) -> (r: u32)
        ensures
            r == self.spec_sample_rate(),
    {
        self.sample_rate
    }

    /// Recomputes the any-track-soloed flag.
    fn update_solo_state(&mut self)
        ensures
            final(self).spec_solo_ok(),
            final(self).spec_tracks() == old(self).spec_tracks(),
            final(self).spec_master() == old(self).spec_master(),
            final(self).spec_aux_buses() == old(self).spec_aux_buses(),
            final(self).spec_group_buses() == old(self).spec_group_buses(),
            final(self).spec_pan_law() == old(self).spec_pan_law(),
            final(self).spec_sample_rate() == old(self).spec_sample_rate(),
            final(self).spec_next_bus_id() == old(self).spec_next_bus_id(),
    {
        let mut any = false;
        let mut i: usize = 0;
        while i < self.tracks.len()
            invariant
                0 <= i <= self.tracks@.len(),
                self == old(self),
                any == exists|k: int| 0 <= k < i && (#[trigger] self.tracks@[k]).solo,
            decreases self.tracks@.len() - i,
        {
            if self.tracks[i].solo {
                any = true;
            }
            i = i + 1;
        }
        self.has_solo = any;
    }

    /// Sets the solo state of the first strip for a track id (an unknown
    /// id changes no strip) and refreshes the solo flag.
    pub fn set_track_solo(&mut self, track_id: u64, solo: bool) -> (r: bool)
        ensures
            final(self).spec_solo_ok(),
            r <==> exists|k: int|
                0 <= k < old(self).spec_tracks().len() && (#[trigger] old(self).spec_tracks()[k]).track_id == track_id,
            r ==> exists|k: int|
                #![trigger old(self).spec_tracks()[k]]
                spec_first_strip(old(self).spec_tracks(), k, track_id) && final(self).spec_tracks()
                    == old(self).spec_tracks().update(
                    k,
                    AudioTrackStrip { solo, ..old(self).spec_tracks()[k] },
                ),
            !r ==> final(self).spec_tracks() == old(self).spec_tracks(),
            final(self).spec_master() == old(self).spec_master(),
            final(self).spec_next_bus_id() == old(self).spec_next_bus_id(),
    {
        let mut i: usize = 0;
        let mut found = false;
        while i < self.tracks.len()
            invariant_except_break
                self == old(self),
                !found,
            invariant
                0 <= i <= self.tracks@.len(),
                forall|k: int| 0 <= k < i ==> (#[trigger] self.tracks@[k]).track_id != track_id,
            ensures
                found ==> i < self.tracks@.len() && spec_first_strip(
                    old(self).spec_tracks(),
                    i as int,
                    track_id,
                ),
                !found ==> forall|k: int|
                    0 <= k < self.tracks@.len() ==> (#[trigger] self.tracks@[k]).track_id
                        != track_id,
                self == old(self),
            decreases self.tracks@.len() - i,
        {
            if self.tracks[i].track_id == track_id {
                found = true;
                break ;
            }
            i = i + 1;
        }
        if found {
            let ghost pre = self.tracks@;
            let strip = &mut self.tracks[i];
            strip.solo = solo;
            proof {
                assert(self.tracks@ == pre.update(
                    i as int,
                    AudioTrackStrip { solo, ..pre[i as int] },
                ));
            }
            self.update_solo_state();
            true
        } else {
            self.update_solo_state();
            false
        }
    }

    /// Returns whether any track is soloed, per the cached flag.
    pub fn has_solo(&self) -> (r: bool)
        ensures
            r == self.spec_has_solo(),
    {
        self.has_solo
    }

    /// A track is audible exactly when a strip for it exists, it is not
    /// muted, and, while any track is soloed, it is soloed itself. An
    /// unknown track id is inaudible.
    pub fn is_track_audible(&self, track_id: u64) -> (r: bool)
        requires
            self.spec_solo_ok(),
        ensures
            r <==> exists|k: int|
                #![trigger self.spec_tracks()[k]]
                spec_first_strip(self.spec_tracks(), k, track_id) && !self.spec_tracks()[k].muted
                    && (spec_any_solo(self.spec_tracks()) ==> self.spec_tracks()[k].solo),
    {
        let track = match self.get_track(track_id) {
            Some(t) => t,
            None => {
                return false;
            },
        };
        proof {
            let k = choose|k: int|
                #![trigger self.spec_tracks()[k]]
                spec_first_strip(self.spec_tracks(), k, track_id) && *track
                    == self.spec_tracks()[k];
            assert forall|k2: int|
                spec_first_strip(self.spec_tracks(), k2, track_id) implies k2 == k by {
                if k2 < k {
                    assert(self.spec_tracks()[k2].track_id != track_id);
                } else if k2 > k {
                    assert(self.spec_tracks()[k].track_id != track_id);
                }
            }
        }
        if track.muted {
            return false;
        }
        if self.has_solo {
            track.solo
        } else {
            true
        }
    }
}

impl Default for AudioMixer {
    /// The default mixer runs at 48 kHz with a 1024-sample buffer.
    fn default() -> (r: Self)
        ensures
            r.spec_tracks().len() == 0,
            r.spec_sample_rate() == 48000,
            r.spec_solo_ok(),
    {
        AudioMixer::new(48000, 1024)
    }
}

} // verus!
