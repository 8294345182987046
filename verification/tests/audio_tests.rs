use evlf_editor::{AudioBusId, AudioChannelConfig, AudioMixer, PanLaw};

#[test]
fn test_audio_mixer_creation() {
    let mixer = AudioMixer::new(48000, 1024);
    assert_eq!(mixer.sample_rate(), 48000);
    assert!(matches!(mixer.pan_law(), PanLaw::ConstantPower3dB));
}

#[test]
fn test_track_strip() {
    let mut mixer = AudioMixer::new(48000, 1024);
    mixer.add_track(1, "Audio 1".to_string()).unwrap();
    let track = mixer.get_track(1).unwrap();

    assert_eq!(track.track_id, 1);
    assert_eq!(track.name, "Audio 1");
    assert_eq!(track.volume_permille, 1000);
}

#[test]
fn test_solo_logic() {
    let mut mixer = AudioMixer::new(48000, 1024);
    let _ = mixer.add_track(1, "Track 1".to_string());
    let _ = mixer.add_track(2, "Track 2".to_string());

    assert!(mixer.is_track_audible(1));
    assert!(mixer.is_track_audible(2));

    mixer.set_track_solo(1, true);
    assert!(mixer.is_track_audible(1));
    assert!(!mixer.is_track_audible(2));
}

#[test]
fn test_mute_overrides_solo() {
    let mut mixer = AudioMixer::new(48000, 1024);
    let _ = mixer.add_track(1, "Track 1".to_string());
    mixer.set_track_solo(1, true);
    assert!(mixer.is_track_audible(1));
    // A muted track is inaudible even while soloed.
    mixer.get_track_mut(1).unwrap().set_muted(true);
    assert!(!mixer.is_track_audible(1));
}

#[test]
fn test_remove_track_audibility() {
    let mut mixer = AudioMixer::new(48000, 1024);
    let _ = mixer.add_track(1, "Track 1".to_string());
    assert!(mixer.remove_track(1));
    assert!(!mixer.is_track_audible(1));
    assert!(!mixer.remove_track(1));
}

#[test]
fn test_bus_routing() {
    let mut mixer = AudioMixer::new(48000, 1024);
    let aux = mixer.create_aux_bus("Reverb".to_string());
    let group = mixer.create_group_bus("Drums".to_string());
    assert_ne!(aux, group);
    assert!(mixer.get_bus(aux).is_some());
    assert!(mixer.get_bus(group).is_some());
    // Bus id 0 is the master.
    let master = mixer.get_bus(AudioBusId::new(0)).unwrap();
    assert_eq!(master.id.inner(), 0);
    // Both created buses feed the master.
    assert_eq!(mixer.get_bus(aux).unwrap().output, Some(AudioBusId::new(0)));
}

#[test]
fn test_channel_counts() {
    assert_eq!(AudioChannelConfig::Mono.channel_count(), 1);
    assert_eq!(AudioChannelConfig::Stereo.channel_count(), 2);
    assert_eq!(AudioChannelConfig::Surround51.channel_count(), 6);
    assert_eq!(AudioChannelConfig::Surround71.channel_count(), 8);
    assert_eq!(AudioChannelConfig::Custom(12).channel_count(), 12);
}
