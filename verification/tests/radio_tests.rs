use escape_room::radio::{
    pan_x100, radio_tick, translator_reading, white_noise_volume_x800, AmRadioFreq,
    PresetAmRadioFreq, RadioCommand, RadioStation, VOLUME_SCALE, WHITE_NOISE_SCALE,
};

fn station(center: i32) -> RadioStation {
    RadioStation {
        frequency: AmRadioFreq(center),
        playing: false,
    }
}

fn volume_as_f64(numerator: u32) -> f64 {
    numerator as f64 / VOLUME_SCALE as f64
}

fn noise_as_f64(numerator: u32) -> f64 {
    numerator as f64 / WHITE_NOISE_SCALE as f64
}

#[test]
fn volume_is_full_at_the_center_and_the_inner_band_edges() {
    let s = station(650);
    assert_eq!(volume_as_f64(s.freq_to_volume_x400(650)), 1.0);
    assert_eq!(volume_as_f64(s.freq_to_volume_x400(660)), 1.0);
    assert_eq!(volume_as_f64(s.freq_to_volume_x400(640)), 1.0);
}

#[test]
fn volume_is_zero_at_and_beyond_the_outer_band_edges() {
    let s = station(650);
    assert_eq!(s.freq_to_volume_x400(680), 0);
    assert_eq!(s.freq_to_volume_x400(620), 0);
    assert_eq!(s.freq_to_volume_x400(800), 0);
    assert_eq!(s.freq_to_volume_x400(500), 0);
}

#[test]
fn volume_strictly_decreases_between_the_band_edges() {
    let s = station(650);
    for delta in 10..30 {
        let nearer = s.freq_to_volume_x400(650 + delta);
        let farther = s.freq_to_volume_x400(650 + delta + 1);
        assert!(nearer > farther, "delta {delta}: {nearer} vs {farther}");
        let nearer_low = s.freq_to_volume_x400(650 - delta);
        let farther_low = s.freq_to_volume_x400(650 - delta - 1);
        assert!(nearer_low > farther_low);
    }
}

#[test]
fn band_membership_matches_the_outer_bandwidth() {
    let s = station(650);
    assert!(s.freq_in_band(650));
    assert!(s.freq_in_band(680));
    assert!(s.freq_in_band(620));
    assert!(!s.freq_in_band(681));
    assert!(!s.freq_in_band(619));
}

#[test]
fn tuned_station_scenario_at_655_and_675() {
    // Station at 650 kHz, dial at 655: in band, full volume, noise at its
    // half-volume floor.
    let s = station(650);
    assert!(s.freq_in_band(655));
    let v = s.freq_to_volume_x400(655);
    assert_eq!(volume_as_f64(v), 1.0);
    assert_eq!(noise_as_f64(white_noise_volume_x800(v)), 0.5);
    // Dial at 675: the quadratic falloff gives ((30 - 25) / 20)^2 = 0.0625.
    let v = s.freq_to_volume_x400(675);
    assert_eq!(volume_as_f64(v), 0.0625);
}

#[test]
fn white_noise_dominates_when_nothing_is_tuned() {
    assert_eq!(noise_as_f64(white_noise_volume_x800(0)), 1.0);
    assert_eq!(noise_as_f64(white_noise_volume_x800(VOLUME_SCALE)), 0.5);
}

#[test]
fn panning_is_center_until_the_speaker_breaks() {
    assert_eq!(pan_x100(false), 50);
    assert_eq!(pan_x100(true), 0);
}

#[test]
fn preset_station_frequencies() {
    assert_eq!(PresetAmRadioFreq::Morse.value(), 650);
    assert_eq!(PresetAmRadioFreq::Music.value(), 750);
    assert_eq!(PresetAmRadioFreq::News.value(), 610);
    assert_eq!(PresetAmRadioFreq::Numbers.value(), 700);
}

#[test]
fn station_resyncs_when_it_reenters_its_band() {
    let mut s = station(650);
    let cmd = s.station_tick(700, false);
    assert_eq!(cmd, RadioCommand::Pause);
    assert!(!s.playing);
    let cmd = s.station_tick(655, false);
    assert_eq!(
        cmd,
        RadioCommand::Play {
            resync: true,
            volume_x400: 400,
            pan_x100: 50
        }
    );
    assert!(s.playing);
    let cmd = s.station_tick(655, false);
    assert_eq!(
        cmd,
        RadioCommand::Play {
            resync: false,
            volume_x400: 400,
            pan_x100: 50
        }
    );
}

#[test]
fn radio_tick_drives_all_four_stations() {
    let mut stations = vec![station(650), station(700), station(750), station(610)];
    let out = radio_tick(&mut stations, 655, false);
    assert_eq!(out.commands.len(), 4);
    assert_eq!(
        out.commands[0],
        RadioCommand::Play {
            resync: true,
            volume_x400: 400,
            pan_x100: 50
        }
    );
    assert_eq!(out.commands[1], RadioCommand::Pause);
    assert_eq!(out.commands[2], RadioCommand::Pause);
    assert_eq!(out.commands[3], RadioCommand::Pause);
    assert!(stations[0].playing);
    assert!(!stations[1].playing);
    assert_eq!(noise_as_f64(out.white_noise_x800), 0.5);
    assert_eq!(out.pan_x100, 50);
}

#[test]
fn radio_tick_pans_hard_left_while_the_speaker_is_broken() {
    let mut stations = vec![station(650)];
    let out = radio_tick(&mut stations, 650, true);
    assert_eq!(out.pan_x100, 0);
    assert_eq!(
        out.commands[0],
        RadioCommand::Play {
            resync: true,
            volume_x400: 400,
            pan_x100: 0
        }
    );
}

#[test]
fn translator_reads_the_morse_station_only() {
    assert_eq!(translator_reading(650, false), "BEHIND");
    assert_eq!(translator_reading(650, true), "SEE");
    assert_eq!(translator_reading(700, false), "???");
    assert_eq!(translator_reading(700, true), "???");
}
