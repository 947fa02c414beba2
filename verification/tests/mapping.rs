use volume_mirror::mapping::{VolumeSample, LEVEL_SCALE, MIN_GAIN, MAX_GAIN, MUTE_ON, MUTE_OFF};

#[test]
fn gain_follows_linear_formula() {
    // gain = MIN_GAIN + 42 * level, in ten-thousandths.
    let t = volume_mirror::mapping::map(&VolumeSample { level: 0, muted: false });
    assert_eq!(t.gain, MIN_GAIN);
    let t = volume_mirror::mapping::map(&VolumeSample { level: 3000, muted: false });
    assert_eq!(t.gain, -174000); // level 0.3 -> -17.4 dB
    let t = volume_mirror::mapping::map(&VolumeSample { level: 5000, muted: false });
    assert_eq!(t.gain, -90000); // level 0.5 -> -9.0 dB
    let t = volume_mirror::mapping::map(&VolumeSample { level: LEVEL_SCALE, muted: false });
    assert_eq!(t.gain, MAX_GAIN);
}

#[test]
fn gain_is_monotone_in_level() {
    let mut last = MIN_GAIN - 1;
    let mut level: u32 = 0;
    while level <= LEVEL_SCALE {
        let t = volume_mirror::mapping::map(&VolumeSample { level, muted: false });
        assert!(t.gain >= last);
        last = t.gain;
        level += 250;
    }
}

#[test]
fn mute_flag_cases() {
    // Zero level mutes even when the device is unmuted.
    assert_eq!(volume_mirror::mapping::map(&VolumeSample { level: 0, muted: false }).mute, MUTE_ON);
    // A muted device mutes at any level.
    assert_eq!(volume_mirror::mapping::map(&VolumeSample { level: 5000, muted: true }).mute, MUTE_ON);
    // Unmuted and audible stays unmuted.
    assert_eq!(volume_mirror::mapping::map(&VolumeSample { level: 5000, muted: false }).mute, MUTE_OFF);
}

#[test]
fn mute_does_not_change_gain() {
    let unmuted = volume_mirror::mapping::map(&VolumeSample { level: 7000, muted: false });
    let muted = volume_mirror::mapping::map(&VolumeSample { level: 7000, muted: true });
    assert_eq!(unmuted.gain, muted.gain);
}
