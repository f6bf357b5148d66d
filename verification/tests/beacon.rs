use motec_i2::beacon_builder::get_beacon_channel;
use motec_i2::beacon_builder::get_laps_from_beacon;
use motec_i2::beacon_builder::Lap;
use motec_i2::ChannelFlag;
use motec_i2::ChannelMetadata;
use motec_i2::Datatype;
use motec_i2::Sample;

fn beacon_reference_metadata() -> ChannelMetadata {
    ChannelMetadata {
        prev_addr: 16236,
        next_addr: 16484,
        data_addr: 301812,
        data_count: 454,
        datatype: Datatype::Beacon16,
        sample_rate: 1,
        offset: 0,
        mul: 1,
        scale: 1,
        dec_places: 0,
        name: "Beacon".to_string(),
        short_name: "Beacon".to_string(),
        unit: String::new(),
        channel_feature_flag: ChannelFlag::Beacon,
    }
}

fn plain_channel(name: &str, datatype: Datatype, flag: ChannelFlag) -> ChannelMetadata {
    ChannelMetadata {
        prev_addr: 0,
        next_addr: 0,
        data_addr: 0,
        data_count: 0,
        datatype,
        sample_rate: 10,
        offset: 0,
        mul: 1,
        scale: 1,
        dec_places: 0,
        name: name.to_string(),
        short_name: name.to_string(),
        unit: String::new(),
        channel_feature_flag: flag,
    }
}

#[test]
fn find_beacon_channel_among_decoys() {
    // A marker flag with a non-marker datatype, and a marker datatype with a
    // non-marker flag, are both invalid as the timing source.
    let channels = vec![
        plain_channel("Ground Speed", Datatype::I16, ChannelFlag::Default),
        plain_channel("Odd Flag", Datatype::I16, ChannelFlag::Beacon),
        plain_channel("Odd Type", Datatype::Beacon16, ChannelFlag::Default),
        beacon_reference_metadata(),
        plain_channel("Engine RPM", Datatype::I32, ChannelFlag::Default),
    ];
    let result = get_beacon_channel(&channels);
    assert_eq!(result, Some(&beacon_reference_metadata()));
}

#[test]
fn find_beacon_channel_absent() {
    let channels = vec![
        plain_channel("Ground Speed", Datatype::I16, ChannelFlag::Default),
        plain_channel("Odd Flag", Datatype::I16, ChannelFlag::Beacon),
        plain_channel("Odd Type", Datatype::Beacon32, ChannelFlag::Default),
    ];
    assert_eq!(get_beacon_channel(&channels), None);
    assert_eq!(get_beacon_channel(&Vec::new()), None);
}

#[test]
fn get_laps_no_beacon() {
    let channel0_meta = ChannelMetadata {
        prev_addr: 0,
        next_addr: 0,
        data_addr: 0,
        data_count: 16,
        datatype: Datatype::I16,
        sample_rate: 2,
        offset: 0,
        mul: 1,
        scale: 1,
        dec_places: 1,
        name: "Air Temp Inlet".to_string(),
        short_name: "Air Tem".to_string(),
        unit: "C".to_string(),
        channel_feature_flag: ChannelFlag::Default,
    };
    let channel0_samples = vec![
        Sample::I16(190),
        Sample::I16(190),
        Sample::I16(190),
        Sample::I16(190),
        Sample::I16(200),
        Sample::I16(200),
        Sample::I16(200),
        Sample::I16(200),
        Sample::I16(200),
        Sample::I16(200),
        Sample::I16(200),
        Sample::I16(200),
        Sample::I16(200),
        Sample::I16(190),
        Sample::I16(190),
        Sample::I16(190),
    ];

    let result = get_laps_from_beacon(&channel0_meta, &channel0_samples);
    assert_eq!(
        result,
        vec![Lap {
            lap_time: 8000,
            sectors: Vec::<i32>::new()
        }]
    );
}

#[test]
fn reference_marker_channel_six_laps() {
    // A marker channel with 454 samples at 1 Hz carrying five lap pulses and
    // twelve sector pulses. Each event at time t ms becomes a peak of
    // 0x4000 + t % 1000 at the sample after the whole second, followed by
    // the return-to-normal marker (100 for a lap boundary, 56 for a sector).
    let meta = beacon_reference_metadata();
    let events: [(i32, bool); 17] = [
        (43547, true),
        (80385, true),
        (94136, false),
        (113030, true),
        (145886, true),
        (159299, false),
        (177600, true),
        (209488, true),
        (222981, false),
        (242008, true),
        (274814, true),
        (288173, false),
        (306504, true),
        (338170, true),
        (351932, false),
        (373867, true),
        (407619, true),
    ];
    let mut raw = vec![0i16; 454];
    for (t, is_sector) in events {
        let k = (t / 1000) as usize;
        raw[k + 1] = (0x4000 + (t % 1000)) as i16;
        raw[k + 2] = if is_sector { 56 } else { 100 };
    }
    let data: Vec<Sample> = raw.into_iter().map(Sample::I16).collect();

    let result = get_laps_from_beacon(&meta, &data);

    assert_eq!(
        result,
        vec![
            Lap {
                lap_time: 94136,
                sectors: vec![43547, 36838],
            },
            Lap {
                lap_time: 65163,
                sectors: vec![18894, 32856],
            },
            Lap {
                lap_time: 63682,
                sectors: vec![18301, 31888],
            },
            Lap {
                lap_time: 65192,
                sectors: vec![19027, 32806],
            },
            Lap {
                lap_time: 63759,
                sectors: vec![18331, 31666],
            },
            Lap {
                lap_time: 102068,
                sectors: vec![21935, 33752],
            },
        ]
    );
}

#[test]
fn marker_laps_with_sector() {
    let mut meta = beacon_reference_metadata();
    meta.data_count = 8;
    // One pulse at 1136 ms followed by a return to 100 (lap boundary), one
    // pulse at 4200 ms followed by a return to 56 (sector split), then the
    // in-lap up to the eight recorded seconds.
    let data = vec![
        Sample::I16(0),
        Sample::I16(0),
        Sample::I16(16520),
        Sample::I16(100),
        Sample::I16(0),
        Sample::I16(16584),
        Sample::I16(56),
        Sample::I16(0),
    ];
    let result = get_laps_from_beacon(&meta, &data);
    assert_eq!(
        result,
        vec![
            Lap {
                lap_time: 1136,
                sectors: vec![]
            },
            Lap {
                lap_time: 6864,
                sectors: vec![3064]
            },
        ]
    );
}

#[test]
fn marker_duplicate_peak_collapses() {
    let mut meta = beacon_reference_metadata();
    meta.data_count = 4;
    // A peak spanning two samples evaluates to the same timestamp and is
    // recorded once.
    let data = vec![
        Sample::I16(0),
        Sample::I16(16520),
        Sample::I16(16520),
        Sample::I16(100),
    ];
    let result = get_laps_from_beacon(&meta, &data);
    assert_eq!(
        result,
        vec![
            Lap {
                lap_time: 136,
                sectors: vec![]
            },
            Lap {
                lap_time: 3864,
                sectors: vec![]
            },
        ]
    );
}

#[test]
fn marker_empty_data_single_lap() {
    let meta = beacon_reference_metadata();
    let result = get_laps_from_beacon(&meta, &Vec::new());
    assert_eq!(
        result,
        vec![Lap {
            lap_time: 0,
            sectors: vec![]
        }]
    );
}

#[test]
fn beacon32_troughs_are_ignored() {
    let mut meta = beacon_reference_metadata();
    meta.datatype = Datatype::Beacon32;
    meta.data_count = 5;
    // The resting spot (-300) and the deep trough below half of the 32-bit
    // minimum carry no timing information.
    let data = vec![
        Sample::I32(0),
        Sample::I32(-300),
        Sample::I32(-2000000000),
        Sample::I32(16520),
        Sample::I32(100),
    ];
    let result = get_laps_from_beacon(&meta, &data);
    assert_eq!(
        result,
        vec![
            Lap {
                lap_time: 136,
                sectors: vec![]
            },
            Lap {
                lap_time: 4864,
                sectors: vec![]
            },
        ]
    );
}

#[test]
fn marker_rate_above_one_divides_seconds() {
    let mut meta = beacon_reference_metadata();
    meta.sample_rate = 2;
    meta.data_count = 4;
    // The last normal index is divided by the sample rate before it is
    // turned into whole-second milliseconds.
    let data = vec![
        Sample::I16(0),
        Sample::I16(0),
        Sample::I16(0),
        Sample::I16(16456),
    ];
    let result = get_laps_from_beacon(&meta, &data);
    assert_eq!(
        result,
        vec![
            Lap {
                lap_time: 1072,
                sectors: vec![]
            },
            Lap {
                lap_time: 928,
                sectors: vec![]
            },
        ]
    );
}
