use qmi8658a::{Config, ConfigOption};

const ALL: [ConfigOption; 12] = [
    ConfigOption::DisableOscillator,
    ConfigOption::FifoOnInt1,
    ConfigOption::EnableInt1,
    ConfigOption::EnableInt2,
    ConfigOption::LittleEndian,
    ConfigOption::AutoIncrement,
    ConfigOption::ThreeWire,
    ConfigOption::EnableAccelerometer,
    ConfigOption::EnableGyroscope,
    ConfigOption::GyroSnooze,
    ConfigOption::DisableDataReady,
    ConfigOption::SyncSample,
];

fn bytes(config: Config) -> (u8, u8) {
    (config.ctrl1(), config.ctrl7())
}

/// The bytes that a choice of options stands for, computed bit by bit from
/// the table of options.
fn expected(chosen: &[ConfigOption]) -> (u8, u8) {
    let mut ctrl1: u8 = 0b0010_0000;
    let mut ctrl7: u8 = 0;
    for option in chosen {
        match option {
            ConfigOption::DisableOscillator => ctrl1 |= 1 << 0,
            ConfigOption::FifoOnInt1 => ctrl1 |= 1 << 2,
            ConfigOption::EnableInt1 => ctrl1 |= 1 << 3,
            ConfigOption::EnableInt2 => ctrl1 |= 1 << 4,
            ConfigOption::LittleEndian => ctrl1 &= !(1 << 5),
            ConfigOption::AutoIncrement => ctrl1 |= 1 << 6,
            ConfigOption::ThreeWire => ctrl1 |= 1 << 7,
            ConfigOption::EnableAccelerometer => ctrl7 |= 1 << 0,
            ConfigOption::EnableGyroscope => ctrl7 |= 1 << 1,
            ConfigOption::GyroSnooze => ctrl7 |= 1 << 4,
            ConfigOption::DisableDataReady => ctrl7 |= 1 << 5,
            ConfigOption::SyncSample => ctrl7 |= 1 << 7,
        }
    }
    (ctrl1, ctrl7)
}

#[test]
fn default_configuration_bytes() {
    assert_eq!(bytes(Config::new()), (0b0010_0000, 0b0000_0000));
    assert_eq!(bytes(Config::default()), (0b0010_0000, 0b0000_0000));
    assert_eq!(Config::new(), Config::default());
}

#[test]
fn each_option_touches_its_own_bit() {
    assert_eq!(bytes(Config::new().disable_oscillator()), (0b0010_0001, 0));
    assert_eq!(bytes(Config::new().fifo_on_int1()), (0b0010_0100, 0));
    assert_eq!(bytes(Config::new().enable_int1()), (0b0010_1000, 0));
    assert_eq!(bytes(Config::new().enable_int2()), (0b0011_0000, 0));
    assert_eq!(bytes(Config::new().little_endian()), (0b0000_0000, 0));
    assert_eq!(bytes(Config::new().auto_increment()), (0b0110_0000, 0));
    assert_eq!(bytes(Config::new().three_wire()), (0b1010_0000, 0));
    assert_eq!(bytes(Config::new().enable_accelerometer()), (0b0010_0000, 0b0000_0001));
    assert_eq!(bytes(Config::new().enable_gyroscope()), (0b0010_0000, 0b0000_0010));
    assert_eq!(bytes(Config::new().gyro_snooze()), (0b0010_0000, 0b0001_0000));
    assert_eq!(bytes(Config::new().disable_data_ready()), (0b0010_0000, 0b0010_0000));
    assert_eq!(bytes(Config::new().sync_sample()), (0b0010_0000, 0b1000_0000));
}

#[test]
fn named_methods_agree_with_options() {
    let by_name = [
        Config::new().disable_oscillator(),
        Config::new().fifo_on_int1(),
        Config::new().enable_int1(),
        Config::new().enable_int2(),
        Config::new().little_endian(),
        Config::new().auto_increment(),
        Config::new().three_wire(),
        Config::new().enable_accelerometer(),
        Config::new().enable_gyroscope(),
        Config::new().gyro_snooze(),
        Config::new().disable_data_ready(),
        Config::new().sync_sample(),
    ];
    for (i, option) in ALL.iter().enumerate() {
        assert_eq!(by_name[i], Config::new().with(*option));
    }
}

#[test]
fn every_option_at_once() {
    let config = Config::from_options(&ALL);
    assert_eq!(bytes(config), (0b1101_1101, 0b1011_0011));
}

#[test]
fn accelerometer_and_gyroscope_with_auto_increment() {
    let config = Config::new().auto_increment().enable_accelerometer().enable_gyroscope();
    assert_eq!(bytes(config), (0b0110_0000, 0b0000_0011));
}

#[test]
fn every_subset_gives_the_or_of_its_masks() {
    for subset in 0u32..(1 << 12) {
        let chosen: Vec<ConfigOption> =
            (0..12).filter(|i| subset & (1 << i) != 0).map(|i| ALL[i]).collect();
        let forward = Config::from_options(&chosen);
        let reversed: Vec<ConfigOption> = chosen.iter().rev().copied().collect();
        let backward = Config::from_options(&reversed);
        assert_eq!(bytes(forward), expected(&chosen));
        assert_eq!(forward, backward);
    }
}

#[test]
fn order_of_two_options_is_irrelevant() {
    for a in ALL {
        for b in ALL {
            let base = Config::new().enable_int1().gyro_snooze();
            assert_eq!(base.with(a).with(b), base.with(b).with(a));
        }
    }
}

#[test]
fn an_option_chosen_twice_counts_once() {
    for a in ALL {
        let once = Config::new().with(a);
        assert_eq!(once.with(a), once);
        assert_eq!(Config::from_options(&[a, a, a]), once);
    }
}

#[test]
fn little_endian_stays_cleared_whatever_follows() {
    let config = Config::new().little_endian().three_wire().enable_int2().little_endian();
    assert_eq!(bytes(config), (0b1001_0000, 0));
}

#[test]
fn no_options_is_the_default() {
    assert_eq!(Config::from_options(&[]), Config::new());
}

#[test]
fn chosen_options_can_be_read_back() {
    let config = Config::new().little_endian().enable_int2().enable_gyroscope();
    for option in ALL {
        let chosen = matches!(
            option,
            ConfigOption::LittleEndian | ConfigOption::EnableInt2 | ConfigOption::EnableGyroscope
        );
        assert_eq!(config.has(option), chosen);
    }
    for option in ALL {
        assert!(!Config::new().has(option));
        assert!(Config::from_options(&ALL).has(option));
        assert!(Config::new().with(option).has(option));
    }
}
