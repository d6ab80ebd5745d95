//! The sensor's configuration: two control bytes built from named options.

use vstd::prelude::*;

verus! {

/// One behaviour of the sensor that a configuration can select.
#[derive(Debug, Clone, Copy, PartialEq, Eq, Structural)]
pub enum ConfigOption {
    /// Disable the internal high-speed oscillator.
    DisableOscillator,
    /// Map the FIFO interrupt to INT1.
    FifoOnInt1,
    /// Enable the INT1 output.
    EnableInt1,
    /// Enable the INT2 output.
    EnableInt2,
    /// Read data low byte first. Big-endian is the reset state, so this
    /// option clears its bit.
    LittleEndian,
    /// Advance the register address after each byte of a burst.
    AutoIncrement,
    /// Use the 3-wire bus mode.
    ThreeWire,
    /// Enable the accelerometer.
    EnableAccelerometer,
    /// Enable the gyroscope.
    EnableGyroscope,
    /// Put the gyroscope in snooze mode.
    GyroSnooze,
    /// Disable data-ready signalling.
    DisableDataReady,
    /// Enable sync-sample mode.
    SyncSample,
}

impl ConfigOption {
    /// The bit that the option sets in CTRL1, or 0.
    pub open spec fn ctrl1_set(self) -> u8 {
        match self {
            ConfigOption::DisableOscillator => 0x01,
            ConfigOption::FifoOnInt1 => 0x04,
            ConfigOption::EnableInt1 => 0x08,
            ConfigOption::EnableInt2 => 0x10,
            ConfigOption::AutoIncrement => 0x40,
            ConfigOption::ThreeWire => 0x80,
            _ => 0x00,
        }
    }

    /// The bit that the option clears in CTRL1, or 0.
    pub open spec fn ctrl1_clear(self) -> u8 {
        match self {
            ConfigOption::LittleEndian => 0x20,
            _ => 0x00,
        }
    }

    /// The bit that the option sets in CTRL7, or 0.
    pub open spec fn ctrl7_set(self) -> u8 {
        match self {
            ConfigOption::EnableAccelerometer => 0x01,
            ConfigOption::EnableGyroscope => 0x02,
            ConfigOption::GyroSnooze => 0x10,
            ConfigOption::DisableDataReady => 0x20,
            ConfigOption::SyncSample => 0x80,
            _ => 0x00,
        }
    }
}

/// The two control bytes as plain values: what a `Config` stands for.
pub struct ControlBytes {
    pub ctrl1: u8,
    pub ctrl7: u8,
}

impl ControlBytes {
    /// The bytes before any option is chosen.
    pub open spec fn reset() -> ControlBytes {
        ControlBytes { ctrl1: 0x20, ctrl7: 0x00 }
    }

    /// The bytes after one more option.
    pub open spec fn with(self, option: ConfigOption) -> ControlBytes {
        ControlBytes {
            ctrl1: (self.ctrl1 | option.ctrl1_set()) & !option.ctrl1_clear(),
            ctrl7: self.ctrl7 | option.ctrl7_set(),
        }
    }

    /// The bytes after a list of options, taken from the front.
    pub open spec fn with_all(self, options: Seq<ConfigOption>) -> ControlBytes
        decreases options.len(),
    {
        if options.len() == 0 {
            self
        } else {
            self.with_all(options.drop_last()).with(options.last())
        }
    }

    /// Whether the bytes show `option` as chosen: its bit is set, or, for
    /// little-endian mode, cleared.
    pub open spec fn has(self, option: ConfigOption) -> bool {
        if option.ctrl1_clear() != 0 {
            self.ctrl1 & option.ctrl1_clear() == 0
        } else if option.ctrl7_set() != 0 {
            self.ctrl7 & option.ctrl7_set() != 0
        } else {
            self.ctrl1 & option.ctrl1_set() != 0
        }
    }

    /// The bytes that a choice of options stands for, whatever the order and
    /// however often each was named: the reset bit and the bits of the
    /// chosen options, joined by OR, less the bit of little-endian mode.
    pub open spec fn selected(options: Seq<ConfigOption>) -> ControlBytes {
        ControlBytes {
            ctrl1: (0x20u8 | pick(options, ConfigOption::DisableOscillator, 0x01) | pick(
                options,
                ConfigOption::FifoOnInt1,
                0x04,
            ) | pick(options, ConfigOption::EnableInt1, 0x08) | pick(
                options,
                ConfigOption::EnableInt2,
                0x10,
            ) | pick(options, ConfigOption::AutoIncrement, 0x40) | pick(
                options,
                ConfigOption::ThreeWire,
                0x80,
            )) & !pick(options, ConfigOption::LittleEndian, 0x20),
            ctrl7: pick(options, ConfigOption::EnableAccelerometer, 0x01) | pick(
                options,
                ConfigOption::EnableGyroscope,
                0x02,
            ) | pick(options, ConfigOption::GyroSnooze, 0x10) | pick(
                options,
                ConfigOption::DisableDataReady,
                0x20,
            ) | pick(options, ConfigOption::SyncSample, 0x80),
        }
    }
}

/// `mask` if `option` is among `options`, else 0.
pub open spec fn pick(options: Seq<ConfigOption>, option: ConfigOption, mask: u8) -> u8 {
    if options.contains(option) {
        mask
    } else {
        0x00
    }
}

/// A configuration under construction. Each option is a transform of the
/// value; the bytes are read off at the end.
#[derive(Debug, Clone, Copy, PartialEq, Eq)]
pub struct Config {
    ctrl1: u8,
    ctrl7: u8,
}

impl View for Config {
    type V = ControlBytes;

    closed spec fn view(&self) -> ControlBytes {
        ControlBytes { ctrl1: self.ctrl1, ctrl7: self.ctrl7 }
    }
}

impl Default for Config {
    fn default() -> (config: Self)
        ensures
            config@ == ControlBytes::reset(),
    {
        Config::new()
    }
}

impl Config {
    /// The configuration with no option chosen.
    pub fn new() -> (config: Self)
        ensures
            config@ == ControlBytes::reset(),
    {
        Config { ctrl1: 0x20, ctrl7: 0x00 }
    }

    /// The configuration with every option of `options` chosen.
    pub fn from_options(options: &[ConfigOption]) -> (config: Self)
        ensures
            config@ == ControlBytes::reset().with_all(options@),
            config@ == ControlBytes::selected(options@),
    {
        let mut config = Config::new();
        let mut i: usize = 0;
        while i < options.len()
            invariant
                i <= options.len(),
                config@ == ControlBytes::reset().with_all(options@.take(i as int)),
            decreases options.len() - i,
        {
            proof {
                let next = options@.take(i + 1);
                assert(next.drop_last() =~= options@.take(i as int));
                assert(next.last() == options@[i as int]);
            }
            config = config.with(options[i]);
            i += 1;
        }
        proof {
            assert(options@.take(i as int) =~= options@);
            lemma_with_all_selected(options@);
        }
        config
    }

    /// Chooses one more option.
    pub fn with(self, option: ConfigOption) -> (config: Self)
        ensures
            config@ == self@.with(option),
    {
        let (set1, clear1, set7): (u8, u8, u8) = match option {
            ConfigOption::DisableOscillator => (0x01, 0x00, 0x00),
            ConfigOption::FifoOnInt1 => (0x04, 0x00, 0x00),
            ConfigOption::EnableInt1 => (0x08, 0x00, 0x00),
            ConfigOption::EnableInt2 => (0x10, 0x00, 0x00),
            ConfigOption::LittleEndian => (0x00, 0x20, 0x00),
            ConfigOption::AutoIncrement => (0x40, 0x00, 0x00),
            ConfigOption::ThreeWire => (0x80, 0x00, 0x00),
            ConfigOption::EnableAccelerometer => (0x00, 0x00, 0x01),
            ConfigOption::EnableGyroscope => (0x00, 0x00, 0x02),
            ConfigOption::GyroSnooze => (0x00, 0x00, 0x10),
            ConfigOption::DisableDataReady => (0x00, 0x00, 0x20),
            ConfigOption::SyncSample => (0x00, 0x00, 0x80),
        };
        Config { ctrl1: (self.ctrl1 | set1) & !clear1, ctrl7: self.ctrl7 | set7 }
    }

    /// Disables the internal high-speed oscillator: CTRL1 bit 0.
    pub fn disable_oscillator(self) -> (config: Self)
        ensures
            config@ == self@.with(ConfigOption::DisableOscillator),
    {
        self.with(ConfigOption::DisableOscillator)
    }

    /// Maps the FIFO interrupt to INT1: CTRL1 bit 2.
    pub fn fifo_on_int1(self) -> (config: Self)
        ensures
            config@ == self@.with(ConfigOption::FifoOnInt1),
    {
        self.with(ConfigOption::FifoOnInt1)
    }

    /// Enables the INT1 output: CTRL1 bit 3.
    pub fn enable_int1(self) -> (config: Self)
        ensures
            config@ == self@.with(ConfigOption::EnableInt1),
    {
        self.with(ConfigOption::EnableInt1)
    }

    /// Enables the INT2 output: CTRL1 bit 4.
    pub fn enable_int2(self) -> (config: Self)
        ensures
            config@ == self@.with(ConfigOption::EnableInt2),
    {
        self.with(ConfigOption::EnableInt2)
    }

    /// Selects little-endian data: clears CTRL1 bit 5.
    pub fn little_endian(self) -> (config: Self)
        ensures
            config@ == self@.with(ConfigOption::LittleEndian),
    {
        self.with(ConfigOption::LittleEndian)
    }

    /// Enables register address auto-increment: CTRL1 bit 6.
    pub fn auto_increment(self) -> (config: Self)
        ensures
            config@ == self@.with(ConfigOption::AutoIncrement),
    {
        self.with(ConfigOption::AutoIncrement)
    }

    /// Selects the 3-wire bus mode: CTRL1 bit 7.
    pub fn three_wire(self) -> (config: Self)
        ensures
            config@ == self@.with(ConfigOption::ThreeWire),
    {
        self.with(ConfigOption::ThreeWire)
    }

    /// Enables the accelerometer: CTRL7 bit 0.
    pub fn enable_accelerometer(self) -> (config: Self)
        ensures
            config@ == self@.with(ConfigOption::EnableAccelerometer),
    {
        self.with(ConfigOption::EnableAccelerometer)
    }

    /// Enables the gyroscope: CTRL7 bit 1.
    pub fn enable_gyroscope(self) -> (config: Self)
        ensures
            config@ == self@.with(ConfigOption::EnableGyroscope),
    {
        self.with(ConfigOption::EnableGyroscope)
    }

    /// Puts the gyroscope in snooze mode: CTRL7 bit 4.
    pub fn gyro_snooze(self) -> (config: Self)
        ensures
            config@ == self@.with(ConfigOption::GyroSnooze),
    {
        self.with(ConfigOption::GyroSnooze)
    }

    /// Disables data-ready signalling: CTRL7 bit 5.
    pub fn disable_data_ready(self) -> (config: Self)
        ensures
            config@ == self@.with(ConfigOption::DisableDataReady),
    {
        self.with(ConfigOption::DisableDataReady)
    }

    /// Enables sync-sample mode: CTRL7 bit 7.
    pub fn sync_sample(self) -> (config: Self)
        ensures
            config@ == self@.with(ConfigOption::SyncSample),
    {
        self.with(ConfigOption::SyncSample)
    }

    /// Whether `option` is chosen.
    pub fn has(&self, option: ConfigOption) -> (chosen: bool)
        ensures
            chosen == self@.has(option),
    {
        match option {
            ConfigOption::DisableOscillator => self.ctrl1 & 0x01 != 0,
            ConfigOption::FifoOnInt1 => self.ctrl1 & 0x04 != 0,
            ConfigOption::EnableInt1 => self.ctrl1 & 0x08 != 0,
            ConfigOption::EnableInt2 => self.ctrl1 & 0x10 != 0,
            ConfigOption::LittleEndian => self.ctrl1 & 0x20 == 0,
            ConfigOption::AutoIncrement => self.ctrl1 & 0x40 != 0,
            ConfigOption::ThreeWire => self.ctrl1 & 0x80 != 0,
            ConfigOption::EnableAccelerometer => self.ctrl7 & 0x01 != 0,
            ConfigOption::EnableGyroscope => self.ctrl7 & 0x02 != 0,
            ConfigOption::GyroSnooze => self.ctrl7 & 0x10 != 0,
            ConfigOption::DisableDataReady => self.ctrl7 & 0x20 != 0,
            ConfigOption::SyncSample => self.ctrl7 & 0x80 != 0,
        }
    }

    /// The byte for CTRL1.
    pub fn ctrl1(&self) -> (byte: u8)
        ensures
            byte == self@.ctrl1,
    {
        self.ctrl1
    }

    /// The byte for CTRL7.
    pub fn ctrl7(&self) -> (byte: u8)
        ensures
            byte == self@.ctrl7,
    {
        self.ctrl7
    }
}

/// The masks of any two options get along: no option sets what another
/// clears.
proof fn lemma_masks_disjoint(a: ConfigOption, b: ConfigOption)
    ensures
        a.ctrl1_set() & b.ctrl1_clear() == 0,
{
    let s = a.ctrl1_set();
    let c = b.ctrl1_clear();
    assert(s & c == 0) by (bit_vector)
        requires
            s == 0x00 || s == 0x01 || s == 0x04 || s == 0x08 || s == 0x10 || s == 0x40 || s
                == 0x80,
            c == 0x00 || c == 0x20,
    ;
}

/// Two options may be chosen in either order.
pub proof fn lemma_with_commutes(bytes: ControlBytes, a: ConfigOption, b: ConfigOption)
    ensures
        bytes.with(a).with(b) == bytes.with(b).with(a),
{
    lemma_masks_disjoint(a, b);
    lemma_masks_disjoint(b, a);
    let (x, y) = (bytes.ctrl1, bytes.ctrl7);
    let (sa, ca, ta) = (a.ctrl1_set(), a.ctrl1_clear(), a.ctrl7_set());
    let (sb, cb, tb) = (b.ctrl1_set(), b.ctrl1_clear(), b.ctrl7_set());
    assert((((x | sa) & !ca) | sb) & !cb == (((x | sb) & !cb) | sa) & !ca) by (bit_vector)
        requires
            sa & cb == 0,
            sb & ca == 0,
    ;
    assert((y | ta) | tb == (y | tb) | ta) by (bit_vector);
}

/// Choosing an option a second time changes nothing.
pub proof fn lemma_with_idempotent(bytes: ControlBytes, a: ConfigOption)
    ensures
        bytes.with(a).with(a) == bytes.with(a),
{
    lemma_masks_disjoint(a, a);
    let (x, y) = (bytes.ctrl1, bytes.ctrl7);
    let (sa, ca, ta) = (a.ctrl1_set(), a.ctrl1_clear(), a.ctrl7_set());
    assert((((x | sa) & !ca) | sa) & !ca == (x | sa) & !ca) by (bit_vector)
        requires
            sa & ca == 0,
    ;
    assert((y | ta) | ta == y | ta) by (bit_vector);
}

/// An option is among a non-empty list if it is the last one or among the
/// others.
proof fn lemma_contains_last(options: Seq<ConfigOption>, option: ConfigOption)
    requires
        options.len() > 0,
    ensures
        options.contains(option) <==> (options.drop_last().contains(option) || option
            == options.last()),
{
    let front = options.drop_last();
    if options.contains(option) {
        let i = choose|i: int| 0 <= i < options.len() && options[i] == option;
        if i < options.len() - 1 {
            assert(front[i] == option);
        }
    }
    if front.contains(option) {
        let i = choose|i: int| 0 <= i < front.len() && front[i] == option;
        assert(options[i] == option);
    }
    if option == options.last() {
        assert(options[options.len() - 1] == option);
    }
}

/// The bytes after a list of options are the bytes that the choice stands
/// for: the OR of the chosen masks over the reset state, less the bit that
/// little-endian mode clears.
pub proof fn lemma_with_all_selected(options: Seq<ConfigOption>)
    ensures
        ControlBytes::reset().with_all(options) == ControlBytes::selected(options),
    decreases options.len(),
{
    if options.len() == 0 {
        assert(ControlBytes::selected(options).ctrl1 == 0x20) by {
            assert((0x20u8 | 0x00 | 0x00 | 0x00 | 0x00 | 0x00 | 0x00) & !0x00u8 == 0x20)
                by (bit_vector);
        }
        assert(ControlBytes::selected(options).ctrl7 == 0x00) by {
            assert(0x00u8 | 0x00 | 0x00 | 0x00 | 0x00 == 0x00) by (bit_vector);
        }
    } else {
        let front = options.drop_last();
        let last = options.last();
        lemma_with_all_selected(front);
        lemma_contains_last(options, ConfigOption::DisableOscillator);
        lemma_contains_last(options, ConfigOption::FifoOnInt1);
        lemma_contains_last(options, ConfigOption::EnableInt1);
        lemma_contains_last(options, ConfigOption::EnableInt2);
        lemma_contains_last(options, ConfigOption::AutoIncrement);
        lemma_contains_last(options, ConfigOption::ThreeWire);
        lemma_contains_last(options, ConfigOption::LittleEndian);
        lemma_contains_last(options, ConfigOption::EnableAccelerometer);
        lemma_contains_last(options, ConfigOption::EnableGyroscope);
        lemma_contains_last(options, ConfigOption::GyroSnooze);
        lemma_contains_last(options, ConfigOption::DisableDataReady);
        lemma_contains_last(options, ConfigOption::SyncSample);
        let osc = pick(front, ConfigOption::DisableOscillator, 0x01);
        let fifo = pick(front, ConfigOption::FifoOnInt1, 0x04);
        let int1 = pick(front, ConfigOption::EnableInt1, 0x08);
        let int2 = pick(front, ConfigOption::EnableInt2, 0x10);
        let inc = pick(front, ConfigOption::AutoIncrement, 0x40);
        let wire = pick(front, ConfigOption::ThreeWire, 0x80);
        let le = pick(front, ConfigOption::LittleEndian, 0x20);
        let acc = pick(front, ConfigOption::EnableAccelerometer, 0x01);
        let gyro = pick(front, ConfigOption::EnableGyroscope, 0x02);
        let snooze = pick(front, ConfigOption::GyroSnooze, 0x10);
        let drdy = pick(front, ConfigOption::DisableDataReady, 0x20);
        let sync = pick(front, ConfigOption::SyncSample, 0x80);
        let x = ControlBytes::selected(front).ctrl1;
        let y = ControlBytes::selected(front).ctrl7;
        assert((x | 0x00) & !0x00u8 == x) by (bit_vector);
        assert(y | 0x00 == y) by (bit_vector);
        match last {
            ConfigOption::DisableOscillator => {
                assert((x | 0x01) & !0x00u8
                    == (0x20u8 | 0x01u8 | fifo | int1 | int2 | inc | wire) & !le) by (bit_vector)
                    requires
                        x == (0x20u8 | osc | fifo | int1 | int2 | inc | wire) & !le,
                        osc == 0x00 || osc == 0x01,
                        le == 0x00 || le == 0x20,
                ;
            },
            ConfigOption::FifoOnInt1 => {
                assert((x | 0x04) & !0x00u8
                    == (0x20u8 | osc | 0x04u8 | int1 | int2 | inc | wire) & !le) by (bit_vector)
                    requires
                        x == (0x20u8 | osc | fifo | int1 | int2 | inc | wire) & !le,
                        fifo == 0x00 || fifo == 0x04,
                        le == 0x00 || le == 0x20,
                ;
            },
            ConfigOption::EnableInt1 => {
                assert((x | 0x08) & !0x00u8
                    == (0x20u8 | osc | fifo | 0x08u8 | int2 | inc | wire) & !le) by (bit_vector)
                    requires
                        x == (0x20u8 | osc | fifo | int1 | int2 | inc | wire) & !le,
                        int1 == 0x00 || int1 == 0x08,
                        le == 0x00 || le == 0x20,
                ;
            },
            ConfigOption::EnableInt2 => {
                assert((x | 0x10) & !0x00u8
                    == (0x20u8 | osc | fifo | int1 | 0x10u8 | inc | wire) & !le) by (bit_vector)
                    requires
                        x == (0x20u8 | osc | fifo | int1 | int2 | inc | wire) & !le,
                        int2 == 0x00 || int2 == 0x10,
                        le == 0x00 || le == 0x20,
                ;
            },
            ConfigOption::AutoIncrement => {
                assert((x | 0x40) & !0x00u8
                    == (0x20u8 | osc | fifo | int1 | int2 | 0x40u8 | wire) & !le) by (bit_vector)
                    requires
                        x == (0x20u8 | osc | fifo | int1 | int2 | inc | wire) & !le,
                        inc == 0x00 || inc == 0x40,
                        le == 0x00 || le == 0x20,
                ;
            },
            ConfigOption::ThreeWire => {
                assert((x | 0x80) & !0x00u8
                    == (0x20u8 | osc | fifo | int1 | int2 | inc | 0x80u8) & !le) by (bit_vector)
                    requires
                        x == (0x20u8 | osc | fifo | int1 | int2 | inc | wire) & !le,
                        wire == 0x00 || wire == 0x80,
                        le == 0x00 || le == 0x20,
                ;
            },
            ConfigOption::LittleEndian => {
                assert((x | 0x00) & !0x20u8
                    == (0x20u8 | osc | fifo | int1 | int2 | inc | wire) & !0x20u8) by (bit_vector)
                    requires
                        x == (0x20u8 | osc | fifo | int1 | int2 | inc | wire) & !le,
                        le == 0x00 || le == 0x20,
                ;
            },
            ConfigOption::EnableAccelerometer => {
                assert(y | 0x01 == 0x01u8 | gyro | snooze | drdy | sync) by (bit_vector)
                    requires
                        y == acc | gyro | snooze | drdy | sync,
                        acc == 0x00 || acc == 0x01,
                ;
            },
            ConfigOption::EnableGyroscope => {
                assert(y | 0x02 == acc | 0x02u8 | snooze | drdy | sync) by (bit_vector)
                    requires
                        y == acc | gyro | snooze | drdy | sync,
                        gyro == 0x00 || gyro == 0x02,
                ;
            },
            ConfigOption::GyroSnooze => {
                assert(y | 0x10 == acc | gyro | 0x10u8 | drdy | sync) by (bit_vector)
                    requires
                        y == acc | gyro | snooze | drdy | sync,
                        snooze == 0x00 || snooze == 0x10,
                ;
            },
            ConfigOption::DisableDataReady => {
                assert(y | 0x20 == acc | gyro | snooze | 0x20u8 | sync) by (bit_vector)
                    requires
                        y == acc | gyro | snooze | drdy | sync,
                        drdy == 0x00 || drdy == 0x20,
                ;
            },
            ConfigOption::SyncSample => {
                assert(y | 0x80 == acc | gyro | snooze | drdy | 0x80u8) by (bit_vector)
                    requires
                        y == acc | gyro | snooze | drdy | sync,
                        sync == 0x00 || sync == 0x80,
                ;
            },
        }
    }
}

/// Order and repetition do not matter: two lists that name the same options
/// give the same bytes.
pub proof fn lemma_order_irrelevant(a: Seq<ConfigOption>, b: Seq<ConfigOption>)
    requires
        forall|option: ConfigOption| a.contains(option) == b.contains(option),
    ensures
        ControlBytes::reset().with_all(a) == ControlBytes::reset().with_all(b),
{
    lemma_with_all_selected(a);
    lemma_with_all_selected(b);
}

/// The bits of CTRL1, read off a byte that is put together from one mask
/// or none for each option.
proof fn lemma_ctrl1_bits(osc: u8, fifo: u8, int1: u8, int2: u8, inc: u8, wire: u8, le: u8, x: u8)
    by (bit_vector)
    requires
        osc == 0x00 || osc == 0x01,
        fifo == 0x00 || fifo == 0x04,
        int1 == 0x00 || int1 == 0x08,
        int2 == 0x00 || int2 == 0x10,
        inc == 0x00 || inc == 0x40,
        wire == 0x00 || wire == 0x80,
        le == 0x00 || le == 0x20,
        x == (0x20u8 | osc | fifo | int1 | int2 | inc | wire) & !le,
    ensures
        (x & 0x01 != 0) == (osc != 0),
        (x & 0x04 != 0) == (fifo != 0),
        (x & 0x08 != 0) == (int1 != 0),
        (x & 0x10 != 0) == (int2 != 0),
        (x & 0x40 != 0) == (inc != 0),
        (x & 0x80 != 0) == (wire != 0),
        (x & 0x20 == 0) == (le != 0),
        x & 0x02 == 0,
{
}

/// The bits of CTRL7, read off a byte that is put together from one mask
/// or none for each option.
proof fn lemma_ctrl7_bits(acc: u8, gyro: u8, snooze: u8, drdy: u8, sync: u8, y: u8)
    by (bit_vector)
    requires
        acc == 0x00 || acc == 0x01,
        gyro == 0x00 || gyro == 0x02,
        snooze == 0x00 || snooze == 0x10,
        drdy == 0x00 || drdy == 0x20,
        sync == 0x00 || sync == 0x80,
        y == acc | gyro | snooze | drdy | sync,
    ensures
        (y & 0x01 != 0) == (acc != 0),
        (y & 0x02 != 0) == (gyro != 0),
        (y & 0x10 != 0) == (snooze != 0),
        (y & 0x20 != 0) == (drdy != 0),
        (y & 0x80 != 0) == (sync != 0),
        y & 0x4C == 0,
{
}

/// Calls the two lemmas above on the bytes that `options` stands for.
proof fn lemma_selected_bits(options: Seq<ConfigOption>)
    ensures
        forall|option: ConfigOption|
            ControlBytes::selected(options).has(option) == options.contains(option),
        ControlBytes::selected(options).ctrl1 & 0x02 == 0,
        ControlBytes::selected(options).ctrl7 & 0x4C == 0,
{
    let chosen = ControlBytes::selected(options);
    lemma_ctrl1_bits(
        pick(options, ConfigOption::DisableOscillator, 0x01),
        pick(options, ConfigOption::FifoOnInt1, 0x04),
        pick(options, ConfigOption::EnableInt1, 0x08),
        pick(options, ConfigOption::EnableInt2, 0x10),
        pick(options, ConfigOption::AutoIncrement, 0x40),
        pick(options, ConfigOption::ThreeWire, 0x80),
        pick(options, ConfigOption::LittleEndian, 0x20),
        chosen.ctrl1,
    );
    lemma_ctrl7_bits(
        pick(options, ConfigOption::EnableAccelerometer, 0x01),
        pick(options, ConfigOption::EnableGyroscope, 0x02),
        pick(options, ConfigOption::GyroSnooze, 0x10),
        pick(options, ConfigOption::DisableDataReady, 0x20),
        pick(options, ConfigOption::SyncSample, 0x80),
        chosen.ctrl7,
    );
    assert forall|option: ConfigOption| chosen.has(option) == options.contains(option) by {
        match option {
            ConfigOption::DisableOscillator => {},
            ConfigOption::FifoOnInt1 => {},
            ConfigOption::EnableInt1 => {},
            ConfigOption::EnableInt2 => {},
            ConfigOption::LittleEndian => {},
            ConfigOption::AutoIncrement => {},
            ConfigOption::ThreeWire => {},
            ConfigOption::EnableAccelerometer => {},
            ConfigOption::EnableGyroscope => {},
            ConfigOption::GyroSnooze => {},
            ConfigOption::DisableDataReady => {},
            ConfigOption::SyncSample => {},
        }
    }
}

/// Each bit stands for its option and for nothing else: after a list of
/// options, the bytes show an option as chosen exactly if the list names it.
pub proof fn lemma_has_iff_chosen(options: Seq<ConfigOption>, option: ConfigOption)
    ensures
        ControlBytes::reset().with_all(options).has(option) == options.contains(option),
{
    lemma_with_all_selected(options);
    lemma_selected_bits(options);
}

/// No option touches a bit that the table of options leaves out: bit 1 of
/// CTRL1 and bits 2, 3 and 6 of CTRL7 stay clear.
pub proof fn lemma_unnamed_bits_stay_clear(options: Seq<ConfigOption>)
    ensures
        ControlBytes::reset().with_all(options).ctrl1 & 0x02 == 0,
        ControlBytes::reset().with_all(options).ctrl7 & 0x4C == 0,
{
    lemma_with_all_selected(options);
    lemma_selected_bits(options);
}

} // verus!
