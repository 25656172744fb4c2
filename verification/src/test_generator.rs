//! The fixed roster of display bring-up test cases: five timing sweeps,
//! ten color-format combinations, five reset/sequence variations.

use vstd::prelude::*;

use crate::display_config::BitOrder;
use crate::display_config::ByteOrder;
use crate::display_config::ColorFormat;
use crate::display_config::DisplayConfig;
use crate::display_config::QspiMode;
use crate::timing::TimingConfig;

verus! {

/// Which bring-up sequence a test runs.
#[derive(Clone, Copy, Debug, PartialEq, Eq, Structural)]
pub enum InitVariant {
    Standard,
    DoubleReset,
    ResetHeldDuringPower,
    AltCommandOrder,
    MinimalInit,
}

/// One numbered test: a phase label, a display name, a sequence variant
/// and a full panel configuration.
#[derive(Clone, Copy, Debug)]
pub struct TestCase {
    pub id: usize,
    pub phase: &'static str,
    pub name: &'static str,
    pub variant: InitVariant,
    pub config: DisplayConfig,
}

/// A timing sweep entry: the four swept waits plus the fixed rail,
/// backlight and inter-command delays.
pub open spec fn sweep_timing(reset: u32, post: u32, sleep: u32, display: u32) -> TimingConfig {
    TimingConfig {
        reset_hold_ms: reset,
        post_reset_wait_ms: post,
        sleep_out_wait_ms: sleep,
        display_on_wait_ms: display,
        power_rail_delay_ms: 100,
        backlight_delay_ms: 100,
        inter_command_delay_ms: 20,
    }
}

/// Timing of roster entry `i`: the five sweeps first, then the safe sweep
/// throughout, with long rail delays in the dedicated entry.
pub open spec fn expected_timing(i: int) -> TimingConfig {
    if i == 0 {
        sweep_timing(500, 500, 500, 200)
    } else if i == 2 {
        sweep_timing(100, 300, 300, 100)
    } else if i == 3 {
        sweep_timing(50, 200, 200, 50)
    } else if i == 4 {
        sweep_timing(10, 120, 120, 10)
    } else if i == 16 {
        TimingConfig {
            reset_hold_ms: 200,
            post_reset_wait_ms: 300,
            sleep_out_wait_ms: 300,
            display_on_wait_ms: 100,
            power_rail_delay_ms: 500,
            backlight_delay_ms: 100,
            inter_command_delay_ms: 20,
        }
    } else {
        sweep_timing(200, 300, 300, 100)
    }
}

/// Pixel format of roster entry `i`.
pub open spec fn expected_format(i: int) -> ColorFormat {
    if i == 6 || i == 10 || i == 13 {
        ColorFormat::RGB565
    } else if i == 7 {
        ColorFormat::BGR666
    } else if i == 8 {
        ColorFormat::RGB888
    } else {
        ColorFormat::RGB666
    }
}

/// Full panel configuration of roster entry `i`.
pub open spec fn expected_config(i: int) -> DisplayConfig {
    DisplayConfig {
        format: expected_format(i),
        byte_order: if i == 9 || i == 10 {
            ByteOrder::BigEndian
        } else {
            ByteOrder::LittleEndian
        },
        bit_order: if i == 11 {
            BitOrder::LSBFirst
        } else {
            BitOrder::MSBFirst
        },
        qspi_mode: if i == 12 || i == 13 {
            QspiMode::Dual
        } else if i == 14 {
            QspiMode::Single
        } else {
            QspiMode::Quad
        },
        timing: expected_timing(i),
    }
}

/// Sequence variant of roster entry `i`.
pub open spec fn expected_variant(i: int) -> InitVariant {
    if i == 15 {
        InitVariant::DoubleReset
    } else if i == 17 {
        InitVariant::ResetHeldDuringPower
    } else if i == 18 {
        InitVariant::AltCommandOrder
    } else if i == 19 {
        InitVariant::MinimalInit
    } else {
        InitVariant::Standard
    }
}

/// A timing sweep entry as an executable value.
fn timing(reset: u32, post: u32, sleep: u32, display: u32) -> (t: TimingConfig)
    ensures
        t == sweep_timing(reset, post, sleep, display),
{
    TimingConfig {
        reset_hold_ms: reset,
        post_reset_wait_ms: post,
        sleep_out_wait_ms: sleep,
        display_on_wait_ms: display,
        power_rail_delay_ms: 100,
        backlight_delay_ms: 100,
        inter_command_delay_ms: 20,
    }
}

/// The full roster, in order: ids 1 to 20, each with the phase, name,
/// variant, format, orders, bus mode and timing fixed by the expectation
/// functions above.
pub fn build_tests() -> (tests: Vec<TestCase>)
    ensures
        tests@.len() == 20,
        forall|i: int| 0 <= i < 20 ==> (#[trigger] tests@[i]).id == i + 1,
        forall|i: int| 0 <= i < 20 ==> (#[trigger] tests@[i]).variant == expected_variant(i),
        forall|i: int| 0 <= i < 20 ==> (#[trigger] tests@[i]).config == expected_config(i),
        forall|i: int| 0 <= i < 5 ==> (#[trigger] tests@[i]).phase@ == "Phase 1: Timing Validation"@,
        forall|i: int| 5 <= i < 15 ==> (#[trigger] tests@[i]).phase@ == "Phase 2: Color Format Tests"@,
        forall|i: int|
            15 <= i < 20 ==> (#[trigger] tests@[i]).phase@ == "Phase 3: Reset/Sequence Variations"@,
        tests@[0].name@ == "Ultra-safe"@,
        tests@[1].name@ == "Very safe"@,
        tests@[2].name@ == "Conservative"@,
        tests@[3].name@ == "Moderate"@,
        tests@[4].name@ == "Datasheet minimums"@,
        tests@[5].name@ == "RGB666 LE MSB Quad"@,
        tests@[6].name@ == "RGB565 LE MSB Quad"@,
        tests@[7].name@ == "BGR666 LE MSB Quad"@,
        tests@[8].name@ == "RGB888 LE MSB Quad"@,
        tests@[9].name@ == "RGB666 BE MSB Quad"@,
        tests@[10].name@ == "RGB565 BE MSB Quad"@,
        tests@[11].name@ == "RGB666 LE LSB Quad"@,
        tests@[12].name@ == "RGB666 LE MSB Dual"@,
        tests@[13].name@ == "RGB565 LE MSB Dual"@,
        tests@[14].name@ == "RGB666 LE MSB Single"@,
        tests@[15].name@ == "Double software reset (0x01)"@,
        tests@[16].name@ == "Long rail delays"@,
        tests@[17].name@ == "Software reset before init"@,
        tests@[18].name@ == "Alt command order"@,
        tests@[19].name@ == "Minimal init"@,
{
    let phase1 = "Phase 1: Timing Validation";
    let phase2 = "Phase 2: Color Format Tests";
    let phase3 = "Phase 3: Reset/Sequence Variations";

    let t1 = timing(500, 500, 500, 200);
    let t2 = timing(200, 300, 300, 100);
    let t3 = timing(100, 300, 300, 100);
    let t4 = timing(50, 200, 200, 50);
    let t5 = timing(10, 120, 120, 10);

    let base_phase1 = DisplayConfig {
        format: ColorFormat::RGB666,
        byte_order: ByteOrder::LittleEndian,
        bit_order: BitOrder::MSBFirst,
        qspi_mode: QspiMode::Quad,
        timing: t1,
    };

    let mut tests: Vec<TestCase> = Vec::new();
    tests.push(TestCase {
        id: 1,
        phase: phase1,
        name: "Ultra-safe",
        variant: InitVariant::Standard,
        config: DisplayConfig { timing: t1, ..base_phase1 },
    });
    tests.push(TestCase {
        id: 2,
        phase: phase1,
        name: "Very safe",
        variant: InitVariant::Standard,
        config: DisplayConfig { timing: t2, ..base_phase1 },
    });
    tests.push(TestCase {
        id: 3,
        phase: phase1,
        name: "Conservative",
        variant: InitVariant::Standard,
        config: DisplayConfig { timing: t3, ..base_phase1 },
    });
    tests.push(TestCase {
        id: 4,
        phase: phase1,
        name: "Moderate",
        variant: InitVariant::Standard,
        config: DisplayConfig { timing: t4, ..base_phase1 },
    });
    tests.push(TestCase {
        id: 5,
        phase: phase1,
        name: "Datasheet minimums",
        variant: InitVariant::Standard,
        config: DisplayConfig { timing: t5, ..base_phase1 },
    });

    let base_phase2 = DisplayConfig { timing: t2, ..base_phase1 };

    tests.push(TestCase {
        id: 6,
        phase: phase2,
        name: "RGB666 LE MSB Quad",
        variant: InitVariant::Standard,
        config: DisplayConfig { ..base_phase2 },
    });
    tests.push(TestCase {
        id: 7,
        phase: phase2,
        name: "RGB565 LE MSB Quad",
        variant: InitVariant::Standard,
        config: DisplayConfig { format: ColorFormat::RGB565, ..base_phase2 },
    });
    tests.push(TestCase {
        id: 8,
        phase: phase2,
        name: "BGR666 LE MSB Quad",
        variant: InitVariant::Standard,
        config: DisplayConfig { format: ColorFormat::BGR666, ..base_phase2 },
    });
    tests.push(TestCase {
        id: 9,
        phase: phase2,
        name: "RGB888 LE MSB Quad",
        variant: InitVariant::Standard,
        config: DisplayConfig { format: ColorFormat::RGB888, ..base_phase2 },
    });
    tests.push(TestCase {
        id: 10,
        phase: phase2,
        name: "RGB666 BE MSB Quad",
        variant: InitVariant::Standard,
        config: DisplayConfig { byte_order: ByteOrder::BigEndian, ..base_phase2 },
    });
    tests.push(TestCase {
        id: 11,
        phase: phase2,
        name: "RGB565 BE MSB Quad",
        variant: InitVariant::Standard,
        config: DisplayConfig {
            format: ColorFormat::RGB565,
            byte_order: ByteOrder::BigEndian,
            ..base_phase2
        },
    });
    tests.push(TestCase {
        id: 12,
        phase: phase2,
        name: "RGB666 LE LSB Quad",
        variant: InitVariant::Standard,
        config: DisplayConfig { bit_order: BitOrder::LSBFirst, ..base_phase2 },
    });
    tests.push(TestCase {
        id: 13,
        phase: phase2,
        name: "RGB666 LE MSB Dual",
        variant: InitVariant::Standard,
        config: DisplayConfig { qspi_mode: QspiMode::Dual, ..base_phase2 },
    });
    tests.push(TestCase {
        id: 14,
        phase: phase2,
        name: "RGB565 LE MSB Dual",
        variant: InitVariant::Standard,
        config: DisplayConfig {
            format: ColorFormat::RGB565,
            qspi_mode: QspiMode::Dual,
            ..base_phase2
        },
    });
    tests.push(TestCase {
        id: 15,
        phase: phase2,
        name: "RGB666 LE MSB Single",
        variant: InitVariant::Standard,
        config: DisplayConfig { qspi_mode: QspiMode::Single, ..base_phase2 },
    });

    let phase3_base = DisplayConfig { timing: t2, ..base_phase1 };
    tests.push(TestCase {
        id: 16,
        phase: phase3,
        name: "Double software reset (0x01)",
        variant: InitVariant::DoubleReset,
        config: DisplayConfig { timing: t2, ..phase3_base },
    });
    tests.push(TestCase {
        id: 17,
        phase: phase3,
        name: "Long rail delays",
        variant: InitVariant::Standard,
        config: DisplayConfig {
            timing: TimingConfig { power_rail_delay_ms: 500, ..t2 },
            ..phase3_base
        },
    });
    tests.push(TestCase {
        id: 18,
        phase: phase3,
        name: "Software reset before init",
        variant: InitVariant::ResetHeldDuringPower,
        config: DisplayConfig { timing: t2, ..phase3_base },
    });
    tests.push(TestCase {
        id: 19,
        phase: phase3,
        name: "Alt command order",
        variant: InitVariant::AltCommandOrder,
        config: DisplayConfig { timing: t2, ..phase3_base },
    });
    tests.push(TestCase {
        id: 20,
        phase: phase3,
        name: "Minimal init",
        variant: InitVariant::MinimalInit,
        config: DisplayConfig { timing: t2, ..phase3_base },
    });

    tests
}

} // verus!
