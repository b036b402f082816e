use vstd::prelude::*;

verus! {

/// Power state that the device reports for its battery.
#[derive(Clone, Copy, Debug, PartialEq, Eq, Hash, Structural)]
pub enum BatteryStatus {
    Available,
    Unavailable,
    Charging,
}

/// One observation of the device's battery: its state and its charge in percent.
/// The level is taken as reported, without a range check.
#[derive(Clone, Copy, Debug, PartialEq, Eq, Hash, Structural)]
pub struct BatteryReading {
    pub status: BatteryStatus,
    pub level: i32,
}

/// Status level published next to the icon.
#[derive(Clone, Copy, Debug, PartialEq, Eq, Hash, Structural)]
pub enum TrayStatus {
    Passive,
    Active,
    NeedsAttention,
}

/// Highest level that still counts as low.
pub const LOW_LEVEL: i32 = 20;

/// Pixel width of the battery fill at level 0.
pub const FILL_WIDTH_MIN: i32 = 71;

/// Pixel width of the battery fill at level 100.
pub const FILL_WIDTH_MAX: i32 = 108;

pub open spec fn status_of(r: BatteryReading) -> TrayStatus {
    match r.status {
        BatteryStatus::Unavailable => TrayStatus::Passive,
        BatteryStatus::Available => if r.level <= LOW_LEVEL {
            TrayStatus::NeedsAttention
        } else {
            TrayStatus::Active
        },
        BatteryStatus::Charging => TrayStatus::Active,
    }
}

/// Passive without a battery, NeedsAttention for an available battery at a
/// level of 20 or less, else Active.
pub fn tray_status(r: &BatteryReading) -> (s: TrayStatus)
    ensures
        s == status_of(*r),
{
    match r.status {
        BatteryStatus::Unavailable => TrayStatus::Passive,
        BatteryStatus::Available => {
            if r.level <= LOW_LEVEL {
                TrayStatus::NeedsAttention
            } else {
                TrayStatus::Active
            }
        },
        BatteryStatus::Charging => TrayStatus::Active,
    }
}

/// Hex colour (six ASCII digits) that fills the battery for a reading.
pub open spec fn fill_color_of(r: BatteryReading) -> Seq<u8> {
    match r.status {
        BatteryStatus::Charging => seq![48u8, 48, 102, 102, 48, 48],
        BatteryStatus::Unavailable => seq![48u8, 48, 48, 48, 48, 48],
        BatteryStatus::Available => if r.level <= LOW_LEVEL {
            seq![102u8, 102, 48, 48, 48, 48]
        } else {
            seq![102u8, 102, 102, 102, 102, 102]
        },
    }
}

/// `00ff00` while charging, `000000` without a battery, `ff0000` when low,
/// `ffffff` otherwise.
pub fn fill_color(r: &BatteryReading) -> (c: Vec<u8>)
    ensures
        c@ == fill_color_of(*r),
{
    let c: Vec<u8> = match r.status {
        BatteryStatus::Charging => vec![48u8, 48, 102, 102, 48, 48],
        BatteryStatus::Unavailable => vec![48u8, 48, 48, 48, 48, 48],
        BatteryStatus::Available => {
            if r.level <= LOW_LEVEL {
                vec![102u8, 102, 48, 48, 48, 48]
            } else {
                vec![102u8, 102, 102, 102, 102, 102]
            }
        },
    };
    assert(c@ =~= fill_color_of(*r));
    c
}

/// An exact fraction `num / den`.
#[derive(Clone, Copy, Debug, PartialEq, Eq, Hash, Structural)]
pub struct Ratio {
    pub num: i128,
    pub den: i128,
}

/// Affine map of `input` from `[input_start, input_end]` onto
/// `[output_start, output_end]`, without clamping, as the exact fraction
/// `output_start + (output_end - output_start) * (input - input_start) / (input_end - input_start)`.
pub fn map_from_to(
    input: i32,
    input_start: i32,
    input_end: i32,
    output_start: i32,
    output_end: i32,
) -> (r: Ratio)
    requires
        input_start != input_end,
    ensures
        r.den == input_end - input_start,
        r.num == output_start * r.den + (output_end - output_start) * (input - input_start),
{
    let den: i128 = input_end as i128 - input_start as i128;
    let span: i128 = output_end as i128 - output_start as i128;
    let offset: i128 = input as i128 - input_start as i128;
    assert(-0x1_0000_0000 * 0x1_0000_0000 <= span * offset <= 0x1_0000_0000 * 0x1_0000_0000)
        by (nonlinear_arith)
        requires
            -0x1_0000_0000 <= span <= 0x1_0000_0000,
            -0x1_0000_0000 <= offset <= 0x1_0000_0000,
    ;
    assert(-0x1_0000_0000 * 0x1_0000_0000 <= output_start as i128 * den <= 0x1_0000_0000
        * 0x1_0000_0000) by (nonlinear_arith)
        requires
            -0x1_0000_0000 <= output_start <= 0x1_0000_0000,
            -0x1_0000_0000 <= den <= 0x1_0000_0000,
    ;
    Ratio { num: output_start as i128 * den + span * offset, den }
}

/// Width of the battery fill in hundredths of a pixel: the level mapped from
/// `[0, 100]` onto `[71, 108]`.
pub open spec fn fill_width_centi(level: int) -> int {
    FILL_WIDTH_MIN * 100 + (FILL_WIDTH_MAX - FILL_WIDTH_MIN) * level
}

/// Width of the battery fill in hundredths of a pixel, extrapolated beyond `[0, 100]`.
pub fn fill_width(r: &BatteryReading) -> (w: i64)
    ensures
        w == fill_width_centi(r.level as int),
{
    let m = map_from_to(r.level, 0, 100, FILL_WIDTH_MIN, FILL_WIDTH_MAX);
    m.num as i64
}

} // verus!
