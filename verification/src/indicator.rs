use vstd::prelude::*;

verus! {

/// The phases the status indicator runs through while the device boots:
/// idle, then (only on an unprovisioned device) provisioning, then
/// connecting, then connected. Each phase is shown by a single atomic
/// colour write, diagnostic only — a downstream failure rolls nothing
/// back.
#[derive(Clone, Copy, PartialEq, Eq, Structural, Debug)]
pub enum IndicatorPhase {
    Idle,
    ProvisioningPending,
    Connecting,
    Connected,
}

/// A colour as the three channel levels of the indicator.
#[derive(Clone, Copy, PartialEq, Eq, Structural, Debug)]
pub struct Rgb {
    pub red: u8,
    pub green: u8,
    pub blue: u8,
}

/// The colour written for each phase.
pub open spec fn spec_phase_color(phase: IndicatorPhase) -> Rgb {
    match phase {
        IndicatorPhase::Idle => Rgb { red: 0x10, green: 0x00, blue: 0x00 },
        IndicatorPhase::ProvisioningPending => Rgb { red: 0x10, green: 0x10, blue: 0x00 },
        IndicatorPhase::Connecting => Rgb { red: 0x10, green: 0x10, blue: 0x00 },
        IndicatorPhase::Connected => Rgb { red: 0x00, green: 0x10, blue: 0x00 },
    }
}

/// Picks the colour that shows a boot phase.
pub fn phase_color(phase: IndicatorPhase) -> (c: Rgb)
    ensures
        c == spec_phase_color(phase),
{
    match phase {
        IndicatorPhase::Idle => Rgb { red: 0x10, green: 0x00, blue: 0x00 },
        IndicatorPhase::ProvisioningPending => Rgb { red: 0x10, green: 0x10, blue: 0x00 },
        IndicatorPhase::Connecting => Rgb { red: 0x10, green: 0x10, blue: 0x00 },
        IndicatorPhase::Connected => Rgb { red: 0x00, green: 0x10, blue: 0x00 },
    }
}

/// The largest timer resolution for which a duty computation cannot
/// overflow 32 bits: `u32::MAX / 255`.
pub const MAX_DUTY_LIMIT: u32 = 16843009;

/// The duty cycle that shows one channel level: the timer's full duty
/// scaled by `level / 255`.
pub fn duty_for_level(max_duty: u32, level: u8) -> (d: u32)
    requires
        max_duty <= MAX_DUTY_LIMIT,
    ensures
        d == max_duty * level / 255,
        d <= max_duty,
{
    proof {
        assert(max_duty * level <= max_duty * 255) by (nonlinear_arith)
            requires
                level <= 255,
                max_duty >= 0,
        ;
        assert(max_duty * 255 <= MAX_DUTY_LIMIT * 255) by (nonlinear_arith)
            requires
                max_duty <= MAX_DUTY_LIMIT,
        ;
        assert(max_duty * 255 / 255 == max_duty) by (nonlinear_arith);
        assert(max_duty * level / 255 <= max_duty * 255 / 255) by (nonlinear_arith)
            requires
                max_duty * level <= max_duty * 255,
        ;
    }
    let d = (max_duty * level as u32) / 255;
    d
}

/// The three duty cycles that show a colour.
pub fn color_duties(max_duty: u32, color: Rgb) -> (d: (u32, u32, u32))
    requires
        max_duty <= MAX_DUTY_LIMIT,
    ensures
        d.0 == max_duty * color.red / 255,
        d.1 == max_duty * color.green / 255,
        d.2 == max_duty * color.blue / 255,
{
    (
        duty_for_level(max_duty, color.red),
        duty_for_level(max_duty, color.green),
        duty_for_level(max_duty, color.blue),
    )
}

/// The two duty cycles that show a white-channel brightness pair (cold
/// white, warm white).
pub fn brightness_duties(max_duty: u32, cold: u8, warm: u8) -> (d: (u32, u32))
    requires
        max_duty <= MAX_DUTY_LIMIT,
    ensures
        d.0 == max_duty * cold / 255,
        d.1 == max_duty * warm / 255,
{
    (duty_for_level(max_duty, cold), duty_for_level(max_duty, warm))
}

} // verus!
