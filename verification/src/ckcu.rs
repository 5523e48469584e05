//! Clock control unit.
//!
//! A [`Configuration`] accumulates declarative frequency targets for the
//! HT32F52342 clock tree. Its terminal operation resolves those targets
//! against the fixed hardware constraints (oscillator ranges, PLL divider
//! limits, prescaler tables) and yields a [`CommitPlan`]: the ordered
//! sequence of register operations that programs the tree, together with
//! the frequencies the hardware will actually achieve. Once every operation
//! of the plan has been applied, the plan is turned into the frozen
//! [`Clocks`] snapshot that the peripheral drivers read.

use vstd::prelude::*;
use vstd::arithmetic::div_mod::{
    lemma_div_by_multiple, lemma_div_by_self, lemma_div_is_ordered,
    lemma_div_is_ordered_by_denominator, lemma_fundamental_div_mod_converse_div,
    lemma_fundamental_div_mod_converse_mod,
};
use vstd::arithmetic::mul::lemma_mul_upper_bound;

use crate::time::Hertz;

verus! {

/// High speed internal oscillator, fixed at 8 MHz.
pub const HSI: u32 = 8_000_000;

/// Low speed internal oscillator, fixed at 32 kHz.
pub const LSI: u32 = 32_000;

/// All clocks that can be routed to the CKOUT pin.
#[derive(Debug, Clone, Copy, PartialEq, Eq, Structural)]
pub enum CkoutSrc {
    /// Output the CK_REF, no prescaler
    CkRef,
    /// Output the HCLK, divided by 16
    Hclk,
    /// Output the CK_SYS, divided by 16
    CkSys,
    /// Output the CK_HSE, divided by 16
    CkHse,
    /// Output the CK_HSI, divided by 16
    CkHsi,
    /// Output the CK_LSE, no prescaler
    CkLse,
    /// Output the CK_LSI, no prescaler
    CkLsi,
}

/// Targeted values for the clock tree.
///
/// Every field is optional: "unset" is distinct from "set to zero", and no
/// validation happens before the terminal [`Configuration::resolve`] call,
/// since only there is the full picture of mutually constraining targets
/// available.
#[derive(Debug, Clone, Copy, PartialEq)]
pub struct Configuration {
    /// Which clock should be output via CKOUT
    pub ckout: Option<CkoutSrc>,
    /// The frequency of an external high speed oscillator, should one be given
    pub hse: Option<Hertz>,
    /// The frequency of an external low speed oscillator, should one be given
    pub lse: Option<Hertz>,
    /// The desired frequency for CK_USB, the USB clock
    pub ck_usb: Option<Hertz>,
    /// The desired frequency for CK_ADC_IP, the ADC clock
    pub ck_adc_ip: Option<Hertz>,
    /// The desired frequency for CK_SYS, the system clock
    pub ck_sys: Option<Hertz>,
    /// The desired frequency for HCLK, the AHB bus clock
    pub hclk: Option<Hertz>,
}

impl Configuration {
    /// A configuration with no targets set.
    pub fn new() -> (r: Configuration)
        ensures
            r == (Configuration {
                ckout: None,
                hse: None,
                lse: None,
                ck_usb: None,
                ck_adc_ip: None,
                ck_sys: None,
                hclk: None,
            }),
    {
        Configuration {
            ckout: None,
            hse: None,
            lse: None,
            ck_usb: None,
            ck_adc_ip: None,
            ck_sys: None,
            hclk: None,
        }
    }

    /// Set the clock that should be output via CKOUT.
    pub fn ckout(self, ckout: CkoutSrc) -> (r: Self)
        ensures
            r == (Configuration { ckout: Some(ckout), ..self }),
    {
        Configuration { ckout: Some(ckout), ..self }
    }

    /// Declare that an external high speed oscillator of the given frequency
    /// is in use; it is then preferred over the internal one.
    pub fn use_hse(self, hse: Hertz) -> (r: Self)
        ensures
            r == (Configuration { hse: Some(hse), ..self }),
    {
        Configuration { hse: Some(hse), ..self }
    }

    /// Declare that an external low speed oscillator of the given frequency
    /// is in use; it is then preferred over the internal one.
    pub fn use_lse(self, freq: Hertz) -> (r: Self)
        ensures
            r == (Configuration { lse: Some(freq), ..self }),
    {
        Configuration { lse: Some(freq), ..self }
    }

    /// Set the desired value for CK_USB.
    pub fn ck_usb(self, freq: Hertz) -> (r: Self)
        ensures
            r == (Configuration { ck_usb: Some(freq), ..self }),
    {
        Configuration { ck_usb: Some(freq), ..self }
    }

    /// Set the desired value for CK_ADC_IP.
    pub fn ck_adc_ip(self, freq: Hertz) -> (r: Self)
        ensures
            r == (Configuration { ck_adc_ip: Some(freq), ..self }),
    {
        Configuration { ck_adc_ip: Some(freq), ..self }
    }

    /// Set the desired value for CK_SYS.
    pub fn ck_sys(self, freq: Hertz) -> (r: Self)
        ensures
            r == (Configuration { ck_sys: Some(freq), ..self }),
    {
        Configuration { ck_sys: Some(freq), ..self }
    }

    /// Set the desired value for HCLK.
    pub fn hclk(self, freq: Hertz) -> (r: Self)
        ensures
            r == (Configuration { hclk: Some(freq), ..self }),
    {
        Configuration { hclk: Some(freq), ..self }
    }
}

/// Constrained clock control unit peripheral: the raw register handle has
/// been consumed, and the clock tree can only be set up through the held
/// [`Configuration`].
pub struct Ckcu {
    pub configuration: Configuration,
}

/// Extension trait that constrains the raw clock control peripheral so it
/// plays nicely with the other abstractions.
pub trait CkcuExt {
    /// Consume the raw peripheral. The returned value starts with no
    /// targets set, and the raw register handle cannot be used again
    /// except through this abstraction.
    fn constrain(self) -> (r: Ckcu)
        ensures
            r.configuration == (Configuration {
                ckout: None,
                hse: None,
                lse: None,
                ck_usb: None,
                ck_adc_ip: None,
                ck_sys: None,
                hclk: None,
            }),
    ;
}

/// The clock control unit register singleton of the HT32F52342/52, as the
/// peripheral access crate hands it out. Opaque here: it is only ever
/// consumed whole by [`CkcuExt::constrain`].
#[verifier::external_type_specification]
#[verifier::external_body]
pub struct ExCkcu(ht32f5xxxx::ht32f52342_52::CKCU);

impl CkcuExt for ht32f5xxxx::ht32f52342_52::CKCU {
    fn constrain(self) -> (r: Ckcu) {
        Ckcu { configuration: Configuration::new() }
    }
}

/// Why a configuration could not be resolved.
#[derive(Debug, Clone, Copy, PartialEq, Eq, Structural)]
pub enum ClockError {
    /// The CK_SYS target exceeds the 48 MHz hardware ceiling. A
    /// precondition violation: the value is unrepresentable, not merely
    /// suboptimal.
    SysClockTooHigh,
    /// The CK_USB target reaches the 48 MHz hardware ceiling. A
    /// precondition violation.
    UsbClockTooHigh,
    /// No legal PLL divider pair can approach the requested PLL output:
    /// the search over the feedback and output dividers found no candidate
    /// whose VCO and output frequencies lie in the hardware ranges.
    PllUnreachable,
    /// A bus or ADC clock target of zero was requested; no prescaler bracket
    /// covers it. A precondition violation.
    ZeroFrequencyTarget,
    /// The HCLK target exceeds the achieved system clock, so no bus
    /// prescaler bracket covers the ratio. A precondition violation.
    BusClockTooHigh,
    /// The CK_ADC_IP target exceeds the achieved bus clock, so no ADC
    /// prescaler bracket covers the ratio. A precondition violation.
    AdcClockTooHigh,
}

/// One register operation of the ordered commit sequence.
///
/// The order in which these are applied is safety-critical; they are only
/// ever handed out inside a [`CommitPlan`], whose sequence must be applied
/// front to back.
#[derive(Debug, Clone, Copy, PartialEq, Eq, Structural)]
pub enum RegisterOp {
    /// Write the PLL input source select bit: `true` selects the external
    /// high speed oscillator, `false` the internal one.
    SetPllSource(bool),
    /// Write the encoded feedback divider (PFBD) and output divider (POTD)
    /// fields of the PLL configuration register.
    SetPllDividers(u8, u8),
    /// Set the PLL enable bit.
    EnablePll,
    /// Poll the PLL ready status bit until it reads as set.
    AwaitPllLock,
    /// Write the flash wait state field; raised before the system clock mux
    /// is switched whenever the bus clock will exceed 24 MHz.
    SetFlashWaitStates(u8),
    /// Switch the CK_SYS mux to the given source code.
    SetSysMux(u8),
    /// Write the AHB prescaler field.
    SetBusPrescaler(u8),
    /// Write the ADC prescaler field.
    SetAdcPrescaler(u8),
    /// Route the selected clock to the CKOUT pin, done last so it reflects
    /// the stable tree.
    SetCkout(u8),
}

/// Frozen core clock frequencies.
///
/// The existence of this value indicates that the core clock configuration
/// has been committed to the hardware and can no longer change; it is only
/// ever produced by [`CommitPlan::into_clocks`].
#[derive(Debug, Clone, Copy, PartialEq)]
pub struct Clocks {
    /// Which clock is output via CKOUT, if any
    ckout: Option<CkoutSrc>,
    /// The achieved frequency for CK_USB, the USB clock
    ck_usb: Hertz,
    /// The achieved frequency for CK_ADC_IP, the ADC clock
    ck_adc_ip: Hertz,
    /// The achieved frequency for CK_SYS, the system clock
    ck_sys: Hertz,
    /// The achieved frequency for STCLK, the SysTick clock
    stclk: Hertz,
    /// The achieved frequency for HCLK, the AHB bus clock
    hclk: Hertz,
}

impl Clocks {
    /// The CKOUT selection, if any.
    pub closed spec fn spec_ckout(self) -> Option<CkoutSrc> {
        self.ckout
    }

    /// The achieved USB clock.
    pub closed spec fn spec_ck_usb(self) -> Hertz {
        self.ck_usb
    }

    /// The achieved ADC clock.
    pub closed spec fn spec_ck_adc_ip(self) -> Hertz {
        self.ck_adc_ip
    }

    /// The achieved system clock.
    pub closed spec fn spec_ck_sys(self) -> Hertz {
        self.ck_sys
    }

    /// The achieved SysTick clock.
    pub closed spec fn spec_stclk(self) -> Hertz {
        self.stclk
    }

    /// The achieved bus clock.
    pub closed spec fn spec_hclk(self) -> Hertz {
        self.hclk
    }

    /// The CKOUT selection, if any.
    pub fn ckout(&self) -> (r: Option<CkoutSrc>)
        ensures
            r == self.spec_ckout(),
    {
        self.ckout
    }

    /// The achieved USB clock.
    pub fn ck_usb(&self) -> (r: Hertz)
        ensures
            r == self.spec_ck_usb(),
    {
        self.ck_usb
    }

    /// The achieved ADC clock.
    pub fn ck_adc_ip(&self) -> (r: Hertz)
        ensures
            r == self.spec_ck_adc_ip(),
    {
        self.ck_adc_ip
    }

    /// The achieved system clock.
    pub fn ck_sys(&self) -> (r: Hertz)
        ensures
            r == self.spec_ck_sys(),
    {
        self.ck_sys
    }

    /// The achieved SysTick clock.
    pub fn stclk(&self) -> (r: Hertz)
        ensures
            r == self.spec_stclk(),
    {
        self.stclk
    }

    /// The achieved bus clock.
    pub fn hclk(&self) -> (r: Hertz)
        ensures
            r == self.spec_hclk(),
    {
        self.hclk
    }
}

// ---------------------------------------------------------------------------
// Resolution model: which source feeds CK_SYS, and what the PLL must produce
// ---------------------------------------------------------------------------

/// Absolute difference of two integers.
pub open spec fn abs_diff(a: int, b: int) -> int {
    if a >= b {
        a - b
    } else {
        b - a
    }
}

/// The high speed source frequency: the declared external oscillator if
/// present, else the fixed internal 8 MHz one.
pub open spec fn spec_hso(cfg: Configuration) -> int {
    match cfg.hse {
        Some(h) => h.0 as int,
        None => HSI as int,
    }
}

/// Whether the PLL input mux selects the external high speed oscillator.
pub open spec fn spec_pll_src_external(cfg: Configuration) -> bool {
    cfg.hse is Some
}

/// Whether the CK_SYS target violates the 48 MHz hardware ceiling.
pub open spec fn spec_sys_too_high(cfg: Configuration) -> bool {
    match cfg.ck_sys {
        Some(t) => t.0 > 48_000_000,
        None => false,
    }
}

/// Whether the CK_USB target violates the 48 MHz hardware ceiling.
pub open spec fn spec_usb_too_high(cfg: Configuration) -> bool {
    match cfg.ck_usb {
        Some(t) => t.0 >= 48_000_000,
        None => false,
    }
}

/// The CK_SYS mux code. With an explicit target, the fixed oscillators are
/// preferred over the PLL, in the order: external low speed, external high
/// speed, internal low speed, internal high speed; only a target matching
/// none of them selects the PLL (code 0). With no target, the lowest-power
/// source is chosen: the external low speed oscillator if declared, else
/// the internal one.
pub open spec fn spec_sys_mux(cfg: Configuration) -> u8 {
    match cfg.ck_sys {
        Some(t) => {
            if cfg.lse matches Some(l) && l == t {
                0b110
            } else if cfg.hse matches Some(h) && h == t {
                0b010
            } else if t.0 == LSI {
                0b111
            } else if t.0 == HSI {
                0b011
            } else {
                0b000
            }
        },
        None => if cfg.lse is Some {
            0b110
        } else {
            0b111
        },
    }
}

/// The provisional CK_SYS frequency before any PLL adjustment: the matched
/// oscillator's frequency, or the raw target when the PLL path is taken.
pub open spec fn spec_provisional_sys(cfg: Configuration) -> int {
    match cfg.ck_sys {
        Some(t) => {
            if cfg.lse matches Some(l) && l == t {
                t.0 as int
            } else if cfg.hse matches Some(h) && h == t {
                t.0 as int
            } else if t.0 == LSI {
                LSI as int
            } else if t.0 == HSI {
                HSI as int
            } else {
                t.0 as int
            }
        },
        None => match cfg.lse {
            Some(l) => l.0 as int,
            None => LSI as int,
        },
    }
}

/// The PLL output the system clock requires: the CK_SYS target when it
/// matches no fixed oscillator exactly.
pub open spec fn spec_sys_pll_target(cfg: Configuration) -> Option<int> {
    match cfg.ck_sys {
        Some(t) => {
            if cfg.lse matches Some(l) && l == t {
                None
            } else if cfg.hse matches Some(h) && h == t {
                None
            } else if t.0 == LSI {
                None
            } else if t.0 == HSI {
                None
            } else {
                Some(t.0 as int)
            }
        },
        None => None,
    }
}

/// The PLL output frequency to aim for, if the PLL is needed at all: the
/// system clock's requirement first, else the USB target (system and USB
/// clock share the single PLL instance).
pub open spec fn spec_pll_target(cfg: Configuration) -> Option<int> {
    match spec_sys_pll_target(cfg) {
        Some(t) => Some(t),
        None => match cfg.ck_usb {
            Some(u) => Some(u.0 as int),
            None => None,
        },
    }
}

// ---------------------------------------------------------------------------
// PLL divider search model
// ---------------------------------------------------------------------------

/// Whether a (feedback divider, output divider) pair is legal for the given
/// high speed source: the dividers lie in their hardware ranges, the VCO
/// stage frequency `hso * (4 * nf2) / 2 = 2 * hso * nf2` lies in
/// [48 MHz, 96 MHz], and the exact rational PLL output `hso * nf2 / no2`
/// lies strictly inside (4 MHz, 48 MHz).
pub open spec fn candidate_ok(h: int, nf2: int, no2: int) -> bool {
    let hn = h * nf2;
    &&& 1 <= nf2 <= 16
    &&& (no2 == 1 || no2 == 2 || no2 == 4 || no2 == 8)
    &&& 48_000_000 <= 2 * hn
    &&& 2 * hn <= 96_000_000
    &&& 4_000_000 * no2 < hn
    &&& hn < 48_000_000 * no2
}

/// Numerator of the distance between the candidate ratio `nf2 / no2` and
/// the ideal ratio `t / h`, scaled by `no2 * h`: two candidates a and b
/// satisfy `dist(a) < dist(b)` exactly when
/// `dist_num(a) * b.no2 < dist_num(b) * a.no2`, for `h > 0`.
pub open spec fn dist_num(h: int, t: int, nf2: int, no2: int) -> int {
    abs_diff(h * nf2, t * no2)
}

/// Whether candidate `(an, ao)` approximates the ideal ratio strictly
/// better than candidate `(bn, bo)`.
pub open spec fn closer_strict(h: int, t: int, an: int, ao: int, bn: int, bo: int) -> bool {
    dist_num(h, t, an, ao) * bo < dist_num(h, t, bn, bo) * ao
}

/// The feedback divider of the i-th searched combination; combinations are
/// enumerated in ascending feedback divider, then ascending output divider
/// order.
pub open spec fn combo_nf2(i: int) -> int {
    i / 4 + 1
}

/// The output divider of the i-th searched combination.
pub open spec fn combo_no2(i: int) -> int {
    if i % 4 == 0 {
        1
    } else if i % 4 == 1 {
        2
    } else if i % 4 == 2 {
        4
    } else {
        8
    }
}

/// The best legal divider pair among the first `n` searched combinations:
/// the first one encountered that minimizes the distance to the ideal
/// ratio, earlier combinations winning ties.
pub open spec fn best_upto(h: int, t: int, n: int) -> Option<(int, int)>
    decreases n,
{
    if n <= 0 {
        None
    } else {
        let prev = best_upto(h, t, n - 1);
        let nf2 = combo_nf2(n - 1);
        let no2 = combo_no2(n - 1);
        if !candidate_ok(h, nf2, no2) {
            prev
        } else {
            match prev {
                None => Some((nf2, no2)),
                Some(b) => if closer_strict(h, t, nf2, no2, b.0, b.1) {
                    Some((nf2, no2))
                } else {
                    Some(b)
                },
            }
        }
    }
}

/// The divider pair the PLL search selects for high speed source `h` and
/// target output `t`, or `None` when no pair is legal for `h`.
pub open spec fn spec_pll_best(h: int, t: int) -> Option<(int, int)> {
    best_upto(h, t, 64)
}

/// The hardware encoding of the feedback divider: 16 maps to 0, all other
/// values to themselves.
pub open spec fn spec_encode_nf2(nf2: int) -> u8 {
    if nf2 == 16 {
        0
    } else {
        nf2 as u8
    }
}

/// The hardware encoding of the output divider: {1, 2, 4, 8} map to the
/// 2-bit codes {0, 1, 2, 3}.
pub open spec fn spec_encode_no2(no2: int) -> u8 {
    if no2 == 1 {
        0
    } else if no2 == 2 {
        1
    } else if no2 == 4 {
        2
    } else {
        3
    }
}

/// The 3-bit code the CKOUT mux uses for each routable clock.
pub open spec fn spec_encode_ckout(c: CkoutSrc) -> u8 {
    match c {
        CkoutSrc::CkRef => 0b000,
        CkoutSrc::Hclk => 0b001,
        CkoutSrc::CkSys => 0b010,
        CkoutSrc::CkHse => 0b011,
        CkoutSrc::CkHsi => 0b100,
        CkoutSrc::CkLse => 0b101,
        CkoutSrc::CkLsi => 0b110,
    }
}

// ---------------------------------------------------------------------------
// Prescaler brackets
// ---------------------------------------------------------------------------

/// The 3-bit AHB prescaler code for a CK_SYS over HCLK ratio of at least 1:
/// the smallest divider of {1, 2, 4, 8, 16} whose bracket covers the ratio.
pub open spec fn spec_ahb_bits(ratio: int) -> u8 {
    if ratio <= 1 {
        0b000
    } else if ratio <= 3 {
        0b001
    } else if ratio <= 7 {
        0b010
    } else if ratio <= 15 {
        0b100
    } else {
        0b111
    }
}

/// The AHB divider selected for a CK_SYS over HCLK ratio of at least 1.
pub open spec fn spec_ahb_div(ratio: int) -> int {
    if ratio <= 1 {
        1
    } else if ratio <= 3 {
        2
    } else if ratio <= 7 {
        4
    } else if ratio <= 15 {
        8
    } else {
        16
    }
}

/// The 3-bit ADC prescaler code for an HCLK over CK_ADC_IP ratio of at
/// least 1: the smallest divider of {1, 2, 3, 4, 8, 16, 32, 64} whose
/// bracket covers the ratio.
pub open spec fn spec_adc_bits(ratio: int) -> u8 {
    if ratio <= 1 {
        0b000
    } else if ratio <= 2 {
        0b001
    } else if ratio <= 3 {
        0b111
    } else if ratio <= 7 {
        0b010
    } else if ratio <= 15 {
        0b011
    } else if ratio <= 31 {
        0b100
    } else if ratio <= 63 {
        0b101
    } else {
        0b110
    }
}

/// The ADC divider selected for an HCLK over CK_ADC_IP ratio of at least 1.
pub open spec fn spec_adc_div(ratio: int) -> int {
    if ratio <= 1 {
        1
    } else if ratio <= 2 {
        2
    } else if ratio <= 3 {
        3
    } else if ratio <= 7 {
        4
    } else if ratio <= 15 {
        8
    } else if ratio <= 31 {
        16
    } else if ratio <= 63 {
        32
    } else {
        64
    }
}

// ---------------------------------------------------------------------------
// Achieved frequencies and the resolution outcome
// ---------------------------------------------------------------------------

/// The CK_SYS frequency the hardware will actually run at: the exact
/// oscillator frequency on the fixed-source paths, and the integer PLL
/// output on the PLL path, where the requested value was only a hint.
/// Meaningful only when resolution succeeds.
pub open spec fn spec_ck_sys_final(cfg: Configuration) -> int {
    match spec_pll_target(cfg) {
        Some(t) => {
            let p = spec_pll_best(spec_hso(cfg), t).unwrap();
            (spec_hso(cfg) * p.0) / p.1
        },
        None => spec_provisional_sys(cfg),
    }
}

/// The CK_USB frequency actually achieved: the PLL output whenever the PLL
/// runs (system and USB clock share it), and 0 (disabled) otherwise.
pub open spec fn spec_ck_usb_final(cfg: Configuration) -> int {
    if spec_pll_target(cfg) is Some {
        spec_ck_sys_final(cfg)
    } else {
        0
    }
}

/// The CK_SYS over HCLK-target ratio the bus prescaler bracket is chosen
/// from. Meaningful only when an HCLK target is declared and nonzero.
pub open spec fn spec_ahb_ratio(cfg: Configuration) -> int {
    spec_ck_sys_final(cfg) / (cfg.hclk.unwrap().0 as int)
}

/// The HCLK frequency actually achieved: CK_SYS divided by the bucketed
/// AHB prescaler, or CK_SYS itself when no bus target is declared.
pub open spec fn spec_hclk_final(cfg: Configuration) -> int {
    match cfg.hclk {
        Some(b) => spec_ck_sys_final(cfg) / spec_ahb_div(spec_ahb_ratio(cfg)),
        None => spec_ck_sys_final(cfg),
    }
}

/// The SysTick clock: always exactly HCLK divided by 8, never
/// independently configurable.
pub open spec fn spec_stclk_final(cfg: Configuration) -> int {
    spec_hclk_final(cfg) / 8
}

/// The HCLK over CK_ADC_IP-target ratio the ADC prescaler bracket is
/// chosen from. Meaningful only when an ADC target is declared and nonzero.
pub open spec fn spec_adc_ratio(cfg: Configuration) -> int {
    spec_hclk_final(cfg) / (cfg.ck_adc_ip.unwrap().0 as int)
}

/// The CK_ADC_IP frequency actually achieved: HCLK divided by the bucketed
/// ADC prescaler, or HCLK itself when no ADC target is declared.
pub open spec fn spec_adc_final(cfg: Configuration) -> int {
    match cfg.ck_adc_ip {
        Some(a) => spec_hclk_final(cfg) / spec_adc_div(spec_adc_ratio(cfg)),
        None => spec_hclk_final(cfg),
    }
}

/// Why resolution of this configuration fails, or `None` when it succeeds.
/// The checks happen in the order the resolver performs them: the CK_SYS
/// ceiling, the CK_USB ceiling, the PLL search, the bus prescaler, the ADC
/// prescaler.
pub open spec fn spec_resolve_err(cfg: Configuration) -> Option<ClockError> {
    if spec_sys_too_high(cfg) {
        Some(ClockError::SysClockTooHigh)
    } else if spec_usb_too_high(cfg) {
        Some(ClockError::UsbClockTooHigh)
    } else if spec_pll_target(cfg) matches Some(t) && spec_pll_best(spec_hso(cfg), t) is None {
        Some(ClockError::PllUnreachable)
    } else if cfg.hclk matches Some(b) && b.0 == 0 {
        Some(ClockError::ZeroFrequencyTarget)
    } else if cfg.hclk matches Some(b) && b.0 > spec_ck_sys_final(cfg) {
        Some(ClockError::BusClockTooHigh)
    } else if cfg.ck_adc_ip matches Some(a) && a.0 == 0 {
        Some(ClockError::ZeroFrequencyTarget)
    } else if cfg.ck_adc_ip matches Some(a) && a.0 > spec_hclk_final(cfg) {
        Some(ClockError::AdcClockTooHigh)
    } else {
        None
    }
}

/// The AHB prescaler code a resolved configuration programs.
pub open spec fn spec_ahb_bits_of(cfg: Configuration) -> u8 {
    match cfg.hclk {
        Some(b) => spec_ahb_bits(spec_ahb_ratio(cfg)),
        None => 0b000,
    }
}

/// The ADC prescaler code a resolved configuration programs.
pub open spec fn spec_adc_bits_of(cfg: Configuration) -> u8 {
    match cfg.ck_adc_ip {
        Some(a) => spec_adc_bits(spec_adc_ratio(cfg)),
        None => 0b000,
    }
}

/// The ordered register operations that commit a successfully resolved
/// configuration: PLL setup and lock wait first (only when the PLL runs),
/// then the flash wait states whenever the new bus clock exceeds 24 MHz,
/// only then the system clock mux switch, the two prescalers, and last the
/// CKOUT routing.
pub open spec fn spec_plan(cfg: Configuration) -> Seq<RegisterOp> {
    let pll = match spec_pll_target(cfg) {
        Some(t) => {
            let p = spec_pll_best(spec_hso(cfg), t).unwrap();
            seq![
                RegisterOp::SetPllSource(spec_pll_src_external(cfg)),
                RegisterOp::SetPllDividers(spec_encode_nf2(p.0), spec_encode_no2(p.1)),
                RegisterOp::EnablePll,
                RegisterOp::AwaitPllLock,
            ]
        },
        None => seq![],
    };
    let flash = if spec_hclk_final(cfg) > 24_000_000 {
        seq![RegisterOp::SetFlashWaitStates(0b010)]
    } else {
        seq![]
    };
    let tail = seq![
        RegisterOp::SetSysMux(spec_sys_mux(cfg)),
        RegisterOp::SetBusPrescaler(spec_ahb_bits_of(cfg)),
        RegisterOp::SetAdcPrescaler(spec_adc_bits_of(cfg)),
    ];
    let ckout = match cfg.ckout {
        Some(c) => seq![RegisterOp::SetCkout(spec_encode_ckout(c))],
        None => seq![],
    };
    pll + flash + tail + ckout
}

// ---------------------------------------------------------------------------
// PLL divider search
// ---------------------------------------------------------------------------

/// Search all combinations of the PLL feedback divider (1..=16) and output
/// divider ({1, 2, 4, 8}) for the legal pair whose ratio `nf2 / no2` best
/// approximates the ideal ratio `target / hso`; among equally good pairs
/// the one searched first is kept. Returns the raw divider values, or
/// `None` when no pair at all is legal for this source frequency.
#[verifier::rlimit(60)]
pub fn pll_search(hso: u32, target: u32) -> (r: Option<(u8, u8)>)
    ensures
        match r {
            Some(p) => spec_pll_best(hso as int, target as int) == Some((p.0 as int, p.1 as int)),
            None => spec_pll_best(hso as int, target as int) is None,
        },
{
    let h64 = hso as u64;
    let t64 = target as u64;
    let mut best: Option<(u8, u8)> = None;
    let mut i: usize = 0;
    while i < 64
        invariant
            i <= 64,
            h64 == hso as u64,
            t64 == target as u64,
            match best {
                Some(p) => best_upto(hso as int, target as int, i as int) == Some(
                    (p.0 as int, p.1 as int),
                ) && 1 <= p.0 <= 16 && (p.1 == 1 || p.1 == 2 || p.1 == 4 || p.1 == 8),
                None => best_upto(hso as int, target as int, i as int) is None,
            },
        decreases 64 - i,
    {
        let nf2: u64 = (i as u64) / 4 + 1;
        let no2: u64 = match i % 4 {
            0 => 1,
            1 => 2,
            2 => 4,
            _ => 8,
        };
        proof {
            lemma_mul_upper_bound(h64 as int, u32::MAX as int, nf2 as int, 16);
            lemma_mul_upper_bound(t64 as int, u32::MAX as int, no2 as int, 8);
        }
        let p = h64 * nf2;
        let vco = 2 * p;
        let lo = 4_000_000u64 * no2;
        let hi = 48_000_000u64 * no2;
        if 48_000_000 <= vco && vco <= 96_000_000 && lo < p && p < hi {
            assert(candidate_ok(hso as int, nf2 as int, no2 as int));
            match best {
                None => {
                    best = Some((nf2 as u8, no2 as u8));
                },
                Some(b) => {
                    let q = t64 * no2;
                    let cur = if p >= q {
                        p - q
                    } else {
                        q - p
                    };
                    let bnf = b.0 as u64;
                    let bno = b.1 as u64;
                    proof {
                        lemma_mul_upper_bound(h64 as int, u32::MAX as int, bnf as int, 16);
                        lemma_mul_upper_bound(t64 as int, u32::MAX as int, bno as int, 8);
                    }
                    let bp = h64 * bnf;
                    let bq = t64 * bno;
                    let bd = if bp >= bq {
                        bp - bq
                    } else {
                        bq - bp
                    };
                    proof {
                        lemma_mul_upper_bound(cur as int, 16 * (u32::MAX as int), bno as int, 8);
                        lemma_mul_upper_bound(bd as int, 16 * (u32::MAX as int), no2 as int, 8);
                    }
                    if cur * bno < bd * no2 {
                        assert(closer_strict(
                            hso as int,
                            target as int,
                            nf2 as int,
                            no2 as int,
                            b.0 as int,
                            b.1 as int,
                        ));
                        best = Some((nf2 as u8, no2 as u8));
                    } else {
                        assert(!closer_strict(
                            hso as int,
                            target as int,
                            nf2 as int,
                            no2 as int,
                            b.0 as int,
                            b.1 as int,
                        ));
                    }
                },
            }
        } else {
            assert(!candidate_ok(hso as int, nf2 as int, no2 as int));
        }
        i = i + 1;
    }
    best
}

/// A candidate is never strictly closer than itself, and "strictly closer
/// than" carries over from a replaced best candidate to its replacement.
#[verifier::nonlinear]
proof fn lemma_closer_carries(dj: int, jo: int, dp: int, po: int, dn: int, no: int)
    requires
        po > 0,
        jo > 0,
        no > 0,
        dj * po >= dp * jo,
        dn * po < dp * no,
    ensures
        dn * jo < dj * no,
{
}

/// Soundness of the bounded search: a selected pair is legal and no
/// searched legal pair is strictly closer; when nothing is selected, no
/// searched pair is legal.
proof fn lemma_best_upto_sound(h: int, t: int, n: int)
    requires
        0 <= n,
    ensures
        match best_upto(h, t, n) {
            Some(p) => candidate_ok(h, p.0, p.1) && (forall|j: int|
                0 <= j < n && candidate_ok(h, combo_nf2(j), combo_no2(j))
                    ==> !closer_strict(h, t, combo_nf2(j), combo_no2(j), p.0, p.1)),
            None => forall|j: int|
                0 <= j < n ==> !candidate_ok(h, combo_nf2(j), combo_no2(j)),
        },
    decreases n,
{
    if n > 0 {
        lemma_best_upto_sound(h, t, n - 1);
        let prev = best_upto(h, t, n - 1);
        let nf2 = combo_nf2(n - 1);
        let no2 = combo_no2(n - 1);
        match best_upto(h, t, n) {
            Some(p) => {
                assert forall|j: int|
                    0 <= j < n && candidate_ok(h, combo_nf2(j), combo_no2(j)) implies !closer_strict(
                    h,
                    t,
                    combo_nf2(j),
                    combo_no2(j),
                    p.0,
                    p.1,
                ) by {
                    let jn = combo_nf2(j);
                    let jo = combo_no2(j);
                    if j < n - 1 {
                        let b = prev.unwrap();
                        if candidate_ok(h, nf2, no2) && closer_strict(h, t, nf2, no2, b.0, b.1) {
                            // the new candidate replaced b; an earlier pair no
                            // closer than b is no closer than the replacement
                            lemma_closer_carries(
                                dist_num(h, t, jn, jo),
                                jo,
                                dist_num(h, t, b.0, b.1),
                                b.1,
                                dist_num(h, t, nf2, no2),
                                no2,
                            );
                        }
                    } else {
                        // j == n - 1: the newly searched pair itself
                        if prev is Some {
                            let b = prev.unwrap();
                            if !(candidate_ok(h, nf2, no2) && closer_strict(
                                h,
                                t,
                                nf2,
                                no2,
                                b.0,
                                b.1,
                            )) {
                                // it did not replace the previous best
                                assert(p == b);
                            }
                        }
                    }
                }
            },
            None => {},
        }
    }
}

/// Every divider pair in the hardware ranges is one of the 64 searched
/// combinations.
proof fn lemma_pair_has_combo(nf2: int, no2: int)
    requires
        1 <= nf2 <= 16,
        no2 == 1 || no2 == 2 || no2 == 4 || no2 == 8,
    ensures
        exists|j: int| 0 <= j < 64 && combo_nf2(j) == nf2 && combo_no2(j) == no2,
{
    let k: int = if no2 == 1 {
        0
    } else if no2 == 2 {
        1
    } else if no2 == 4 {
        2
    } else {
        3
    };
    let j = (nf2 - 1) * 4 + k;
    lemma_fundamental_div_mod_converse_div(j, 4, nf2 - 1, k);
    lemma_fundamental_div_mod_converse_mod(j, 4, nf2 - 1, k);
    assert(0 <= j < 64 && combo_nf2(j) == nf2 && combo_no2(j) == no2);
}

/// What the PLL search guarantees, over all divider pairs rather than
/// search indices: a selected pair is legal and minimizes the distance to
/// the ideal ratio `t / h` among all legal pairs; if no pair is selected,
/// no legal pair exists at all. In particular the search never silently
/// falls back to an illegal pair.
pub proof fn lemma_pll_best_sound(h: int, t: int)
    ensures
        match spec_pll_best(h, t) {
            Some(p) => candidate_ok(h, p.0, p.1) && (forall|nf2: int, no2: int|
                candidate_ok(h, nf2, no2) ==> dist_num(h, t, p.0, p.1) * no2 <= dist_num(
                    h,
                    t,
                    nf2,
                    no2,
                ) * p.1),
            None => forall|nf2: int, no2: int| !candidate_ok(h, nf2, no2),
        },
{
    lemma_best_upto_sound(h, t, 64);
    match spec_pll_best(h, t) {
        Some(p) => {
            assert forall|nf2: int, no2: int| candidate_ok(h, nf2, no2) implies dist_num(
                h,
                t,
                p.0,
                p.1,
            ) * no2 <= dist_num(h, t, nf2, no2) * p.1 by {
                lemma_pair_has_combo(nf2, no2);
                let j = choose|j: int|
                    0 <= j < 64 && combo_nf2(j) == nf2 && combo_no2(j) == no2;
                assert(!closer_strict(h, t, combo_nf2(j), combo_no2(j), p.0, p.1));
            }
        },
        None => {
            assert forall|nf2: int, no2: int| !candidate_ok(h, nf2, no2) by {
                if candidate_ok(h, nf2, no2) {
                    lemma_pair_has_combo(nf2, no2);
                    let j = choose|j: int|
                        0 <= j < 64 && combo_nf2(j) == nf2 && combo_no2(j) == no2;
                    assert(!candidate_ok(h, combo_nf2(j), combo_no2(j)));
                }
            }
        },
    }
}

/// Any pair the search selects keeps the VCO stage frequency within
/// [48 MHz, 96 MHz] and the achieved integer PLL output within
/// [4 MHz, 48 MHz).
pub proof fn lemma_pll_best_output_bounds(h: int, t: int)
    requires
        spec_pll_best(h, t) is Some,
    ensures
        ({
            let p = spec_pll_best(h, t).unwrap();
            48_000_000 <= 2 * (h * p.0) <= 96_000_000 && 4_000_000 <= (h * p.0) / p.1 && (h * p.0)
                / p.1 < 48_000_000
        }),
{
    lemma_pll_best_sound(h, t);
    let p = spec_pll_best(h, t).unwrap();
    let n = h * p.0;
    let d = p.1;
    lemma_div_is_ordered(4_000_000 * d, n, d);
    lemma_div_by_multiple(4_000_000, d);
    lemma_div_is_ordered(n, 48_000_000 * d - 1, d);
    lemma_fundamental_div_mod_converse_div(48_000_000 * d - 1, d, 48_000_000 - 1, d - 1);
}

// ---------------------------------------------------------------------------
// Prescaler calculation and encoders
// ---------------------------------------------------------------------------

/// Bucket a CK_SYS over HCLK ratio into the AHB prescaler: the 3-bit
/// register code and the divider it stands for.
pub fn ahb_prescaler(ratio: u32) -> (r: (u8, u32))
    requires
        ratio >= 1,
    ensures
        r.0 == spec_ahb_bits(ratio as int),
        r.1 as int == spec_ahb_div(ratio as int),
{
    if ratio <= 1 {
        (0b000, 1)
    } else if ratio <= 3 {
        (0b001, 2)
    } else if ratio <= 7 {
        (0b010, 4)
    } else if ratio <= 15 {
        (0b100, 8)
    } else {
        (0b111, 16)
    }
}

/// Bucket an HCLK over CK_ADC_IP ratio into the ADC prescaler: the 3-bit
/// register code and the divider it stands for.
pub fn adc_prescaler(ratio: u32) -> (r: (u8, u32))
    requires
        ratio >= 1,
    ensures
        r.0 == spec_adc_bits(ratio as int),
        r.1 as int == spec_adc_div(ratio as int),
{
    if ratio <= 1 {
        (0b000, 1)
    } else if ratio <= 2 {
        (0b001, 2)
    } else if ratio <= 3 {
        (0b111, 3)
    } else if ratio <= 7 {
        (0b010, 4)
    } else if ratio <= 15 {
        (0b011, 8)
    } else if ratio <= 31 {
        (0b100, 16)
    } else if ratio <= 63 {
        (0b101, 32)
    } else {
        (0b110, 64)
    }
}

/// Encode the PLL feedback divider into the PFBD register field.
fn encode_nf2(nf2: u8) -> (r: u8)
    requires
        1 <= nf2 <= 16,
    ensures
        r == spec_encode_nf2(nf2 as int),
{
    if nf2 == 16 {
        0
    } else {
        nf2
    }
}

/// Encode the PLL output divider into the POTD register field.
fn encode_no2(no2: u8) -> (r: u8)
    requires
        no2 == 1 || no2 == 2 || no2 == 4 || no2 == 8,
    ensures
        r == spec_encode_no2(no2 as int),
{
    if no2 == 1 {
        0b00
    } else if no2 == 2 {
        0b01
    } else if no2 == 4 {
        0b10
    } else {
        0b11
    }
}

/// Encode a CKOUT selection into the CKOUTSRC register field.
fn encode_ckout(c: CkoutSrc) -> (r: u8)
    ensures
        r == spec_encode_ckout(c),
{
    match c {
        CkoutSrc::CkRef => 0b000,
        CkoutSrc::Hclk => 0b001,
        CkoutSrc::CkSys => 0b010,
        CkoutSrc::CkHse => 0b011,
        CkoutSrc::CkHsi => 0b100,
        CkoutSrc::CkLse => 0b101,
        CkoutSrc::CkLsi => 0b110,
    }
}

// ---------------------------------------------------------------------------
// The commit plan and the terminal resolve operation
// ---------------------------------------------------------------------------

/// A successfully resolved configuration: the ordered register operations
/// to program, and the frequencies the hardware will achieve once they are
/// applied.
///
/// The operations must be applied to the clock control and flash control
/// registers front to back, uninterrupted, as the sole writer; only then
/// may the plan be frozen into its [`Clocks`] snapshot with
/// [`CommitPlan::into_clocks`].
#[derive(Debug)]
pub struct CommitPlan {
    ops: Vec<RegisterOp>,
    ckout: Option<CkoutSrc>,
    ck_usb: Hertz,
    ck_adc_ip: Hertz,
    ck_sys: Hertz,
    stclk: Hertz,
    hclk: Hertz,
}

impl CommitPlan {
    /// The register operations, in commit order.
    pub closed spec fn spec_ops(self) -> Seq<RegisterOp> {
        self.ops@
    }

    /// The CKOUT selection the plan programs, if any.
    pub closed spec fn spec_ckout(self) -> Option<CkoutSrc> {
        self.ckout
    }

    /// The USB clock the plan achieves.
    pub closed spec fn spec_ck_usb(self) -> Hertz {
        self.ck_usb
    }

    /// The ADC clock the plan achieves.
    pub closed spec fn spec_ck_adc_ip(self) -> Hertz {
        self.ck_adc_ip
    }

    /// The system clock the plan achieves.
    pub closed spec fn spec_ck_sys(self) -> Hertz {
        self.ck_sys
    }

    /// The SysTick clock the plan achieves.
    pub closed spec fn spec_stclk(self) -> Hertz {
        self.stclk
    }

    /// The bus clock the plan achieves.
    pub closed spec fn spec_hclk(self) -> Hertz {
        self.hclk
    }

    /// The register operations to apply, in order.
    pub fn ops(&self) -> (r: &Vec<RegisterOp>)
        ensures
            r@ == self.spec_ops(),
    {
        &self.ops
    }

    /// Freeze the plan into the achieved clock frequencies.
    ///
    /// Must only be called once every operation of the plan has been
    /// applied to the hardware, in order: the existence of the returned
    /// [`Clocks`] value asserts that the registers already match it.
    pub fn into_clocks(self) -> (r: Clocks)
        ensures
            r.spec_ckout() == self.spec_ckout(),
            r.spec_ck_usb() == self.spec_ck_usb(),
            r.spec_ck_adc_ip() == self.spec_ck_adc_ip(),
            r.spec_ck_sys() == self.spec_ck_sys(),
            r.spec_stclk() == self.spec_stclk(),
            r.spec_hclk() == self.spec_hclk(),
    {
        Clocks {
            ckout: self.ckout,
            ck_usb: self.ck_usb,
            ck_adc_ip: self.ck_adc_ip,
            ck_sys: self.ck_sys,
            stclk: self.stclk,
            hclk: self.hclk,
        }
    }
}

/// The outcome of the frequency-resolution stages, before the register
/// plan is assembled.
struct ResolvedFreqs {
    sw: u8,
    pllsrc: bool,
    dividers: Option<(u8, u8)>,
    ck_sys: u32,
    ck_usb: u32,
    ahb_bits: u8,
    hclk: u32,
    stclk: u32,
    adc_bits: u8,
    adc: u32,
}

/// Everything the plan assembly relies on of a successful resolution.
spec fn freqs_match(cfg: Configuration, f: ResolvedFreqs) -> bool {
    &&& f.sw == spec_sys_mux(cfg)
    &&& f.pllsrc == spec_pll_src_external(cfg)
    &&& (f.dividers is Some <==> spec_pll_target(cfg) is Some)
    &&& (match f.dividers {
        Some(p) => spec_pll_best(spec_hso(cfg), spec_pll_target(cfg).unwrap()) == Some(
            (p.0 as int, p.1 as int),
        ),
        None => true,
    })
    &&& f.ck_sys as int == spec_ck_sys_final(cfg)
    &&& f.ck_usb as int == spec_ck_usb_final(cfg)
    &&& f.ahb_bits == spec_ahb_bits_of(cfg)
    &&& f.hclk as int == spec_hclk_final(cfg)
    &&& f.stclk as int == spec_stclk_final(cfg)
    &&& f.stclk == f.hclk / 8
    &&& f.adc_bits == spec_adc_bits_of(cfg)
    &&& f.adc as int == spec_adc_final(cfg)
}

/// Decide the system clock source: the mux code, the provisional CK_SYS
/// frequency, and the PLL output the system clock requires when no fixed
/// oscillator matches the target exactly.
fn resolve_sys_source(cfg: Configuration) -> (r: (u8, u32, Option<u32>))
    ensures
        r.0 == spec_sys_mux(cfg),
        r.1 as int == spec_provisional_sys(cfg),
        (r.2 is Some <==> spec_sys_pll_target(cfg) is Some),
        (match r.2 {
            Some(t) => spec_sys_pll_target(cfg) == Some(t as int),
            None => true,
        }),
{
    match cfg.ck_sys {
        Some(t) => {
            let lse_match = match cfg.lse {
                Some(l) => l == t,
                None => false,
            };
            let hse_match = match cfg.hse {
                Some(h) => h == t,
                None => false,
            };
            if lse_match {
                (0b110, t.0, None)
            } else if hse_match {
                (0b010, t.0, None)
            } else if t.0 == LSI {
                (0b111, LSI, None)
            } else if t.0 == HSI {
                (0b011, HSI, None)
            } else {
                (0b000, t.0, Some(t.0))
            }
        },
        None => match cfg.lse {
            Some(l) => (0b110, l.0, None),
            None => (0b111, LSI, None),
        },
    }
}

/// Run the frequency-resolution stages: ceilings, source selection, PLL
/// search, and the two prescaler brackets.
#[verifier::rlimit(60)]
fn resolve_frequencies(cfg: Configuration) -> (r: Result<ResolvedFreqs, ClockError>)
    ensures
        r is Ok <==> spec_resolve_err(cfg) is None,
        (match r {
            Ok(f) => freqs_match(cfg, f),
            Err(e) => Some(e) == spec_resolve_err(cfg),
        }),
{
    let hso: u32 = match cfg.hse {
        Some(h) => h.0,
        None => HSI,
    };
    let pllsrc: bool = match cfg.hse {
        Some(_) => true,
        None => false,
    };

    // Hard ceilings: CK_SYS at most 48 MHz, CK_USB strictly below it.
    match cfg.ck_sys {
        Some(t) => if t.0 > 48_000_000 {
            return Err(ClockError::SysClockTooHigh);
        },
        None => {},
    }
    match cfg.ck_usb {
        Some(t) => if t.0 >= 48_000_000 {
            return Err(ClockError::UsbClockTooHigh);
        },
        None => {},
    }

    // System clock source: fixed oscillators are preferred, the PLL is the
    // fallback when no frequency matches exactly.
    let (sw, provisional, sys_pll) = resolve_sys_source(cfg);
    let mut ck_sys_val: u32 = provisional;

    // USB shares the single PLL instance with the system clock.
    let mut pll_target: Option<u32> = sys_pll;
    let mut ck_usb_val: u32 = match cfg.ck_usb {
        Some(u) => {
            if pll_target.is_none() {
                pll_target = Some(u.0);
            }
            u.0
        },
        None => match pll_target {
            Some(c) => c,
            None => 0,
        },
    };
    assert(match pll_target {
        Some(t) => spec_pll_target(cfg) == Some(t as int),
        None => spec_pll_target(cfg) is None,
    });

    // PLL divider search; the requested value was only a hint, the
    // achieved system and USB clocks are the actual PLL output.
    let mut dividers: Option<(u8, u8)> = None;
    match pll_target {
        Some(t) => match pll_search(hso, t) {
            None => {
                return Err(ClockError::PllUnreachable);
            },
            Some(p) => {
                proof {
                    lemma_pll_best_sound(hso as int, t as int);
                    lemma_pll_best_output_bounds(hso as int, t as int);
                    lemma_mul_upper_bound(hso as int, u32::MAX as int, p.0 as int, 16);
                }
                let out64 = ((hso as u64) * (p.0 as u64)) / (p.1 as u64);
                ck_sys_val = out64 as u32;
                ck_usb_val = ck_sys_val;
                dividers = Some(p);
            },
        },
        None => {},
    }
    assert(ck_sys_val as int == spec_ck_sys_final(cfg));
    assert(ck_usb_val as int == spec_ck_usb_final(cfg));

    // Bus prescaler bracket.
    let (ahb_bits, hclk_val): (u8, u32) = match cfg.hclk {
        Some(b) => {
            if b.0 == 0 {
                return Err(ClockError::ZeroFrequencyTarget);
            }
            if b.0 > ck_sys_val {
                return Err(ClockError::BusClockTooHigh);
            }
            let ratio = ck_sys_val / b.0;
            proof {
                lemma_div_is_ordered(b.0 as int, ck_sys_val as int, b.0 as int);
                lemma_div_by_self(b.0 as int);
            }
            let (bits, div) = ahb_prescaler(ratio);
            (bits, ck_sys_val / div)
        },
        None => (0b000, ck_sys_val),
    };
    assert(hclk_val as int == spec_hclk_final(cfg));

    // The SysTick clock is fixed at an eighth of the bus clock.
    let stclk_val = hclk_val / 8;

    // ADC prescaler bracket.
    let (adc_bits, adc_val): (u8, u32) = match cfg.ck_adc_ip {
        Some(a) => {
            if a.0 == 0 {
                return Err(ClockError::ZeroFrequencyTarget);
            }
            if a.0 > hclk_val {
                return Err(ClockError::AdcClockTooHigh);
            }
            let ratio = hclk_val / a.0;
            proof {
                lemma_div_is_ordered(a.0 as int, hclk_val as int, a.0 as int);
                lemma_div_by_self(a.0 as int);
            }
            let (bits, div) = adc_prescaler(ratio);
            (bits, hclk_val / div)
        },
        None => (0b000, hclk_val),
    };
    assert(adc_val as int == spec_adc_final(cfg));

    Ok(ResolvedFreqs {
        sw,
        pllsrc,
        dividers,
        ck_sys: ck_sys_val,
        ck_usb: ck_usb_val,
        ahb_bits,
        hclk: hclk_val,
        stclk: stclk_val,
        adc_bits,
        adc: adc_val,
    })
}

/// Assemble the commit sequence for a successful resolution, in its
/// safety-critical order.
#[verifier::rlimit(60)]
fn assemble_plan(cfg: Configuration, f: &ResolvedFreqs) -> (ops: Vec<RegisterOp>)
    requires
        freqs_match(cfg, *f),
    ensures
        ops@ == spec_plan(cfg),
{
    let mut ops: Vec<RegisterOp> = Vec::new();
    match f.dividers {
        Some(p) => {
            proof {
                lemma_pll_best_sound(spec_hso(cfg), spec_pll_target(cfg).unwrap());
            }
            ops.push(RegisterOp::SetPllSource(f.pllsrc));
            ops.push(RegisterOp::SetPllDividers(encode_nf2(p.0), encode_no2(p.1)));
            ops.push(RegisterOp::EnablePll);
            ops.push(RegisterOp::AwaitPllLock);
        },
        None => {},
    }
    if f.hclk > 24_000_000 {
        ops.push(RegisterOp::SetFlashWaitStates(0b010));
    }
    ops.push(RegisterOp::SetSysMux(f.sw));
    ops.push(RegisterOp::SetBusPrescaler(f.ahb_bits));
    ops.push(RegisterOp::SetAdcPrescaler(f.adc_bits));
    match cfg.ckout {
        Some(c) => {
            ops.push(RegisterOp::SetCkout(encode_ckout(c)));
        },
        None => {},
    }
    assert(ops@ =~= spec_plan(cfg));
    ops
}

impl Configuration {
    /// Resolve the accumulated targets against the hardware constraints.
    ///
    /// This is the terminal operation: it decides the system clock source,
    /// runs the PLL divider search when a PLL output is needed, buckets
    /// the bus and ADC prescalers, and returns the ordered register plan
    /// together with the frequencies the hardware will achieve — or the
    /// first error the checks hit, in which case nothing is to be written.
    pub fn resolve(self) -> (r: Result<CommitPlan, ClockError>)
        ensures
            r is Ok <==> spec_resolve_err(self) is None,
            (match r {
                Ok(plan) => {
                    &&& plan.spec_ops() == spec_plan(self)
                    &&& plan.spec_ckout() == self.ckout
                    &&& plan.spec_ck_sys().0 as int == spec_ck_sys_final(self)
                    &&& plan.spec_ck_usb().0 as int == spec_ck_usb_final(self)
                    &&& plan.spec_hclk().0 as int == spec_hclk_final(self)
                    &&& plan.spec_stclk().0 as int == spec_stclk_final(self)
                    &&& plan.spec_stclk().0 == plan.spec_hclk().0 / 8
                    &&& plan.spec_ck_adc_ip().0 as int == spec_adc_final(self)
                },
                Err(e) => Some(e) == spec_resolve_err(self),
            }),
    {
        match resolve_frequencies(self) {
            Err(e) => Err(e),
            Ok(f) => {
                let ops = assemble_plan(self, &f);
                Ok(CommitPlan {
                    ops,
                    ckout: self.ckout,
                    ck_usb: Hertz(f.ck_usb),
                    ck_adc_ip: Hertz(f.adc),
                    ck_sys: Hertz(f.ck_sys),
                    stclk: Hertz(f.stclk),
                    hclk: Hertz(f.hclk),
                })
            },
        }
    }
}

// ---------------------------------------------------------------------------
// Laws of the resolver
// ---------------------------------------------------------------------------

/// A declared system clock target of at most 48 MHz that exactly equals a
/// declared or fixed oscillator frequency selects that oscillator's mux
/// code, in the fixed precedence order, and the system clock never asks
/// for the PLL; with no independent USB target the PLL search is never
/// invoked at all and the target is achieved exactly.
pub proof fn lemma_exact_oscillator_match_skips_pll(cfg: Configuration)
    requires
        cfg.ck_sys is Some,
        cfg.ck_sys.unwrap().0 <= 48_000_000,
        (cfg.lse matches Some(l) && l == cfg.ck_sys.unwrap()) || (cfg.hse matches Some(h) && h
            == cfg.ck_sys.unwrap()) || cfg.ck_sys.unwrap().0 == LSI || cfg.ck_sys.unwrap().0
            == HSI,
    ensures
        spec_sys_pll_target(cfg) is None,
        spec_sys_mux(cfg) != 0b000,
        (cfg.lse matches Some(l) && l == cfg.ck_sys.unwrap()) ==> spec_sys_mux(cfg) == 0b110,
        !(cfg.lse matches Some(l) && l == cfg.ck_sys.unwrap()) && (cfg.hse matches Some(h) && h
            == cfg.ck_sys.unwrap()) ==> spec_sys_mux(cfg) == 0b010,
        !(cfg.lse matches Some(l) && l == cfg.ck_sys.unwrap()) && !(cfg.hse matches Some(h) && h
            == cfg.ck_sys.unwrap()) && cfg.ck_sys.unwrap().0 == LSI ==> spec_sys_mux(cfg)
            == 0b111,
        !(cfg.lse matches Some(l) && l == cfg.ck_sys.unwrap()) && !(cfg.hse matches Some(h) && h
            == cfg.ck_sys.unwrap()) && cfg.ck_sys.unwrap().0 != LSI && cfg.ck_sys.unwrap().0
            == HSI ==> spec_sys_mux(cfg) == 0b011,
        cfg.ck_usb is None ==> spec_pll_target(cfg) is None,
        cfg.ck_usb is None ==> spec_ck_sys_final(cfg) == spec_provisional_sys(cfg),
{
}

/// When resolution succeeds through the PLL path, the achieved system
/// clock lies within the PLL output window [4 MHz, 48 MHz) and the
/// intermediate VCO stage frequency within its legal range
/// [48 MHz, 96 MHz].
pub proof fn lemma_pll_path_in_range(cfg: Configuration)
    requires
        spec_resolve_err(cfg) is None,
        spec_pll_target(cfg) is Some,
    ensures
        4_000_000 <= spec_ck_sys_final(cfg) < 48_000_000,
        ({
            let p = spec_pll_best(spec_hso(cfg), spec_pll_target(cfg).unwrap()).unwrap();
            48_000_000 <= 2 * (spec_hso(cfg) * p.0) <= 96_000_000
        }),
{
    lemma_pll_best_output_bounds(spec_hso(cfg), spec_pll_target(cfg).unwrap());
}

/// Bus prescaler selection is monotonic: raising the requested bus clock
/// target, with the achieved system clock held fixed, never increases the
/// chosen divider.
pub proof fn lemma_bus_divider_monotonic(sys: int, t1: int, t2: int)
    requires
        0 <= sys,
        0 < t1 <= t2,
    ensures
        spec_ahb_div(sys / t2) <= spec_ahb_div(sys / t1),
{
    lemma_div_is_ordered_by_denominator(sys, t1, t2);
}

/// Whenever the committed bus clock exceeds 24 MHz, the plan raises the
/// flash wait states strictly before it switches the system clock mux.
pub proof fn lemma_flash_wait_before_sys_mux(cfg: Configuration)
    requires
        spec_hclk_final(cfg) > 24_000_000,
    ensures
        ({
            let plan = spec_plan(cfg);
            exists|i: int, j: int|
                0 <= i < j < plan.len() && plan[i] is SetFlashWaitStates && plan[j] is SetSysMux
        }),
{
    let plan = spec_plan(cfg);
    let base: int = if spec_pll_target(cfg) is Some {
        4
    } else {
        0
    };
    assert(plan[base] is SetFlashWaitStates);
    assert(plan[base + 1] is SetSysMux);
    assert(0 <= base < base + 1 < plan.len());
}

} // verus!
