//! The render-loop engine: configuration, per-frame state, and the frame
//! step.
//!
//! The engine owns everything that persists across frames: the two speed
//! estimates, the two animation phases, the sampling cadence counter and
//! the current frame delay. A driver repeatedly asks whether a sample is
//! due (`sample_due`), records fresh counter deltas (`record_sample`), and
//! renders one frame (`frame`), which advances the animation, formats the
//! status line, and returns the delay to wait before the next frame.

use vstd::arithmetic::mul::lemma_mul_upper_bound;
use vstd::prelude::*;

use crate::anim::{
    advance_phase, compute_advance, icon_index, spec_advance, spec_icon_index, spec_wrap_phase,
    PHASE_SCALE,
};
use crate::pacer::{next_delay, spec_next_delay};
use crate::speed::{estimate_speed, spec_estimate};
use crate::units::{display_speed_unit, spec_format_bytes};

verus! {

/// Width, in characters, of each right-justified speed field.
pub const SPEED_FIELD_WIDTH: usize = 10;

/// A configuration error detected before the render loop starts.
#[derive(Debug, PartialEq, Eq, Structural, Clone, Copy)]
pub enum ConfigError {
    /// The animated icon list is empty: phase wrapping would divide by zero.
    EmptyIconList,
    /// The animated icon list is too long for the fixed-point phase range.
    IconListTooLong,
    /// The sampling cadence is zero: no frame would ever take a sample.
    ZeroRefreshCadence,
}

/// The immutable per-process configuration.
pub struct Config {
    /// Sampling cadence: a sample is taken every `nrefresh` frames.
    pub nrefresh: u32,
    /// Base (resting) frame delay, in milliseconds.
    pub refresh_interval_ms: u64,
    /// Prefix the static directional glyph to the animated glyph.
    pub combine_icons: bool,
    /// Enable the animated icons and the adaptive pacing.
    pub animated_icons: bool,
    /// Linear advance coefficient, in phase units per second per (byte/s).
    pub lin_coeff: u64,
    /// Logarithmic advance coefficient, in phase units per second per unit
    /// of the integer base-10 logarithm of `speed + 1`.
    pub log_coeff: u64,
    /// Ordered, non-empty animation glyph list (index 0 is the bottom of
    /// the down-sequence); a glyph is an opaque token of any width.
    pub icons: Vec<String>,
    /// Static glyph for the upload direction.
    pub up_icon: String,
    /// Static glyph for the download direction.
    pub down_icon: String,
    /// Bin size in bytes; reserved, carried through unchanged.
    pub bin_size: u128,
}

impl Config {
    /// The configuration is usable: the icon list is non-empty and short
    /// enough that `icons.len()` icon steps fit in the phase counter, and
    /// the sampling cadence is at least one frame.
    pub open spec fn wf(self) -> bool {
        &&& 1 <= self.icons@.len()
        &&& (self.icons@.len() as nat) * (PHASE_SCALE as nat) <= u64::MAX as nat
        &&& 1 <= self.nrefresh
    }

    /// Checks the configuration, reporting the first violated rule:
    /// the check succeeds exactly on well-formed configurations.
    pub fn validate(&self) -> (r: Result<(), ConfigError>)
        ensures
            r is Ok <==> self.wf(),
            self.icons@.len() == 0 ==> r == Result::<(), ConfigError>::Err(
                ConfigError::EmptyIconList,
            ),
            self.icons@.len() >= 1 && (self.icons@.len() as nat) * (PHASE_SCALE as nat)
                > u64::MAX as nat ==> r == Result::<(), ConfigError>::Err(
                ConfigError::IconListTooLong,
            ),
            self.icons@.len() >= 1 && (self.icons@.len() as nat) * (PHASE_SCALE as nat)
                <= u64::MAX as nat && self.nrefresh == 0 ==> r == Result::<(), ConfigError>::Err(
                ConfigError::ZeroRefreshCadence,
            ),
    {
        let n: usize = self.icons.len();
        proof {
            lemma_mul_upper_bound(
                n as int,
                u64::MAX as int,
                PHASE_SCALE as int,
                PHASE_SCALE as int,
            );
        }
        if n == 0 {
            Err(ConfigError::EmptyIconList)
        } else if (n as u128) * (PHASE_SCALE as u128) > u64::MAX as u128 {
            Err(ConfigError::IconListTooLong)
        } else if self.nrefresh == 0 {
            Err(ConfigError::ZeroRefreshCadence)
        } else {
            Ok(())
        }
    }
}

/// The base frame delay in nanoseconds: the configured interval in
/// milliseconds, saturated at `u64::MAX` nanoseconds.
pub open spec fn spec_base_delay(cfg: Config) -> nat {
    let ns = (cfg.refresh_interval_ms as nat) * 1000000;
    if ns > u64::MAX {
        u64::MAX as nat
    } else {
        ns
    }
}

/// Computes the base frame delay in nanoseconds, per `spec_base_delay`.
fn base_delay_ns(cfg: &Config) -> (d: u64)
    ensures
        d as nat == spec_base_delay(*cfg),
{
    let ns: u128 = (cfg.refresh_interval_ms as u128) * 1000000;
    if ns > u64::MAX as u128 {
        u64::MAX
    } else {
        ns as u64
    }
}

/// A run of `n` spaces.
pub open spec fn spec_spaces(n: nat) -> Seq<char> {
    Seq::new(n, |i: int| ' ')
}

/// `s` right-justified in a field of `w` characters: space-padded on the
/// left when shorter than the field, unchanged otherwise.
pub open spec fn spec_pad_left(s: Seq<char>, w: nat) -> Seq<char> {
    if s.len() >= w {
        s
    } else {
        spec_spaces((w - s.len()) as nat) + s
    }
}

/// The glyph rendered for the upload direction: when animated, the icon
/// list is walked in reverse order (`len - 1 - index`), optionally
/// prefixed by the static glyph; otherwise the static glyph alone.
pub open spec fn spec_glyph_up(cfg: Config, phase: nat) -> Seq<char> {
    if cfg.animated_icons {
        let g = cfg.icons@[cfg.icons@.len() - 1 - spec_icon_index(phase)]@;
        if cfg.combine_icons {
            cfg.up_icon@ + g
        } else {
            g
        }
    } else {
        cfg.up_icon@
    }
}

/// The glyph rendered for the download direction: when animated, the icon
/// list is walked in forward order, optionally prefixed by the static
/// glyph; otherwise the static glyph alone. The two directions animate in
/// visually opposite directions.
pub open spec fn spec_glyph_down(cfg: Config, phase: nat) -> Seq<char> {
    if cfg.animated_icons {
        let g = cfg.icons@[spec_icon_index(phase) as int]@;
        if cfg.combine_icons {
            cfg.down_icon@ + g
        } else {
            g
        }
    } else {
        cfg.down_icon@
    }
}

/// One rendered status line: the upload glyph and its right-justified
/// speed, a space, then the download glyph and its speed.
pub open spec fn spec_line(
    up_glyph: Seq<char>,
    up_speed: nat,
    down_glyph: Seq<char>,
    down_speed: nat,
) -> Seq<char> {
    up_glyph + seq![' '] + spec_pad_left(spec_format_bytes(up_speed), SPEED_FIELD_WIDTH as nat)
        + seq![' '] + down_glyph + seq![' '] + spec_pad_left(
        spec_format_bytes(down_speed),
        SPEED_FIELD_WIDTH as nat,
    )
}

/// Appends the speed, formatted and right-justified in its field.
fn append_padded_speed(line: &mut String, speed: u64)
    ensures
        final(line)@ == old(line)@ + spec_pad_left(
            spec_format_bytes(speed as nat),
            SPEED_FIELD_WIDTH as nat,
        ),
{
    let s = display_speed_unit(speed);
    let len: usize = s.as_str().unicode_len();
    let mut i: usize = len;
    while i < SPEED_FIELD_WIDTH
        invariant
            len <= i,
            i <= SPEED_FIELD_WIDTH || i == len,
            len == s@.len(),
            line@ == old(line)@ + spec_spaces((i - len) as nat),
        decreases SPEED_FIELD_WIDTH - i,
    {
        proof {
            reveal_strlit(" ");
        }
        line.append(" ");
        proof {
            assert(" "@ =~= seq![' ']);
            assert(spec_spaces((i + 1 - len) as nat) =~= spec_spaces((i - len) as nat) + seq![' ']);
        }
        i = i + 1;
    }
    line.append(s.as_str());
    proof {
        assert(spec_spaces(0) =~= Seq::<char>::empty());
        assert(final(line)@ =~= old(line)@ + spec_pad_left(
            spec_format_bytes(speed as nat),
            SPEED_FIELD_WIDTH as nat,
        ));
    }
}

/// Appends the upload-direction glyph selected by `phase`.
fn append_glyph_up(line: &mut String, cfg: &Config, phase: u64)
    requires
        cfg.wf(),
        (phase as nat) < (cfg.icons@.len() as nat) * (PHASE_SCALE as nat),
    ensures
        final(line)@ == old(line)@ + spec_glyph_up(*cfg, phase as nat),
{
    if cfg.animated_icons {
        let n: usize = cfg.icons.len();
        let idx: usize = icon_index(phase, n);
        if cfg.combine_icons {
            line.append(cfg.up_icon.as_str());
        }
        line.append(cfg.icons[n - 1 - idx].as_str());
        assert(final(line)@ =~= old(line)@ + spec_glyph_up(*cfg, phase as nat));
    } else {
        line.append(cfg.up_icon.as_str());
    }
}

/// Appends the download-direction glyph selected by `phase`.
fn append_glyph_down(line: &mut String, cfg: &Config, phase: u64)
    requires
        cfg.wf(),
        (phase as nat) < (cfg.icons@.len() as nat) * (PHASE_SCALE as nat),
    ensures
        final(line)@ == old(line)@ + spec_glyph_down(*cfg, phase as nat),
{
    if cfg.animated_icons {
        let n: usize = cfg.icons.len();
        let idx: usize = icon_index(phase, n);
        if cfg.combine_icons {
            line.append(cfg.down_icon.as_str());
        }
        line.append(cfg.icons[idx].as_str());
        assert(final(line)@ =~= old(line)@ + spec_glyph_down(*cfg, phase as nat));
    } else {
        line.append(cfg.down_icon.as_str());
    }
}

/// The per-process engine state: everything that persists across frames.
pub struct Engine {
    /// The immutable configuration.
    pub cfg: Config,
    /// Frames since the last sample, kept reduced modulo `cfg.nrefresh`.
    pub refresh_counter: u32,
    /// Latest upload speed estimate, in bytes per second.
    pub speed_up: u64,
    /// Latest download speed estimate, in bytes per second.
    pub speed_down: u64,
    /// Upload animation phase, in phase units, within the icon steps.
    pub phase_up: u64,
    /// Download animation phase, in phase units, within the icon steps.
    pub phase_down: u64,
    /// Current frame delay, in nanoseconds.
    pub delay_ns: u64,
}

impl Engine {
    /// The engine invariant: the configuration is well-formed, the cadence
    /// counter is reduced, and both phases lie within the icon steps.
    pub open spec fn wf(self) -> bool {
        &&& self.cfg.wf()
        &&& self.refresh_counter < self.cfg.nrefresh
        &&& (self.phase_up as nat) < (self.cfg.icons@.len() as nat) * (PHASE_SCALE as nat)
        &&& (self.phase_down as nat) < (self.cfg.icons@.len() as nat) * (PHASE_SCALE as nat)
    }

    /// The upload advance of a frame lasting `elapsed_ns`, at the current
    /// speed estimate.
    pub open spec fn spec_adv_up(self, elapsed_ns: nat) -> nat {
        spec_advance(self.cfg.lin_coeff as nat, self.cfg.log_coeff as nat, self.speed_up as nat, elapsed_ns)
    }

    /// The download advance of a frame lasting `elapsed_ns`, at the current
    /// speed estimate.
    pub open spec fn spec_adv_down(self, elapsed_ns: nat) -> nat {
        spec_advance(self.cfg.lin_coeff as nat, self.cfg.log_coeff as nat, self.speed_down as nat, elapsed_ns)
    }

    /// Builds the engine for a configuration, rejecting an unusable one
    /// before the render loop starts: success exactly on well-formed
    /// configurations. A fresh engine has zero speeds, zero phases, a
    /// cadence counter one short of a sample, and the base frame delay.
    pub fn new(cfg: Config) -> (r: Result<Engine, ConfigError>)
        ensures
            r is Ok <==> cfg.wf(),
            cfg.icons@.len() == 0 ==> (r matches Err(e) && e == ConfigError::EmptyIconList),
            cfg.icons@.len() >= 1 && (cfg.icons@.len() as nat) * (PHASE_SCALE as nat)
                > u64::MAX as nat ==> (r matches Err(e) && e == ConfigError::IconListTooLong),
            cfg.icons@.len() >= 1 && (cfg.icons@.len() as nat) * (PHASE_SCALE as nat)
                <= u64::MAX as nat && cfg.nrefresh == 0 ==> (r matches Err(e) && e
                == ConfigError::ZeroRefreshCadence),
            r matches Ok(e) ==> {
                &&& e.wf()
                &&& e.cfg == cfg
                &&& e.refresh_counter as nat == (cfg.nrefresh - 1) as nat
                &&& e.speed_up == 0
                &&& e.speed_down == 0
                &&& e.phase_up == 0
                &&& e.phase_down == 0
                &&& e.delay_ns as nat == spec_base_delay(cfg)
            },
    {
        match cfg.validate() {
            Err(e) => Err(e),
            Ok(()) => {
                proof {
                    lemma_mul_upper_bound(
                        1,
                        cfg.icons@.len() as int,
                        PHASE_SCALE as int,
                        PHASE_SCALE as int,
                    );
                }
                let delay: u64 = base_delay_ns(&cfg);
                let counter: u32 = cfg.nrefresh - 1;
                Ok(
                    Engine {
                        cfg,
                        refresh_counter: counter,
                        speed_up: 0,
                        speed_down: 0,
                        phase_up: 0,
                        phase_down: 0,
                        delay_ns: delay,
                    },
                )
            },
        }
    }

    /// Whether a fresh sample is due this frame: the cadence counter has
    /// completed `nrefresh` frames.
    pub fn sample_due(&self) -> (b: bool)
        requires
            self.wf(),
        ensures
            b <==> (self.refresh_counter as nat) % (self.cfg.nrefresh as nat) == 0,
    {
        self.refresh_counter % self.cfg.nrefresh == 0
    }

    /// Records a fresh sample: re-estimates both speeds from the byte
    /// deltas and the elapsed milliseconds, and restarts the sampling
    /// cadence. When no time has passed, both speed estimates are kept
    /// unchanged (and no division happens).
    pub fn record_sample(&mut self, bytes_up: u64, bytes_down: u64, elapsed_ms: u64)
        requires
            old(self).wf(),
        ensures
            final(self).wf(),
            final(self).speed_up as nat == spec_estimate(
                old(self).speed_up as nat,
                bytes_up as nat,
                elapsed_ms as nat,
            ),
            final(self).speed_down as nat == spec_estimate(
                old(self).speed_down as nat,
                bytes_down as nat,
                elapsed_ms as nat,
            ),
            elapsed_ms == 0 ==> final(self).speed_up == old(self).speed_up
                && final(self).speed_down == old(self).speed_down,
            final(self).refresh_counter == 0,
            final(self).cfg == old(self).cfg,
            final(self).phase_up == old(self).phase_up,
            final(self).phase_down == old(self).phase_down,
            final(self).delay_ns == old(self).delay_ns,
    {
        self.speed_up = estimate_speed(self.speed_up, bytes_up, elapsed_ms);
        self.speed_down = estimate_speed(self.speed_down, bytes_down, elapsed_ms);
        self.refresh_counter = 0;
    }

    /// Renders one frame of duration `elapsed_ns` nanoseconds: when
    /// animation is enabled, advances both phases by the speed-derived
    /// amount and adapts the frame delay; otherwise keeps the phases and
    /// restores the base delay. Returns the rendered status line and the
    /// delay to wait before the next frame, and steps the sampling
    /// cadence counter.
    pub fn frame(&mut self, elapsed_ns: u64) -> (r: (String, u64))
        requires
            old(self).wf(),
        ensures
            final(self).wf(),
            final(self).cfg == old(self).cfg,
            final(self).speed_up == old(self).speed_up,
            final(self).speed_down == old(self).speed_down,
            final(self).refresh_counter as nat == ((old(self).refresh_counter + 1) as nat) % (
            old(self).cfg.nrefresh as nat),
            final(self).phase_up as nat == (if old(self).cfg.animated_icons {
                spec_wrap_phase(
                    old(self).phase_up as nat,
                    old(self).spec_adv_up(elapsed_ns as nat),
                    old(self).cfg.icons@.len(),
                )
            } else {
                old(self).phase_up as nat
            }),
            final(self).phase_down as nat == (if old(self).cfg.animated_icons {
                spec_wrap_phase(
                    old(self).phase_down as nat,
                    old(self).spec_adv_down(elapsed_ns as nat),
                    old(self).cfg.icons@.len(),
                )
            } else {
                old(self).phase_down as nat
            }),
            final(self).delay_ns as nat == (if old(self).cfg.animated_icons {
                spec_next_delay(
                    old(self).delay_ns as nat,
                    old(self).spec_adv_up(elapsed_ns as nat),
                    old(self).spec_adv_down(elapsed_ns as nat),
                    spec_base_delay(old(self).cfg),
                )
            } else {
                spec_base_delay(old(self).cfg)
            }),
            r.1 == final(self).delay_ns,
            r.0@ == spec_line(
                spec_glyph_up(old(self).cfg, final(self).phase_up as nat),
                old(self).speed_up as nat,
                spec_glyph_down(old(self).cfg, final(self).phase_down as nat),
                old(self).speed_down as nat,
            ),
    {
        let base: u64 = base_delay_ns(&self.cfg);
        if self.cfg.animated_icons {
            let n: usize = self.cfg.icons.len();
            let adv_up: u64 = compute_advance(
                self.cfg.lin_coeff,
                self.cfg.log_coeff,
                self.speed_up,
                elapsed_ns,
            );
            let adv_down: u64 = compute_advance(
                self.cfg.lin_coeff,
                self.cfg.log_coeff,
                self.speed_down,
                elapsed_ns,
            );
            self.phase_up = advance_phase(self.phase_up, adv_up, n);
            self.phase_down = advance_phase(self.phase_down, adv_down, n);
            self.delay_ns = next_delay(self.delay_ns, adv_up, adv_down, base);
        } else {
            self.delay_ns = base;
        }
        let mut line = String::new();
        proof {
            reveal_strlit(" ");
            assert(" "@ =~= seq![' ']);
        }
        append_glyph_up(&mut line, &self.cfg, self.phase_up);
        line.append(" ");
        append_padded_speed(&mut line, self.speed_up);
        line.append(" ");
        append_glyph_down(&mut line, &self.cfg, self.phase_down);
        line.append(" ");
        append_padded_speed(&mut line, self.speed_down);
        self.refresh_counter = (self.refresh_counter + 1) % self.cfg.nrefresh;
        let d: u64 = self.delay_ns;
        proof {
            assert(line@ =~= spec_line(
                spec_glyph_up(old(self).cfg, final(self).phase_up as nat),
                old(self).speed_up as nat,
                spec_glyph_down(old(self).cfg, final(self).phase_down as nat),
                old(self).speed_down as nat,
            ));
        }
        (line, d)
    }
}

} // verus!
