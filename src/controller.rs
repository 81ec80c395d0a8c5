use crate::text::{push_temperature, temperature_text};
use vstd::prelude::*;

verus! {

/// Smoothing weights are fixed-point fractions with this denominator: a weight
/// of `BIAS_SCALE` takes the new reading alone, a weight of 0 ignores it.
pub const BIAS_SCALE: u32 = 1000;

/// What the fan is told to do.
#[derive(Debug, Clone, Copy, PartialEq, Eq, Structural)]
pub enum FanState {
    /// Full speed.
    Enabled,
    /// Left to the firmware's own control.
    Auto,
}

impl FanState {
    /// The name that status replies use.
    pub open spec fn label(self) -> Seq<char> {
        match self {
            FanState::Enabled => "enabled"@,
            FanState::Auto => "auto"@,
        }
    }

    pub fn name(&self) -> (r: &'static str)
        ensures
            r@ == self.label(),
    {
        match self {
            FanState::Enabled => "enabled",
            FanState::Auto => "auto",
        }
    }

    /// The value written to the fan's mode control: 0 for full speed, 2 for
    /// the firmware's automatic control.
    pub open spec fn spec_pwm_value(self) -> u16 {
        match self {
            FanState::Enabled => 0,
            FanState::Auto => 2,
        }
    }

    pub fn pwm_value(&self) -> (r: u16)
        ensures
            r == self.spec_pwm_value(),
    {
        match self {
            FanState::Enabled => 0,
            FanState::Auto => 2,
        }
    }
}

/// Controller settings. Temperatures are in thousandths of a degree, intervals
/// in milliseconds, biases in thousandths (see `BIAS_SCALE`).
#[derive(Debug, Clone, Copy, PartialEq, Eq)]
pub struct FanControllerConfig {
    /// Smoothed temperature at or above which the fan goes to full speed.
    pub t_enable: i32,
    /// Smoothed temperature at or below which the fan returns to auto.
    pub t_auto: i32,
    /// Time between readings while the fan is not forced on.
    pub interval: u64,
    /// Time between readings while the smoothed value is at or above `t_enable`.
    pub delay: u64,
    /// Weight of a new reading that is above the smoothed value.
    pub b_rise: u32,
    /// Weight of a new reading that is at or below the smoothed value.
    pub b_drop: u32,
}

impl FanControllerConfig {
    /// The hysteresis band is not empty and both weights lie in [0, 1].
    pub open spec fn valid(&self) -> bool {
        &&& self.t_enable > self.t_auto
        &&& self.b_rise <= BIAS_SCALE
        &&& self.b_drop <= BIAS_SCALE
    }

    /// 70 and 60 degrees, readings every 5 s (30 s while hot), weights 0.6
    /// rising and 0.4 falling.
    pub open spec fn spec_default() -> FanControllerConfig {
        FanControllerConfig {
            t_enable: 70_000,
            t_auto: 60_000,
            interval: 5_000,
            delay: 30_000,
            b_rise: 600,
            b_drop: 400,
        }
    }
}

impl Default for FanControllerConfig {
    fn default() -> (r: FanControllerConfig)
        ensures
            r == FanControllerConfig::spec_default(),
    {
        FanControllerConfig {
            t_enable: 70_000,
            t_auto: 60_000,
            interval: 5_000,
            delay: 30_000,
            b_rise: 600,
            b_drop: 400,
        }
    }
}

/// Settings that a user's configuration file gives; `None` where it is silent.
/// Units are those of `FanControllerConfig`.
#[derive(Debug, Clone, Copy, PartialEq, Eq, Default)]
pub struct ConfigOverrides {
    pub t_enable: Option<i32>,
    pub t_auto: Option<i32>,
    pub interval: Option<u64>,
    pub delay: Option<u64>,
    pub b_rise: Option<u32>,
    pub b_drop: Option<u32>,
}

pub open spec fn or_default<T>(o: Option<T>, d: T) -> T {
    match o {
        Some(v) => v,
        None => d,
    }
}

impl FanControllerConfig {
    /// The defaults with each field that the user set put in its place.
    pub open spec fn overlay(o: ConfigOverrides) -> FanControllerConfig {
        let d = FanControllerConfig::spec_default();
        FanControllerConfig {
            t_enable: or_default(o.t_enable, d.t_enable),
            t_auto: or_default(o.t_auto, d.t_auto),
            interval: or_default(o.interval, d.interval),
            delay: or_default(o.delay, d.delay),
            b_rise: or_default(o.b_rise, d.b_rise),
            b_drop: or_default(o.b_drop, d.b_drop),
        }
    }

    /// What `load_user_config` settles on: the overlay where it is valid,
    /// else the defaults.
    pub open spec fn spec_load(user: Option<ConfigOverrides>) -> FanControllerConfig {
        match user {
            Some(o) => if FanControllerConfig::overlay(o).valid() {
                FanControllerConfig::overlay(o)
            } else {
                FanControllerConfig::spec_default()
            },
            None => FanControllerConfig::spec_default(),
        }
    }

    pub fn is_valid(&self) -> (r: bool)
        ensures
            r == self.valid(),
    {
        self.t_enable > self.t_auto && self.b_rise <= BIAS_SCALE && self.b_drop <= BIAS_SCALE
    }

    /// The settings to run with, from what the user's file gave (`None` where
    /// there is no file or it could not be read). A file never stops the
    /// controller: settings that would leave it without a hysteresis band or
    /// with a weight outside [0, 1] give way to the defaults.
    pub fn load_user_config(user: Option<ConfigOverrides>) -> (r: FanControllerConfig)
        ensures
            r == FanControllerConfig::spec_load(user),
            r.valid(),
    {
        let mut cfg = FanControllerConfig::default();
        match user {
            Some(o) => {
                if let Some(v) = o.t_enable {
                    cfg.t_enable = v;
                }
                if let Some(v) = o.t_auto {
                    cfg.t_auto = v;
                }
                if let Some(v) = o.interval {
                    cfg.interval = v;
                }
                if let Some(v) = o.delay {
                    cfg.delay = v;
                }
                if let Some(v) = o.b_rise {
                    cfg.b_rise = v;
                }
                if let Some(v) = o.b_drop {
                    cfg.b_drop = v;
                }
                if cfg.is_valid() {
                    cfg
                } else {
                    FanControllerConfig::default()
                }
            },
            None => cfg,
        }
    }
}

/// One smoothing step: the previous value moves toward the reading by the
/// fraction `bias / BIAS_SCALE` of the gap, rounded toward the previous value.
pub open spec fn smooth(prev: int, raw: int, bias: int) -> int {
    if raw > prev {
        prev + (bias * (raw - prev)) / (BIAS_SCALE as int)
    } else {
        prev - (bias * (prev - raw)) / (BIAS_SCALE as int)
    }
}

/// The controller's state. `next_read` is a deadline in milliseconds on a grid
/// anchored at the controller's start.
#[derive(Debug)]
pub struct FanController {
    pub config: FanControllerConfig,
    pub fan_state: FanState,
    /// The filtered signal used for every threshold comparison.
    pub smoothed_temp: i32,
    /// The last raw reading, kept for display only.
    pub latest_temp: i32,
    pub next_read: u64,
}

impl FanController {
    /// The controller runs on valid settings.
    pub open spec fn wf(&self) -> bool {
        self.config.valid()
    }

    /// The weight that a reading gets against the current smoothed value.
    pub open spec fn bias_for(&self, raw: i32) -> int {
        if raw > self.smoothed_temp {
            self.config.b_rise as int
        } else {
            self.config.b_drop as int
        }
    }

    pub open spec fn smoothed_after(&self, raw: i32) -> int {
        smooth(self.smoothed_temp as int, raw as int, self.bias_for(raw))
    }

    /// The time until the next reading, once the smoothed value is `s`.
    pub open spec fn step_for(&self, s: int) -> int {
        if s >= self.config.t_enable {
            self.config.delay as int
        } else {
            self.config.interval as int
        }
    }

    /// The hysteresis rule on the smoothed value `s`.
    pub open spec fn state_for(&self, s: int) -> FanState {
        if s >= self.config.t_enable {
            FanState::Enabled
        } else if s <= self.config.t_auto {
            FanState::Auto
        } else {
            self.fan_state
        }
    }

    /// Whether the next deadline fits in a `u64` whichever interval is taken.
    pub open spec fn can_schedule(&self) -> bool {
        &&& self.next_read + self.config.interval <= u64::MAX
        &&& self.next_read + self.config.delay <= u64::MAX
    }

    /// The controller after one reading.
    pub open spec fn after_update(&self, raw: i32) -> FanController {
        let s = self.smoothed_after(raw);
        FanController {
            config: self.config,
            fan_state: self.state_for(s),
            smoothed_temp: s as i32,
            latest_temp: raw,
            next_read: (self.next_read + self.step_for(s)) as u64,
        }
    }

    /// A fresh controller: fan on auto, smoothed value 0, first deadline at
    /// the start of the grid.
    pub fn new(config: FanControllerConfig) -> (r: FanController)
        requires
            config.valid(),
        ensures
            r.wf(),
            r == (FanController {
                config,
                fan_state: FanState::Auto,
                smoothed_temp: 0,
                latest_temp: 0,
                next_read: 0,
            }),
    {
        FanController { config, fan_state: FanState::Auto, smoothed_temp: 0, latest_temp: 0, next_read: 0 }
    }

    /// The status reply: the last raw reading and the fan state.
    pub open spec fn status_text(&self) -> Seq<char> {
        "Temp: "@ + temperature_text(self.latest_temp as int) + "\nState: "@ + self.fan_state.label()
    }

    /// Renders the current state; it reads and changes nothing else.
    pub fn status(&self) -> (r: String)
        ensures
            r@ == self.status_text(),
    {
        let mut out = String::from_str("Temp: ");
        push_temperature(&mut out, self.latest_temp);
        out.append("\nState: ");
        out.append(self.fan_state.name());
        out
    }

    /// Takes one raw reading: picks the rising or falling weight, smooths,
    /// keeps the reading for display, applies the hysteresis rule to the
    /// smoothed value and moves the deadline one interval along its grid.
    pub fn update(&mut self, temp: i32)
        requires
            old(self).wf(),
            old(self).can_schedule(),
        ensures
            *final(self) == old(self).after_update(temp),
            final(self).wf(),
    {
        let prev = self.smoothed_temp;
        let smoothed: i32 = if temp > prev {
            let bias = self.config.b_rise;
            let gap: u64 = (temp as i64 - prev as i64) as u64;
            proof {
                lemma_fraction_of_gap(bias as int, gap as int);
            }
            let part: u64 = (bias as u64 * gap) / (BIAS_SCALE as u64);
            (prev as i64 + part as i64) as i32
        } else {
            let bias = self.config.b_drop;
            let gap: u64 = (prev as i64 - temp as i64) as u64;
            proof {
                lemma_fraction_of_gap(bias as int, gap as int);
            }
            let part: u64 = (bias as u64 * gap) / (BIAS_SCALE as u64);
            (prev as i64 - part as i64) as i32
        };
        self.smoothed_temp = smoothed;
        self.latest_temp = temp;
        if smoothed >= self.config.t_enable {
            self.fan_state = FanState::Enabled;
            self.next_read = self.next_read + self.config.delay;
        } else {
            self.next_read = self.next_read + self.config.interval;
            if smoothed <= self.config.t_auto {
                self.fan_state = FanState::Auto;
            }
        }
    }
}

impl Default for FanController {
    fn default() -> (r: FanController)
        ensures
            r == (FanController {
                config: FanControllerConfig::spec_default(),
                fan_state: FanState::Auto,
                smoothed_temp: 0,
                latest_temp: 0,
                next_read: 0,
            }),
    {
        FanController::new(FanControllerConfig::default())
    }
}

/// The controller after each of `readings` in turn.
pub open spec fn run(c: FanController, readings: Seq<i32>) -> FanController
    decreases readings.len(),
{
    if readings.len() == 0 {
        c
    } else {
        run(c, readings.drop_last()).after_update(readings.last())
    }
}

/// A run of readings keeps the settings.
proof fn run_keeps_config(c: FanController, readings: Seq<i32>)
    ensures
        run(c, readings).config == c.config,
    decreases readings.len(),
{
    if readings.len() > 0 {
        run_keeps_config(c, readings.drop_last());
    }
}

/// Hysteresis: once the fan is forced on, it stays on through every run of
/// readings after each of which the smoothed value is still above `t_auto`,
/// however close to it that value comes.
pub proof fn enabled_holds_above_auto(c: FanController, readings: Seq<i32>)
    requires
        c.wf(),
        c.fan_state == FanState::Enabled,
        forall|i: int|
            1 <= i <= readings.len() ==> #[trigger] run(c, readings.take(i)).smoothed_temp
                > c.config.t_auto,
    ensures
        run(c, readings).fan_state == FanState::Enabled,
    decreases readings.len(),
{
    if readings.len() > 0 {
        let rest = readings.drop_last();
        assert forall|i: int| 1 <= i <= rest.len() implies #[trigger] run(c, rest.take(i)).smoothed_temp
            > c.config.t_auto by {
            assert(rest.take(i) =~= readings.take(i));
        }
        enabled_holds_above_auto(c, rest);
        assert(readings.take(readings.len() as int) =~= readings);
        run_keeps_config(c, rest);
        lemma_smoothed_between(run(c, rest), readings.last());
    }
}

/// Hysteresis, the other way: the fan returns to auto on the reading after
/// which the smoothed value is at or below `t_auto`, and only then.
pub proof fn enabled_returns_to_auto(c: FanController, raw: i32)
    requires
        c.wf(),
        c.fan_state == FanState::Enabled,
    ensures
        c.after_update(raw).fan_state == FanState::Auto <==> c.after_update(raw).smoothed_temp
            <= c.config.t_auto,
{
    lemma_smoothed_between(c, raw);
}

/// Scheduling: each reading moves the deadline by exactly `delay` when the
/// smoothed value reaches `t_enable` (the fan is then forced on) and by exactly
/// `interval` otherwise, whatever the time at which the reading was taken; the
/// deadline strictly increases when both intervals are positive.
pub proof fn deadline_advances(c: FanController, raw: i32)
    requires
        c.wf(),
        c.can_schedule(),
    ensures
        c.after_update(raw).smoothed_temp >= c.config.t_enable ==> c.after_update(raw).fan_state
            == FanState::Enabled && c.after_update(raw).next_read == c.next_read
            + c.config.delay,
        c.after_update(raw).smoothed_temp < c.config.t_enable ==> c.after_update(raw).next_read
            == c.next_read + c.config.interval,
        c.after_update(raw).fan_state == FanState::Auto ==> c.after_update(raw).next_read
            == c.next_read + c.config.interval,
        c.config.interval > 0 && c.config.delay > 0 ==> c.after_update(raw).next_read
            > c.next_read,
{
    lemma_smoothed_between(c, raw);
}

/// A weight in [0, 1] takes between nothing and all of a gap, and the product
/// fits in a `u64`.
proof fn lemma_fraction_of_gap(bias: int, gap: int)
    requires
        0 <= bias <= BIAS_SCALE,
        0 <= gap <= u32::MAX,
    ensures
        bias * gap <= u64::MAX,
        0 <= (bias * gap) / (BIAS_SCALE as int) <= gap,
{
    assert(bias * gap <= 1000 * gap) by (nonlinear_arith)
        requires
            0 <= bias <= 1000,
            0 <= gap,
    ;
    assert(0 <= bias * gap) by (nonlinear_arith)
        requires
            0 <= bias,
            0 <= gap,
    ;
    assert((bias * gap) / 1000 <= gap) by (nonlinear_arith)
        requires
            0 <= bias * gap <= 1000 * gap,
    ;
}

/// The smoothed value after a reading lies between the previous smoothed value
/// and the reading: each step is a convex combination of the two.
pub proof fn smoothing_stays_between(c: FanController, raw: i32)
    requires
        c.wf(),
    ensures
        c.smoothed_temp <= raw ==> c.smoothed_temp <= c.after_update(raw).smoothed_temp <= raw,
        raw <= c.smoothed_temp ==> raw <= c.after_update(raw).smoothed_temp <= c.smoothed_temp,
{
    lemma_smoothed_between(c, raw);
}

proof fn lemma_smoothed_between(c: FanController, raw: i32)
    requires
        c.wf(),
    ensures
        c.smoothed_temp <= raw ==> c.smoothed_temp <= c.smoothed_after(raw) <= raw,
        raw <= c.smoothed_temp ==> raw <= c.smoothed_after(raw) <= c.smoothed_temp,
        c.after_update(raw).smoothed_temp == c.smoothed_after(raw),
{
    let prev = c.smoothed_temp as int;
    let r = raw as int;
    if r > prev {
        lemma_fraction_of_gap(c.config.b_rise as int, r - prev);
    } else {
        lemma_fraction_of_gap(c.config.b_drop as int, prev - r);
    }
}

} // verus!
