//! The desktop UI's state and decisions, without the widgets.
//!
//! The application draws the window, keeps the clock and talks to the HID
//! library; what the controls hold and when to write to the keyboard is
//! decided here.
use vstd::prelude::*;

use crate::color::{hsv_to_rgb, hsv_to_rgb_spec};
use crate::error::{error_message, KeyboardError};
use crate::hid::clone_opt_string;
use crate::text::{chars_of, trim, trim_chars};
use crate::vialrgb::{Info, Mode, EFFECT_OFF, EFFECT_SOLID_COLOR};

verus! {

broadcast use vstd::string::group_string_axioms;

/// Why a single-LED write was refused.
#[derive(Debug, Clone, Copy, PartialEq, Eq, Structural)]
pub enum DirectLedError {
    /// The keyboard reports no addressable LED.
    NoLeds,
    /// The selected LED is past the last one.
    LedIndexOutOfRange,
}

/// The UI's state.
pub struct UiModel {
    pub did_initial_sync: bool,
    pub last_online: bool,
    /// The configuration file loaded; the agent starts only then.
    pub cfg_loaded_ok: bool,
    pub kb_online: bool,
    pub auto_apply: bool,
    pub solid_dirty: bool,
    pub direct_dirty: bool,
    pub effect_dirty: bool,
    pub solid_rgb: [u8; 3],
    pub solid_brightness: u8,
    pub effect_id: u16,
    pub effect_speed: u8,
    pub led_count: Option<u16>,
    pub led_index: u16,
    pub direct_rgb: [u8; 3],
    pub direct_brightness: u8,
    pub last_info: Option<Info>,
    pub last_mode: Option<Mode>,
    pub last_error: Option<String>,
    pub agent_started: bool,
}

/// How long a control must stay unchanged before it is written, in
/// milliseconds.
pub const DEBOUNCE_MS: u64 = 180;

/// How often the keyboard is probed, in milliseconds.
pub const PROBE_INTERVAL_MS: u64 = 2000;

impl UiModel {
    /// The state when the window opens.
    pub fn new(cfg_loaded_ok: bool, last_error: Option<String>) -> (r: UiModel)
        ensures
            r.cfg_loaded_ok == cfg_loaded_ok,
            r.last_error == last_error,
            !r.did_initial_sync && !r.kb_online && !r.agent_started,
            r.auto_apply,
            !r.solid_dirty && !r.direct_dirty && !r.effect_dirty,
            r.solid_rgb@ == seq![255u8, 0, 0],
            r.solid_brightness == 128,
            r.effect_id == EFFECT_SOLID_COLOR,
            r.effect_speed == 0,
            r.led_count is None,
            r.led_index == 0,
            r.direct_rgb@ == seq![255u8, 255, 255],
            r.direct_brightness == 64,
            r.last_info is None && r.last_mode is None,
    {
        let r = UiModel {
            did_initial_sync: false,
            last_online: false,
            cfg_loaded_ok,
            kb_online: false,
            auto_apply: true,
            solid_dirty: false,
            direct_dirty: false,
            effect_dirty: false,
            solid_rgb: [255, 0, 0],
            solid_brightness: 128,
            effect_id: EFFECT_SOLID_COLOR,
            effect_speed: 0,
            led_count: None,
            led_index: 0,
            direct_rgb: [255, 255, 255],
            direct_brightness: 64,
            last_info: None,
            last_mode: None,
            last_error,
            agent_started: false,
        };
        assert(r.solid_rgb@ =~= seq![255u8, 0, 0]);
        assert(r.direct_rgb@ =~= seq![255u8, 255, 255]);
        r
    }

    /// Records a probe: the keyboard is online exactly when it answered.
    /// A loud probe also shows the outcome (clears the error on success,
    /// shows it on failure); a quiet one leaves the error line alone.
    pub fn record_probe(&mut self, result: Result<Info, KeyboardError>, noisy: bool) -> (online: bool)
        ensures
            online == result is Ok,
            final(self).kb_online == online,
            result matches Ok(i) ==> final(self).last_info == Some(i),
            result is Err ==> final(self).last_info == old(self).last_info,
            noisy && result is Ok ==> final(self).last_error is None,
            noisy && result is Err ==> (final(self).last_error matches Some(m) && m@ == error_message(result->Err_0)),
            !noisy ==> final(self).last_error == old(self).last_error,
    {
        match result {
            Ok(info) => {
                self.last_info = Some(info);
                self.kb_online = true;
                if noisy {
                    self.last_error = None;
                }
                true
            },
            Err(e) => {
                self.kb_online = false;
                if noisy {
                    self.last_error = Some(e.message());
                }
                false
            },
        }
    }

    /// Takes in the keyboard's mode: the effect controls follow it unless an
    /// edit is pending; OFF or zero brightness shows brightness 0, otherwise
    /// the brightness and the colour follow the keyboard.
    pub fn apply_mode_reading(&mut self, m: Mode)
        ensures
            final(self).last_mode == Some(m),
            !old(self).effect_dirty ==> final(self).effect_id == m.mode && final(self).effect_speed
                == m.speed,
            old(self).effect_dirty ==> final(self).effect_id == old(self).effect_id
                && final(self).effect_speed == old(self).effect_speed,
            (m.mode == EFFECT_OFF || m.v == 0) ==> final(self).solid_brightness == 0
                && final(self).solid_rgb == old(self).solid_rgb,
            !(m.mode == EFFECT_OFF || m.v == 0) ==> final(self).solid_brightness == m.v
                && final(self).solid_rgb@[0] as int == hsv_to_rgb_spec(m.h, m.s, m.v).0
                && final(self).solid_rgb@[1] as int == hsv_to_rgb_spec(m.h, m.s, m.v).1
                && final(self).solid_rgb@[2] as int == hsv_to_rgb_spec(m.h, m.s, m.v).2,
            final(self).effect_dirty == old(self).effect_dirty,
            final(self).led_index == old(self).led_index,
            final(self).led_count == old(self).led_count,
    {
        self.last_mode = Some(m);
        if !self.effect_dirty {
            self.effect_id = m.mode;
            self.effect_speed = m.speed;
        }
        if m.mode == EFFECT_OFF || m.v == 0 {
            self.solid_brightness = 0;
        } else {
            self.solid_brightness = m.v;
            self.solid_rgb = hsv_to_rgb(m.h, m.s, m.v);
        }
    }

    /// Takes in a new LED count and keeps the selected LED in range.
    pub fn set_led_count(&mut self, n: u16)
        ensures
            final(self).led_count == Some(n),
            n == 0 ==> final(self).led_index == 0,
            n > 0 ==> final(self).led_index == (if old(self).led_index >= n {
                (n - 1) as u16
            } else {
                old(self).led_index
            }),
    {
        self.led_count = Some(n);
        if n == 0 {
            self.led_index = 0;
        } else if self.led_index >= n {
            self.led_index = n - 1;
        }
    }

    /// Whether the selected LED can be written, given the LED count.
    pub fn check_direct_led(&self, n: u16) -> (r: Result<(), DirectLedError>)
        ensures
            n == 0 ==> r == Err::<(), DirectLedError>(DirectLedError::NoLeds),
            n > 0 && self.led_index >= n ==> r == Err::<(), DirectLedError>(
                DirectLedError::LedIndexOutOfRange,
            ),
            n > 0 && self.led_index < n ==> r is Ok,
    {
        if n == 0 {
            return Err(DirectLedError::NoLeds);
        }
        if self.led_index >= n {
            return Err(DirectLedError::LedIndexOutOfRange);
        }
        Ok(())
    }

    /// The highest LED index the selector offers: the last LED when the
    /// count is known (0 when there are none), else 255.
    pub fn led_index_max(&self) -> (r: u16)
        ensures
            r == match self.led_count {
                Some(n) => if n == 0 {
                    0u16
                } else {
                    (n - 1) as u16
                },
                None => 255u16,
            },
    {
        match self.led_count {
            Some(n) => if n == 0 {
                0
            } else {
                n - 1
            },
            None => 255,
        }
    }

    /// The HSV written with an effect change: the last keyboard reading when
    /// there is one, else the colour controls (their hue and saturation,
    /// given as `solid_hs`, with the brightness slider as V).
    pub fn effect_hsv(&self, solid_hs: (u8, u8)) -> (r: (u8, u8, u8))
        ensures
            r == match self.last_mode {
                Some(m) => (m.h, m.s, m.v),
                None => (solid_hs.0, solid_hs.1, self.solid_brightness),
            },
    {
        match self.last_mode {
            Some(m) => (m.h, m.s, m.v),
            None => (solid_hs.0, solid_hs.1, self.solid_brightness),
        }
    }

    /// After an effect change was written: no edit is pending and the last
    /// reading assumes the keyboard took it.
    pub fn mark_effect_applied(&mut self, solid_hs: (u8, u8))
        ensures
            !final(self).effect_dirty,
            final(self).last_mode == Some(
                ({
                    let (h, s, v) = match old(self).last_mode {
                        Some(m) => (m.h, m.s, m.v),
                        None => (solid_hs.0, solid_hs.1, old(self).solid_brightness),
                    };
                    Mode { mode: old(self).effect_id, speed: old(self).effect_speed, h, s, v }
                }),
            ),
    {
        let (h, s, v) = self.effect_hsv(solid_hs);
        self.effect_dirty = false;
        self.last_mode = Some(Mode { mode: self.effect_id, speed: self.effect_speed, h, s, v });
    }

    /// After the configuration was saved: it counts as loaded, and the agent
    /// is to be started again so that it runs with the saved settings.
    pub fn on_config_saved(&mut self)
        ensures
            final(self).cfg_loaded_ok,
            !final(self).agent_started,
            final(self).kb_online == old(self).kb_online,
            final(self).last_error == old(self).last_error,
    {
        self.cfg_loaded_ok = true;
        self.agent_started = false;
    }

    /// The agent starts when it is not running and the configuration loaded.
    pub fn should_start_agent(&self) -> (r: bool)
        ensures
            r == (!self.agent_started && self.cfg_loaded_ok),
    {
        !self.agent_started && self.cfg_loaded_ok
    }
}

/// The probes of one UI tick: the initial one (once, when the window opens)
/// and the periodic one (every `PROBE_INTERVAL_MS`).
#[derive(Debug, Clone, Copy, PartialEq, Eq, Structural)]
pub struct ProbePlan {
    pub initial: bool,
    pub periodic: bool,
}

/// What follows a probe: read the keyboard's mode, and read the LED count.
#[derive(Debug, Clone, Copy, PartialEq, Eq, Structural)]
pub struct ProbeFollowUp {
    pub read_mode: bool,
    pub refresh_leds: bool,
}

/// The pending edits that one UI tick writes to the keyboard.
#[derive(Debug, Clone, Copy, PartialEq, Eq, Structural)]
pub struct WritePlan {
    pub solid: bool,
    pub effect: bool,
    pub direct: bool,
}

impl UiModel {
    /// The probes of a tick, `since_probe_ms` after the last periodic probe.
    pub fn plan_probes(&self, since_probe_ms: u64) -> (r: ProbePlan)
        ensures
            r.initial == !self.did_initial_sync,
            r.periodic == (since_probe_ms >= PROBE_INTERVAL_MS),
    {
        ProbePlan { initial: !self.did_initial_sync, periodic: since_probe_ms >= PROBE_INTERVAL_MS }
    }

    /// Records a probe's outcome (already taken in by `record_probe`): the
    /// mode is read whenever the keyboard is online, and a periodic probe
    /// that finds it newly online reads the LED count when it is unknown.
    pub fn after_probe(&mut self, online_now: bool, periodic: bool) -> (r: ProbeFollowUp)
        ensures
            r.read_mode == online_now,
            r.refresh_leds == (periodic && online_now && !old(self).last_online
                && old(self).led_count is None),
            final(self).last_online == online_now,
            final(self).did_initial_sync == (old(self).did_initial_sync || !periodic),
            final(self).kb_online == old(self).kb_online,
            final(self).led_count == old(self).led_count,
            final(self).last_error == old(self).last_error,
    {
        let refresh_leds = periodic && online_now && !self.last_online && self.led_count.is_none();
        self.last_online = online_now;
        if !periodic {
            self.did_initial_sync = true;
        }
        ProbeFollowUp { read_mode: online_now, refresh_leds }
    }

    /// The edits to write in a tick, given how long each control has been
    /// still: only while the keyboard is online, each by `should_fire`.
    pub fn plan_writes(&self, solid_ms: u64, effect_ms: u64, direct_ms: u64) -> (r: WritePlan)
        ensures
            r.solid == (self.kb_online && self.auto_apply && self.solid_dirty && solid_ms >= DEBOUNCE_MS),
            r.effect == (self.kb_online && self.auto_apply && self.effect_dirty && effect_ms >= DEBOUNCE_MS),
            r.direct == (self.kb_online && self.auto_apply && self.direct_dirty && direct_ms >= DEBOUNCE_MS),
    {
        WritePlan {
            solid: self.kb_online && should_fire(self.auto_apply, self.solid_dirty, solid_ms),
            effect: self.kb_online && should_fire(self.auto_apply, self.effect_dirty, effect_ms),
            direct: self.kb_online && should_fire(self.auto_apply, self.direct_dirty, direct_ms),
        }
    }
}

/// A pending edit is written when auto-apply is on and the control has been
/// still for the debounce time.
pub fn should_fire(auto_apply: bool, dirty: bool, elapsed_ms: u64) -> (r: bool)
    ensures
        r == (auto_apply && dirty && elapsed_ms >= DEBOUNCE_MS),
{
    auto_apply && dirty && elapsed_ms >= DEBOUNCE_MS
}

/// The serial filter from the text field: none when blank, else the text
/// as typed.
pub fn serial_from_text(txt: String) -> (r: Option<String>)
    ensures
        trim(txt@).len() == 0 ==> r is None,
        trim(txt@).len() > 0 ==> r == Some(txt),
{
    let t = trim_chars(&chars_of(txt.as_str()));
    if t.len() == 0 {
        None
    } else {
        Some(txt)
    }
}

} // verus!
