//! Settings that can change while the program runs, and their decoding from
//! `setting_changed` notifications.

use vstd::prelude::*;
use crate::msg::{Msg, msg_bool, msg_str, msg_u64};
use crate::text::str_equals;

verus! {

/// Refresh rate used until the editor sets another one.
pub const DEFAULT_REFRESH_RATE: u64 = 60;

/// Window settings that the render loop consults on each tick.
pub struct WindowSettings {
    /// Target frames per second; never zero.
    pub refresh_rate: u64,
    /// Draw on every tick, even when nothing changed.
    pub no_idle: bool,
    pub fullscreen: bool,
}

impl WindowSettings {
    pub open spec fn wf(&self) -> bool {
        self.refresh_rate > 0
    }

    pub fn new() -> (r: WindowSettings)
        ensures
            r.wf(),
            r.refresh_rate == DEFAULT_REFRESH_RATE,
            !r.no_idle,
            !r.fullscreen,
    {
        WindowSettings { refresh_rate: DEFAULT_REFRESH_RATE, no_idle: false, fullscreen: false }
    }

    /// Applies a `setting_changed` payload `[name, value]`. Returns whether a
    /// setting changed; an unknown name, a value of the wrong type or a zero
    /// refresh rate leaves the settings as they are.
    pub fn handle_changed_notification(&mut self, arguments: &Vec<Msg>) -> (r: bool)
        requires
            old(self).wf(),
        ensures
            final(self).wf(),
            r == (settings_after(*old(self), arguments@) is Some),
            r ==> *final(self) == settings_after(*old(self), arguments@)->0,
            !r ==> *final(self) == *old(self),
    {
        if arguments.len() < 2 {
            return false;
        }
        let name = match arguments[0].as_str() {
            Some(n) => n,
            None => return false,
        };
        let value = &arguments[1];
        proof {
            reveal_strlit("refresh_rate");
            reveal_strlit("no_idle");
            reveal_strlit("fullscreen");
        }
        if str_equals(name, "refresh_rate") {
            match value.as_u64() {
                Some(rate) => {
                    if rate > 0 {
                        self.refresh_rate = rate;
                        return true;
                    }
                },
                None => {},
            }
            return false;
        }
        if str_equals(name, "no_idle") {
            match value.as_bool() {
                Some(b) => {
                    self.no_idle = b;
                    return true;
                },
                None => {},
            }
            return false;
        }
        if str_equals(name, "fullscreen") {
            match value.as_bool() {
                Some(b) => {
                    self.fullscreen = b;
                    return true;
                },
                None => {},
            }
            return false;
        }
        false
    }
}

/// The settings after a `setting_changed` payload, or `None` when the payload
/// changes nothing.
pub open spec fn settings_after(s: WindowSettings, args: Seq<Msg>) -> Option<WindowSettings> {
    if args.len() < 2 || msg_str(args[0]) is None {
        None
    } else {
        let name = msg_str(args[0])->0;
        let v = args[1];
        if name == "refresh_rate"@ {
            match msg_u64(v) {
                Some(n) => if n > 0 {
                    Some(WindowSettings { refresh_rate: n, ..s })
                } else {
                    None
                },
                None => None,
            }
        } else if name == "no_idle"@ {
            match msg_bool(v) {
                Some(b) => Some(WindowSettings { no_idle: b, ..s }),
                None => None,
            }
        } else if name == "fullscreen"@ {
            match msg_bool(v) {
                Some(b) => Some(WindowSettings { fullscreen: b, ..s }),
                None => None,
            }
        } else {
            None
        }
    }
}

} // verus!
