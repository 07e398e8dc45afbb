use vstd::prelude::*;
use crate::event::Event;
use crate::flags::{EVENT_NULL, SENTINEL_USER_DATA};

verus! {

/// Why the tap could not be installed.
#[derive(Debug, Clone, Copy, PartialEq, Eq, Structural)]
pub enum TapError {
    /// A tap is already active in this process.
    AlreadyInstalled,
    /// The system refused to create the tap, typically for want of the accessibility
    /// permission.
    InstallRefused,
}

/// What the tap does with one raw event before any handler runs.
#[derive(Debug)]
pub enum TapStep {
    /// The event was injected by this library: hand it back to the system untouched.
    PassThrough,
    /// A genuine event: hand its normalised form to the handler.
    Dispatch(Event),
}

/// Whether an event's source user data marks it as injected by this library.
pub fn is_sent_from_this_app(user_data: i64) -> (r: bool)
    ensures
        r == (user_data == SENTINEL_USER_DATA),
{
    user_data == SENTINEL_USER_DATA
}

/// The decisions of the process-wide keyboard tap. Only one tap may be active at a time.
pub struct TapAdapter {
    installed: bool,
}

impl TapAdapter {
    /// Whether a tap is active.
    pub closed spec fn is_installed(&self) -> bool {
        self.installed
    }

    /// An adapter with no tap active.
    pub fn new() -> (r: TapAdapter)
        ensures
            !r.is_installed(),
    {
        TapAdapter { installed: false }
    }

    /// Whether a tap is active.
    pub fn installed(&self) -> (r: bool)
        ensures
            r == self.is_installed(),
    {
        self.installed
    }

    /// Claims the single tap slot before the system is asked for a tap. Fails, changing
    /// nothing, while a tap is active.
    pub fn install(&mut self) -> (r: Result<(), TapError>)
        ensures
            old(self).is_installed() ==> r == Err::<(), TapError>(TapError::AlreadyInstalled)
                && final(self).is_installed(),
            !old(self).is_installed() ==> r is Ok && final(self).is_installed(),
    {
        if self.installed {
            Err(TapError::AlreadyInstalled)
        } else {
            self.installed = true;
            Ok(())
        }
    }

    /// Releases the slot after the system refused the tap, and gives the error to report.
    pub fn install_refused(&mut self) -> (r: TapError)
        ensures
            r == TapError::InstallRefused,
            !final(self).is_installed(),
    {
        self.installed = false;
        TapError::InstallRefused
    }

    /// The first step for a raw event: an injected event (one whose source user data is the
    /// sentinel) passes through without reaching the handler, whatever its kind; any other
    /// is normalised and dispatched.
    pub fn on_raw_event(
        &self,
        raw_type: u32,
        user_data: i64,
        keycode: i64,
        flags: u64,
        timestamp: u64,
    ) -> (r: TapStep)
        ensures
            user_data == SENTINEL_USER_DATA ==> r is PassThrough,
            user_data != SENTINEL_USER_DATA ==> (r matches TapStep::Dispatch(e) && Event::normalises(
                e,
                raw_type,
                keycode,
                flags,
                timestamp,
            )),
    {
        if is_sent_from_this_app(user_data) {
            TapStep::PassThrough
        } else {
            TapStep::Dispatch(Event::from_cf(raw_type, keycode, flags, timestamp))
        }
    }

    /// The type that the raw event carries back to the system once the handler decided:
    /// unchanged when it propagates, the null type (which swallows it) when not.
    pub fn output_type(&self, raw_type: u32, propagate: bool) -> (r: u32)
        ensures
            r == (if propagate { raw_type } else { EVENT_NULL }),
    {
        if propagate {
            raw_type
        } else {
            EVENT_NULL
        }
    }
}

} // verus!
