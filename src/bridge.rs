//! The overflow interrupt of the hardware counter.
//!
//! Each firing runs the registered callback, if any, then advances the
//! overflow count by one, then acknowledges the interrupt. The bridge holds
//! the overflow count and whether a callback is registered; it tells the
//! interrupt entry point whether to run the callback.
use vstd::prelude::*;

verus! {

/// The abstract state of the bridge.
pub struct BridgeModel {
    pub overflows: nat,
    pub callback_registered: bool,
}

/// One firing of the overflow interrupt: the next state, and whether the
/// callback runs. The count is a 32-bit counter and wraps past its maximum.
pub open spec fn fire(m: BridgeModel) -> (BridgeModel, bool) {
    (
        BridgeModel {
            overflows: ((m.overflows + 1) % 0x1_0000_0000) as nat,
            callback_registered: m.callback_registered,
        },
        m.callback_registered,
    )
}

/// The state after `n` firings from `m`, and how many of them ran the
/// callback.
pub open spec fn fire_times(m: BridgeModel, n: nat) -> (BridgeModel, nat)
    decreases n,
{
    if n == 0 {
        (m, 0)
    } else {
        let (prev, runs) = fire_times(m, (n - 1) as nat);
        let (next, ran) = fire(prev);
        (next, if ran { runs + 1 } else { runs })
    }
}

/// Overflow count and callback slot, as driven by the overflow interrupt.
pub struct InterruptBridge {
    overflows: u32,
    callback_registered: bool,
}

impl View for InterruptBridge {
    type V = BridgeModel;

    closed spec fn view(&self) -> BridgeModel {
        BridgeModel { overflows: self.overflows as nat, callback_registered: self.callback_registered }
    }
}

impl InterruptBridge {
    /// A bridge with no overflow counted and no callback registered.
    pub fn new() -> (r: Self)
        ensures
            r@ == (BridgeModel { overflows: 0, callback_registered: false }),
    {
        InterruptBridge { overflows: 0, callback_registered: false }
    }

    /// Overflows counted so far.
    pub fn overflows(&self) -> (r: u32)
        ensures
            r as nat == self@.overflows,
    {
        self.overflows
    }

    /// Whether a callback runs on the next firing.
    pub fn has_callback(&self) -> (r: bool)
        ensures
            r == self@.callback_registered,
    {
        self.callback_registered
    }

    /// Registers the callback; it runs on every later firing.
    pub fn register_callback(&mut self)
        ensures
            final(self)@ == (BridgeModel { callback_registered: true, ..old(self)@ }),
    {
        self.callback_registered = true;
    }

    /// Clears the callback slot.
    pub fn clear_callback(&mut self)
        ensures
            final(self)@ == (BridgeModel { callback_registered: false, ..old(self)@ }),
    {
        self.callback_registered = false;
    }

    /// Handles one firing of the overflow interrupt: returns whether the
    /// registered callback is to run, and counts the overflow. The caller
    /// runs the callback first, then acknowledges the interrupt.
    pub fn on_overflow(&mut self) -> (run_callback: bool)
        ensures
            (final(self)@, run_callback) == fire(old(self)@),
    {
        self.overflows = self.overflows.wrapping_add(1);
        self.callback_registered
    }
}

/// Firing the interrupt `n` times with a callback registered runs the
/// callback exactly `n` times and advances the overflow count by exactly `n`;
/// with no callback registered it runs nothing.
pub proof fn lemma_firings_counted(m: BridgeModel, n: nat)
    requires
        m.overflows + n <= 0xffff_ffff,
    ensures
        fire_times(m, n).0 == (BridgeModel { overflows: m.overflows + n, ..m }),
        fire_times(m, n).1 == if m.callback_registered { n } else { 0 },
    decreases n,
{
    if n > 0 {
        lemma_firings_counted(m, (n - 1) as nat);
    }
}

} // verus!
