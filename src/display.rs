//! Reading and setting the display's power state over the control bus.
use vstd::prelude::*;

use crate::device::{write_feature, BusLog, FeatureWrite};
use crate::{DisplayError, I2cConfig};

verus! {

/// The VCP feature code of the display's power mode register.
pub const POWER_MODE_FEATURE: u8 = 0xD6;

/// How many times a power-on write is tried before giving up.
pub const POWER_ON_ATTEMPTS: u32 = 20;

/// The power state that a register value stands for, if any.
pub open spec fn power_state_of(value: u16, on: u16, off: u16) -> Option<bool> {
    if value == on {
        Some(true)
    } else if value == off {
        Some(false)
    } else {
        None
    }
}

/// Maps a power register value to on (`true`) or off (`false`); any other
/// value is an error rather than a guess.
pub fn power_from_value(value: u16, on: u16, off: u16) -> (r: Result<bool, DisplayError>)
    ensures
        power_state_of(value, on, off) matches Some(b) ==> (r matches Ok(x) && x == b),
        power_state_of(value, on, off) is None ==> (r matches Err(
            DisplayError::UnexpectedValue(v),
        ) && v == value),
{
    if value == on {
        Ok(true)
    } else if value == off {
        Ok(false)
    } else {
        Err(DisplayError::UnexpectedValue(value))
    }
}

/// What to do after one power-on attempt.
#[derive(Debug, Clone, Copy, PartialEq, Eq, Structural)]
pub enum RetryStep {
    /// The write was accepted: stop.
    Succeeded,
    /// The write was rejected and attempts remain: pause, then try again.
    RetryAfterPause,
    /// The write was rejected on the last attempt: fail.
    Exhausted,
}

/// The step taken after attempt number `made + 1` of `max` had outcome `ok`.
pub open spec fn retry_step(made: nat, max: nat, ok: bool) -> RetryStep {
    if ok {
        RetryStep::Succeeded
    } else if made + 1 >= max {
        RetryStep::Exhausted
    } else {
        RetryStep::RetryAfterPause
    }
}

/// How a run of attempts with the given outcomes ends, starting after `made`
/// attempts: the number of attempts made in all, and whether one succeeded.
pub open spec fn retry_run_from(outcomes: Seq<bool>, max: nat, made: nat) -> (nat, bool)
    decreases max - made,
{
    if made >= max || made >= outcomes.len() {
        (made, false)
    } else {
        match retry_step(made, max, outcomes[made as int]) {
            RetryStep::Succeeded => (made + 1, true),
            RetryStep::Exhausted => (made + 1, false),
            RetryStep::RetryAfterPause => retry_run_from(outcomes, max, made + 1),
        }
    }
}

/// How a whole run of at most `max` attempts with the given outcomes ends.
pub open spec fn retry_run(outcomes: Seq<bool>, max: nat) -> (nat, bool) {
    retry_run_from(outcomes, max, 0)
}

/// Counts the attempts of a bounded retry of a power-on write.
pub struct PowerOnRetry {
    max_attempts: u32,
    made: u32,
}

impl PowerOnRetry {
    pub closed spec fn max_attempts(&self) -> nat {
        self.max_attempts as nat
    }

    pub closed spec fn made(&self) -> nat {
        self.made as nat
    }

    pub open spec fn wf(&self) -> bool {
        1 <= self.max_attempts() && self.made() <= self.max_attempts()
    }

    /// A fresh count of at most `max_attempts` attempts.
    pub fn new(max_attempts: u32) -> (r: Self)
        requires
            max_attempts >= 1,
        ensures
            r.wf(),
            r.max_attempts() == max_attempts,
            r.made() == 0,
    {
        PowerOnRetry { max_attempts, made: 0 }
    }

    /// The number of attempts recorded so far.
    pub fn attempts(&self) -> (r: u32)
        ensures
            r == self.made(),
    {
        self.made
    }

    /// Records the outcome of one more attempt and says what to do next.
    pub fn record(&mut self, succeeded: bool) -> (r: RetryStep)
        requires
            old(self).wf(),
            old(self).made() < old(self).max_attempts(),
        ensures
            final(self).wf(),
            final(self).max_attempts() == old(self).max_attempts(),
            final(self).made() == old(self).made() + 1,
            r == retry_step(old(self).made(), old(self).max_attempts(), succeeded),
    {
        self.made = self.made + 1;
        if succeeded {
            RetryStep::Succeeded
        } else if self.made >= self.max_attempts {
            RetryStep::Exhausted
        } else {
            RetryStep::RetryAfterPause
        }
    }
}

/// When the first `k` attempts fail and the next one succeeds, with `k`
/// below the limit, exactly `k + 1` attempts are made and the run succeeds.
pub proof fn lemma_retry_stops_at_first_success(outcomes: Seq<bool>, max: nat, k: nat)
    requires
        k < max,
        k < outcomes.len(),
        forall|i: int| 0 <= i < k ==> !outcomes[i],
        outcomes[k as int],
    ensures
        retry_run(outcomes, max) == (k + 1, true),
{
    lemma_retry_run_from_prefix(outcomes, max, 0, k);
}

/// When every one of the `max` attempts fails, the run ends after `max`
/// attempts without success.
pub proof fn lemma_retry_exhausted_fails(outcomes: Seq<bool>, max: nat)
    requires
        1 <= max,
        max <= outcomes.len(),
        forall|i: int| 0 <= i < max ==> !outcomes[i],
    ensures
        retry_run(outcomes, max) == (max, false),
{
    lemma_retry_run_from_prefix(outcomes, max, 0, (max - 1) as nat);
}

proof fn lemma_retry_run_from_prefix(outcomes: Seq<bool>, max: nat, made: nat, k: nat)
    requires
        made <= k < max,
        k < outcomes.len(),
        forall|i: int| made <= i < k ==> !outcomes[i],
    ensures
        retry_run_from(outcomes, max, made) == retry_run_from(outcomes, max, k),
    decreases k - made,
{
    if made < k {
        lemma_retry_run_from_prefix(outcomes, max, made + 1, k);
    }
}

/// A write of `value` to the power mode register.
pub open spec fn power_write(value: u16, accepted: bool) -> FeatureWrite {
    FeatureWrite { code: POWER_MODE_FEATURE, value, accepted }
}

/// The writes of a run of power-mode writes of `value` whose outcomes are
/// `outcomes`.
pub open spec fn attempt_writes(outcomes: Seq<bool>, value: u16) -> Seq<FeatureWrite> {
    Seq::new(outcomes.len(), |i: int| power_write(value, outcomes[i]))
}

/// `writes` is a power-on run of writes of `on` whose overall outcome is
/// `ok`: at most `POWER_ON_ATTEMPTS` writes, each but the last rejected, the
/// last one accepted exactly when `ok`, and all the attempts used up when
/// not; it is the run that `retry_run` describes for those outcomes.
pub open spec fn power_on_run(writes: Seq<FeatureWrite>, on: u16, ok: bool) -> bool {
    exists|outcomes: Seq<bool>|
        #![trigger attempt_writes(outcomes, on)]
        {
            &&& writes == attempt_writes(outcomes, on)
            &&& 1 <= outcomes.len() <= POWER_ON_ATTEMPTS
            &&& forall|i: int| 0 <= i < outcomes.len() - 1 ==> !outcomes[i]
            &&& outcomes.last() == ok
            &&& !ok ==> outcomes.len() == POWER_ON_ATTEMPTS
            &&& retry_run(outcomes, POWER_ON_ATTEMPTS as nat) == (outcomes.len(), ok)
        }
}

/// What setting the power to `enabled` under `config` did on the bus, with
/// result `r`. If nothing was written, the device could not be opened. A
/// power-off is one write of the "off" value, and succeeds exactly when that
/// write was accepted. A power-on is a `power_on_run` of the "on" value, and
/// fails only when all its attempts were rejected.
pub open spec fn set_power_writes(
    writes: Seq<FeatureWrite>,
    enabled: bool,
    config: I2cConfig,
    r: Result<(), DisplayError>,
) -> bool {
    if writes.len() == 0 {
        r matches Err(DisplayError::Device(_))
    } else if !enabled {
        &&& writes == seq![power_write(config.off, r is Ok)]
        &&& (r is Err ==> r matches Err(DisplayError::Device(_)))
    } else {
        &&& power_on_run(writes, config.on, r is Ok)
        &&& (r is Err ==> (r matches Err(DisplayError::PowerOnFailed { attempts }) && attempts
            == POWER_ON_ATTEMPTS))
    }
}

/// The register value that sets the power to `enabled`.
pub fn power_register_value(enabled: bool, on: u16, off: u16) -> (r: u16)
    ensures
        r == if enabled {
            on
        } else {
            off
        },
{
    if enabled {
        on
    } else {
        off
    }
}

/// Sets the power state of the display on the configured bus.
///
/// Holds no device handle: each operation opens the device afresh and
/// releases it when done, so that the bus is never held between operations.
/// It keeps the record of every write made through the devices it opened.
pub struct DisplayController {
    i2c: I2cConfig,
    bus: BusLog,
}

impl DisplayController {
    /// The configuration that the controller works with.
    pub closed spec fn config(&self) -> I2cConfig {
        self.i2c
    }

    /// Every register write made so far, in order.
    pub closed spec fn history(&self) -> Seq<FeatureWrite> {
        self.bus.writes()
    }

    /// The config stays, and the history grows by `writes`.
    pub open spec fn extends(&self, earlier: &Self, writes: Seq<FeatureWrite>) -> bool {
        &&& self.config() == earlier.config()
        &&& self.history() == earlier.history() + writes
    }

    pub fn new(i2c: I2cConfig) -> (r: Self)
        ensures
            r.config() == i2c,
            r.history() == Seq::<FeatureWrite>::empty(),
    {
        DisplayController { i2c, bus: BusLog::new() }
    }

    /// Turns the display on (`enabled`) or off.
    ///
    /// Turning it off is one write of the "off" value. Turning it on writes
    /// the "on" value up to `POWER_ON_ATTEMPTS` times, calling `pause` between
    /// two attempts, and stops at the first accepted write. If the device
    /// cannot be opened, nothing is written.
    pub fn set_power<P: Fn()>(&mut self, enabled: bool, pause: P) -> (r: Result<(), DisplayError>)
        requires
            pause.requires(()),
        ensures
            exists|writes: Seq<FeatureWrite>|
                #![trigger final(self).extends(old(self), writes)]
                {
                    &&& final(self).extends(old(self), writes)
                    &&& set_power_writes(writes, enabled, old(self).config(), r)
                },
    {
        let mut dev = match self.i2c.connect() {
            Ok(d) => d,
            Err(e) => {
                assert(self.history() =~= self.history() + Seq::<FeatureWrite>::empty());
                assert(self.extends(old(self), Seq::<FeatureWrite>::empty()));
                return Err(e);
            },
        };
        let (on, off) = self.i2c.values();
        let value = power_register_value(enabled, on, off);
        if !enabled {
            let written = write_feature(&mut dev, POWER_MODE_FEATURE, value);
            let ghost writes = dev.writes();
            assert(writes =~= seq![power_write(value, written is Ok)]);
            self.bus.absorb(dev);
            assert(self.extends(old(self), writes));
            return match written {
                Ok(()) => Ok(()),
                Err(e) => Err(DisplayError::Device(e)),
            };
        }
        let mut retry = PowerOnRetry::new(POWER_ON_ATTEMPTS);
        let mut outcomes: Ghost<Seq<bool>> = Ghost(Seq::empty());
        loop
            invariant
                enabled,
                value == on,
                on == self.i2c.on,
                pause.requires(()),
                retry.wf(),
                retry.max_attempts() == POWER_ON_ATTEMPTS,
                retry.made() < POWER_ON_ATTEMPTS,
                outcomes@.len() == retry.made(),
                forall|i: int| 0 <= i < outcomes@.len() ==> !outcomes@[i],
                self.i2c == old(self).i2c,
                self.bus == old(self).bus,
                dev.writes() == attempt_writes(outcomes@, on),
            decreases POWER_ON_ATTEMPTS - retry.made(),
        {
            let accepted = write_feature(&mut dev, POWER_MODE_FEATURE, value).is_ok();
            let ghost prev = outcomes@;
            outcomes = Ghost(outcomes@.push(accepted));
            assert(dev.writes() =~= attempt_writes(outcomes@, on));
            match retry.record(accepted) {
                RetryStep::Succeeded => {
                    let ghost writes = dev.writes();
                    proof {
                        lemma_retry_stops_at_first_success(
                            outcomes@,
                            POWER_ON_ATTEMPTS as nat,
                            prev.len(),
                        );
                        assert(power_on_run(attempt_writes(outcomes@, on), on, true));
                    }
                    self.bus.absorb(dev);
                    assert(self.extends(old(self), writes));
                    return Ok(());
                },
                RetryStep::Exhausted => {
                    let ghost writes = dev.writes();
                    proof {
                        lemma_retry_exhausted_fails(outcomes@, POWER_ON_ATTEMPTS as nat);
                        assert(power_on_run(attempt_writes(outcomes@, on), on, false));
                    }
                    self.bus.absorb(dev);
                    assert(self.extends(old(self), writes));
                    return Err(DisplayError::PowerOnFailed { attempts: retry.attempts() });
                },
                RetryStep::RetryAfterPause => {
                    pause();
                },
            }
        }
    }
}

} // verus!
