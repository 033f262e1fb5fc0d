//! The latest value of each sensor.
use vstd::prelude::*;

use crate::variable::Variable;

verus! {

/// The bit pattern of the double `0.0`, the value of a sensor never written.
pub const ZERO_BITS: u64 = 0;

/// The stored value of `v`, or `0.0` where none was written.
pub open spec fn value_or_zero(written: Map<Variable, u64>, v: Variable) -> u64 {
    if written.contains_key(v) {
        written[v]
    } else {
        ZERO_BITS
    }
}

/// The snapshot of a store whose written sensors are `written`.
pub open spec fn snapshot_of(written: Map<Variable, u64>) -> Snapshot {
    Snapshot {
        temperature: value_or_zero(written, Variable::Temperature),
        pressure: value_or_zero(written, Variable::Pressure),
        slow_sensor: value_or_zero(written, Variable::SlowSensor),
    }
}

/// The value of every sensor at one moment, as double bit patterns.
#[derive(Clone, Copy, Debug, PartialEq, Eq, Structural)]
pub struct Snapshot {
    pub temperature: u64,
    pub pressure: u64,
    pub slow_sensor: u64,
}

impl Snapshot {
    pub open spec fn spec_value(self, v: Variable) -> u64 {
        match v {
            Variable::Temperature => self.temperature,
            Variable::Pressure => self.pressure,
            Variable::SlowSensor => self.slow_sensor,
        }
    }

    /// The value of one sensor.
    pub fn value(&self, v: Variable) -> (r: u64)
        ensures
            r == self.spec_value(v),
    {
        match v {
            Variable::Temperature => self.temperature,
            Variable::Pressure => self.pressure,
            Variable::SlowSensor => self.slow_sensor,
        }
    }
}

/// The last value written for each sensor; a sensor never written has no
/// entry and reads as `0.0`.
pub struct StateStore {
    temperature: Option<u64>,
    pressure: Option<u64>,
    slow_sensor: Option<u64>,
}

impl View for StateStore {
    type V = Map<Variable, u64>;

    /// The sensors written so far, with their last values.
    closed spec fn view(&self) -> Map<Variable, u64> {
        Map::new(
            |v: Variable| self.slot(v) is Some,
            |v: Variable| self.slot(v)->0,
        )
    }
}

impl StateStore {
    closed spec fn slot(&self, v: Variable) -> Option<u64> {
        match v {
            Variable::Temperature => self.temperature,
            Variable::Pressure => self.pressure,
            Variable::SlowSensor => self.slow_sensor,
        }
    }

    /// A store with nothing written.
    pub fn new() -> (r: StateStore)
        ensures
            r@ == Map::<Variable, u64>::empty(),
    {
        let r = StateStore { temperature: None, pressure: None, slow_sensor: None };
        assert(r@ =~= Map::<Variable, u64>::empty());
        r
    }

    /// Writes the value of one sensor, replacing any earlier one.
    pub fn update(&mut self, v: Variable, value_bits: u64)
        ensures
            final(self)@ == old(self)@.insert(v, value_bits),
    {
        match v {
            Variable::Temperature => self.temperature = Some(value_bits),
            Variable::Pressure => self.pressure = Some(value_bits),
            Variable::SlowSensor => self.slow_sensor = Some(value_bits),
        }
        assert(final(self)@ =~= old(self)@.insert(v, value_bits));
    }

    /// Whether a value was ever written for the sensor.
    pub fn is_written(&self, v: Variable) -> (r: bool)
        ensures
            r == self@.contains_key(v),
    {
        match v {
            Variable::Temperature => self.temperature.is_some(),
            Variable::Pressure => self.pressure.is_some(),
            Variable::SlowSensor => self.slow_sensor.is_some(),
        }
    }

    /// The value of one sensor, `0.0` where none was written. Reading
    /// records nothing.
    pub fn get(&self, v: Variable) -> (r: u64)
        ensures
            r == value_or_zero(self@, v),
    {
        let slot = match v {
            Variable::Temperature => self.temperature,
            Variable::Pressure => self.pressure,
            Variable::SlowSensor => self.slow_sensor,
        };
        match slot {
            Some(x) => x,
            None => ZERO_BITS,
        }
    }

    /// The value of every sensor, `0.0` for those never written.
    pub fn snapshot(&self) -> (r: Snapshot)
        ensures
            r == snapshot_of(self@),
            forall|v: Variable| #[trigger] r.spec_value(v) == value_or_zero(self@, v),
    {
        let r = Snapshot {
            temperature: self.get(Variable::Temperature),
            pressure: self.get(Variable::Pressure),
            slow_sensor: self.get(Variable::SlowSensor),
        };
        assert forall|v: Variable| #[trigger] r.spec_value(v) == value_or_zero(self@, v) by {
            match v {
                Variable::Temperature => {},
                Variable::Pressure => {},
                Variable::SlowSensor => {},
            }
        }
        r
    }
}

/// A sensor never written reads as `0.0`. Reading takes the store by shared
/// reference and adds no entry, so every snapshot taken before the next write
/// still gives `0.0` for it.
pub proof fn lemma_unwritten_reads_zero(store: StateStore, v: Variable)
    requires
        !store@.contains_key(v),
    ensures
        value_or_zero(store@, v) == ZERO_BITS,
        snapshot_of(store@).spec_value(v) == ZERO_BITS,
{
}

} // verus!
