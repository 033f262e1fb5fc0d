use vstd::prelude::*;

verus! {

/// The sensors whose latest value the stage keeps.
#[derive(Clone, Copy, Debug, PartialEq, Eq, Hash, Structural)]
pub enum Variable {
    Temperature,
    Pressure,
    SlowSensor,
}

/// How many sensors there are.
pub const VARIABLE_COUNT: usize = 3;

/// The sensors in the order in which a payload's fields are searched: the
/// first one present wins.
pub open spec fn variable_at(i: int) -> Variable {
    if i == 0 {
        Variable::Temperature
    } else if i == 1 {
        Variable::Pressure
    } else {
        Variable::SlowSensor
    }
}

impl Variable {
    /// The field name of the sensor in an input payload.
    pub open spec fn spec_name(self) -> Seq<char> {
        match self {
            Variable::Temperature => "Temperature"@,
            Variable::Pressure => "Pressure"@,
            Variable::SlowSensor => "SlowSensor"@,
        }
    }

    /// Position of the sensor in the search order.
    pub open spec fn spec_index(self) -> int {
        match self {
            Variable::Temperature => 0,
            Variable::Pressure => 1,
            Variable::SlowSensor => 2,
        }
    }

    /// The sensor at position `i` of the search order.
    pub fn at(i: usize) -> (r: Variable)
        requires
            i < VARIABLE_COUNT,
        ensures
            r == variable_at(i as int),
            r.spec_index() == i,
    {
        if i == 0 {
            Variable::Temperature
        } else if i == 1 {
            Variable::Pressure
        } else {
            Variable::SlowSensor
        }
    }

    /// The field name of the sensor, as it appears in an input payload.
    pub fn name(&self) -> (r: &'static str)
        ensures
            r@ == self.spec_name(),
    {
        match self {
            Variable::Temperature => "Temperature",
            Variable::Pressure => "Pressure",
            Variable::SlowSensor => "SlowSensor",
        }
    }

    /// The field name as an owned string.
    pub fn to_string(&self) -> (r: String)
        ensures
            r@ == self.spec_name(),
    {
        self.name().to_string()
    }
}

} // verus!
