//! Units, unit prefixes and measurement value types.
use vstd::prelude::*;

verus! {

/// A decimal scale applied to a base unit.
#[derive(Clone, Copy, Debug, PartialEq, Eq, Structural)]
pub enum UnitPrefix {
    Nano,
    Micro,
    Milli,
    Plain,
    Kilo,
    Mega,
    Giga,
}

/// A unit of measurement, without prefix.
#[derive(Debug)]
pub enum Unit {
    Unity,
    Second,
    Watt,
    Joule,
    Volt,
    Ampere,
    Hertz,
    DegreeCelsius,
    DegreeFahrenheit,
    WattHour,
    Byte,
    Custom { unique_name: String, display_name: String },
}

/// A unit with a scale prefix, as stored in a metric definition.
#[derive(Debug)]
pub struct PrefixedUnit {
    pub prefix: UnitPrefix,
    pub base_unit: Unit,
}

/// The type of the values of a metric.
#[derive(Clone, Copy, Debug, PartialEq, Eq, Structural)]
pub enum WrappedMeasurementType {
    F64,
    U64,
}

/// A distinct number for each kind of unit (all custom units share one).
pub open spec fn unit_code(u: Unit) -> nat {
    match u {
        Unit::Unity => 0,
        Unit::Second => 1,
        Unit::Watt => 2,
        Unit::Joule => 3,
        Unit::Volt => 4,
        Unit::Ampere => 5,
        Unit::Hertz => 6,
        Unit::DegreeCelsius => 7,
        Unit::DegreeFahrenheit => 8,
        Unit::WattHour => 9,
        Unit::Byte => 10,
        Unit::Custom { .. } => 11,
    }
}

/// Two base units are the same: same kind, and for custom units the same names.
pub open spec fn same_base_unit(a: Unit, b: Unit) -> bool {
    match (a, b) {
        (
            Unit::Custom { unique_name: u1, display_name: d1 },
            Unit::Custom { unique_name: u2, display_name: d2 },
        ) => u1@ == u2@ && d1@ == d2@,
        _ => unit_code(a) == unit_code(b),
    }
}

/// Two prefixed units are the same: same prefix and same base unit.
pub open spec fn same_unit(a: PrefixedUnit, b: PrefixedUnit) -> bool {
    a.prefix == b.prefix && same_base_unit(a.base_unit, b.base_unit)
}

impl Unit {
    /// The number of this kind of unit.
    pub fn code(&self) -> (r: u8)
        ensures
            r as nat == unit_code(*self),
    {
        match self {
            Unit::Unity => 0,
            Unit::Second => 1,
            Unit::Watt => 2,
            Unit::Joule => 3,
            Unit::Volt => 4,
            Unit::Ampere => 5,
            Unit::Hertz => 6,
            Unit::DegreeCelsius => 7,
            Unit::DegreeFahrenheit => 8,
            Unit::WattHour => 9,
            Unit::Byte => 10,
            Unit::Custom { .. } => 11,
        }
    }

    /// Whether `self` and `other` denote the same base unit.
    pub fn same_as(&self, other: &Unit) -> (r: bool)
        ensures
            r == same_base_unit(*self, *other),
    {
        match (self, other) {
            (
                Unit::Custom { unique_name: u1, display_name: d1 },
                Unit::Custom { unique_name: u2, display_name: d2 },
            ) => *u1 == *u2 && *d1 == *d2,
            _ => self.code() == other.code(),
        }
    }

    /// An identical copy of this unit.
    pub fn duplicate(&self) -> (r: Unit)
        ensures
            r == *self,
    {
        match self {
            Unit::Unity => Unit::Unity,
            Unit::Second => Unit::Second,
            Unit::Watt => Unit::Watt,
            Unit::Joule => Unit::Joule,
            Unit::Volt => Unit::Volt,
            Unit::Ampere => Unit::Ampere,
            Unit::Hertz => Unit::Hertz,
            Unit::DegreeCelsius => Unit::DegreeCelsius,
            Unit::DegreeFahrenheit => Unit::DegreeFahrenheit,
            Unit::WattHour => Unit::WattHour,
            Unit::Byte => Unit::Byte,
            Unit::Custom { unique_name, display_name } => Unit::Custom {
                unique_name: unique_name.clone(),
                display_name: display_name.clone(),
            },
        }
    }
}

impl PrefixedUnit {
    /// Whether `self` and `other` denote the same prefixed unit.
    pub fn same_as(&self, other: &PrefixedUnit) -> (r: bool)
        ensures
            r == same_unit(*self, *other),
    {
        self.prefix == other.prefix && self.base_unit.same_as(&other.base_unit)
    }

    /// An identical copy of this unit.
    pub fn duplicate(&self) -> (r: PrefixedUnit)
        ensures
            r == *self,
    {
        PrefixedUnit { prefix: self.prefix, base_unit: self.base_unit.duplicate() }
    }
}

/// A unit without prefix is the same unit with the plain prefix.
impl From<Unit> for PrefixedUnit {
    fn from(unit: Unit) -> (r: PrefixedUnit) {
        PrefixedUnit { prefix: UnitPrefix::Plain, base_unit: unit }
    }
}

impl vstd::std_specs::convert::FromSpecImpl<Unit> for PrefixedUnit {
    open spec fn obeys_from_spec() -> bool {
        true
    }

    open spec fn from_spec(unit: Unit) -> PrefixedUnit {
        PrefixedUnit { prefix: UnitPrefix::Plain, base_unit: unit }
    }
}

/// A Rust type that metric values can have.
pub trait MeasurementType {
    /// The value type that this Rust type stands for.
    spec fn measurement_kind() -> WrappedMeasurementType;

    fn wrapped_type() -> (r: WrappedMeasurementType)
        ensures
            r == Self::measurement_kind(),
    ;
}

impl MeasurementType for u64 {
    open spec fn measurement_kind() -> WrappedMeasurementType {
        WrappedMeasurementType::U64
    }

    fn wrapped_type() -> (r: WrappedMeasurementType) {
        WrappedMeasurementType::U64
    }
}

} // verus!
