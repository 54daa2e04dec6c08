use vstd::prelude::*;

verus! {

/// Kind of generator fitted to the turbine shaft.
#[derive(Clone, Copy, Debug, PartialEq, Eq, Structural)]
pub enum GeneratorType {
    Brushed,
    Brushless,
}

/// A configuration quantity that has to be strictly positive and is not.
#[derive(Clone, Copy, Debug, PartialEq, Eq, Structural)]
pub enum InvalidParameter {
    TargetWattage,
    BladeRadius,
    AirDensity,
    WindSpeed,
}

/// The sign test of each quantity of a configuration that has to be strictly
/// positive: `true` where the quantity is greater than zero.
#[derive(Clone, Copy, Debug, PartialEq, Eq, Structural)]
pub struct PositivityCheck {
    pub target_wattage: bool,
    pub blade_radius: bool,
    pub air_density: bool,
    pub wind_speed: bool,
}

impl PositivityCheck {
    /// Every quantity is strictly positive: the configuration can be solved.
    pub open spec fn all_positive(self) -> bool {
        &&& self.target_wattage
        &&& self.blade_radius
        &&& self.air_density
        &&& self.wind_speed
    }

    /// Reports the first quantity, in the order target wattage, blade radius,
    /// air density, wind speed, that is not strictly positive; `None` when all are.
    pub fn first_invalid(&self) -> (r: Option<InvalidParameter>)
        ensures
            r is None <==> self.all_positive(),
            r == Some(InvalidParameter::TargetWattage) <==> !self.target_wattage,
            r == Some(InvalidParameter::BladeRadius) <==> self.target_wattage
                && !self.blade_radius,
            r == Some(InvalidParameter::AirDensity) <==> self.target_wattage && self.blade_radius
                && !self.air_density,
            r == Some(InvalidParameter::WindSpeed) <==> self.target_wattage && self.blade_radius
                && self.air_density && !self.wind_speed,
    {
        if !self.target_wattage {
            Some(InvalidParameter::TargetWattage)
        } else if !self.blade_radius {
            Some(InvalidParameter::BladeRadius)
        } else if !self.air_density {
            Some(InvalidParameter::AirDensity)
        } else if !self.wind_speed {
            Some(InvalidParameter::WindSpeed)
        } else {
            None
        }
    }
}

} // verus!
