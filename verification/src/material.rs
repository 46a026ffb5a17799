//! Materials and the properties known of them. A property that was never
//! measured is absent, never zero.

use vstd::prelude::*;
use crate::error::PropertyError;
use crate::quantity::Quantity;
use crate::quantity::MAX_DENSITY;

verus! {

/// Broad class of a material.
#[derive(Clone, Copy, Debug, PartialEq, Eq, Structural)]
pub enum MaterialType {
    Metal,
    Polymer,
    Ceramic,
    Composite,
    Wood,
    Other,
}

impl Default for MaterialType {
    fn default() -> (t: MaterialType)
        ensures
            t == MaterialType::Metal,
    {
        MaterialType::Metal
    }
}

/// The standard a material is specified by.
#[derive(Clone, Debug)]
pub struct MaterialStandard {
    /// Such as "ASTM A36" or "ISO 898-1".
    pub designation: String,
    /// Such as "ASTM" or "ISO".
    pub organization: String,
    pub note: Option<String>,
}

/// A material with whatever is known of its behaviour.
#[derive(Clone, Debug)]
pub struct Material {
    /// Common name, such as "Steel A36".
    pub name: String,
    pub material_type: MaterialType,
    pub standard: Option<MaterialStandard>,
    /// kg/m^3
    pub density: Option<Quantity>,
    /// Pa
    pub youngs_modulus: Option<Quantity>,
    /// Pa
    pub shear_modulus: Option<Quantity>,
    pub poisson_ratio: Option<Quantity>,
    /// Pa
    pub tensile_strength: Option<Quantity>,
    /// Pa
    pub yield_strength: Option<Quantity>,
    /// Vickers, Brinell or Rockwell
    pub hardness: Option<Quantity>,
    /// W/(m K)
    pub thermal_conductivity: Option<Quantity>,
    /// 1/K
    pub thermal_expansion: Option<Quantity>,
    /// J/(kg K)
    pub specific_heat: Option<Quantity>,
    /// Degrees Celsius
    pub melting_point: Option<Quantity>,
    /// S/m
    pub electrical_conductivity: Option<Quantity>,
    /// Ohm m
    pub resistivity: Option<Quantity>,
    /// Currency per kg
    pub cost_per_kg: Option<Quantity>,
    pub note: Option<String>,
}

/// Absolute zero in degrees Celsius, -273.15.
pub open spec fn absolute_zero() -> int {
    -273_150_000_000_000_000_000
}

/// A density the model accepts.
pub open spec fn is_density(q: int) -> bool {
    0 < q <= MAX_DENSITY
}

/// Why these mechanical properties are refused, if they are: the density is
/// judged first, then Young's modulus, then the shear modulus.
pub open spec fn mechanical_fault(density: int, youngs_modulus: int, shear_modulus: int) -> Option<
    PropertyError,
> {
    if density <= 0 {
        Some(PropertyError::NonPositive)
    } else if density > MAX_DENSITY {
        Some(PropertyError::TooLarge)
    } else if youngs_modulus <= 0 || shear_modulus <= 0 {
        Some(PropertyError::NonPositive)
    } else {
        None
    }
}

/// Why these thermal properties are refused, if they are.
pub open spec fn thermal_fault(melting_point: int) -> Option<PropertyError> {
    if melting_point <= absolute_zero() {
        Some(PropertyError::BelowAbsoluteZero)
    } else {
        None
    }
}

impl Material {
    /// The invariant of a material: a known density is positive and within
    /// range, a known modulus is positive, and a known melting point lies
    /// above absolute zero.
    pub open spec fn wf(&self) -> bool {
        &&& self.density matches Some(d) ==> is_density(d@)
        &&& self.youngs_modulus matches Some(e) ==> e@ > 0
        &&& self.shear_modulus matches Some(g) ==> g@ > 0
        &&& self.melting_point matches Some(t) ==> t@ > absolute_zero()
    }

    /// The material that [`Material::new`] builds: a name, a class, and
    /// nothing else known.
    pub open spec fn bare(name: String, material_type: MaterialType) -> Material {
        Material {
            name,
            material_type,
            standard: None,
            density: None,
            youngs_modulus: None,
            shear_modulus: None,
            poisson_ratio: None,
            tensile_strength: None,
            yield_strength: None,
            hardness: None,
            thermal_conductivity: None,
            thermal_expansion: None,
            specific_heat: None,
            melting_point: None,
            electrical_conductivity: None,
            resistivity: None,
            cost_per_kg: None,
            note: None,
        }
    }

    /// Creates a material of which only name and class are known.
    pub fn new(name: String, material_type: MaterialType) -> (m: Material)
        ensures
            m == Material::bare(name, material_type),
            m.wf(),
    {
        Material {
            name,
            material_type,
            standard: None,
            density: None,
            youngs_modulus: None,
            shear_modulus: None,
            poisson_ratio: None,
            tensile_strength: None,
            yield_strength: None,
            hardness: None,
            thermal_conductivity: None,
            thermal_expansion: None,
            specific_heat: None,
            melting_point: None,
            electrical_conductivity: None,
            resistivity: None,
            cost_per_kg: None,
            note: None,
        }
    }

    /// Records the standard that specifies the material.
    pub fn set_standard(&mut self, designation: String, organization: String, note: Option<String>)
        ensures
            *final(self) == (Material {
                standard: Some(MaterialStandard { designation, organization, note }),
                ..*old(self)
            }),
            final(self).wf() == old(self).wf(),
    {
        self.standard = Some(MaterialStandard { designation, organization, note });
    }

    /// Records the mechanical properties, all seven at once. A density or
    /// modulus that is not positive, or a density out of range, is refused
    /// and leaves the material as it was.
    pub fn set_mechanical(
        &mut self,
        density: Quantity,
        youngs_modulus: Quantity,
        shear_modulus: Quantity,
        poisson_ratio: Quantity,
        tensile_strength: Quantity,
        yield_strength: Quantity,
        hardness: Quantity,
    ) -> (r: Result<(), PropertyError>)
        ensures
            r is Ok <==> mechanical_fault(density@, youngs_modulus@, shear_modulus@) is None,
            r matches Err(e) ==> mechanical_fault(density@, youngs_modulus@, shear_modulus@)
                == Some(e) && *final(self) == *old(self),
            r is Ok ==> *final(self) == (Material {
                density: Some(density),
                youngs_modulus: Some(youngs_modulus),
                shear_modulus: Some(shear_modulus),
                poisson_ratio: Some(poisson_ratio),
                tensile_strength: Some(tensile_strength),
                yield_strength: Some(yield_strength),
                hardness: Some(hardness),
                ..*old(self)
            }),
            old(self).wf() ==> final(self).wf(),
    {
        if density.attos <= 0 {
            return Err(PropertyError::NonPositive);
        }
        if density.attos > MAX_DENSITY {
            return Err(PropertyError::TooLarge);
        }
        if youngs_modulus.attos <= 0 || shear_modulus.attos <= 0 {
            return Err(PropertyError::NonPositive);
        }
        self.density = Some(density);
        self.youngs_modulus = Some(youngs_modulus);
        self.shear_modulus = Some(shear_modulus);
        self.poisson_ratio = Some(poisson_ratio);
        self.tensile_strength = Some(tensile_strength);
        self.yield_strength = Some(yield_strength);
        self.hardness = Some(hardness);
        Ok(())
    }

    /// Records the thermal properties, all four at once. A melting point at
    /// or below absolute zero is refused and leaves the material as it was.
    pub fn set_thermal(
        &mut self,
        thermal_conductivity: Quantity,
        thermal_expansion: Quantity,
        specific_heat: Quantity,
        melting_point: Quantity,
    ) -> (r: Result<(), PropertyError>)
        ensures
            r is Ok <==> thermal_fault(melting_point@) is None,
            r matches Err(e) ==> thermal_fault(melting_point@) == Some(e) && *final(self) == *old(
                self,
            ),
            r is Ok ==> *final(self) == (Material {
                thermal_conductivity: Some(thermal_conductivity),
                thermal_expansion: Some(thermal_expansion),
                specific_heat: Some(specific_heat),
                melting_point: Some(melting_point),
                ..*old(self)
            }),
            old(self).wf() ==> final(self).wf(),
    {
        if melting_point.attos <= -273_150_000_000_000_000_000 {
            return Err(PropertyError::BelowAbsoluteZero);
        }
        self.thermal_conductivity = Some(thermal_conductivity);
        self.thermal_expansion = Some(thermal_expansion);
        self.specific_heat = Some(specific_heat);
        self.melting_point = Some(melting_point);
        Ok(())
    }

    /// Records the electrical properties, both at once.
    pub fn set_electrical(&mut self, conductivity: Quantity, resistivity: Quantity)
        ensures
            *final(self) == (Material {
                electrical_conductivity: Some(conductivity),
                resistivity: Some(resistivity),
                ..*old(self)
            }),
            final(self).wf() == old(self).wf(),
    {
        self.electrical_conductivity = Some(conductivity);
        self.resistivity = Some(resistivity);
    }

    /// Attaches a note, replacing any earlier one.
    pub fn set_note(&mut self, note: String)
        ensures
            *final(self) == (Material { note: Some(note), ..*old(self) }),
            final(self).wf() == old(self).wf(),
    {
        self.note = Some(note);
    }

    /// Whether the invariant holds of the stored fields.
    pub fn is_valid(&self) -> (b: bool)
        ensures
            b == self.wf(),
    {
        let density_ok = match &self.density {
            Some(d) => 0 < d.attos && d.attos <= MAX_DENSITY,
            None => true,
        };
        let youngs_ok = match &self.youngs_modulus {
            Some(e) => e.attos > 0,
            None => true,
        };
        let shear_ok = match &self.shear_modulus {
            Some(g) => g.attos > 0,
            None => true,
        };
        let melting_ok = match &self.melting_point {
            Some(t) => t.attos > -273_150_000_000_000_000_000,
            None => true,
        };
        density_ok && youngs_ok && shear_ok && melting_ok
    }
}

} // verus!
