//! Building templates: the four building types, the resources they produce
//! and consume, and the static catalog that maps a type to its template.

use vstd::prelude::*;

verus! {

/// The four kinds of structure a player can place on the grid.
#[derive(Clone, Copy, PartialEq, Eq, Structural, Debug)]
pub enum BuildingType {
    Base,
    Mine,
    Greenhouse,
    SolarPanel,
}

/// The resources of the economy; `Nothing` marks the absence of a yield or
/// an upkeep cost.
#[derive(Clone, Copy, PartialEq, Eq, Structural, Debug)]
pub enum ResourceType {
    Nothing,
    Food,
    Metal,
    Oxygen,
    Energy,
}

impl BuildingType {
    /// The integer code under which a building type travels across the
    /// host boundary.
    pub open spec fn spec_code(self) -> int {
        match self {
            BuildingType::Base => 0,
            BuildingType::Mine => 1,
            BuildingType::Greenhouse => 2,
            BuildingType::SolarPanel => 3,
        }
    }

    /// The building type a code decodes to, if any.
    pub open spec fn spec_from_code(c: int) -> Option<BuildingType> {
        if c == 0 {
            Some(BuildingType::Base)
        } else if c == 1 {
            Some(BuildingType::Mine)
        } else if c == 2 {
            Some(BuildingType::Greenhouse)
        } else if c == 3 {
            Some(BuildingType::SolarPanel)
        } else {
            None
        }
    }

    /// Encode this building type as its integer code.
    pub fn to_code(&self) -> (c: i64)
        ensures
            c == self.spec_code(),
    {
        match self {
            BuildingType::Base => 0,
            BuildingType::Mine => 1,
            BuildingType::Greenhouse => 2,
            BuildingType::SolarPanel => 3,
        }
    }

    /// Decode an integer code; codes outside `0..=3` decode to nothing.
    pub fn from_code(c: i64) -> (r: Option<BuildingType>)
        ensures
            r == Self::spec_from_code(c as int),
    {
        if c == 0 {
            Some(BuildingType::Base)
        } else if c == 1 {
            Some(BuildingType::Mine)
        } else if c == 2 {
            Some(BuildingType::Greenhouse)
        } else if c == 3 {
            Some(BuildingType::SolarPanel)
        } else {
            None
        }
    }

    /// The path of the sprite that depicts this building type.
    pub open spec fn spec_texture_path(self) -> Seq<char> {
        match self {
            BuildingType::Base => "res://Sprites/Base.png"@,
            BuildingType::Mine => "res://Sprites/Mine.png"@,
            BuildingType::Greenhouse => "res://Sprites/Greenhouse.png"@,
            BuildingType::SolarPanel => "res://Sprites/SolarPanel.png"@,
        }
    }

    /// The path of the sprite that depicts this building type; the host
    /// loads the texture found there.
    pub fn get_texture_path(&self) -> (r: String)
        ensures
            r@ == self.spec_texture_path(),
    {
        match self {
            BuildingType::Base => "res://Sprites/Base.png".to_owned(),
            BuildingType::Mine => "res://Sprites/Mine.png".to_owned(),
            BuildingType::Greenhouse => "res://Sprites/Greenhouse.png".to_owned(),
            BuildingType::SolarPanel => "res://Sprites/SolarPanel.png".to_owned(),
        }
    }
}

impl ResourceType {
    /// The integer code under which a resource type travels across the
    /// host boundary.
    pub open spec fn spec_code(self) -> int {
        match self {
            ResourceType::Nothing => 0,
            ResourceType::Food => 1,
            ResourceType::Metal => 2,
            ResourceType::Oxygen => 3,
            ResourceType::Energy => 4,
        }
    }

    /// The resource type a code decodes to, if any.
    pub open spec fn spec_from_code(c: int) -> Option<ResourceType> {
        if c == 0 {
            Some(ResourceType::Nothing)
        } else if c == 1 {
            Some(ResourceType::Food)
        } else if c == 2 {
            Some(ResourceType::Metal)
        } else if c == 3 {
            Some(ResourceType::Oxygen)
        } else if c == 4 {
            Some(ResourceType::Energy)
        } else {
            None
        }
    }

    /// Encode this resource type as its integer code.
    pub fn to_code(&self) -> (c: i64)
        ensures
            c == self.spec_code(),
    {
        match self {
            ResourceType::Nothing => 0,
            ResourceType::Food => 1,
            ResourceType::Metal => 2,
            ResourceType::Oxygen => 3,
            ResourceType::Energy => 4,
        }
    }

    /// Decode an integer code; codes outside `0..=4` decode to nothing.
    pub fn from_code(c: i64) -> (r: Option<ResourceType>)
        ensures
            r == Self::spec_from_code(c as int),
    {
        if c == 0 {
            Some(ResourceType::Nothing)
        } else if c == 1 {
            Some(ResourceType::Food)
        } else if c == 2 {
            Some(ResourceType::Metal)
        } else if c == 3 {
            Some(ResourceType::Oxygen)
        } else if c == 4 {
            Some(ResourceType::Energy)
        } else {
            None
        }
    }
}

/// A building template: what a placed structure yields each turn and what
/// upkeep it declares (upkeep is recorded on the template but the turn
/// resolution does not deduct it).
#[derive(Clone, Copy, PartialEq, Eq, Structural, Debug)]
pub struct Building {
    pub building_type: BuildingType,
    pub resource_type: ResourceType,
    pub resource_amount: i32,
    pub upkeep_type: ResourceType,
    pub upkeep_amount: i32,
}

/// The template that the catalog assigns to each building type.
pub open spec fn building_template(building_type: BuildingType) -> Building {
    match building_type {
        BuildingType::Base => Building {
            building_type: BuildingType::Base,
            resource_type: ResourceType::Nothing,
            resource_amount: 0,
            upkeep_type: ResourceType::Nothing,
            upkeep_amount: 0,
        },
        BuildingType::Mine => Building {
            building_type: BuildingType::Mine,
            resource_type: ResourceType::Metal,
            resource_amount: 1,
            upkeep_type: ResourceType::Energy,
            upkeep_amount: 1,
        },
        BuildingType::Greenhouse => Building {
            building_type: BuildingType::Greenhouse,
            resource_type: ResourceType::Food,
            resource_amount: 1,
            upkeep_type: ResourceType::Nothing,
            upkeep_amount: 0,
        },
        BuildingType::SolarPanel => Building {
            building_type: BuildingType::SolarPanel,
            resource_type: ResourceType::Energy,
            resource_amount: 1,
            upkeep_type: ResourceType::Nothing,
            upkeep_amount: 0,
        },
    }
}

impl Building {
    /// A fresh building record; it carries the same fields as the base
    /// template.
    pub fn new() -> (b: Building)
        ensures
            b == building_template(BuildingType::Base),
    {
        Building::base()
    }

    /// The base template: the starting structure, with no yield.
    pub fn base() -> (b: Building)
        ensures
            b == building_template(BuildingType::Base),
    {
        Building {
            building_type: BuildingType::Base,
            resource_type: ResourceType::Nothing,
            resource_amount: 0,
            upkeep_type: ResourceType::Nothing,
            upkeep_amount: 0,
        }
    }

    /// The mine template: yields one metal per turn.
    pub fn mine() -> (b: Building)
        ensures
            b == building_template(BuildingType::Mine),
    {
        Building {
            building_type: BuildingType::Mine,
            resource_type: ResourceType::Metal,
            resource_amount: 1,
            upkeep_type: ResourceType::Energy,
            upkeep_amount: 1,
        }
    }

    /// The greenhouse template: yields one food per turn.
    pub fn greenhouse() -> (b: Building)
        ensures
            b == building_template(BuildingType::Greenhouse),
    {
        Building {
            building_type: BuildingType::Greenhouse,
            resource_type: ResourceType::Food,
            resource_amount: 1,
            upkeep_type: ResourceType::Nothing,
            upkeep_amount: 0,
        }
    }

    /// The solar panel template: yields one energy per turn.
    pub fn solar_panel() -> (b: Building)
        ensures
            b == building_template(BuildingType::SolarPanel),
    {
        Building {
            building_type: BuildingType::SolarPanel,
            resource_type: ResourceType::Energy,
            resource_amount: 1,
            upkeep_type: ResourceType::Nothing,
            upkeep_amount: 0,
        }
    }
}

/// The static building catalog.
pub struct BuildingData {}

impl BuildingData {
    /// A catalog handle; the catalog itself is immutable.
    pub fn new() -> (d: BuildingData)
        ensures
            d == (BuildingData {}),
    {
        BuildingData {}
    }

    /// Look a building type up in the catalog. Total over the four building
    /// types: every lookup returns exactly the type's template.
    pub fn data(&self, building_type: BuildingType) -> (b: Building)
        ensures
            b == building_template(building_type),
    {
        match building_type {
            BuildingType::Base => Building::base(),
            BuildingType::Mine => Building::mine(),
            BuildingType::Greenhouse => Building::greenhouse(),
            BuildingType::SolarPanel => Building::solar_panel(),
        }
    }
}

} // verus!
