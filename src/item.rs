use vstd::prelude::*;

verus! {

/// Item state
#[derive(Clone, Copy, Debug, PartialEq, Eq, Structural)]
pub enum ItemState {
    Inactive,
    Available,
    Deployed,
    Maintenance,
}

impl ItemState {
    pub open spec fn spec_code(self) -> Seq<char> {
        match self {
            ItemState::Inactive => "❓"@,
            ItemState::Available => "🔹"@,
            ItemState::Deployed => "🔶"@,
            ItemState::Maintenance => "◼️"@,
        }
    }

    pub open spec fn spec_description(self) -> Seq<char> {
        match self {
            ItemState::Inactive => "inactive"@,
            ItemState::Available => "available"@,
            ItemState::Deployed => "deployed"@,
            ItemState::Maintenance => "maintenance"@,
        }
    }

    /// Get the item state code
    pub fn code(self) -> (r: &'static str)
        ensures
            r@ == self.spec_code(),
    {
        match self {
            ItemState::Inactive => "❓",
            ItemState::Available => "🔹",
            ItemState::Deployed => "🔶",
            ItemState::Maintenance => "◼️",
        }
    }

    /// Get the item state description
    pub fn description(self) -> (r: &'static str)
        ensures
            r@ == self.spec_description(),
    {
        match self {
            ItemState::Inactive => "inactive",
            ItemState::Available => "available",
            ItemState::Deployed => "deployed",
            ItemState::Maintenance => "maintenance",
        }
    }

    /// Text form of the state: its code
    pub fn to_string(self) -> (r: String)
        ensures
            r@ == self.spec_code(),
    {
        String::from_str(self.code())
    }
}

} // verus!
