use vstd::prelude::*;

verus! {

/// Rendering mode of a card
#[derive(Clone, Copy, Debug, PartialEq, Eq, Structural)]
pub enum CardType {
    /// Create compact card
    CreateCompact,
    /// Create card
    Create,
    /// Compact in list
    Compact,
    /// Status card
    Status,
    /// Edit card
    Edit,
    /// Search filtering (ancillary resolution only)
    Search,
}

impl CardType {
    pub open spec fn spec_is_compact(self) -> bool {
        self == CardType::Compact || self == CardType::CreateCompact
    }

    pub open spec fn spec_is_create(self) -> bool {
        self == CardType::Create || self == CardType::CreateCompact
    }

    pub open spec fn spec_compact(self) -> CardType {
        if self.spec_is_create() {
            CardType::CreateCompact
        } else {
            CardType::Compact
        }
    }

    /// Is the card compact?
    pub fn is_compact(self) -> (r: bool)
        ensures
            r == self.spec_is_compact(),
    {
        matches!(self, CardType::Compact | CardType::CreateCompact)
    }

    /// Is the card a create card?
    pub fn is_create(self) -> (r: bool)
        ensures
            r == self.spec_is_create(),
    {
        matches!(self, CardType::Create | CardType::CreateCompact)
    }

    /// Get compact card type
    pub fn compact(self) -> (r: CardType)
        ensures
            r == self.spec_compact(),
            r.spec_is_compact(),
    {
        if self.is_create() {
            CardType::CreateCompact
        } else {
            CardType::Compact
        }
    }
}

/// The view predicates on the named views, and the projection to compact
/// views: a create view stays a create view, any other becomes `Compact`.
pub proof fn lemma_view_predicates(v: CardType)
    ensures
        CardType::CreateCompact.spec_is_compact(),
        !CardType::Status.spec_is_compact(),
        CardType::Create.spec_compact() == CardType::CreateCompact,
        CardType::Edit.spec_compact() == CardType::Compact,
        v.spec_compact().spec_is_compact(),
        v.spec_compact().spec_is_create() == v.spec_is_create(),
{
}

} // verus!
