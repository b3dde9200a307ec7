//! Gate arm arrays: groups of gate arms closing a road or ramp.
use crate::card::{html_create, spec_html_create, Card, CREATE_COMPACT, NAME};
use crate::patch::{Patch, Val};
use crate::resource::Resource;
use crate::text::{
    contains, contains_lower, contains_str, escape_html, html_escape, html_opt_cut, lower_of,
    opt_contains_lower, opt_contains_lower_spec, opt_html_cut, opt_view,
};
use crate::view::CardType;
use vstd::prelude::*;

verus! {

/// Gate arm states
#[derive(Clone, Debug, Default)]
pub struct GateArmState {
    pub id: u32,
    pub description: String,
}

/// Gate Arm Array
#[derive(Clone, Debug, Default)]
pub struct GateArmArray {
    pub name: String,
    pub location: Option<String>,
    pub notes: String,
    pub arm_state: u32,
    pub interlock: u32,
    // full attributes
    pub geo_loc: Option<String>,
}

/// Path of the list of gate arm states
pub const GATE_ARM_STATE_URI: &'static str = "/iris/gate_arm_state";

/// Ancillary gate arm array data: the list of gate arm states, for search
#[derive(Clone, Debug, Default)]
pub struct GateArmArrayAnc {
    pub states: Option<Vec<GateArmState>>,
}

/// The ancillary fetch a gate arm array view still needs, if any
pub open spec fn gate_arm_anc_uri(states_loaded: bool, view: CardType) -> Option<Seq<char>> {
    if !states_loaded && view == CardType::Search {
        Some(GATE_ARM_STATE_URI@)
    } else {
        None
    }
}

/// Gate arm array data after the state list fetched for a view is put
pub open spec fn gate_arm_anc_set(
    a: GateArmArrayAnc,
    view: CardType,
    states: Vec<GateArmState>,
) -> GateArmArrayAnc {
    if gate_arm_anc_uri(a.states is Some, view) is Some {
        GateArmArrayAnc { states: Some(states) }
    } else {
        a
    }
}

/// Once the state list asked for by a view is put, no view asks for a
/// fetch again.
pub proof fn lemma_gate_arm_fetch_once(
    a: GateArmArrayAnc,
    view: CardType,
    states: Vec<GateArmState>,
    next: CardType,
)
    requires
        gate_arm_anc_uri(a.states is Some, view) is Some,
    ensures
        gate_arm_anc_uri(gate_arm_anc_set(a, view, states).states is Some, view) is None,
        gate_arm_anc_uri(gate_arm_anc_set(a, view, states).states is Some, next) is None,
{
}

/// Description of the first state with an id, or nothing
pub open spec fn state_description(states: Seq<GateArmState>, id: u32) -> Seq<char>
    decreases states.len(),
{
    if states.len() == 0 {
        Seq::empty()
    } else if states[0].id == id {
        states[0].description@
    } else {
        state_description(states.drop_first(), id)
    }
}

/// Description of the state of a gate arm array, from the loaded states
pub open spec fn anc_state(states: Option<Vec<GateArmState>>, id: u32) -> Seq<char> {
    match states {
        Some(s) => state_description(s@, id),
        None => Seq::empty(),
    }
}

impl GateArmArrayAnc {
    /// Get ancillary URI: the state list, for search, until it is loaded
    pub fn uri(&self, view: CardType, pri: &GateArmArray) -> (r: Option<String>)
        ensures
            r matches Some(u) ==> gate_arm_anc_uri(self.states is Some, view) == Some(u@),
            r is None ==> gate_arm_anc_uri(self.states is Some, view) is None,
    {
        match (view, &self.states) {
            (CardType::Search, None) => Some(String::from_str(GATE_ARM_STATE_URI)),
            _ => None,
        }
    }

    /// Put the fetched state list, where the view asked for it
    pub fn set_states(&mut self, view: CardType, pri: &GateArmArray, states: Vec<GateArmState>)
        ensures
            *final(self) == gate_arm_anc_set(*old(self), view, states),
    {
        if self.uri(view, pri).is_some() {
            self.states = Some(states);
        }
    }

    /// Get state description
    pub fn state(&self, pri: &GateArmArray) -> (r: &str)
        ensures
            r@ == anc_state(self.states, pri.arm_state),
    {
        if let Some(states) = &self.states {
            let n = states.len();
            let mut i: usize = 0;
            assert(states@.subrange(0, n as int) =~= states@);
            assert(anc_state(self.states, pri.arm_state) == state_description(states@, pri.arm_state));
            while i < n
                invariant
                    n == states@.len(),
                    i <= n,
                    anc_state(self.states, pri.arm_state) == state_description(states@, pri.arm_state),
                    state_description(states@, pri.arm_state) == state_description(
                        states@.subrange(i as int, n as int),
                        pri.arm_state,
                    ),
                decreases n - i,
            {
                let ghost rest = states@.subrange(i as int, n as int);
                assert(rest[0] == states@[i as int]);
                if pri.arm_state == states[i].id {
                    assert(rest.len() > 0);
                    assert(state_description(rest, pri.arm_state) == rest[0].description@);
                    return states[i].description.as_str();
                }
                assert(rest.drop_first() =~= states@.subrange(i + 1, n as int));
                i += 1;
            }
            assert(states@.subrange(i as int, n as int).len() == 0);
        }
        proof {
            reveal_strlit("");
        }
        ""
    }
}

/// Model of a gate arm array's location
pub open spec fn location_of(g: &GateArmArray) -> Option<Seq<char>> {
    opt_view(g.location)
}

/// Compact HTML of a gate arm array: location cut to 12 characters
pub open spec fn gate_arm_compact(g: &GateArmArray) -> Seq<char> {
    "<span>"@ + opt_html_cut(location_of(g), 12) + "</span><span class='"@ + NAME@ + "'>"@
        + escape_html(g.name@) + "</span>"@
}

/// Status HTML of a gate arm array: location cut to 64 characters
pub open spec fn gate_arm_status(g: &GateArmArray) -> Seq<char> {
    "<div class='row'><span class='info'>"@ + opt_html_cut(location_of(g), 64) + "</span></div>"@
}

/// HTML of a gate arm array in a view; the edit view has no fields
pub open spec fn gate_arm_html(g: &GateArmArray, view: CardType) -> Seq<char> {
    match view {
        CardType::CreateCompact => CREATE_COMPACT@,
        CardType::Create => spec_html_create(g.name@),
        CardType::Compact | CardType::Search => gate_arm_compact(g),
        CardType::Status => gate_arm_status(g),
        CardType::Edit => Seq::empty(),
    }
}

impl GateArmArray {
    pub const RESOURCE_N: &'static str = "gate_arm_array";

    /// Set the name
    pub fn with_name(self, name: &str) -> (r: GateArmArray)
        ensures
            r.name@ == name@,
            r.location == self.location,
            r.notes == self.notes,
            r.arm_state == self.arm_state,
            r.interlock == self.interlock,
            r.geo_loc == self.geo_loc,
    {
        GateArmArray { name: String::from_str(name), ..self }
    }

    /// Convert to Compact HTML
    pub fn to_html_compact(&self, anc: &GateArmArrayAnc) -> (r: String)
        ensures
            r@ == gate_arm_compact(self),
    {
        let mut r = String::from_str("<span>");
        let location = html_opt_cut(&self.location, 12);
        r.append(location.as_str());
        r.append("</span><span class='");
        r.append(NAME);
        r.append("'>");
        let name = html_escape(self.name.as_str());
        r.append(name.as_str());
        r.append("</span>");
        r
    }

    /// Convert to Status HTML
    pub fn to_html_status(&self, anc: &GateArmArrayAnc) -> (r: String)
        ensures
            r@ == gate_arm_status(self),
    {
        let mut r = String::from_str("<div class='row'><span class='info'>");
        let location = html_opt_cut(&self.location, 64);
        r.append(location.as_str());
        r.append("</span></div>");
        r
    }

    /// Convert to Edit HTML: no field of a gate arm array is edited here
    pub fn to_html_edit(&self) -> (r: String)
        ensures
            r@ == Seq::<char>::empty(),
    {
        String::new()
    }

    /// Get changed fields from an edit form: there are none
    pub fn changed_fields(&self) -> (p: Patch)
        ensures
            p@ == Seq::<(Seq<char>, Val)>::empty(),
    {
        Patch::new()
    }

    /// Text form of a gate arm array: its name, escaped for HTML
    pub fn to_string(&self) -> (r: String)
        ensures
            r@ == escape_html(self.name@),
    {
        html_escape(self.name.as_str())
    }
}

impl Card for GateArmArray {
    type Ancillary = GateArmArrayAnc;

    open spec fn spec_resource() -> Resource {
        Resource::GateArmArray
    }

    open spec fn spec_name(&self) -> Seq<char> {
        escape_html(self.name@)
    }

    open spec fn spec_is_match(&self, token: Seq<char>, anc: &GateArmArrayAnc) -> bool {
        contains(lower_of(self.name@), token) || opt_contains_lower_spec(location_of(self), token)
            || contains(anc_state(anc.states, self.arm_state), token)
    }

    open spec fn spec_next_name(obs: Seq<Self>) -> Seq<char> {
        Seq::empty()
    }

    open spec fn spec_geo_loc(&self) -> Option<Seq<char>> {
        opt_view(self.geo_loc)
    }

    open spec fn spec_html(&self, view: CardType, anc: &GateArmArrayAnc) -> Seq<char> {
        gate_arm_html(self, view)
    }

    fn resource() -> (r: Resource) {
        Resource::GateArmArray
    }

    fn name_html(&self) -> (r: String) {
        self.to_string()
    }

    /// Get geo location name
    /// Get next suggested name: none for this type
    fn next_name(obs: &Vec<Self>) -> (r: String) {
        String::new()
    }

    fn geo_loc(&self) -> (r: Option<&str>) {
        match &self.geo_loc {
            Some(g) => Some(g.as_str()),
            None => None,
        }
    }

    /// Check if a search token matches
    fn is_match(&self, token: &str, anc: &GateArmArrayAnc) -> (r: bool) {
        contains_lower(self.name.as_str(), token) || opt_contains_lower(&self.location, token)
            || contains_str(anc.state(self), token)
    }

    /// Convert to HTML view
    fn to_html(&self, view: CardType, anc: &GateArmArrayAnc) -> (r: String) {
        match view {
            CardType::CreateCompact => String::from_str(CREATE_COMPACT),
            CardType::Create => html_create(self.name.as_str()),
            CardType::Compact | CardType::Search => self.to_html_compact(anc),
            CardType::Status => self.to_html_status(anc),
            CardType::Edit => self.to_html_edit(),
        }
    }
}

} // verus!
