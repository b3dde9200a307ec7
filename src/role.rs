//! Roles: named sets of permissions that can be enabled or disabled.
use crate::card::{
    enabled_row, disabled_attr, html_create, spec_disabled_attr, spec_enabled_row,
    spec_html_create, Card, CREATE_COMPACT,
};
use crate::patch::{lookup, Patch, PatchVal, Val};
use crate::resource::Resource;
use crate::text::{contains, contains_lower, lower_of};
use crate::view::CardType;
use vstd::prelude::*;

verus! {

/// Role
#[derive(Clone, Debug, Default)]
pub struct Role {
    pub name: String,
    pub enabled: bool,
}

/// Model of a role
pub struct RoleView {
    pub name: Seq<char>,
    pub enabled: bool,
}

impl View for Role {
    type V = RoleView;

    open spec fn view(&self) -> RoleView {
        RoleView { name: self.name@, enabled: self.enabled }
    }
}

/// Ancillary role data: roles need none
#[derive(Clone, Copy, Debug, Default)]
pub struct RoleAnc;

impl RoleAnc {
    /// Get ancillary URI: never any
    pub fn uri(&self, view: CardType, pri: &Role) -> (r: Option<String>)
        ensures
            r is None,
    {
        None
    }
}

/// Values of a role edit form; `None` where the input is absent
#[derive(Clone, Debug, Default)]
pub struct RoleForm {
    pub enabled: Option<bool>,
}

/// Changed fields of a role edit form
pub open spec fn role_diff(f: RoleForm, r: RoleView) -> Seq<(Seq<char>, Val)> {
    match f.enabled {
        Some(e) => if e != r.enabled {
            seq![("enabled"@, Val::Bool(e))]
        } else {
            Seq::empty()
        },
        None => Seq::empty(),
    }
}

/// A role with the values of a change set written over it
pub open spec fn role_patched(r: RoleView, p: Seq<(Seq<char>, Val)>) -> RoleView {
    RoleView {
        enabled: match lookup(p, "enabled"@) {
            Some(Val::Bool(b)) => b,
            _ => r.enabled,
        },
        ..r
    }
}

/// An edit form showing the values of a role
pub open spec fn role_form_of(r: RoleView) -> RoleForm {
    RoleForm { enabled: Some(r.enabled) }
}

/// Compact HTML of a role
pub open spec fn role_compact(r: RoleView) -> Seq<char> {
    "<span"@ + spec_disabled_attr(r.enabled) + ">"@ + r.name + "</span>"@
}

/// HTML of a role in a view
pub open spec fn role_html(r: RoleView, view: CardType) -> Seq<char> {
    match view {
        CardType::CreateCompact => CREATE_COMPACT@,
        CardType::Create => spec_html_create(r.name),
        CardType::Compact | CardType::Search => role_compact(r),
        CardType::Status | CardType::Edit => spec_enabled_row(r.enabled),
    }
}

impl Role {
    pub const RESOURCE_N: &'static str = "role";

    /// Set the name
    pub fn with_name(self, name: &str) -> (r: Role)
        ensures
            r@ == (RoleView { name: name@, ..self@ }),
    {
        Role { name: String::from_str(name), ..self }
    }

    /// Convert to Compact HTML
    pub fn to_html_compact(&self) -> (r: String)
        ensures
            r@ == role_compact(self@),
    {
        let mut r = String::from_str("<span");
        r.append(disabled_attr(self.enabled));
        r.append(">");
        r.append(self.name.as_str());
        r.append("</span>");
        r
    }

    /// Convert to Edit HTML
    pub fn to_html_edit(&self) -> (r: String)
        ensures
            r@ == spec_enabled_row(self.enabled),
    {
        enabled_row(self.enabled)
    }

    /// Get changed fields from an edit form
    pub fn changed_fields(&self, form: &RoleForm) -> (p: Patch)
        ensures
            p@ == role_diff(*form, self@),
    {
        let mut p = Patch::new();
        if let Some(enabled) = form.enabled {
            if enabled != self.enabled {
                p.insert("enabled", PatchVal::Bool(enabled));
            }
        }
        assert(p@ =~= role_diff(*form, self@));
        p
    }

    /// Text form of the role: its name
    pub fn to_string(&self) -> (r: String)
        ensures
            r@ == self.name@,
    {
        self.name.clone()
    }
}

impl Card for Role {
    type Ancillary = RoleAnc;

    open spec fn spec_resource() -> Resource {
        Resource::Role
    }

    open spec fn spec_name(&self) -> Seq<char> {
        self.name@
    }

    open spec fn spec_is_match(&self, token: Seq<char>, anc: &RoleAnc) -> bool {
        contains(lower_of(self.name@), token)
    }

    open spec fn spec_next_name(obs: Seq<Self>) -> Seq<char> {
        Seq::empty()
    }

    open spec fn spec_geo_loc(&self) -> Option<Seq<char>> {
        None
    }

    open spec fn spec_html(&self, view: CardType, anc: &RoleAnc) -> Seq<char> {
        role_html(self@, view)
    }

    fn resource() -> (r: Resource) {
        Resource::Role
    }

    fn name_html(&self) -> (r: String) {
        self.name.clone()
    }

    /// Get next suggested name: none for this type
    fn next_name(obs: &Vec<Self>) -> (r: String) {
        String::new()
    }

    fn geo_loc(&self) -> (r: Option<&str>) {
        None
    }

    /// Check if a search token matches
    fn is_match(&self, token: &str, anc: &RoleAnc) -> (r: bool) {
        contains_lower(self.name.as_str(), token)
    }

    /// Convert to HTML view
    fn to_html(&self, view: CardType, anc: &RoleAnc) -> (r: String) {
        match view {
            CardType::CreateCompact => String::from_str(CREATE_COMPACT),
            CardType::Create => html_create(self.name.as_str()),
            CardType::Compact | CardType::Search => self.to_html_compact(),
            CardType::Status | CardType::Edit => self.to_html_edit(),
        }
    }
}

/// A role edit form changes nothing exactly when each present input
/// equals the role's value; in particular, the form showing role `x`
/// changes nothing on role `y` exactly when they agree on every editable
/// field.
pub proof fn lemma_role_diff_empty(f: RoleForm, x: RoleView, y: RoleView)
    ensures
        role_diff(f, y).len() == 0 <==> (f.enabled is None || f.enabled == Some(y.enabled)),
        role_diff(role_form_of(x), y).len() == 0 <==> x.enabled == y.enabled,
{
}

/// Writing a role's change set back over the role leaves nothing to
/// change on the same form.
pub proof fn lemma_role_diff_applied(f: RoleForm, y: RoleView)
    ensures
        role_diff(f, role_patched(y, role_diff(f, y))).len() == 0,
{
    let p = role_diff(f, y);
    if p.len() > 0 {
        assert(p.drop_last().len() == 0);
        assert(lookup(p, "enabled"@) == Some(p[0].1));
    }
}

} // verus!
