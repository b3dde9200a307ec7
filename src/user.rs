//! Users of the console, each with an optional role.
use crate::card::{
    disabled_attr, enabled_row, html_create, spec_disabled_attr, spec_enabled_row,
    spec_html_create, Card, CREATE_COMPACT,
};
use crate::patch::{lemma_lookup_concat, lemma_lookup_single, lookup, opt_val, Patch, PatchVal, Val};
use crate::resource::Resource;
use crate::role::Role;
use crate::text::{opt_str_eq, opt_view, contains, contains_lower, contains_str, escape_html, html_escape, lower_of, opt_contains_lower};
use crate::view::CardType;
use vstd::prelude::*;

verus! {

/// User
#[derive(Clone, Debug, Default)]
pub struct User {
    pub name: String,
    pub full_name: String,
    pub role: Option<String>,
    pub enabled: bool,
}

/// Model of a user
pub struct UserView {
    pub name: Seq<char>,
    pub full_name: Seq<char>,
    pub role: Option<Seq<char>>,
    pub enabled: bool,
}

impl View for User {
    type V = UserView;

    open spec fn view(&self) -> UserView {
        UserView {
            name: self.name@,
            full_name: self.full_name@,
            role: opt_view(self.role),
            enabled: self.enabled,
        }
    }
}

/// Path of the role list
pub const ROLE_URI: &'static str = "/iris/api/role";

/// Ancillary user data: the list of roles, for the edit card
#[derive(Clone, Debug, Default)]
pub struct UserAnc {
    pub roles: Option<Vec<Role>>,
}

/// The ancillary fetch a user view still needs, if any
pub open spec fn user_anc_uri(roles_loaded: bool, view: CardType) -> Option<Seq<char>> {
    if !roles_loaded && (view == CardType::Edit || view == CardType::Search) {
        Some(ROLE_URI@)
    } else {
        None
    }
}

/// User data after the fetched role list is put
pub open spec fn user_anc_set(a: UserAnc, roles: Vec<Role>) -> UserAnc {
    UserAnc { roles: Some(roles) }
}

/// Once the role list is put, no view asks for a fetch again.
pub proof fn lemma_user_fetch_once(a: UserAnc, view: CardType, roles: Vec<Role>)
    ensures
        user_anc_uri(user_anc_set(a, roles).roles is Some, view) is None,
{
}

/// Option entries of the role select, one per role
pub open spec fn role_options(roles: Seq<Role>, role: Option<Seq<char>>) -> Seq<char>
    decreases roles.len(),
{
    if roles.len() == 0 {
        Seq::empty()
    } else {
        let last = roles.last();
        role_options(roles.drop_last(), role) + "<option"@ + (if role == Some(last.name@) {
            " selected"@
        } else {
            ""@
        }) + ">"@ + last.name@ + "</option>"@
    }
}

/// The role select of a user edit card
pub open spec fn roles_select(roles: Option<Vec<Role>>, role: Option<Seq<char>>) -> Seq<char> {
    "<select id='edit_role'><option></option>"@ + match roles {
        Some(rs) => role_options(rs@, role),
        None => Seq::empty(),
    } + "</select>"@
}

impl UserAnc {
    /// Get ancillary URI: the role list, for edit and search views, until
    /// it is loaded
    pub fn uri(&self, view: CardType, pri: &User) -> (r: Option<String>)
        ensures
            r matches Some(u) ==> user_anc_uri(self.roles is Some, view) == Some(u@),
            r is None ==> user_anc_uri(self.roles is Some, view) is None,
    {
        match (view, &self.roles) {
            (CardType::Edit, None) | (CardType::Search, None) => Some(String::from_str(ROLE_URI)),
            _ => None,
        }
    }

    /// Put the fetched role list
    pub fn set_roles(&mut self, view: CardType, pri: &User, roles: Vec<Role>)
        ensures
            *final(self) == user_anc_set(*old(self), roles),
    {
        self.roles = Some(roles);
    }

    /// Create an HTML `select` element of roles
    pub fn roles_html(&self, pri: &User) -> (r: String)
        ensures
            r@ == roles_select(self.roles, opt_view(pri.role)),
    {
        let mut html = String::from_str("<select id='edit_role'><option></option>");
        let ghost head = html@;
        if let Some(roles) = &self.roles {
            let n = roles.len();
            let mut i: usize = 0;
            while i < n
                invariant
                    n == roles@.len(),
                    i <= n,
                    html@ == head + role_options(roles@.take(i as int), opt_view(pri.role)),
                decreases n - i,
            {
                let role = &roles[i];
                html.append("<option");
                let selected = match &pri.role {
                    Some(r) => *r == role.name,
                    None => false,
                };
                if selected {
                    html.append(" selected");
                } else {
                    html.append("");
                }
                html.append(">");
                html.append(role.name.as_str());
                html.append("</option>");
                proof {
                    let next = roles@.take(i + 1);
                    assert(next.drop_last() =~= roles@.take(i as int));
                    assert(next.last() == *role);
                    assert(selected == (opt_view(pri.role) == Some(role.name@)));
                    assert(html@ =~= head + role_options(next, opt_view(pri.role)));
                }
                i += 1;
            }
            assert(roles@.take(n as int) =~= roles@);
        }
        html.append("</select>");
        html
    }
}

/// Values of a user edit form: `None` for an absent text or checkbox
/// input, and for a role select left blank (a cleared role)
#[derive(Clone, Debug, Default)]
pub struct UserForm {
    pub full_name: Option<String>,
    pub role: Option<String>,
    pub enabled: Option<bool>,
}

/// Model of a user edit form
pub struct UserFormView {
    pub full_name: Option<Seq<char>>,
    pub role: Option<Seq<char>>,
    pub enabled: Option<bool>,
}

impl View for UserForm {
    type V = UserFormView;

    open spec fn view(&self) -> UserFormView {
        UserFormView {
            full_name: opt_view(self.full_name),
            role: opt_view(self.role),
            enabled: self.enabled,
        }
    }
}

/// Changed fields of a user edit form, in the order full name, role,
/// enabled
pub open spec fn user_diff(f: UserFormView, u: UserView) -> Seq<(Seq<char>, Val)> {
    (match f.full_name {
        Some(n) => if n != u.full_name {
            seq![("full_name"@, Val::Str(n))]
        } else {
            Seq::empty()
        },
        None => Seq::empty(),
    }) + (if f.role != u.role {
        seq![("role"@, opt_val(f.role))]
    } else {
        Seq::empty()
    }) + (match f.enabled {
        Some(e) => if e != u.enabled {
            seq![("enabled"@, Val::Bool(e))]
        } else {
            Seq::empty()
        },
        None => Seq::empty(),
    })
}

/// A user with the values of a change set written over it
pub open spec fn user_patched(u: UserView, p: Seq<(Seq<char>, Val)>) -> UserView {
    UserView {
        name: u.name,
        full_name: match lookup(p, "full_name"@) {
            Some(Val::Str(s)) => s,
            _ => u.full_name,
        },
        role: match lookup(p, "role"@) {
            Some(Val::Str(s)) => Some(s),
            Some(Val::Null) => None,
            _ => u.role,
        },
        enabled: match lookup(p, "enabled"@) {
            Some(Val::Bool(b)) => b,
            _ => u.enabled,
        },
    }
}

/// An edit form showing the values of a user
pub open spec fn user_form_of(u: UserView) -> UserFormView {
    UserFormView { full_name: Some(u.full_name), role: u.role, enabled: Some(u.enabled) }
}

/// Compact HTML of a user
pub open spec fn user_compact(u: UserView) -> Seq<char> {
    "<span"@ + spec_disabled_attr(u.enabled && u.role is Some) + ">"@ + u.name + "</span>"@
}

/// Edit HTML of a user
pub open spec fn user_edit(u: UserView, roles: Option<Vec<Role>>) -> Seq<char> {
    "<div class='row'><label for='edit_full'>Full Name</label><input id='edit_full' maxlength='31' size='20' value='"@
        + escape_html(u.full_name) + "'/></div><div class='row'><label for='edit_role'>Role</label>"@
        + roles_select(roles, u.role) + "</div>"@ + spec_enabled_row(u.enabled)
}

/// HTML of a user in a view
pub open spec fn user_html(u: UserView, view: CardType, anc: UserAnc) -> Seq<char> {
    match view {
        CardType::CreateCompact => CREATE_COMPACT@,
        CardType::Create => spec_html_create(u.name),
        CardType::Compact | CardType::Search => user_compact(u),
        CardType::Status | CardType::Edit => user_edit(u, anc.roles),
    }
}

/// Does a search token match a user? The name is matched as written, the
/// full name and role in lowercase.
pub open spec fn user_matches(u: UserView, token: Seq<char>) -> bool {
    contains(u.name, token) || contains(lower_of(u.full_name), token) || match u.role {
        Some(r) => contains(lower_of(r), token),
        None => false,
    }
}

impl User {
    pub const RESOURCE_N: &'static str = "user";

    /// Set the name
    pub fn with_name(self, name: &str) -> (r: User)
        ensures
            r@ == (UserView { name: name@, ..self@ }),
    {
        User { name: String::from_str(name), ..self }
    }

    /// Convert to Compact HTML
    pub fn to_html_compact(&self) -> (r: String)
        ensures
            r@ == user_compact(self@),
    {
        let mut r = String::from_str("<span");
        r.append(disabled_attr(self.enabled && self.role.is_some()));
        r.append(">");
        r.append(self.name.as_str());
        r.append("</span>");
        r
    }

    /// Convert to Edit HTML
    pub fn to_html_edit(&self, anc: &UserAnc) -> (r: String)
        ensures
            r@ == user_edit(self@, anc.roles),
    {
        let mut r = String::from_str(
            "<div class='row'><label for='edit_full'>Full Name</label><input id='edit_full' maxlength='31' size='20' value='",
        );
        let full_name = html_escape(self.full_name.as_str());
        r.append(full_name.as_str());
        r.append("'/></div><div class='row'><label for='edit_role'>Role</label>");
        let role = anc.roles_html(self);
        r.append(role.as_str());
        r.append("</div>");
        let enabled = enabled_row(self.enabled);
        r.append(enabled.as_str());
        r
    }

    /// Get changed fields from an edit form
    pub fn changed_fields(&self, form: &UserForm) -> (p: Patch)
        ensures
            p@ == user_diff(form@, self@),
    {
        let mut p = Patch::new();
        let ghost p0 = p@;
        if let Some(full_name) = &form.full_name {
            if *full_name != self.full_name {
                p.insert("full_name", PatchVal::Str(full_name.clone()));
            }
        }
        let ghost p1 = p@;
        if !opt_str_eq(&form.role, &self.role) {
            p.insert("role", PatchVal::from_opt_str(&form.role));
        }
        let ghost p2 = p@;
        if let Some(enabled) = form.enabled {
            if enabled != self.enabled {
                p.insert("enabled", PatchVal::Bool(enabled));
            }
        }
        assert(p@ =~= user_diff(form@, self@));
        p
    }

    /// Text form of the user: the name
    pub fn to_string(&self) -> (r: String)
        ensures
            r@ == self.name@,
    {
        self.name.clone()
    }
}

impl Card for User {
    type Ancillary = UserAnc;

    open spec fn spec_resource() -> Resource {
        Resource::User
    }

    open spec fn spec_name(&self) -> Seq<char> {
        self.name@
    }

    open spec fn spec_is_match(&self, token: Seq<char>, anc: &UserAnc) -> bool {
        user_matches(self@, token)
    }

    open spec fn spec_next_name(obs: Seq<Self>) -> Seq<char> {
        Seq::empty()
    }

    open spec fn spec_geo_loc(&self) -> Option<Seq<char>> {
        None
    }

    open spec fn spec_html(&self, view: CardType, anc: &UserAnc) -> Seq<char> {
        user_html(self@, view, *anc)
    }

    fn resource() -> (r: Resource) {
        Resource::User
    }

    fn name_html(&self) -> (r: String) {
        self.name.clone()
    }

    /// Get next suggested name: none for this type
    fn next_name(obs: &Vec<Self>) -> (r: String) {
        String::new()
    }

    fn geo_loc(&self) -> (r: Option<&str>) {
        None
    }

    /// Check if a search token matches
    fn is_match(&self, token: &str, anc: &UserAnc) -> (r: bool) {
        contains_str(self.name.as_str(), token) || contains_lower(self.full_name.as_str(), token)
            || opt_contains_lower(&self.role, token)
    }

    /// Convert to HTML view
    fn to_html(&self, view: CardType, anc: &UserAnc) -> (r: String) {
        match view {
            CardType::CreateCompact => String::from_str(CREATE_COMPACT),
            CardType::Create => html_create(self.name.as_str()),
            CardType::Compact | CardType::Search => self.to_html_compact(),
            CardType::Status | CardType::Edit => self.to_html_edit(anc),
        }
    }
}

/// A user edit form changes nothing exactly when each present input
/// equals the user's value; in particular, the form showing user `x`
/// changes nothing on user `y` exactly when they agree on every editable
/// field.
pub proof fn lemma_user_diff_empty(f: UserFormView, x: UserView, y: UserView)
    ensures
        user_diff(f, y).len() == 0 <==> ((f.full_name is None || f.full_name == Some(y.full_name))
            && f.role == y.role && (f.enabled is None || f.enabled == Some(y.enabled))),
        user_diff(user_form_of(x), y).len() == 0 <==> (x.full_name == y.full_name && x.role
            == y.role && x.enabled == y.enabled),
{
}

/// Writing a user's change set back over the user leaves nothing to
/// change on the same form.
pub proof fn lemma_user_diff_applied(f: UserFormView, y: UserView)
    ensures
        user_diff(f, user_patched(y, user_diff(f, y))).len() == 0,
{
    reveal_strlit("full_name");
    reveal_strlit("role");
    reveal_strlit("enabled");
    let p = user_diff(f, y);
    let z = user_patched(y, p);
    assert("full_name"@.len() == 9 && "role"@.len() == 4 && "enabled"@.len() == 7);
    let a = match f.full_name {
        Some(n) => if n != y.full_name {
            seq![("full_name"@, Val::Str(n))]
        } else {
            Seq::empty()
        },
        None => Seq::empty(),
    };
    let b = if f.role != y.role {
        seq![("role"@, opt_val(f.role))]
    } else {
        Seq::<(Seq<char>, Val)>::empty()
    };
    let c = match f.enabled {
        Some(e) => if e != y.enabled {
            seq![("enabled"@, Val::Bool(e))]
        } else {
            Seq::empty()
        },
        None => Seq::empty(),
    };
    assert(p == a + b + c);
    lemma_lookup_concat(a + b, c, "full_name"@);
    lemma_lookup_concat(a, b, "full_name"@);
    lemma_lookup_concat(a + b, c, "role"@);
    lemma_lookup_concat(a, b, "role"@);
    lemma_lookup_concat(a + b, c, "enabled"@);
    lemma_lookup_concat(a, b, "enabled"@);
    lemma_lookup_single(a, "full_name"@);
    lemma_lookup_single(b, "full_name"@);
    lemma_lookup_single(c, "full_name"@);
    lemma_lookup_single(a, "role"@);
    lemma_lookup_single(b, "role"@);
    lemma_lookup_single(c, "role"@);
    lemma_lookup_single(a, "enabled"@);
    lemma_lookup_single(b, "enabled"@);
    lemma_lookup_single(c, "enabled"@);
}

} // verus!
