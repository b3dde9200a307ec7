//! Ramp meters: signals that pace traffic entering a freeway.
use crate::card::{disabled_attr, html_create, spec_disabled_attr, spec_html_create, Card, CREATE_COMPACT, NAME};
use crate::patch::{
    lemma_lookup_concat, lemma_lookup_single, lookup, opt_num, opt_val, Patch, PatchVal, Val,
};
use crate::resource::Resource;
use crate::text::{html_opt, opt_text, opt_str_eq, 
    contains, contains_lower, decimal, decimal_str, escape_html, html_escape, html_opt_cut,
    lower_of, opt_contains_lower, opt_contains_lower_spec, opt_html_cut, opt_view,
};
use crate::view::CardType;
use vstd::prelude::*;

verus! {

/// Ramp Meter
#[derive(Clone, Debug, Default)]
pub struct RampMeter {
    pub name: String,
    pub location: Option<String>,
    pub controller: Option<String>,
    // full attributes
    pub geo_loc: Option<String>,
    pub pin: Option<u32>,
}

/// Model of a ramp meter
pub struct RampMeterView {
    pub name: Seq<char>,
    pub location: Option<Seq<char>>,
    pub controller: Option<Seq<char>>,
    pub geo_loc: Option<Seq<char>>,
    pub pin: Option<u32>,
}

impl View for RampMeter {
    type V = RampMeterView;

    open spec fn view(&self) -> RampMeterView {
        RampMeterView {
            name: self.name@,
            location: opt_view(self.location),
            controller: opt_view(self.controller),
            geo_loc: opt_view(self.geo_loc),
            pin: self.pin,
        }
    }
}

/// Ancillary ramp meter data: ramp meter cards need none
#[derive(Clone, Copy, Debug, Default)]
pub struct RampMeterAnc;

impl RampMeterAnc {
    /// Get ancillary URI: never any
    pub fn uri(&self, view: CardType, pri: &RampMeter) -> (r: Option<String>)
        ensures
            r is None,
    {
        None
    }
}

/// Values of a ramp meter edit form: `None` for a blank controller (a
/// cleared controller) and for a blank or unreadable pin
#[derive(Clone, Debug, Default)]
pub struct RampMeterForm {
    pub controller: Option<String>,
    pub pin: Option<u32>,
}

/// Model of a ramp meter edit form
pub struct RampMeterFormView {
    pub controller: Option<Seq<char>>,
    pub pin: Option<u32>,
}

impl View for RampMeterForm {
    type V = RampMeterFormView;

    open spec fn view(&self) -> RampMeterFormView {
        RampMeterFormView { controller: opt_view(self.controller), pin: self.pin }
    }
}

/// Changed fields of a ramp meter edit form, in the order controller, pin
pub open spec fn ramp_meter_diff(f: RampMeterFormView, m: RampMeterView) -> Seq<(Seq<char>, Val)> {
    (if f.controller != m.controller {
        seq![("controller"@, opt_val(f.controller))]
    } else {
        Seq::empty()
    }) + (if f.pin != m.pin {
        seq![("pin"@, opt_num(f.pin))]
    } else {
        Seq::empty()
    })
}

/// A ramp meter with the values of a change set written over it
pub open spec fn ramp_meter_patched(m: RampMeterView, p: Seq<(Seq<char>, Val)>) -> RampMeterView {
    RampMeterView {
        controller: match lookup(p, "controller"@) {
            Some(Val::Str(s)) => Some(s),
            Some(Val::Null) => None,
            _ => m.controller,
        },
        pin: match lookup(p, "pin"@) {
            Some(Val::Num(n)) => if n <= u32::MAX {
                Some(n as u32)
            } else {
                m.pin
            },
            Some(Val::Null) => None,
            _ => m.pin,
        },
        ..m
    }
}

/// An edit form showing the values of a ramp meter
pub open spec fn ramp_meter_form_of(m: RampMeterView) -> RampMeterFormView {
    RampMeterFormView { controller: m.controller, pin: m.pin }
}

/// Compact HTML of a ramp meter: location cut to 12 characters, disabled
/// style when it has no controller
pub open spec fn ramp_meter_compact(m: RampMeterView) -> Seq<char> {
    "<span"@ + spec_disabled_attr(m.controller is Some) + ">"@ + opt_html_cut(m.location, 12)
        + "</span><span class='"@ + NAME@ + "'>"@ + escape_html(m.name) + "</span>"@
}

/// Status HTML of a ramp meter: location cut to 64 characters
pub open spec fn ramp_meter_status(m: RampMeterView) -> Seq<char> {
    "<div class='row'><span class='info'>"@ + opt_html_cut(m.location, 64) + "</span></div>"@
}

/// Text of an optional number, or nothing
pub open spec fn opt_decimal(n: Option<u32>) -> Seq<char> {
    match n {
        Some(v) => decimal(v as nat),
        None => Seq::empty(),
    }
}

/// Edit HTML of a ramp meter
pub open spec fn ramp_meter_edit(m: RampMeterView) -> Seq<char> {
    "<div class='row'><label for='controller'>Controller</label><input id='controller' maxlength='20' size='20' value='"@
        + escape_html(opt_text(m.controller))
        + "'/></div><div class='row'><label for='pin'>Pin</label><input id='pin' type='number' min='1' max='104' size='8' value='"@
        + opt_decimal(m.pin) + "'/></div>"@
}

/// HTML of a ramp meter in a view
pub open spec fn ramp_meter_html(m: RampMeterView, view: CardType) -> Seq<char> {
    match view {
        CardType::CreateCompact => CREATE_COMPACT@,
        CardType::Create => spec_html_create(m.name),
        CardType::Compact | CardType::Search => ramp_meter_compact(m),
        CardType::Status => ramp_meter_status(m),
        CardType::Edit => ramp_meter_edit(m),
    }
}

impl RampMeter {
    pub const RESOURCE_N: &'static str = "ramp_meter";

    /// Set the name
    pub fn with_name(self, name: &str) -> (r: RampMeter)
        ensures
            r@ == (RampMeterView { name: name@, ..self@ }),
    {
        RampMeter { name: String::from_str(name), ..self }
    }

    /// Get controller
    pub fn controller(&self) -> (r: Option<&str>)
        ensures
            r matches Some(c) ==> self@.controller == Some(c@),
            r is None ==> self@.controller is None,
    {
        match &self.controller {
            Some(c) => Some(c.as_str()),
            None => None,
        }
    }

    /// Convert to Compact HTML
    pub fn to_html_compact(&self) -> (r: String)
        ensures
            r@ == ramp_meter_compact(self@),
    {
        let mut r = String::from_str("<span");
        r.append(disabled_attr(self.controller.is_some()));
        r.append(">");
        let location = html_opt_cut(&self.location, 12);
        r.append(location.as_str());
        r.append("</span><span class='");
        r.append(NAME);
        r.append("'>");
        let name = html_escape(self.name.as_str());
        r.append(name.as_str());
        r.append("</span>");
        r
    }

    /// Convert to Status HTML
    pub fn to_html_status(&self) -> (r: String)
        ensures
            r@ == ramp_meter_status(self@),
    {
        let mut r = String::from_str("<div class='row'><span class='info'>");
        let location = html_opt_cut(&self.location, 64);
        r.append(location.as_str());
        r.append("</span></div>");
        r
    }

    /// Convert to Edit HTML
    pub fn to_html_edit(&self) -> (r: String)
        ensures
            r@ == ramp_meter_edit(self@),
    {
        let mut r = String::from_str(
            "<div class='row'><label for='controller'>Controller</label><input id='controller' maxlength='20' size='20' value='",
        );
        let controller = html_opt(&self.controller);
        r.append(controller.as_str());
        r.append(
            "'/></div><div class='row'><label for='pin'>Pin</label><input id='pin' type='number' min='1' max='104' size='8' value='",
        );
        match self.pin {
            Some(pin) => {
                let pin = decimal_str(pin);
                r.append(pin.as_str());
            },
            None => {},
        }
        r.append("'/></div>");
        assert(r@ =~= ramp_meter_edit(self@));
        r
    }

    /// Get changed fields from an edit form
    pub fn changed_fields(&self, form: &RampMeterForm) -> (p: Patch)
        ensures
            p@ == ramp_meter_diff(form@, self@),
    {
        let mut p = Patch::new();
        if !opt_str_eq(&form.controller, &self.controller) {
            p.insert("controller", PatchVal::from_opt_str(&form.controller));
        }
        if form.pin != self.pin {
            p.insert("pin", PatchVal::from_opt_num(form.pin));
        }
        assert(p@ =~= ramp_meter_diff(form@, self@));
        p
    }

    /// Text form of the ramp meter: its name, escaped for HTML
    pub fn to_string(&self) -> (r: String)
        ensures
            r@ == escape_html(self.name@),
    {
        html_escape(self.name.as_str())
    }
}

impl Card for RampMeter {
    type Ancillary = RampMeterAnc;

    open spec fn spec_resource() -> Resource {
        Resource::RampMeter
    }

    open spec fn spec_name(&self) -> Seq<char> {
        escape_html(self.name@)
    }

    open spec fn spec_is_match(&self, token: Seq<char>, anc: &RampMeterAnc) -> bool {
        contains(lower_of(self.name@), token) || opt_contains_lower_spec(self@.location, token)
    }

    open spec fn spec_next_name(obs: Seq<Self>) -> Seq<char> {
        Seq::empty()
    }

    open spec fn spec_geo_loc(&self) -> Option<Seq<char>> {
        self@.geo_loc
    }

    open spec fn spec_html(&self, view: CardType, anc: &RampMeterAnc) -> Seq<char> {
        ramp_meter_html(self@, view)
    }

    fn resource() -> (r: Resource) {
        Resource::RampMeter
    }

    fn name_html(&self) -> (r: String) {
        self.to_string()
    }

    /// Get geo location name
    /// Get next suggested name: none for this type
    fn next_name(obs: &Vec<Self>) -> (r: String) {
        String::new()
    }

    fn geo_loc(&self) -> (r: Option<&str>) {
        match &self.geo_loc {
            Some(g) => Some(g.as_str()),
            None => None,
        }
    }

    /// Check if a search token matches
    fn is_match(&self, token: &str, anc: &RampMeterAnc) -> (r: bool) {
        contains_lower(self.name.as_str(), token) || opt_contains_lower(&self.location, token)
    }

    /// Convert to HTML view
    fn to_html(&self, view: CardType, anc: &RampMeterAnc) -> (r: String) {
        match view {
            CardType::CreateCompact => String::from_str(CREATE_COMPACT),
            CardType::Create => html_create(self.name.as_str()),
            CardType::Compact | CardType::Search => self.to_html_compact(),
            CardType::Status => self.to_html_status(),
            CardType::Edit => self.to_html_edit(),
        }
    }
}

/// A ramp meter edit form changes nothing exactly when each input equals
/// the meter's value; in particular, the form showing meter `x` changes
/// nothing on meter `y` exactly when they agree on every editable field.
pub proof fn lemma_ramp_meter_diff_empty(f: RampMeterFormView, x: RampMeterView, y: RampMeterView)
    ensures
        ramp_meter_diff(f, y).len() == 0 <==> (f.controller == y.controller && f.pin == y.pin),
        ramp_meter_diff(ramp_meter_form_of(x), y).len() == 0 <==> (x.controller == y.controller
            && x.pin == y.pin),
{
}

/// Writing a ramp meter's change set back over the meter leaves nothing
/// to change on the same form.
pub proof fn lemma_ramp_meter_diff_applied(f: RampMeterFormView, y: RampMeterView)
    ensures
        ramp_meter_diff(f, ramp_meter_patched(y, ramp_meter_diff(f, y))).len() == 0,
{
    reveal_strlit("controller");
    reveal_strlit("pin");
    assert("controller"@.len() == 10 && "pin"@.len() == 3);
    let a = if f.controller != y.controller {
        seq![("controller"@, opt_val(f.controller))]
    } else {
        Seq::<(Seq<char>, Val)>::empty()
    };
    let b = if f.pin != y.pin {
        seq![("pin"@, opt_num(f.pin))]
    } else {
        Seq::<(Seq<char>, Val)>::empty()
    };
    assert(ramp_meter_diff(f, y) == a + b);
    lemma_lookup_concat(a, b, "controller"@);
    lemma_lookup_concat(a, b, "pin"@);
    lemma_lookup_single(a, "controller"@);
    lemma_lookup_single(b, "controller"@);
    lemma_lookup_single(a, "pin"@);
    lemma_lookup_single(b, "pin"@);
}

} // verus!
