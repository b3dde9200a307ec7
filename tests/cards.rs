use bulb::card::{build_card, create_value, disabled_attr, res_build_list, search_match};
use bulb::gatearmarray::{GateArmArray, GateArmArrayAnc, GateArmState};
use bulb::item::ItemState;
use bulb::rampmeter::{RampMeter, RampMeterAnc, RampMeterForm};
use bulb::resource::{Error, Resource};
use bulb::role::{Role, RoleAnc, RoleForm};
use bulb::text::{contains_str, decimal_str, html_cut, html_escape};
use bulb::user::{User, UserAnc, UserForm};
use bulb::view::CardType;

fn role(name: &str, enabled: bool) -> Role {
    Role { name: name.to_string(), enabled }
}

fn jdoe() -> User {
    User {
        name: "jdoe".to_string(),
        full_name: "Jane Doe".to_string(),
        role: Some("admin".to_string()),
        enabled: true,
    }
}

fn meter() -> RampMeter {
    RampMeter {
        name: "RM1".to_string(),
        location: Some("Hwy 100 & 50th St".to_string()),
        controller: None,
        geo_loc: Some("G1".to_string()),
        pin: Some(7),
    }
}

fn gate() -> GateArmArray {
    GateArmArray {
        name: "GA1".to_string(),
        location: Some("I-394 HOV".to_string()),
        notes: String::new(),
        arm_state: 2,
        interlock: 0,
        geo_loc: None,
    }
}

#[test]
fn view_predicates() {
    assert!(CardType::CreateCompact.is_compact());
    assert!(CardType::Compact.is_compact());
    assert!(!CardType::Status.is_compact());
    assert!(CardType::Create.is_create());
    assert!(!CardType::Edit.is_create());
    assert_eq!(CardType::Create.compact(), CardType::CreateCompact);
    assert_eq!(CardType::Edit.compact(), CardType::Compact);
    assert_eq!(CardType::Status.compact(), CardType::Compact);
}

#[test]
fn item_state_text() {
    assert_eq!(ItemState::Deployed.code(), "🔶");
    assert_eq!(ItemState::Maintenance.description(), "maintenance");
    assert_eq!(ItemState::Available.to_string(), "🔹");
}

#[test]
fn text_helpers() {
    assert!(contains_str("gate arm", "arm"));
    assert!(contains_str("gate", ""));
    assert!(!contains_str("gate", "gates"));
    assert_eq!(html_escape("a<b & 'c'"), "a&lt;b &amp; &#39;c&#39;");
    assert_eq!(html_cut("abcdef", 3), "abc");
    assert_eq!(html_cut("ab", 3), "ab");
    assert_eq!(decimal_str(0), "0");
    assert_eq!(decimal_str(4294967295), "4294967295");
    assert_eq!(disabled_attr(false), " class='disabled'");
    assert_eq!(disabled_attr(true), "");
}

#[test]
fn resource_registry() {
    assert_eq!(Resource::from_name("role"), Ok(Resource::Role));
    assert_eq!(Resource::from_name("gate_arm_array"), Ok(Resource::GateArmArray));
    assert_eq!(Resource::from_name("alarm"), Err(Error::UnknownResourceType));
    assert_eq!(Resource::User.uri(), "/iris/api/user");
    assert_eq!(Resource::GateArmArray.uri_name("GA 1/x"), "/iris/api/gate_arm_array/GA%201%2Fx");
    assert!(Resource::RampMeter.has_status());
    assert!(!Resource::Role.has_status());
}

#[test]
fn list_roles_scenario() {
    let roles = vec![role("admin", true), role("guest", false)];
    let html = res_build_list(&roles, "", &RoleAnc);
    assert_eq!(
        html,
        "<ul class='cards'>\
         <li id='role_' name='' class='card'><span class='create'>Create 🆕</span></li>\
         <li id='role_admin' name='admin' class='card'><span>admin</span></li>\
         <li id='role_guest' name='guest' class='card'><span class='disabled'>guest</span></li>\
         </ul>"
    );
}

#[test]
fn list_search_filters_by_all_tokens() {
    let roles = vec![role("admin", true), role("guest", false), role("admin_guest", true)];
    let html = res_build_list(&roles, "ADM gue", &RoleAnc);
    assert_eq!(
        html,
        "<ul class='cards'>\
         <li id='role_' name='' class='card'><span class='create'>Create 🆕</span></li>\
         <li id='role_admin_guest' name='admin_guest' class='card'><span>admin_guest</span></li>\
         </ul>"
    );
}

#[test]
fn search_tokens() {
    let r = role("operator", true);
    assert!(search_match(&r, "", &RoleAnc));
    assert!(search_match(&r, "op", &RoleAnc));
    assert!(search_match(&r, "op tor", &RoleAnc));
    assert!(!search_match(&r, "op admin", &RoleAnc));
    assert!(search_match(&r, "op  tor", &RoleAnc));
}

#[test]
fn save_user_scenario() {
    let form = UserForm {
        full_name: Some("Jane D.".to_string()),
        role: None,
        enabled: Some(true),
    };
    let patch = jdoe().changed_fields(&form);
    assert_eq!(patch.len(), 2);
    assert_eq!(patch.to_json(), "{\"full_name\":\"Jane D.\",\"role\":null}");
}

#[test]
fn user_diff_unchanged_is_empty() {
    let form = UserForm {
        full_name: Some("Jane Doe".to_string()),
        role: Some("admin".to_string()),
        enabled: Some(true),
    };
    let patch = jdoe().changed_fields(&form);
    assert!(patch.is_empty());
    assert_eq!(patch.to_json(), "{}");
}

#[test]
fn user_diff_applied_is_empty() {
    let form = UserForm {
        full_name: Some("J. \"Doe\"".to_string()),
        role: Some("ops".to_string()),
        enabled: Some(false),
    };
    let patch = jdoe().changed_fields(&form);
    assert_eq!(
        patch.to_json(),
        "{\"full_name\":\"J. \\\"Doe\\\"\",\"role\":\"ops\",\"enabled\":false}"
    );
    let patched = User {
        name: "jdoe".to_string(),
        full_name: "J. \"Doe\"".to_string(),
        role: Some("ops".to_string()),
        enabled: false,
    };
    assert!(patched.changed_fields(&form).is_empty());
}

#[test]
fn role_diff() {
    let r = role("admin", true);
    assert!(r.changed_fields(&RoleForm { enabled: Some(true) }).is_empty());
    assert!(r.changed_fields(&RoleForm { enabled: None }).is_empty());
    let p = r.changed_fields(&RoleForm { enabled: Some(false) });
    assert_eq!(p.to_json(), "{\"enabled\":false}");
}

#[test]
fn ramp_meter_diff() {
    let m = meter();
    let form = RampMeterForm { controller: Some("ctl_1".to_string()), pin: None };
    assert_eq!(m.changed_fields(&form).to_json(), "{\"controller\":\"ctl_1\",\"pin\":null}");
    let same = RampMeterForm { controller: None, pin: Some(7) };
    assert!(m.changed_fields(&same).is_empty());
}

#[test]
fn create_role_scenario() {
    assert_eq!(create_value(&Some(String::new())), Err(Error::NameMissing));
    assert_eq!(create_value(&None), Err(Error::NameMissing));
    assert_eq!(create_value(&Some("ops".to_string())), Ok("{\"name\":\"ops\"}".to_string()));
}

#[test]
fn gate_arm_search_scenario() {
    let ga = gate();
    let mut anc = GateArmArrayAnc::default();
    assert_eq!(anc.uri(CardType::Search, &ga), Some("/iris/gate_arm_state".to_string()));
    let states = vec![
        GateArmState { id: 1, description: "closed".to_string() },
        GateArmState { id: 2, description: "opening".to_string() },
    ];
    anc.set_states(CardType::Search, &ga, states);
    assert_eq!(anc.uri(CardType::Search, &ga), None);
    assert_eq!(anc.uri(CardType::Compact, &ga), None);
    assert_eq!(anc.state(&ga), "opening");
    assert!(search_match(&ga, "open hov", &anc));
    assert!(!search_match(&ga, "closed", &anc));
}

#[test]
fn gate_arm_states_ignored_outside_search() {
    let ga = gate();
    let mut anc = GateArmArrayAnc::default();
    assert_eq!(anc.uri(CardType::Compact, &ga), None);
    anc.set_states(CardType::Compact, &ga, vec![GateArmState { id: 2, description: "open".to_string() }]);
    assert!(anc.states.is_none());
    assert_eq!(anc.state(&ga), "");
}

#[test]
fn user_roles_fetched_once() {
    let u = jdoe();
    let mut anc = UserAnc::default();
    assert_eq!(anc.uri(CardType::Edit, &u), Some("/iris/api/role".to_string()));
    assert_eq!(anc.uri(CardType::Compact, &u), None);
    anc.set_roles(CardType::Edit, &u, vec![role("admin", true), role("ops", true)]);
    assert_eq!(anc.uri(CardType::Edit, &u), None);
    assert_eq!(
        anc.roles_html(&u),
        "<select id='edit_role'><option></option>\
         <option selected>admin</option><option>ops</option></select>"
    );
}

#[test]
fn ramp_meter_views() {
    let m = meter();
    assert_eq!(
        build_card(&m, "RM1", CardType::Compact, &RampMeterAnc),
        "<span class='disabled'>Hwy 100 &amp; 50</span><span class='ob_name'>RM1</span>"
    );
    assert_eq!(
        build_card(&m, "RM1", CardType::Status, &RampMeterAnc),
        "<div class='row'><div class='title'>🚦 Ramp Meter</div>\
         <span class='ob_name'>RM1 <button id='ob_close' type='button'>X</button></span></div>\
         <div class='row'><span class='info'>Hwy 100 &amp; 50th St</span></div>\
         <div class='row'><span></span>\
         <button id='ob_loc' name='G1' type='button'>🗺️ Location</button>\
         <button id='ob_edit' type='button'>📝 Edit</button></div>"
    );
    assert_eq!(
        m.to_html_edit(),
        "<div class='row'><label for='controller'>Controller</label>\
         <input id='controller' maxlength='20' size='20' value=''/></div>\
         <div class='row'><label for='pin'>Pin</label>\
         <input id='pin' type='number' min='1' max='104' size='8' value='7'/></div>"
    );
}

#[test]
fn role_cards() {
    let r = role("admin", true);
    assert_eq!(
        build_card(&r, "admin", CardType::Status, &RoleAnc),
        "<div class='row'><div class='title'>💪 Role</div>\
         <span class='ob_name'>admin <button id='ob_close' type='button'>X</button></span></div>\
         <div class='row'><label for='edit_enabled'>Enabled</label>\
         <input id='edit_enabled' type='checkbox' checked/></div>\
         <div class='row'><span></span>\
         <button id='ob_delete' type='button'>🗑️ Delete</button>\
         <button id='ob_save' type='button'>🖍️ Save</button></div>"
    );
    assert_eq!(
        build_card(&Role::default().with_name("new"), "new", CardType::Create, &RoleAnc),
        "<div class='row'><div class='title'>💪 Role</div>\
         <span class='ob_name'>🆕 <button id='ob_close' type='button'>X</button></span></div>\
         <div class='row'><label for='create_name'>Name</label>\
         <input id='create_name' maxlength='24' size='24' value='new'/></div>\
         <div class='row'><span></span>\
         <button id='ob_save' type='button'>🖍️ Save</button></div>"
    );
    assert_eq!(
        build_card(&r, "admin", CardType::CreateCompact, &RoleAnc),
        "<span class='create'>Create 🆕</span>"
    );
}

#[test]
fn user_compact_disabled_without_role() {
    let mut u = jdoe();
    assert_eq!(u.to_html_compact(), "<span>jdoe</span>");
    u.role = None;
    assert_eq!(u.to_html_compact(), "<span class='disabled'>jdoe</span>");
}

#[test]
fn list_row_ids_escape_names() {
    let meters = vec![RampMeter { name: "RM<1>".to_string(), ..meter() }];
    let html = res_build_list(&meters, "hwy", &RampMeterAnc);
    assert_eq!(
        html,
        "<ul class='cards'>\
         <li id='ramp_meter_' name='' class='card'><span class='create'>Create 🆕</span></li>\
         <li id='ramp_meter_RM&lt;1&gt;' name='RM&lt;1&gt;' class='card'>\
         <span class='disabled'>Hwy 100 &amp; 50</span><span class='ob_name'>RM&lt;1&gt;</span></li>\
         </ul>"
    );
    let none = res_build_list(&meters, "zzz", &RampMeterAnc);
    assert_eq!(
        none,
        "<ul class='cards'>\
         <li id='ramp_meter_' name='' class='card'><span class='create'>Create 🆕</span></li>\
         </ul>"
    );
}

#[test]
fn ramp_meter_pin_patch() {
    let m = meter();
    let form = RampMeterForm { controller: None, pin: Some(104) };
    assert_eq!(m.changed_fields(&form).to_json(), "{\"pin\":104}");
}

#[test]
fn gate_arm_edit_has_no_fields() {
    let ga = gate();
    assert!(ga.changed_fields().is_empty());
    assert_eq!(
        build_card(&ga, "GA1", CardType::Edit, &GateArmArrayAnc::default()),
        "<div class='row'><div class='title'>⛩️ Gate Arm Array</div>\
         <span class='ob_name'>GA1 <button id='ob_close' type='button'>X</button></span></div>\
         <div class='row'><span></span>\
         <button id='ob_delete' type='button'>🗑️ Delete</button>\
         <button id='ob_save' type='button'>🖍️ Save</button></div>"
    );
}
