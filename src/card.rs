//! The card capability shared by all resource types, the list and card
//! chrome around it, and search filtering.
use crate::patch::{patch_json, Patch, PatchVal, Val};
use crate::resource::{Error, Resource};
use crate::text::{
    escape_html, html_escape, lemma_split_join, lower_of, lowercase,
    opt_text, opt_view, split_spaces,
};
use crate::view::CardType;
use vstd::prelude::*;

verus! {

/// CSS class for titles
pub const TITLE: &'static str = "title";

/// CSS class for names
pub const NAME: &'static str = "ob_name";

/// Compact "Create" card
pub const CREATE_COMPACT: &'static str = "<span class='create'>Create 🆕</span>";

/// Edit button of a status card
pub const EDIT_BUTTON: &'static str = "<button id='ob_edit' type='button'>📝 Edit</button>";

/// Location button of a status card
pub const LOC_BUTTON: &'static str = "<button id='ob_loc' type='button'>🗺️ Location</button>";

/// Attribute text for a card that is enabled or not
pub open spec fn spec_disabled_attr(enabled: bool) -> Seq<char> {
    if enabled {
        ""@
    } else {
        " class='disabled'"@
    }
}

/// Get attribute for disabled cards
pub fn disabled_attr(enabled: bool) -> (r: &'static str)
    ensures
        r@ == spec_disabled_attr(enabled),
{
    if enabled {
        ""
    } else {
        " class='disabled'"
    }
}

/// A record of a resource type that can be shown as a card
pub trait Card: Sized {
    /// Secondary data needed by some views
    type Ancillary;

    /// Resource type of the records
    spec fn spec_resource() -> Resource;

    /// Name of the record, as written in element ids
    spec fn spec_name(&self) -> Seq<char>;

    /// Does one search token match the record?
    spec fn spec_is_match(&self, token: Seq<char>, anc: &Self::Ancillary) -> bool;

    /// Suggested name for a new record, from the listed ones
    spec fn spec_next_name(obs: Seq<Self>) -> Seq<char>;

    /// Location of the record on the map, if any
    spec fn spec_geo_loc(&self) -> Option<Seq<char>>;

    /// HTML of the record in a view
    spec fn spec_html(&self, view: CardType, anc: &Self::Ancillary) -> Seq<char>;

    /// Resource type of the records
    fn resource() -> (r: Resource)
        ensures
            r == Self::spec_resource(),
    ;

    /// Name of the record, as written in element ids
    fn name_html(&self) -> (r: String)
        ensures
            r@ == self.spec_name(),
    ;

    /// Get next suggested name; empty where the user must supply one
    fn next_name(obs: &Vec<Self>) -> (r: String)
        ensures
            r@ == Self::spec_next_name(obs@),
    ;

    /// Get geo location of the record
    fn geo_loc(&self) -> (r: Option<&str>)
        ensures
            r matches Some(g) ==> self.spec_geo_loc() == Some(g@),
            r is None ==> self.spec_geo_loc() is None,
    ;

    /// Check if a search token matches
    fn is_match(&self, token: &str, anc: &Self::Ancillary) -> (r: bool)
        ensures
            r == self.spec_is_match(token@, anc),
    ;

    /// Convert to HTML view
    fn to_html(&self, view: CardType, anc: &Self::Ancillary) -> (r: String)
        ensures
            r@ == self.spec_html(view, anc),
    ;
}

/// Does a whole search text match a record? The empty text matches every
/// record; otherwise each space-separated token must match.
pub open spec fn search_matches<C: Card>(c: &C, search: Seq<char>, anc: &C::Ancillary) -> bool {
    search.len() == 0 || forall|k: int|
        0 <= k < split_spaces(search).len() ==> c.spec_is_match(#[trigger] split_spaces(search)[k], anc)
}

/// Check whether a search text matches a record, token by token
pub fn search_match<C: Card>(c: &C, search: &str, anc: &C::Ancillary) -> (r: bool)
    ensures
        r == search_matches(c, search@, anc),
{
    let n = search.unicode_len();
    if n == 0 {
        return true;
    }
    let mut ok = true;
    let mut start: usize = 0;
    let mut i: usize = 0;
    proof {
        assert(search@.take(0) =~= Seq::<char>::empty());
        assert(split_spaces(search@.take(0)) =~= seq![Seq::<char>::empty()]);
        assert(search@.subrange(0, 0) =~= Seq::<char>::empty());
    }
    while i < n
        invariant
            n == search@.len(),
            start <= i <= n,
            split_spaces(search@.take(i as int)).len() >= 1,
            split_spaces(search@.take(i as int)).last() == search@.subrange(start as int, i as int),
            ok == (forall|k: int|
                0 <= k < split_spaces(search@.take(i as int)).len() - 1 ==> c.spec_is_match(
                    #[trigger] split_spaces(search@.take(i as int))[k],
                    anc,
                )),
        decreases n - i,
    {
        let ghost old_split = split_spaces(search@.take(i as int));
        let ghost next = search@.take(i + 1);
        proof {
            assert(next.drop_last() =~= search@.take(i as int));
            assert(next.last() == search@[i as int]);
        }
        if search.get_char(i) == ' ' {
            let tok = search.substring_char(start, i);
            let m = c.is_match(tok, anc);
            proof {
                let new_split = split_spaces(next);
                assert(new_split == old_split.push(Seq::empty()));
                assert(search@.subrange(i + 1, i + 1) =~= Seq::<char>::empty());
                assert((ok && m) == (forall|k: int|
                    0 <= k < new_split.len() - 1 ==> c.spec_is_match(#[trigger] new_split[k], anc))) by {
                    if ok && m {
                        assert forall|k: int| 0 <= k < new_split.len() - 1 implies c.spec_is_match(
                            #[trigger] new_split[k],
                            anc,
                        ) by {
                            if k < old_split.len() - 1 {
                                assert(new_split[k] == old_split[k]);
                            } else {
                                assert(new_split[k] == old_split.last());
                            }
                        }
                    }
                    if !ok {
                        let k = choose|k: int|
                            0 <= k < old_split.len() - 1 && !c.spec_is_match(#[trigger] old_split[k], anc);
                        assert(new_split[k] == old_split[k]);
                    }
                    if !m {
                        assert(new_split[old_split.len() - 1] == old_split.last());
                    }
                }
            }
            ok = ok && m;
            start = i + 1;
        } else {
            proof {
                let new_split = split_spaces(next);
                assert(new_split == old_split.update(
                    old_split.len() - 1,
                    old_split.last().push(search@[i as int]),
                ));
                assert(search@.subrange(start as int, i + 1) =~= search@.subrange(
                    start as int,
                    i as int,
                ).push(search@[i as int]));
                assert forall|k: int| 0 <= k < new_split.len() - 1 implies new_split[k]
                    == old_split[k] by {}
            }
        }
        i += 1;
    }
    let tok = search.substring_char(start, n);
    let m = c.is_match(tok, anc);
    proof {
        let s = split_spaces(search@);
        assert(search@.take(n as int) =~= search@);
        if ok && m {
            assert forall|k: int| 0 <= k < s.len() implies c.spec_is_match(
                #[trigger] s[k],
                anc,
            ) by {
                if k < s.len() - 1 {
                } else {
                    assert(s[k] == s.last());
                }
            }
        }
        if !m {
            assert(s[s.len() - 1] == s.last());
        }
    }
    ok && m
}

/// List row of one record
pub open spec fn row_html<C: Card>(c: &C, anc: &C::Ancillary) -> Seq<char> {
    "<li id='"@ + C::spec_resource().spec_tname() + "_"@ + c.spec_name() + "' name='"@
        + c.spec_name() + "' class='card'>"@ + c.spec_html(CardType::Compact, anc) + "</li>"@
}

/// Rows of the records that match a search text, in their order
pub open spec fn rows_html<C: Card>(obs: Seq<C>, search: Seq<char>, anc: &C::Ancillary) -> Seq<
    char,
>
    decreases obs.len(),
{
    if obs.len() == 0 {
        Seq::empty()
    } else {
        rows_html(obs.drop_last(), search, anc) + if search_matches(&obs.last(), search, anc) {
            row_html(&obs.last(), anc)
        } else {
            Seq::empty()
        }
    }
}

/// The "Create" row of a list, with the suggested name
pub open spec fn create_row(r: Resource, next_name: Seq<char>) -> Seq<char> {
    "<li id='"@ + r.spec_tname() + "_' name='"@ + next_name + "' class='card'>"@ + CREATE_COMPACT@
        + "</li>"@
}

/// A whole card list: the create row, then the matching rows
pub open spec fn list_html<C: Card>(obs: Seq<C>, search: Seq<char>, anc: &C::Ancillary) -> Seq<
    char,
> {
    "<ul class='cards'>"@ + create_row(C::spec_resource(), C::spec_next_name(obs)) + rows_html(
        obs,
        search,
        anc,
    )
        + "</ul>"@
}

/// Build a card list from records, filtered by a lowercase search text
pub fn build_list<C: Card>(obs: &Vec<C>, search: &str, anc: &C::Ancillary) -> (r: String)
    ensures
        r@ == list_html(obs@, search@, anc),
{
    let res = C::resource();
    let tname = res.tname();
    let mut html = String::from_str("<ul class='cards'>");
    html.append("<li id='");
    html.append(tname);
    html.append("_' name='");
    let next_name = C::next_name(obs);
    html.append(next_name.as_str());
    html.append("' class='card'>");
    html.append(CREATE_COMPACT);
    html.append("</li>");
    let ghost head = html@;
    assert(head =~= "<ul class='cards'>"@ + create_row(res, C::spec_next_name(obs@)));
    let n = obs.len();
    let mut i: usize = 0;
    while i < n
        invariant
            n == obs@.len(),
            i <= n,
            tname@ == C::spec_resource().spec_tname(),
            html@ == head + rows_html(obs@.take(i as int), search@, anc),
        decreases n - i,
    {
        let ob = &obs[i];
        let ghost before = html@;
        if search_match(ob, search, anc) {
            let name = ob.name_html();
            html.append("<li id='");
            html.append(tname);
            html.append("_");
            html.append(name.as_str());
            html.append("' name='");
            html.append(name.as_str());
            html.append("' class='card'>");
            let compact = ob.to_html(CardType::Compact, anc);
            html.append(compact.as_str());
            html.append("</li>");
            assert(html@ =~= before + row_html(ob, anc));
        }
        proof {
            let next = obs@.take(i + 1);
            assert(next.drop_last() =~= obs@.take(i as int));
            assert(next.last() == *ob);
            assert(html@ =~= head + rows_html(next, search@, anc));
        }
        i += 1;
    }
    assert(obs@.take(n as int) =~= obs@);
    html.append("</ul>");
    html
}

/// Title bar of a card
pub open spec fn title_html(ename: Seq<char>, name: Seq<char>) -> Seq<char> {
    "<div class='row'><div class='"@ + TITLE@ + "'>"@ + ename + "</div><span class='"@ + NAME@
        + "'>"@ + name + " <button id='ob_close' type='button'>X</button></span></div>"@
}

/// Write the title bar of a card
fn title_bar(ename: &str, name: &str) -> (r: String)
    ensures
        r@ == title_html(ename@, name@),
{
    let mut r = String::from_str("<div class='row'><div class='");
    r.append(TITLE);
    r.append("'>");
    r.append(ename);
    r.append("</div><span class='");
    r.append(NAME);
    r.append("'>");
    r.append(name);
    r.append(" <button id='ob_close' type='button'>X</button></span></div>");
    r
}

/// Save row of a create card
pub const CREATE_TAIL: &'static str = "<div class='row'><span></span><button id='ob_save' type='button'>🖍️ Save</button></div>";

/// Delete and save row of an edit card
pub const EDIT_TAIL: &'static str = "<div class='row'><span></span><button id='ob_delete' type='button'>🗑️ Delete</button><button id='ob_save' type='button'>🖍️ Save</button></div>";

pub open spec fn spec_html_card_create(ename: Seq<char>, create: Seq<char>) -> Seq<char> {
    title_html(ename, "🆕"@) + create + CREATE_TAIL@
}

/// Build a create card
pub fn html_card_create(ename: &str, create: &str) -> (r: String)
    ensures
        r@ == spec_html_card_create(ename@, create@),
{
    let mut r = title_bar(ename, "🆕");
    r.append(create);
    r.append(CREATE_TAIL);
    r
}

/// Location button of a status card, for an optional location
pub open spec fn geo_loc_button(geo_loc: Option<Seq<char>>) -> Seq<char> {
    match geo_loc {
        Some(g) => "<button id='ob_loc' name='"@ + g + "' type='button'>🗺️ Location</button>"@,
        None => ""@,
    }
}

pub open spec fn spec_html_card_status(
    ename: Seq<char>,
    name: Seq<char>,
    status: Seq<char>,
    geo_loc: Option<Seq<char>>,
) -> Seq<char> {
    title_html(ename, escape_html(name)) + status + "<div class='row'><span></span>"@
        + geo_loc_button(geo_loc) + EDIT_BUTTON@ + "</div>"@
}

/// Build a status card
pub fn html_card_status(ename: &str, name: &str, status: &str, geo_loc: Option<&str>) -> (r:
    String)
    ensures
        r@ == spec_html_card_status(
            ename@,
            name@,
            status@,
            match geo_loc {
                Some(g) => Some(g@),
                None => None,
            },
        ),
{
    let escaped = html_escape(name);
    let mut r = title_bar(ename, escaped.as_str());
    r.append(status);
    r.append("<div class='row'><span></span>");
    match geo_loc {
        Some(g) => {
            r.append("<button id='ob_loc' name='");
            r.append(g);
            r.append("' type='button'>🗺️ Location</button>");
        },
        None => {
            r.append("");
        },
    }
    r.append(EDIT_BUTTON);
    r.append("</div>");
    r
}

pub open spec fn spec_html_card_edit(ename: Seq<char>, name: Seq<char>, edit: Seq<char>) -> Seq<
    char,
> {
    title_html(ename, escape_html(name)) + edit + EDIT_TAIL@
}

/// Build an edit card
pub fn html_card_edit(ename: &str, name: &str, edit: &str) -> (r: String)
    ensures
        r@ == spec_html_card_edit(ename@, name@, edit@),
{
    let escaped = html_escape(name);
    let mut r = title_bar(ename, escaped.as_str());
    r.append(edit);
    r.append(EDIT_TAIL);
    r
}

} // verus!

verus! {

/// Input row of a create card with only a name
pub open spec fn spec_html_create(name: Seq<char>) -> Seq<char> {
    "<div class='row'><label for='create_name'>Name</label><input id='create_name' maxlength='24' size='24' value='"@
        + escape_html(name) + "'/></div>"@
}

/// Get row for create card
pub fn html_create(name: &str) -> (r: String)
    ensures
        r@ == spec_html_create(name@),
{
    let mut r = String::from_str(
        "<div class='row'><label for='create_name'>Name</label><input id='create_name' maxlength='24' size='24' value='",
    );
    let escaped = html_escape(name);
    r.append(escaped.as_str());
    r.append("'/></div>");
    r
}

/// Checkbox attribute text
pub open spec fn spec_checked(on: bool) -> Seq<char> {
    if on {
        " checked"@
    } else {
        ""@
    }
}

/// Get checkbox attribute
pub fn checked_attr(on: bool) -> (r: &'static str)
    ensures
        r@ == spec_checked(on),
{
    if on {
        " checked"
    } else {
        ""
    }
}

/// Row with the "enabled" checkbox of an edit card
pub open spec fn spec_enabled_row(enabled: bool) -> Seq<char> {
    "<div class='row'><label for='edit_enabled'>Enabled</label><input id='edit_enabled' type='checkbox'"@
        + spec_checked(enabled) + "/></div>"@
}

/// Write the row with the "enabled" checkbox of an edit card
pub fn enabled_row(enabled: bool) -> (r: String)
    ensures
        r@ == spec_enabled_row(enabled),
{
    let mut r = String::from_str(
        "<div class='row'><label for='edit_enabled'>Enabled</label><input id='edit_enabled' type='checkbox'",
    );
    r.append(checked_attr(enabled));
    r.append("/></div>");
    r
}

/// Build a card list from records, filtered by a search text in any case
pub fn res_build_list<C: Card>(obs: &Vec<C>, search: &str, anc: &C::Ancillary) -> (r: String)
    ensures
        r@ == list_html(obs@, lower_of(search@), anc),
{
    let lower = lowercase(search);
    build_list(obs, lower.as_str(), anc)
}

/// A card of a record in a view, with its chrome
pub open spec fn card_html<C: Card>(
    rec: &C,
    name: Seq<char>,
    view: CardType,
    anc: &C::Ancillary,
) -> Seq<char> {
    let res = C::spec_resource();
    match view {
        CardType::CreateCompact => CREATE_COMPACT@,
        CardType::Create => spec_html_card_create(
            res.spec_ename(),
            rec.spec_html(CardType::Create, anc),
        ),
        CardType::Compact | CardType::Search => rec.spec_html(CardType::Compact, anc),
        CardType::Status => if res.spec_has_status() {
            spec_html_card_status(
                res.spec_ename(),
                name,
                rec.spec_html(CardType::Status, anc),
                rec.spec_geo_loc(),
            )
        } else {
            spec_html_card_edit(res.spec_ename(), name, rec.spec_html(CardType::Edit, anc))
        },
        CardType::Edit => spec_html_card_edit(
            res.spec_ename(),
            name,
            rec.spec_html(CardType::Edit, anc),
        ),
    }
}

/// Build a card of a record in a view; for create views the record holds
/// the suggested name
pub fn build_card<C: Card>(rec: &C, name: &str, view: CardType, anc: &C::Ancillary) -> (r:
    String)
    ensures
        r@ == card_html(rec, name@, view, anc),
{
    let res = C::resource();
    match view {
        CardType::CreateCompact => String::from_str(CREATE_COMPACT),
        CardType::Create => {
            let create = rec.to_html(CardType::Create, anc);
            html_card_create(res.ename(), create.as_str())
        },
        CardType::Compact | CardType::Search => rec.to_html(CardType::Compact, anc),
        CardType::Status if res.has_status() => {
            let status = rec.to_html(CardType::Status, anc);
            html_card_status(res.ename(), name, status.as_str(), rec.geo_loc())
        },
        _ => {
            let edit = rec.to_html(CardType::Edit, anc);
            html_card_edit(res.ename(), name, edit.as_str())
        },
    }
}

/// JSON text of a create request for a name
pub open spec fn create_json(name: Seq<char>) -> Seq<char> {
    patch_json(seq![("name"@, Val::Str(name))])
}

/// Get value to create a new object, from the name input of the create
/// form (`None` where the input is absent)
pub fn create_value(name: &Option<String>) -> (r: Result<String, Error>)
    ensures
        r is Ok <==> opt_text(opt_view(*name)).len() > 0,
        r matches Ok(s) ==> s@ == create_json(opt_text(opt_view(*name))),
        r matches Err(e) ==> e == Error::NameMissing,
{
    if let Some(n) = name {
        if n.as_str().unicode_len() > 0 {
            let mut obj = Patch::new();
            obj.insert("name", PatchVal::Str(n.clone()));
            assert(obj@ =~= seq![("name"@, Val::Str(n@))]);
            return Ok(obj.to_json());
        }
    }
    Err(Error::NameMissing)
}

/// The empty search text matches every record, and a search text of two
/// parts joined by a space matches exactly when both parts match.
pub proof fn lemma_search_tokens<C: Card>(
    c: &C,
    a: Seq<char>,
    b: Seq<char>,
    anc: &C::Ancillary,
)
    requires
        a.len() > 0,
        b.len() > 0,
    ensures
        search_matches(c, Seq::empty(), anc),
        search_matches(c, a + seq![' '] + b, anc) <==> (search_matches(c, a, anc)
            && search_matches(c, b, anc)),
{
    lemma_split_join(a, b);
    let sa = split_spaces(a);
    let sb = split_spaces(b);
    let s = split_spaces(a + seq![' '] + b);
    assert((a + seq![' '] + b).len() > 0);
    if search_matches(c, a, anc) && search_matches(c, b, anc) {
        assert forall|k: int| 0 <= k < s.len() implies c.spec_is_match(
            #[trigger] s[k],
            anc,
        ) by {
            if k < sa.len() {
                assert(s[k] == sa[k]);
            } else {
                assert(s[k] == sb[k - sa.len()]);
            }
        }
    }
    if search_matches(c, a + seq![' '] + b, anc) {
        assert forall|k: int| 0 <= k < sa.len() implies c.spec_is_match(
            #[trigger] sa[k],
            anc,
        ) by {
            assert(s[k] == sa[k]);
        }
        assert forall|k: int| 0 <= k < sb.len() implies c.spec_is_match(
            #[trigger] sb[k],
            anc,
        ) by {
            assert(s[k + sa.len()] == sb[k]);
        }
    }
}

} // verus!
