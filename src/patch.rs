//! Change sets sent back to the server after an edit, and their JSON text.
use crate::text::{decimal, decimal_str};
use vstd::prelude::*;

verus! {

/// A field value in a change set
#[derive(Clone, Debug)]
pub enum PatchVal {
    /// A cleared optional field
    Null,
    Bool(bool),
    Num(u32),
    Str(String),
}

/// Model of a field value
pub enum Val {
    Null,
    Bool(bool),
    Num(nat),
    Str(Seq<char>),
}

impl View for PatchVal {
    type V = Val;

    open spec fn view(&self) -> Val {
        match self {
            PatchVal::Null => Val::Null,
            PatchVal::Bool(b) => Val::Bool(*b),
            PatchVal::Num(n) => Val::Num(*n as nat),
            PatchVal::Str(s) => Val::Str(s@),
        }
    }
}

/// Model of an optional text field value: `None` is a cleared field
pub open spec fn opt_val(v: Option<Seq<char>>) -> Val {
    match v {
        Some(s) => Val::Str(s),
        None => Val::Null,
    }
}

/// Model of an optional number field value: `None` is a cleared field
pub open spec fn opt_num(v: Option<u32>) -> Val {
    match v {
        Some(n) => Val::Num(n as nat),
        None => Val::Null,
    }
}

impl PatchVal {
    /// Value of an optional text field
    pub fn from_opt_str(v: &Option<String>) -> (r: PatchVal)
        ensures
            r@ == opt_val(match v {
                Some(s) => Some(s@),
                None => None,
            }),
    {
        match v {
            Some(s) => PatchVal::Str(s.clone()),
            None => PatchVal::Null,
        }
    }

    /// Value of an optional number field
    pub fn from_opt_num(v: Option<u32>) -> (r: PatchVal)
        ensures
            r@ == opt_num(v),
    {
        match v {
            Some(n) => PatchVal::Num(n),
            None => PatchVal::Null,
        }
    }
}

/// A change set: the changed field names with their new values, in order
#[derive(Clone, Debug)]
pub struct Patch {
    pub fields: Vec<(String, PatchVal)>,
}

/// Model of one change set entry
pub open spec fn entry_view(e: (String, PatchVal)) -> (Seq<char>, Val) {
    (e.0@, e.1@)
}

impl View for Patch {
    type V = Seq<(Seq<char>, Val)>;

    open spec fn view(&self) -> Seq<(Seq<char>, Val)> {
        self.fields@.map_values(|e: (String, PatchVal)| entry_view(e))
    }
}

/// The value that a change set gives to a field, if any (the last entry
/// for that field wins)
pub open spec fn lookup(p: Seq<(Seq<char>, Val)>, key: Seq<char>) -> Option<Val>
    decreases p.len(),
{
    if p.len() == 0 {
        None
    } else if p.last().0 == key {
        Some(p.last().1)
    } else {
        lookup(p.drop_last(), key)
    }
}

/// The JSON string literal for a text
pub uninterp spec fn json_quoted(s: Seq<char>) -> Seq<char>;

/// Relies on the display of `serde_json::Value::String`: it writes the JSON
/// string literal for the text, quoted and escaped, and depends on the text
/// alone.
#[verifier::external_body]
pub(crate) fn json_quote(s: &str) -> (r: String)
    ensures
        r@ == json_quoted(s@),
{
    serde_json::Value::String(s.to_string()).to_string()
}

/// JSON text of a field value
pub open spec fn val_json(v: Val) -> Seq<char> {
    match v {
        Val::Null => "null"@,
        Val::Bool(b) => if b {
            "true"@
        } else {
            "false"@
        },
        Val::Num(n) => decimal(n),
        Val::Str(s) => json_quoted(s),
    }
}

/// JSON text of one member of an object
pub open spec fn member_json(e: (Seq<char>, Val)) -> Seq<char> {
    json_quoted(e.0) + ":"@ + val_json(e.1)
}

/// JSON text of the members of an object, separated by commas
pub open spec fn members_json(p: Seq<(Seq<char>, Val)>) -> Seq<char>
    decreases p.len(),
{
    if p.len() == 0 {
        Seq::empty()
    } else if p.len() == 1 {
        member_json(p[0])
    } else {
        members_json(p.drop_last()) + ","@ + member_json(p.last())
    }
}

/// JSON object text of a change set
pub open spec fn patch_json(p: Seq<(Seq<char>, Val)>) -> Seq<char> {
    "{"@ + members_json(p) + "}"@
}

/// Write a field value as JSON
pub fn val_to_json(v: &PatchVal) -> (r: String)
    ensures
        r@ == val_json(v@),
{
    match v {
        PatchVal::Null => String::from_str("null"),
        PatchVal::Bool(b) => if *b {
            String::from_str("true")
        } else {
            String::from_str("false")
        },
        PatchVal::Num(n) => decimal_str(*n),
        PatchVal::Str(s) => json_quote(s.as_str()),
    }
}

impl Patch {
    /// An empty change set
    pub fn new() -> (r: Patch)
        ensures
            r@ == Seq::<(Seq<char>, Val)>::empty(),
    {
        let r = Patch { fields: Vec::new() };
        assert(r@ =~= Seq::<(Seq<char>, Val)>::empty());
        r
    }

    /// Add a changed field
    pub fn insert(&mut self, key: &str, v: PatchVal)
        ensures
            final(self)@ == old(self)@.push((key@, v@)),
    {
        let ghost before = self@;
        self.fields.push((String::from_str(key), v));
        assert(self@ =~= before.push((key@, v@)));
    }

    /// Number of changed fields
    pub fn len(&self) -> (r: usize)
        ensures
            r == self@.len(),
    {
        self.fields.len()
    }

    /// Does the change set hold no field?
    pub fn is_empty(&self) -> (r: bool)
        ensures
            r == (self@.len() == 0),
    {
        self.fields.len() == 0
    }

    /// JSON object text of the change set
    pub fn to_json(&self) -> (r: String)
        ensures
            r@ == patch_json(self@),
    {
        let mut out = String::from_str("{");
        let n = self.fields.len();
        let mut i: usize = 0;
        while i < n
            invariant
                n == self.fields@.len(),
                i <= n,
                out@ == "{"@ + members_json(self@.take(i as int)),
            decreases n - i,
        {
            let ghost taken = self@.take(i as int);
            let e = &self.fields[i];
            if i > 0 {
                out.append(",");
            }
            let key = json_quote(e.0.as_str());
            out.append(key.as_str());
            out.append(":");
            let val = val_to_json(&e.1);
            out.append(val.as_str());
            proof {
                let next = self@.take(i + 1);
                assert(next.drop_last() =~= taken);
                assert(next.last() == entry_view(self.fields@[i as int]));
                if i == 0 {
                    assert(members_json(taken) =~= Seq::<char>::empty());
                    assert(out@ =~= "{"@ + members_json(next));
                } else {
                    assert(out@ =~= "{"@ + members_json(next));
                }
            }
            i += 1;
        }
        assert(self@.take(n as int) =~= self@);
        out.append("}");
        out
    }
}

/// Looking up a key in a joined change set: the later part wins
pub proof fn lemma_lookup_concat(p: Seq<(Seq<char>, Val)>, q: Seq<(Seq<char>, Val)>, key: Seq<char>)
    ensures
        lookup(p + q, key) == match lookup(q, key) {
            Some(v) => Some(v),
            None => lookup(p, key),
        },
    decreases q.len(),
{
    if q.len() == 0 {
        assert(p + q =~= p);
    } else {
        assert((p + q).drop_last() =~= p + q.drop_last());
        assert((p + q).last() == q.last());
        lemma_lookup_concat(p, q.drop_last(), key);
    }
}

/// Looking up a key in a change set of at most one entry
pub proof fn lemma_lookup_single(p: Seq<(Seq<char>, Val)>, key: Seq<char>)
    requires
        p.len() <= 1,
    ensures
        lookup(p, key) == if p.len() == 1 && p[0].0 == key {
            Some(p[0].1)
        } else {
            None
        },
{
    if p.len() == 1 {
        assert(p.drop_last().len() == 0);
        assert(p.last() == p[0]);
        assert(lookup(p.drop_last(), key) is None);
    }
}

} // verus!
