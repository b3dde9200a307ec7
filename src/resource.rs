//! The registry of resource types: names, labels and REST paths.
use vstd::prelude::*;

verus! {

/// A resource type known to the console
#[derive(Clone, Copy, Debug, PartialEq, Eq, Structural)]
pub enum Resource {
    GateArmArray,
    RampMeter,
    Role,
    User,
}

/// Failures of card operations
#[derive(Clone, Copy, Debug, PartialEq, Eq, Structural)]
pub enum Error {
    /// The create form has a blank or absent name
    NameMissing,
    /// A record or ancillary payload does not have the expected shape
    DataFormat,
    /// The network or the backend failed
    TransportFailure,
    /// The resource type key is not registered
    UnknownResourceType,
}

impl Resource {
    /// Type key, used in element ids
    pub open spec fn spec_tname(self) -> Seq<char> {
        match self {
            Resource::GateArmArray => "gate_arm_array"@,
            Resource::RampMeter => "ramp_meter"@,
            Resource::Role => "role"@,
            Resource::User => "user"@,
        }
    }

    /// Display label
    pub open spec fn spec_ename(self) -> Seq<char> {
        match self {
            Resource::GateArmArray => "⛩️ Gate Arm Array"@,
            Resource::RampMeter => "🚦 Ramp Meter"@,
            Resource::Role => "💪 Role"@,
            Resource::User => "👤 User"@,
        }
    }

    /// Does the type have a status card?
    pub open spec fn spec_has_status(self) -> bool {
        self == Resource::GateArmArray || self == Resource::RampMeter
    }

    /// Type key, used in element ids
    pub fn tname(self) -> (r: &'static str)
        ensures
            r@ == self.spec_tname(),
    {
        match self {
            Resource::GateArmArray => "gate_arm_array",
            Resource::RampMeter => "ramp_meter",
            Resource::Role => "role",
            Resource::User => "user",
        }
    }

    /// REST path segment; the same as the type key
    pub fn uname(self) -> (r: &'static str)
        ensures
            r@ == self.spec_tname(),
    {
        self.tname()
    }

    /// Display label
    pub fn ename(self) -> (r: &'static str)
        ensures
            r@ == self.spec_ename(),
    {
        match self {
            Resource::GateArmArray => "⛩️ Gate Arm Array",
            Resource::RampMeter => "🚦 Ramp Meter",
            Resource::Role => "💪 Role",
            Resource::User => "👤 User",
        }
    }

    /// Does the type have a status card?
    pub fn has_status(self) -> (r: bool)
        ensures
            r == self.spec_has_status(),
    {
        matches!(self, Resource::GateArmArray | Resource::RampMeter)
    }

    /// Look up a resource type by its key
    pub fn from_name(res: &str) -> (r: Result<Resource, Error>)
        ensures
            r matches Ok(t) ==> t.spec_tname() == res@,
            r matches Err(e) ==> e == Error::UnknownResourceType,
            r is Err <==> (forall|t: Resource| t.spec_tname() != res@),
    {
        let all = [Resource::GateArmArray, Resource::RampMeter, Resource::Role, Resource::User];
        let mut i: usize = 0;
        while i < 4
            invariant
                0 <= i <= 4,
                all@ == seq![Resource::GateArmArray, Resource::RampMeter, Resource::Role, Resource::User],
                forall|k: int| 0 <= k < i ==> all@[k].spec_tname() != res@,
            decreases 4 - i,
        {
            let t = all[i];
            let s = String::from_str(t.tname());
            let key = String::from_str(res);
            if s == key {
                return Ok(t);
            }
            i += 1;
        }
        assert forall|t: Resource| t.spec_tname() != res@ by {
            match t {
                Resource::GateArmArray => assert(all@[0] == t),
                Resource::RampMeter => assert(all@[1] == t),
                Resource::Role => assert(all@[2] == t),
                Resource::User => assert(all@[3] == t),
            }
        }
        Err(Error::UnknownResourceType)
    }

    /// Collection path of the type
    pub open spec fn spec_uri(self) -> Seq<char> {
        "/iris/api/"@ + self.spec_tname()
    }

    /// Collection path of the type
    pub fn uri(self) -> (r: String)
        ensures
            r@ == self.spec_uri(),
    {
        let mut r = String::from_str("/iris/api/");
        r.append(self.uname());
        r
    }

    /// Path of one record, from its name already percent-encoded
    pub fn uri_encoded(self, encoded: &str) -> (r: String)
        ensures
            r@ == self.spec_uri() + "/"@ + encoded@,
    {
        let mut r = self.uri();
        r.append("/");
        r.append(encoded);
        r
    }

    /// Path of one record
    pub fn uri_name(self, name: &str) -> (r: String)
        ensures
            r@ == self.spec_uri() + "/"@ + pct_encoded(name@),
    {
        let nm = percent_encode(name);
        self.uri_encoded(nm.as_str())
    }
}

/// A name percent-encoded for a path: all but ASCII letters and digits
/// written as `%XX` bytes
pub uninterp spec fn pct_encoded(s: Seq<char>) -> Seq<char>;

/// Relies on `percent_encoding::utf8_percent_encode` with the
/// `NON_ALPHANUMERIC` set: it encodes the UTF-8 bytes of the text and
/// depends on the text alone; the empty text stays empty.
#[verifier::external_body]
fn percent_encode(name: &str) -> (r: String)
    ensures
        r@ == pct_encoded(name@),
        name@.len() == 0 ==> r@.len() == 0,
{
    percent_encoding::utf8_percent_encode(name, percent_encoding::NON_ALPHANUMERIC).to_string()
}

} // verus!
