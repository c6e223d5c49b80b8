use vstd::prelude::*;

verus! {

/// The name under which this service reports itself.
pub const SERVICE: &'static str = "srvcs-percentile";

/// What this service computes.
pub const CONCERN: &'static str = "comparison: p-th percentile of a list (linear interpolation)";

/// The leaf services that this orchestrator delegates to.
#[derive(Clone, Copy, Debug, PartialEq, Eq, Structural)]
pub enum Dependency {
    SortAscending,
    FloatAdd,
    FloatMultiply,
    FloatSubtract,
}

/// The published name of a dependency.
pub open spec fn dependency_name(dependency: Dependency) -> Seq<char> {
    match dependency {
        Dependency::SortAscending => "srvcs-sortascending"@,
        Dependency::FloatAdd => "srvcs-floatadd"@,
        Dependency::FloatMultiply => "srvcs-floatmultiply"@,
        Dependency::FloatSubtract => "srvcs-floatsubtract"@,
    }
}

impl Dependency {
    /// The name under which the dependency is published.
    pub fn name(&self) -> (name: &'static str)
        ensures
            name@ == dependency_name(*self),
    {
        match self {
            Dependency::SortAscending => "srvcs-sortascending",
            Dependency::FloatAdd => "srvcs-floatadd",
            Dependency::FloatMultiply => "srvcs-floatmultiply",
            Dependency::FloatSubtract => "srvcs-floatsubtract",
        }
    }
}

} // verus!

verus! {

/// The dependencies in the order in which the service lists them.
pub open spec fn listed_dependencies() -> Seq<Dependency> {
    seq![
        Dependency::SortAscending,
        Dependency::FloatAdd,
        Dependency::FloatMultiply,
        Dependency::FloatSubtract,
    ]
}

/// Service identity, as reported on `GET /`.
pub struct Info {
    pub service: &'static str,
    pub concern: &'static str,
    pub depends_on: Vec<&'static str>,
}

/// The identity of this service: its name, its concern and the names of the
/// services it depends on, in their listed order.
pub fn index() -> (info: Info)
    ensures
        info.service@ == SERVICE@,
        info.concern@ == CONCERN@,
        info.depends_on@.len() == listed_dependencies().len(),
        forall|i: int|
            0 <= i < info.depends_on@.len() ==> (#[trigger] info.depends_on@[i])@
                == dependency_name(listed_dependencies()[i]),
{
    let mut depends_on: Vec<&'static str> = Vec::new();
    depends_on.push(Dependency::SortAscending.name());
    depends_on.push(Dependency::FloatAdd.name());
    depends_on.push(Dependency::FloatMultiply.name());
    depends_on.push(Dependency::FloatSubtract.name());
    Info { service: SERVICE, concern: CONCERN, depends_on }
}

} // verus!

verus! {

/// Where each dependency is reached.
#[derive(Clone)]
pub struct Deps {
    pub sortascending_url: String,
    pub floatadd_url: String,
    pub floatmultiply_url: String,
    pub floatsubtract_url: String,
}

impl Deps {
    /// The base URL configured for `dependency`.
    pub fn url(&self, dependency: Dependency) -> (url: &String)
        ensures
            *url == match dependency {
                Dependency::SortAscending => self.sortascending_url,
                Dependency::FloatAdd => self.floatadd_url,
                Dependency::FloatMultiply => self.floatmultiply_url,
                Dependency::FloatSubtract => self.floatsubtract_url,
            },
    {
        match dependency {
            Dependency::SortAscending => &self.sortascending_url,
            Dependency::FloatAdd => &self.floatadd_url,
            Dependency::FloatMultiply => &self.floatmultiply_url,
            Dependency::FloatSubtract => &self.floatsubtract_url,
        }
    }
}

} // verus!
