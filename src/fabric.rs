//! The `fabric` resource of API version `v1alpha1`.
use vstd::prelude::*;
use crate::meta::{Metadata, VersionKind};

verus! {

#[derive(Clone, Copy, Debug, PartialEq, Eq, Structural)]
pub enum FabricState {
    Initializing,
    Ready,
    Error,
    Deleting,
    Deleted,
}

pub open spec fn state_text(s: FabricState) -> Seq<char> {
    match s {
        FabricState::Initializing => "Initializing"@,
        FabricState::Ready => "Ready"@,
        FabricState::Error => "Error"@,
        FabricState::Deleting => "Deleting"@,
        FabricState::Deleted => "Deleted"@,
    }
}

impl FabricState {
    /// The display form of the state.
    pub fn text(&self) -> (r: String)
        ensures
            r@ == state_text(*self),
    {
        match self {
            FabricState::Initializing => String::from_str("Initializing"),
            FabricState::Ready => String::from_str("Ready"),
            FabricState::Error => String::from_str("Error"),
            FabricState::Deleting => String::from_str("Deleting"),
            FabricState::Deleted => String::from_str("Deleted"),
        }
    }
}

#[derive(Debug)]
pub struct FabricSpec {
    pub selector: String,
}

impl Clone for FabricSpec {
    fn clone(&self) -> (r: Self)
        ensures
            r.selector@ == self.selector@,
    {
        FabricSpec { selector: self.selector.clone() }
    }
}

#[derive(Clone, Copy, Debug, PartialEq, Eq, Structural)]
pub struct FabricStatus {
    pub state: FabricState,
    pub total: u64,
    pub available: u64,
}

/// The status that a fabric starts with: initializing, with nothing counted.
pub open spec fn spec_initial_status() -> FabricStatus {
    FabricStatus { state: FabricState::Initializing, total: 0, available: 0 }
}

pub fn initial_status() -> (r: FabricStatus)
    ensures
        r == spec_initial_status(),
{
    FabricStatus { state: FabricState::Initializing, total: 0, available: 0 }
}

#[derive(Debug)]
pub struct Fabric {
    pub meta_data: Metadata,
    pub spec: FabricSpec,
    pub status: Option<FabricStatus>,
}

impl Clone for Fabric {
    fn clone(&self) -> (r: Self)
        ensures
            r.meta_data@ == self.meta_data@,
            r.spec.selector@ == self.spec.selector@,
            r.status == self.status,
    {
        Fabric { meta_data: self.meta_data.clone(), spec: self.spec.clone(), status: self.status }
    }
}

impl Fabric {
    /// The display form of a fabric: its name.
    pub fn display_name(&self) -> (r: String)
        ensures
            r@ == self.meta_data.name@,
    {
        self.meta_data.name.clone()
    }

    /// The fabric as the creation handler stores it: its status set to the initial one,
    /// whatever the request held.
    pub fn with_initial_status(self) -> (r: Fabric)
        ensures
            r.meta_data@ == self.meta_data@,
            r.spec.selector@ == self.spec.selector@,
            r.status == Some(spec_initial_status()),
    {
        Fabric { meta_data: self.meta_data, spec: self.spec, status: Some(initial_status()) }
    }
}

/// The version and kind that fabrics are served under.
pub fn version_kind() -> (r: VersionKind)
    ensures
        r.version@ == "v1alpha1"@,
        r.kind@ == "fabric"@,
{
    VersionKind { version: "v1alpha1", kind: "fabric" }
}

/// The version and kind of a resource kind name, if it is a known one.
pub fn get_version_kind(kind: &str) -> (r: Option<VersionKind>)
    ensures
        r is Some <==> kind@ == "fabric"@,
        r is Some ==> r->Some_0.version@ == "v1alpha1"@ && r->Some_0.kind@ == "fabric"@,
{
    let known = String::from_str("fabric");
    if String::from_str(kind) == known {
        Some(version_kind())
    } else {
        None
    }
}

} // verus!
