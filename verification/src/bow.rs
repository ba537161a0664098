//! The bow-domain surface of the library: the simulation mode, the layer
//! alignment choice of the cross section, and the integer versioning of bow
//! files with the wrapper types that attach a version field to serialized
//! data.

use vstd::prelude::*;

verus! {

/// Which parts of the simulation to run.
#[derive(Copy, Clone, Debug, PartialEq, Eq, Structural)]
pub enum SimulationMode {
    /// Bracing, draw curve and modal analysis only.
    Static,
    /// Statics followed by the arrow-launch transient.
    Dynamic,
}

/// How the layered cross section is aligned with the profile curve: the
/// back side, belly side, or geometrical center of either the combined
/// section or the layer with the given index lies on the curve.
#[derive(Copy, Clone, Debug, PartialEq, Eq, Structural)]
pub enum LayerAlignment {
    SectionBack,
    SectionBelly,
    SectionCenter,
    LayerBack(usize),
    LayerBelly(usize),
    LayerCenter(usize),
}

/// The current version of the bow file format.
pub const FILE_VERSION: u64 = 3;

/// The version of this solver, reported as the application version in which
/// the current file format was introduced.
pub const CURRENT_APPLICATION_VERSION: &'static str = "0.10.0";

/// Maps a file format version to the application version in which it was
/// first introduced. File versions newer than the current format are not
/// meaningful here and must not be passed.
pub fn get_application_version(version: u64) -> (r: Option<&'static str>)
    requires
        version <= FILE_VERSION,
    ensures
        version == 0 ==> r == Some("0.7.0"),
        version == 1 ==> r == Some("0.8.0"),
        version == 2 ==> r == Some("0.9.0"),
        version == FILE_VERSION ==> r == Some(CURRENT_APPLICATION_VERSION),
        r is Some,
{
    if version == 0 {
        Some("0.7.0")
    } else if version == 1 {
        Some("0.8.0")
    } else if version == 2 {
        Some("0.9.0")
    } else {
        Some(CURRENT_APPLICATION_VERSION)
    }
}

/// Owning wrapper that adds an integer version field to data for
/// serialization.
pub struct VersionedWrapper<T> {
    pub version: u64,
    pub data: T,
}

impl<T> VersionedWrapper<T> {
    /// Wraps the data with the given version.
    pub fn new(version: u64, data: T) -> (r: VersionedWrapper<T>)
        ensures
            r.version == version,
            r.data == data,
    {
        VersionedWrapper { version, data }
    }
}

/// Borrowing wrapper that adds an integer version field to data for
/// serialization.
pub struct VersionedWrapperRef<'a, T> {
    pub version: u64,
    pub data: &'a T,
}

impl<'a, T> VersionedWrapperRef<'a, T> {
    /// Wraps the borrowed data with the given version.
    pub fn new(version: u64, data: &'a T) -> (r: VersionedWrapperRef<'a, T>)
        ensures
            r.version == version,
            r.data == data,
    {
        VersionedWrapperRef { version, data }
    }
}

} // verus!
