//! The Windows version as the tool reports it.

use vstd::prelude::*;

verus! {

/// A Windows version: major, minor, service pack and build numbers.
#[derive(Clone, Copy, Debug, PartialEq, Eq)]
pub struct SerializableOsVersion {
    pub major: u32,
    pub minor: u32,
    pub pack: u32,
    pub build: u32,
}

impl SerializableOsVersion {
    /// The version with the given numbers, as taken from an `OsVersion`.
    pub fn new(major: u32, minor: u32, pack: u32, build: u32) -> (v: SerializableOsVersion)
        ensures
            v == (SerializableOsVersion { major, minor, pack, build }),
    {
        SerializableOsVersion { major, minor, pack, build }
    }
}

/// The message reported when `RtlGetVersion` fails.
pub open spec fn rtl_failure_message() -> Seq<char> {
    "RtlGetVersion failed!"@
}

/// The version that `RtlGetVersion` reported: its major, minor and build
/// numbers with a service pack of 0 when the call succeeded, else the
/// failure message.
pub fn version_from_rtl(status_ok: bool, major: u32, minor: u32, build: u32) -> (r: Result<
    SerializableOsVersion,
    &'static str,
>)
    ensures
        status_ok ==> r == Ok::<SerializableOsVersion, &'static str>(
            SerializableOsVersion { major, minor, pack: 0, build },
        ),
        !status_ok ==> (r matches Err(e) && e@ == rtl_failure_message()),
{
    if status_ok {
        Ok(SerializableOsVersion { major, minor, pack: 0, build })
    } else {
        Err("RtlGetVersion failed!")
    }
}

} // verus!
