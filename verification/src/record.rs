//! The record handed to the front-end.

use vstd::prelude::*;

verus! {

/// What a [`SystemInfo`] holds, as three sequences of characters.
pub struct SystemInfoView {
    pub platform: Seq<char>,
    pub version: Seq<char>,
    pub arch: Seq<char>,
}

impl SystemInfoView {
    /// No field is the empty string.
    pub open spec fn populated(self) -> bool {
        &&& self.platform.len() > 0
        &&& self.version.len() > 0
        &&& self.arch.len() > 0
    }
}

/// Host metadata: operating system family, application version and CPU
/// architecture. A value of this type always has all three fields filled in,
/// and nothing can change them afterwards.
#[derive(Debug, PartialEq, Eq)]
pub struct SystemInfo {
    platform: String,
    version: String,
    arch: String,
}

impl View for SystemInfo {
    type V = SystemInfoView;

    closed spec fn view(&self) -> SystemInfoView {
        SystemInfoView { platform: self.platform@, version: self.version@, arch: self.arch@ }
    }
}

impl SystemInfo {
    #[verifier::type_invariant]
    spec fn populated(&self) -> bool {
        self@.populated()
    }

    /// Builds the record from three strings, none of them empty.
    pub(crate) fn assemble(platform: String, version: String, arch: String) -> (info: SystemInfo)
        requires
            platform@.len() > 0,
            version@.len() > 0,
            arch@.len() > 0,
        ensures
            info@ == (SystemInfoView { platform: platform@, version: version@, arch: arch@ }),
    {
        SystemInfo { platform, version, arch }
    }

    /// The operating system family.
    pub fn platform(&self) -> (name: &str)
        ensures
            name@ == self@.platform,
            name@.len() > 0,
    {
        proof {
            use_type_invariant(self);
        }
        self.platform.as_str()
    }

    /// The application's version.
    pub fn version(&self) -> (version: &str)
        ensures
            version@ == self@.version,
            version@.len() > 0,
    {
        proof {
            use_type_invariant(self);
        }
        self.version.as_str()
    }

    /// The CPU architecture.
    pub fn arch(&self) -> (name: &str)
        ensures
            name@ == self@.arch,
            name@.len() > 0,
    {
        proof {
            use_type_invariant(self);
        }
        self.arch.as_str()
    }
}

} // verus!
