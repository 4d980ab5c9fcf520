//! The table that pairs each codename with its release number.

use vstd::prelude::*;

use crate::codename::Codename;
use crate::version::Version;

verus! {

/// The codename of the release numbered `major.minor`, if it has one.
pub open spec fn codename_numbered(major: u8, minor: u8) -> Option<Codename> {
    if major == 18 && minor == 4 {
        Some(Codename::Bionic)
    } else if major == 18 && minor == 10 {
        Some(Codename::Cosmic)
    } else if major == 19 && minor == 4 {
        Some(Codename::Disco)
    } else if major == 19 && minor == 10 {
        Some(Codename::Eoan)
    } else if major == 20 && minor == 4 {
        Some(Codename::Focal)
    } else {
        None
    }
}

impl Codename {
    /// The release number of this codename, with patch 0.
    pub open spec fn version(self) -> Version {
        match self {
            Codename::Bionic => Version { major: 18, minor: 4, patch: 0 },
            Codename::Cosmic => Version { major: 18, minor: 10, patch: 0 },
            Codename::Disco => Version { major: 19, minor: 4, patch: 0 },
            Codename::Eoan => Version { major: 19, minor: 10, patch: 0 },
            Codename::Focal => Version { major: 20, minor: 4, patch: 0 },
        }
    }

    /// The codename of `version`, or `None` where its `(major, minor)` is
    /// none of the five known releases. The patch number is not looked at.
    pub fn try_from_version(version: Version) -> (found: Option<Codename>)
        ensures
            found == version.codename(),
    {
        if version.major == 18 && version.minor == 4 {
            Some(Codename::Bionic)
        } else if version.major == 18 && version.minor == 10 {
            Some(Codename::Cosmic)
        } else if version.major == 19 && version.minor == 4 {
            Some(Codename::Disco)
        } else if version.major == 19 && version.minor == 10 {
            Some(Codename::Eoan)
        } else if version.major == 20 && version.minor == 4 {
            Some(Codename::Focal)
        } else {
            None
        }
    }

    /// The codename of a version that is known to be one of the five
    /// releases.
    pub fn from_version(version: Version) -> (codename: Codename)
        requires
            version.is_supported(),
        ensures
            version.codename() == Some(codename),
    {
        if version.major == 18 {
            if version.minor == 4 {
                Codename::Bionic
            } else {
                Codename::Cosmic
            }
        } else if version.major == 19 {
            if version.minor == 4 {
                Codename::Disco
            } else {
                Codename::Eoan
            }
        } else {
            Codename::Focal
        }
    }
}

impl Version {
    /// The codename of this version's release, if it has one.
    pub open spec fn codename(self) -> Option<Codename> {
        codename_numbered(self.major, self.minor)
    }

    /// Whether this version belongs to one of the five releases that carry
    /// a codename. The patch number plays no part.
    pub open spec fn is_supported(self) -> bool {
        self.codename() is Some
    }
}

impl From<Codename> for Version {
    fn from(codename: Codename) -> (version: Version) {
        let (major, minor): (u8, u8) = match codename {
            Codename::Bionic => (18, 4),
            Codename::Cosmic => (18, 10),
            Codename::Disco => (19, 4),
            Codename::Eoan => (19, 10),
            Codename::Focal => (20, 4),
        };

        Version { major, minor, patch: 0 }
    }
}

impl vstd::std_specs::convert::FromSpecImpl<Codename> for Version {
    open spec fn obeys_from_spec() -> bool {
        true
    }

    open spec fn from_spec(codename: Codename) -> Version {
        codename.version()
    }
}

/// A codename's version leads back to the codename.
pub proof fn lemma_version_round_trip(codename: Codename)
    ensures
        codename.version().is_supported(),
        codename.version().codename() == Some(codename),
{
}

/// A supported version's codename leads back to its major and minor
/// numbers, with patch 0.
pub proof fn lemma_codename_round_trip(version: Version)
    requires
        version.is_supported(),
    ensures
        version.codename().unwrap().version() == (Version {
            major: version.major,
            minor: version.minor,
            patch: 0,
        }),
{
}

/// Every codename's version has patch 0.
pub proof fn lemma_version_patch_is_zero(codename: Codename)
    ensures
        codename.version().patch == 0,
{
}

/// Two versions that agree on major and minor have the same codename,
/// whatever their patch numbers.
pub proof fn lemma_codename_ignores_patch(first: Version, second: Version)
    requires
        first.major == second.major,
        first.minor == second.minor,
    ensures
        first.codename() == second.codename(),
{
}

/// Distinct codenames have distinct versions.
pub proof fn lemma_version_is_injective(first: Codename, second: Codename)
    requires
        first.version() == second.version(),
    ensures
        first == second,
{
}

} // verus!
