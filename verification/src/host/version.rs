//! Selecting the adapter that serves a guest, from the SDK version it declares.

use vstd::prelude::*;

verus! {

#[verifier::external_type_specification]
#[verifier::external_body]
pub struct ExSemverVersion(semver::Version);

/// What adapter selection reads of a declared SDK version: the release triple
/// and whether the version carries a pre-release tag.
#[derive(Clone, Copy, Debug, PartialEq, Eq, Structural)]
pub struct SdkVersion {
    pub major: u64,
    pub minor: u64,
    pub patch: u64,
    pub pre_release: bool,
}

/// The guest interface revisions the host can serve, oldest first.
#[derive(Clone, Copy, Debug, PartialEq, Eq, Structural)]
pub enum SdkPre {
    Since0_10_0,
    Since0_14_0,
    Since0_15_0,
    Since0_16_0,
    Since0_17_0,
    Since0_18_0,
    Since0_19_0,
}

/// Why an extension could not be loaded. Load errors are fatal for the
/// extension and never retried.
#[derive(Clone, Copy, Debug, PartialEq, Eq, Structural)]
pub enum LoadError {
    /// The declared SDK version is older than the oldest supported revision.
    UnsupportedSdkVersion,
}

/// One entry of the table of supported revisions: the adapter serves every
/// version that precedes the release `0.upper_minor.0` and that no earlier
/// entry serves.
pub struct VersionBand {
    pub upper_minor: u64,
    pub adapter: SdkPre,
}

/// The minor number of the oldest supported release, `0.10.0`.
pub const OLDEST_SUPPORTED_MINOR: u64 = 10;

impl SdkVersion {
    /// Release `major.minor.patch`, without pre-release tag.
    pub fn new(major: u64, minor: u64, patch: u64) -> (version: SdkVersion)
        ensures
            version == (SdkVersion { major, minor, patch, pre_release: false }),
    {
        SdkVersion { major, minor, patch, pre_release: false }
    }

    /// Semantic-version precedence against the plain release
    /// `major.minor.patch`: the triple is compared lexicographically, and on
    /// an equal triple a pre-release precedes the release.
    pub open spec fn precedes_release(self, major: u64, minor: u64, patch: u64) -> bool {
        ||| self.major < major
        ||| self.major == major && self.minor < minor
        ||| self.major == major && self.minor == minor && self.patch < patch
        ||| self.major == major && self.minor == minor && self.patch == patch && self.pre_release
    }

    /// `self` does not come after `other` in semantic-version precedence, as
    /// far as the release triple and the presence of a pre-release tag decide
    /// it. Every pair with `self <= other` satisfies this.
    pub open spec fn not_after(self, other: SdkVersion) -> bool {
        ||| self.major < other.major
        ||| self.major == other.major && self.minor < other.minor
        ||| self.major == other.major && self.minor == other.minor && self.patch < other.patch
        ||| self.major == other.major && self.minor == other.minor && self.patch == other.patch && (
        other.pre_release ==> self.pre_release)
    }

    /// Executable form of [`SdkVersion::precedes_release`].
    pub fn is_before_release(&self, major: u64, minor: u64, patch: u64) -> (before: bool)
        ensures
            before == self.precedes_release(major, minor, patch),
    {
        if self.major != major {
            self.major < major
        } else if self.minor != minor {
            self.minor < minor
        } else if self.patch != patch {
            self.patch < patch
        } else {
            self.pre_release
        }
    }
}

impl SdkPre {
    /// Position of the revision in the order of release, from 0.
    pub open spec fn rank(self) -> nat {
        match self {
            SdkPre::Since0_10_0 => 0,
            SdkPre::Since0_14_0 => 1,
            SdkPre::Since0_15_0 => 2,
            SdkPre::Since0_16_0 => 3,
            SdkPre::Since0_17_0 => 4,
            SdkPre::Since0_18_0 => 5,
            SdkPre::Since0_19_0 => 6,
        }
    }

    /// The adapter for the SDK version that `config` declares: what
    /// [`selection`] gives for the parts of that version.
    pub fn new(config: &super::loader::ExtensionConfig) -> (selected: Result<SdkPre, LoadError>)
        ensures
            selected == selection(declared_version(config.sdk_version)),
    {
        let version = version_parts(&config.sdk_version);
        select_adapter(version)
    }
}

/// The supported revisions in ascending order of their upper bound. Versions
/// that no band covers are served by the newest adapter.
pub open spec fn supported_bands() -> Seq<VersionBand> {
    seq![
        VersionBand { upper_minor: 14, adapter: SdkPre::Since0_10_0 },
        VersionBand { upper_minor: 15, adapter: SdkPre::Since0_14_0 },
        VersionBand { upper_minor: 16, adapter: SdkPre::Since0_15_0 },
        VersionBand { upper_minor: 17, adapter: SdkPre::Since0_16_0 },
        VersionBand { upper_minor: 18, adapter: SdkPre::Since0_17_0 },
        VersionBand { upper_minor: 19, adapter: SdkPre::Since0_18_0 },
    ]
}

/// The adapter of the first band at or after `from` whose upper bound
/// exceeds `version`; the newest adapter when there is none.
pub open spec fn first_covering_band(version: SdkVersion, from: int) -> SdkPre
    decreases supported_bands().len() - from,
{
    if from < 0 || from >= supported_bands().len() {
        SdkPre::Since0_19_0
    } else if version.precedes_release(0, supported_bands()[from].upper_minor, 0) {
        supported_bands()[from].adapter
    } else {
        first_covering_band(version, from + 1)
    }
}

/// Which adapter serves `version`: none below the oldest supported release,
/// else that of the first band, in ascending order, whose upper bound exceeds
/// the version.
pub open spec fn selection(version: SdkVersion) -> Result<SdkPre, LoadError> {
    if version.precedes_release(0, OLDEST_SUPPORTED_MINOR, 0) {
        Err(LoadError::UnsupportedSdkVersion)
    } else {
        Ok(first_covering_band(version, 0))
    }
}

/// Selects the adapter for a declared SDK version. Versions older than
/// `0.10.0` fail closed.
pub fn select_adapter(version: SdkVersion) -> (selected: Result<SdkPre, LoadError>)
    ensures
        selected == selection(version),
{
    proof {
        reveal_with_fuel(first_covering_band, 8);
    }
    if version.is_before_release(0, 10, 0) {
        Err(LoadError::UnsupportedSdkVersion)
    } else if version.is_before_release(0, 14, 0) {
        Ok(SdkPre::Since0_10_0)
    } else if version.is_before_release(0, 15, 0) {
        Ok(SdkPre::Since0_14_0)
    } else if version.is_before_release(0, 16, 0) {
        Ok(SdkPre::Since0_15_0)
    } else if version.is_before_release(0, 17, 0) {
        Ok(SdkPre::Since0_16_0)
    } else if version.is_before_release(0, 18, 0) {
        Ok(SdkPre::Since0_17_0)
    } else if version.is_before_release(0, 19, 0) {
        Ok(SdkPre::Since0_18_0)
    } else {
        Ok(SdkPre::Since0_19_0)
    }
}

/// Selection is monotonic: of two supported versions, the one that does not
/// come after the other is never served by a newer adapter.
pub proof fn lemma_selection_monotonic(older: SdkVersion, newer: SdkVersion)
    requires
        older.not_after(newer),
        selection(older) is Ok,
        selection(newer) is Ok,
    ensures
        selection(older)->Ok_0.rank() <= selection(newer)->Ok_0.rank(),
{
    reveal_with_fuel(first_covering_band, 8);
}

/// What a [`semver::Version`] declares: its release triple and whether it
/// carries a pre-release tag.
pub uninterp spec fn declared_version(version: semver::Version) -> SdkVersion;

/// Reads the release triple of a [`semver::Version`] from its public fields
/// `major`, `minor` and `patch`, and whether its `pre` field is non-empty
/// (`Prerelease::is_empty`). The contract gives these parts their name: the
/// same version always has the same parts.
#[verifier::external_body]
pub(crate) fn version_parts(version: &semver::Version) -> (parts: SdkVersion)
    ensures
        parts == declared_version(*version),
{
    SdkVersion {
        major: version.major,
        minor: version.minor,
        patch: version.patch,
        pre_release: !version.pre.is_empty(),
    }
}

} // verus!
