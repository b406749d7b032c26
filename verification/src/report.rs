//! What the command tells its user: why it stopped, and what deserves notice.

use crate::text::{all_plain, join, joined, plain_list, quote_list, quoted_list, texts};
use vstd::prelude::*;

verus! {

/// Why a run stops before it is done.
#[derive(Debug)]
pub enum BuildError {
    /// Cargo did not describe the packages.
    MetadataUnavailable { reason: String },
    /// No directory holds the manifest of the package.
    NoManifestDirectory { manifest_path: String },
    /// The directory to build in could not be entered.
    DirectoryUnavailable { directory: String, reason: String },
    /// Parts of the toolchain are missing.
    CorruptedToolchain,
    /// A package builds more than one program.
    MultipleCdylibTargets { package: String, targets: Vec<String> },
    /// The second version of the ABI is asked of an architecture that lacks it.
    AbiRequiresV3,
    /// The target directory could not be created.
    TargetDirNotCreated { directory: String, reason: String },
    /// The target directory has no canonical path.
    TargetDirNotCanonical { directory: String, reason: String },
}

/// A `BuildError` over sequences of characters.
pub enum BuildErrorView {
    MetadataUnavailable { reason: Seq<char> },
    NoManifestDirectory { manifest_path: Seq<char> },
    DirectoryUnavailable { directory: Seq<char>, reason: Seq<char> },
    CorruptedToolchain,
    MultipleCdylibTargets { package: Seq<char>, targets: Seq<Seq<char>> },
    AbiRequiresV3,
    TargetDirNotCreated { directory: Seq<char>, reason: Seq<char> },
    TargetDirNotCanonical { directory: Seq<char>, reason: Seq<char> },
}

impl View for BuildError {
    type V = BuildErrorView;

    open spec fn view(&self) -> BuildErrorView {
        match *self {
            BuildError::MetadataUnavailable { reason } => BuildErrorView::MetadataUnavailable {
                reason: reason@,
            },
            BuildError::NoManifestDirectory { manifest_path } =>
                BuildErrorView::NoManifestDirectory { manifest_path: manifest_path@ },
            BuildError::DirectoryUnavailable { directory, reason } =>
                BuildErrorView::DirectoryUnavailable { directory: directory@, reason: reason@ },
            BuildError::CorruptedToolchain => BuildErrorView::CorruptedToolchain,
            BuildError::MultipleCdylibTargets { package, targets } =>
                BuildErrorView::MultipleCdylibTargets {
                package: package@,
                targets: texts(targets@),
            },
            BuildError::AbiRequiresV3 => BuildErrorView::AbiRequiresV3,
            BuildError::TargetDirNotCreated { directory, reason } =>
                BuildErrorView::TargetDirNotCreated { directory: directory@, reason: reason@ },
            BuildError::TargetDirNotCanonical { directory, reason } =>
                BuildErrorView::TargetDirNotCanonical { directory: directory@, reason: reason@ },
        }
    }
}

/// The sentence that tells the user of an error.
pub open spec fn error_message(error: BuildErrorView) -> Seq<char> {
    match error {
        BuildErrorView::MetadataUnavailable { reason } =>
            "Failed to obtain package metadata: "@ + reason,
        BuildErrorView::NoManifestDirectory { manifest_path } =>
            "Unable to get directory of "@ + manifest_path,
        BuildErrorView::DirectoryUnavailable { directory, reason } =>
            "Unable to set current directory to "@ + directory + ": "@ + reason,
        BuildErrorView::CorruptedToolchain =>
            "The Solana toolchain is corrupted. Please, run cargo-build-sbf with the --force-tools-install argument to fix it."@,
        BuildErrorView::MultipleCdylibTargets { package, targets } =>
            package + " crate contains multiple cdylib targets: "@ + quoted_list(targets),
        BuildErrorView::AbiRequiresV3 => "--abi-v2 requires --arch v3"@,
        BuildErrorView::TargetDirNotCreated { directory, reason } =>
            "Unable to create target-dir directory "@ + directory + ": "@ + reason,
        BuildErrorView::TargetDirNotCanonical { directory, reason } =>
            "Unable to canonicalize provided target-dir directory "@ + directory + ": "@ + reason,
    }
}

impl BuildError {
    /// The sentence that tells the user of this error.
    pub fn message(&self) -> (message: String)
        ensures
            message@ == error_message(self@),
            self@ matches BuildErrorView::MultipleCdylibTargets { package, targets } ==> (all_plain(
                targets,
            ) ==> message@ == package + " crate contains multiple cdylib targets: "@ + plain_list(
                targets,
            )),
    {
        match self {
            BuildError::MetadataUnavailable { reason } => {
                let mut message = "Failed to obtain package metadata: ".to_owned();
                message.append(reason.as_str());
                message
            },
            BuildError::NoManifestDirectory { manifest_path } => {
                let mut message = "Unable to get directory of ".to_owned();
                message.append(manifest_path.as_str());
                message
            },
            BuildError::DirectoryUnavailable { directory, reason } => {
                let mut message = "Unable to set current directory to ".to_owned();
                message.append(directory.as_str());
                message.append(": ");
                message.append(reason.as_str());
                message
            },
            BuildError::CorruptedToolchain =>
                "The Solana toolchain is corrupted. Please, run cargo-build-sbf with the --force-tools-install argument to fix it.".to_owned(),
            BuildError::MultipleCdylibTargets { package, targets } => {
                let mut message = package.as_str().to_owned();
                message.append(" crate contains multiple cdylib targets: ");
                message.append(quote_list(targets).as_str());
                message
            },
            BuildError::AbiRequiresV3 => "--abi-v2 requires --arch v3".to_owned(),
            BuildError::TargetDirNotCreated { directory, reason } => {
                let mut message = "Unable to create target-dir directory ".to_owned();
                message.append(directory.as_str());
                message.append(": ");
                message.append(reason.as_str());
                message
            },
            BuildError::TargetDirNotCanonical { directory, reason } => {
                let mut message =
                    "Unable to canonicalize provided target-dir directory ".to_owned();
                message.append(directory.as_str());
                message.append(": ");
                message.append(reason.as_str());
                message
            },
        }
    }
}

/// What deserves notice on the way.
#[derive(Debug)]
pub enum Notice {
    /// The `default` feature is left out.
    NoDefaultFeatures,
    /// These features are activated.
    Features { features: Vec<String> },
    /// A program is built as a library of another type too.
    TwoCrateTypes { package: String, other: String },
    /// `RUSTFLAGS` is removed, since it overrides the given variable.
    RustflagsRemoved { variable: String },
}

/// A `Notice` over sequences of characters.
pub enum NoticeView {
    NoDefaultFeatures,
    Features { features: Seq<Seq<char>> },
    TwoCrateTypes { package: Seq<char>, other: Seq<char> },
    RustflagsRemoved { variable: Seq<char> },
}

impl View for Notice {
    type V = NoticeView;

    open spec fn view(&self) -> NoticeView {
        match *self {
            Notice::NoDefaultFeatures => NoticeView::NoDefaultFeatures,
            Notice::Features { features } => NoticeView::Features { features: texts(features@) },
            Notice::TwoCrateTypes { package, other } => NoticeView::TwoCrateTypes {
                package: package@,
                other: other@,
            },
            Notice::RustflagsRemoved { variable } => NoticeView::RustflagsRemoved {
                variable: variable@,
            },
        }
    }
}

/// The notices of a list over sequences of characters.
pub open spec fn notices_view(notices: Seq<Notice>) -> Seq<NoticeView> {
    notices.map_values(|notice: Notice| notice@)
}

/// Whether a notice warns of something, and does not only tell what is done.
pub open spec fn warns(notice: NoticeView) -> bool {
    notice is TwoCrateTypes || notice is RustflagsRemoved
}

/// The sentence that tells the user of a notice.
pub open spec fn notice_message(notice: NoticeView) -> Seq<char> {
    match notice {
        NoticeView::NoDefaultFeatures => "No default features"@,
        NoticeView::Features { features } => "Features: "@ + joined(features, " "@),
        NoticeView::TwoCrateTypes { package, other } => "Package '"@ + package
            + "' has two crate types defined: cdylib and "@ + other
            + ". This setting precludes link-time optimizations (LTO). Use cdylib for programs to be deployed and rlib for packages to be imported by other programs as libraries."@,
        NoticeView::RustflagsRemoved { variable } =>
            "Removed RUSTFLAGS from cargo environment, because it overrides "@ + variable + "."@,
    }
}

impl Notice {
    /// Whether this notice is a warning.
    pub fn is_warning(&self) -> (warning: bool)
        ensures
            warning == warns(self@),
    {
        match self {
            Notice::NoDefaultFeatures | Notice::Features { .. } => false,
            Notice::TwoCrateTypes { .. } | Notice::RustflagsRemoved { .. } => true,
        }
    }

    /// The sentence that tells the user of this notice.
    pub fn message(&self) -> (message: String)
        ensures
            message@ == notice_message(self@),
    {
        match self {
            Notice::NoDefaultFeatures => "No default features".to_owned(),
            Notice::Features { features } => {
                let mut message = "Features: ".to_owned();
                message.append(join(features, " ").as_str());
                message
            },
            Notice::TwoCrateTypes { package, other } => {
                let mut message = "Package '".to_owned();
                message.append(package.as_str());
                message.append("' has two crate types defined: cdylib and ");
                message.append(other.as_str());
                message.append(
                    ". This setting precludes link-time optimizations (LTO). Use cdylib for programs to be deployed and rlib for packages to be imported by other programs as libraries.",
                );
                message
            },
            Notice::RustflagsRemoved { variable } => {
                let mut message =
                    "Removed RUSTFLAGS from cargo environment, because it overrides ".to_owned();
                message.append(variable.as_str());
                message.append(".");
                message
            },
        }
    }
}

} // verus!
