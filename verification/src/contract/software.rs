//! Software action DTOs of the public contract.
pub use crate::actor::software::{
    ActorInstalledSoftware, SoftwareInstall, SoftwareList, SoftwareMutationResult, SoftwareUninstall,
};
