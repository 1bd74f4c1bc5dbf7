use vstd::prelude::*;
use crate::enums::{ImageState, Compression};
use crate::ids::ImageId;
use crate::json::JsonValue;

verus! {

/// One catalog entry: an immutable snapshot of an image as the service
/// returned it.
#[derive(Debug)]
pub struct Image {
    /// Version of the manifest format; the current value is 2.
    pub v: u32,
    /// The unique identifier of the image, set by the service.
    pub uuid: ImageId,
    /// The account that owns this image.
    pub owner: ImageId,
    /// A short name for this image; no uniqueness guarantee.
    pub name: String,
    /// A version string for this image; no uniqueness guarantee.
    pub version: String,
    /// A short description of the image.
    pub description: Option<String>,
    /// Homepage with more information about the image, a validated URL.
    pub homepage: Option<String>,
    /// The image's end-user license agreement, a validated URL.
    pub eula: Option<String>,
    /// Whether the image has an icon file; absent means no icon.
    pub icon: Option<bool>,
    /// The current state of the image.
    pub state: ImageState,
    /// Details on image-creation failure; the service sets this only when the
    /// state is `failed`, but the client passes through whatever it received.
    pub error: Option<ImageError>,
    /// Whether this image is unavailable for provisioning.
    pub disabled: bool,
    /// Whether this image is publicly available.
    pub public: bool,
    /// When the image was activated; a validated timestamp, kept verbatim.
    pub published_at: Option<String>,
    /// The image type; sent as `type` on the wire.
    pub image_type: String,
    /// The operating-system family this image provides.
    pub os: String,
    /// The origin image if this is an incremental image.
    pub origin: Option<ImageId>,
    /// The image's file descriptors.
    pub files: Vec<File>,
    /// Accounts given access to a private image.
    pub acl: Option<Vec<ImageId>>,
    /// Users for which passwords should be generated at provisioning.
    pub users: Option<Vec<User>>,
    /// Tags used by operators for billing.
    pub billing_tags: Option<Vec<String>>,
    /// Free-form placement properties, kept as received.
    pub traits: Option<JsonValue>,
    /// Free-form categorization tags, kept as received.
    pub tags: Option<Vec<(String, JsonValue)>>,
    /// Whether to generate passwords for `users`; absent means yes.
    pub generate_passwords: Option<bool>,
    /// Inherited directories beyond the brand's defaults.
    pub inherited_directories: Option<Vec<String>>,
    /// NIC driver used by this machine image.
    pub nic_driver: Option<String>,
    /// Disk driver used by this machine image.
    pub disk_driver: Option<String>,
    /// The QEMU CPU model used by this machine image.
    pub cpu_type: Option<String>,
    /// The size in MiB of this machine image's disk.
    pub image_size: Option<u32>,
    /// Channel names this image belongs to.
    pub channels: Option<Vec<String>>,
}

/// Details on the failure of an asynchronous image action.
#[derive(Debug, Clone)]
pub struct ImageError {
    /// Description of the error.
    pub message: String,
    /// A "CamelCase" error code.
    pub code: Option<String>,
    /// A stack trace; internal detail for debugging only.
    pub stack: Option<String>,
}

/// One storage artifact of an image.
#[derive(Debug)]
pub struct File {
    /// SHA-1 hex digest of the file content.
    pub sha1: String,
    /// Number of bytes; the service caps this at 20 GiB, which the client
    /// does not enforce.
    pub size: u64,
    /// The compression applied to the file.
    pub compression: Compression,
    /// The ZFS internal unique identifier of the dataset's snapshot.
    pub dataset_guid: Option<ImageId>,
    /// The administrative storage location. Accepted from the service but
    /// never exposed or re-serialized; the decoder always leaves it unset.
    pub stor: Option<String>,
    /// Container-image digest of the file contents.
    pub digest: Option<String>,
    /// Container-image digest of the uncompressed contents; sent as
    /// `uncompressedDigest` on the wire.
    pub uncompressed_digest: Option<String>,
}

/// Provisioning constraints an image imposes; pure data.
#[derive(Debug, Clone)]
pub struct Requirements {
    /// The minimum set of networks.
    pub networks: Vec<Network>,
    /// The brand required to provision with this image.
    pub brand: Option<String>,
    /// Whether provisioning requires an SSH public key.
    pub ssh_key: Option<bool>,
    /// The minimum RAM in MiB.
    pub min_ram: Option<u32>,
    /// The maximum RAM in MiB.
    pub max_ram: Option<u32>,
    /// The minimum platform, as a mapping of version to platform timestamp.
    pub min_platform: Option<Vec<(String, String)>>,
    /// The maximum platform, as a mapping of version to platform timestamp.
    pub max_platform: Option<Vec<(String, String)>>,
    /// The boot ROM image to use.
    pub boot_rom: Option<String>,
}

/// One required network; pure data.
#[derive(Debug, Clone)]
pub struct Network {
    pub name: String,
    pub description: String,
}

/// One user for which a password should be generated; pure data.
#[derive(Debug, Clone)]
pub struct User {
    pub name: String,
}

} // verus!
