use vstd::prelude::*;
use crate::errors::ParseOsError;
use crate::text::{str_eq, lowercase, lower_of};

verus! {

/// The current state of an image in the catalog.
#[derive(Debug, Clone, Copy, PartialEq, Eq, PartialOrd, Ord, Hash, Structural)]
pub enum ImageState {
    /// The image is ready for use: machines can be provisioned from it.
    Active,
    /// The image has not yet been activated.
    Unactivated,
    /// The image is activated but also disabled.
    Disabled,
    /// A placeholder while an image is being created asynchronously.
    Creating,
    /// A placeholder recording that asynchronous image creation failed.
    Failed,
}

/// The wire and display form of an image state: the lowercase variant name.
pub open spec fn state_text(s: ImageState) -> Seq<char> {
    match s {
        ImageState::Active => "active"@,
        ImageState::Unactivated => "unactivated"@,
        ImageState::Disabled => "disabled"@,
        ImageState::Creating => "creating"@,
        ImageState::Failed => "failed"@,
    }
}

/// The state named by a piece of wire text, if any.
pub open spec fn state_of_text(t: Seq<char>) -> Option<ImageState> {
    if t == "active"@ {
        Some(ImageState::Active)
    } else if t == "unactivated"@ {
        Some(ImageState::Unactivated)
    } else if t == "disabled"@ {
        Some(ImageState::Disabled)
    } else if t == "creating"@ {
        Some(ImageState::Creating)
    } else if t == "failed"@ {
        Some(ImageState::Failed)
    } else {
        None
    }
}

impl ImageState {
    /// The textual form used on the wire and for display.
    pub fn as_param(&self) -> (r: &'static str)
        ensures
            r@ == state_text(*self),
    {
        match self {
            ImageState::Active => "active",
            ImageState::Unactivated => "unactivated",
            ImageState::Disabled => "disabled",
            ImageState::Creating => "creating",
            ImageState::Failed => "failed",
        }
    }

    /// The state named by the given wire text, exactly as the service spells
    /// it (lowercase; no case folding).
    pub fn from_param(t: &str) -> (r: Option<ImageState>)
        ensures
            r == state_of_text(t@),
    {
        if str_eq(t, "active") {
            Some(ImageState::Active)
        } else if str_eq(t, "unactivated") {
            Some(ImageState::Unactivated)
        } else if str_eq(t, "disabled") {
            Some(ImageState::Disabled)
        } else if str_eq(t, "creating") {
            Some(ImageState::Creating)
        } else if str_eq(t, "failed") {
            Some(ImageState::Failed)
        } else {
            None
        }
    }
}

/// A "CamelCase" code classifying an image-creation failure.
#[derive(Debug, Clone, Copy, PartialEq, Eq, PartialOrd, Ord, Hash, Structural)]
pub enum ImageErrorCode {
    /// The guest tools in the source machine never ran the preparation step.
    PrepareImageDidNotRun,
    /// Origin image data could not be found for the machine.
    VmHasNoOrigin,
    /// The requested kind of image creation is not supported.
    NotSupported,
}

/// The display form of an image-error code: the CamelCase variant name.
pub open spec fn error_code_text(c: ImageErrorCode) -> Seq<char> {
    match c {
        ImageErrorCode::PrepareImageDidNotRun => "PrepareImageDidNotRun"@,
        ImageErrorCode::VmHasNoOrigin => "VmHasNoOrigin"@,
        ImageErrorCode::NotSupported => "NotSupported"@,
    }
}

impl ImageErrorCode {
    /// The textual form of this code.
    pub fn as_param(&self) -> (r: &'static str)
        ensures
            r@ == error_code_text(*self),
    {
        match self {
            ImageErrorCode::PrepareImageDidNotRun => "PrepareImageDidNotRun",
            ImageErrorCode::VmHasNoOrigin => "VmHasNoOrigin",
            ImageErrorCode::NotSupported => "NotSupported",
        }
    }
}

/// The kind of compression applied to an image file.
#[derive(Debug, Clone, Copy, PartialEq, Eq, PartialOrd, Ord, Hash, Structural)]
pub enum Compression {
    Bzip2,
    Gzip,
    Uncompressed,
}

/// The wire and display form of a compression kind: the lowercase variant
/// name.
pub open spec fn compression_text(c: Compression) -> Seq<char> {
    match c {
        Compression::Bzip2 => "bzip2"@,
        Compression::Gzip => "gzip"@,
        Compression::Uncompressed => "none"@,
    }
}

/// The compression kind named by a piece of wire text, if any.
pub open spec fn compression_of_text(t: Seq<char>) -> Option<Compression> {
    if t == "bzip2"@ {
        Some(Compression::Bzip2)
    } else if t == "gzip"@ {
        Some(Compression::Gzip)
    } else if t == "none"@ {
        Some(Compression::Uncompressed)
    } else {
        None
    }
}

impl Compression {
    /// The textual form used on the wire and for display.
    pub fn as_param(&self) -> (r: &'static str)
        ensures
            r@ == compression_text(*self),
    {
        match self {
            Compression::Bzip2 => "bzip2",
            Compression::Gzip => "gzip",
            Compression::Uncompressed => "none",
        }
    }

    /// The compression kind named by the given wire text, exactly as the
    /// service spells it.
    pub fn from_param(t: &str) -> (r: Option<Compression>)
        ensures
            r == compression_of_text(t@),
    {
        if str_eq(t, "bzip2") {
            Some(Compression::Bzip2)
        } else if str_eq(t, "gzip") {
            Some(Compression::Gzip)
        } else if str_eq(t, "none") {
            Some(Compression::Uncompressed)
        } else {
            None
        }
    }
}

/// The kind of artifact an image provides.
#[derive(Debug, Clone, Copy, PartialEq, Eq, PartialOrd, Ord, Hash, Structural)]
pub enum ImageType {
    /// A ZFS dataset used to create a new SmartOS zone.
    ZoneDataset,
    /// An lx-brand image.
    LxDataset,
    /// A virtual machine image for use by KVM or Bhyve.
    Zvol,
    /// An image that serves any other purpose.
    Other,
}

/// The display form of an image type.
pub open spec fn image_type_display(t: ImageType) -> Seq<char> {
    match t {
        ImageType::ZoneDataset => "SmartOS zone dataset"@,
        ImageType::LxDataset => "Lx-brand dataset"@,
        ImageType::Zvol => "zvol"@,
        ImageType::Other => "Other"@,
    }
}

impl ImageType {
    /// The human-readable description of this image type.
    pub fn display_str(&self) -> (r: &'static str)
        ensures
            r@ == image_type_display(*self),
    {
        match self {
            ImageType::ZoneDataset => "SmartOS zone dataset",
            ImageType::LxDataset => "Lx-brand dataset",
            ImageType::Zvol => "zvol",
            ImageType::Other => "Other",
        }
    }
}

/// The operating-system family an image provides.
#[derive(Debug, Clone, Copy, PartialEq, Eq, PartialOrd, Ord, Hash, Structural)]
pub enum OperatingSystem {
    SmartOS,
    Windows,
    Linux,
    BSD,
    Illumos,
    Other,
}

/// The short wire form of an operating system, as it appears in a query
/// string: all lowercase, unlike the display form.
pub open spec fn os_param_text(o: OperatingSystem) -> Seq<char> {
    match o {
        OperatingSystem::SmartOS => "smartos"@,
        OperatingSystem::Windows => "windows"@,
        OperatingSystem::Linux => "linux"@,
        OperatingSystem::BSD => "bsd"@,
        OperatingSystem::Illumos => "illumos"@,
        OperatingSystem::Other => "other"@,
    }
}

/// The operating system named by a piece of lowercase text, if any.
pub open spec fn os_of_text(t: Seq<char>) -> Option<OperatingSystem> {
    if t == "smartos"@ {
        Some(OperatingSystem::SmartOS)
    } else if t == "windows"@ {
        Some(OperatingSystem::Windows)
    } else if t == "linux"@ {
        Some(OperatingSystem::Linux)
    } else if t == "bsd"@ {
        Some(OperatingSystem::BSD)
    } else if t == "illumos"@ {
        Some(OperatingSystem::Illumos)
    } else if t == "other"@ {
        Some(OperatingSystem::Other)
    } else {
        None
    }
}

/// The display form of an operating system.
pub open spec fn os_display(o: OperatingSystem) -> Seq<char> {
    match o {
        OperatingSystem::SmartOS => "SmartOS"@,
        OperatingSystem::Windows => "Windows"@,
        OperatingSystem::Linux => "Linux"@,
        OperatingSystem::BSD => "BSD"@,
        OperatingSystem::Illumos => "illumos"@,
        OperatingSystem::Other => "Other"@,
    }
}

impl OperatingSystem {
    /// The short textual form used in a query string (e.g. `smartos`), which
    /// differs from the display form.
    pub fn as_param(&self) -> (r: &'static str)
        ensures
            r@ == os_param_text(*self),
    {
        match self {
            OperatingSystem::SmartOS => "smartos",
            OperatingSystem::Windows => "windows",
            OperatingSystem::Linux => "linux",
            OperatingSystem::BSD => "bsd",
            OperatingSystem::Illumos => "illumos",
            OperatingSystem::Other => "other",
        }
    }

    /// The human-readable form of this operating system.
    pub fn display_str(&self) -> (r: &'static str)
        ensures
            r@ == os_display(*self),
    {
        match self {
            OperatingSystem::SmartOS => "SmartOS",
            OperatingSystem::Windows => "Windows",
            OperatingSystem::Linux => "Linux",
            OperatingSystem::BSD => "BSD",
            OperatingSystem::Illumos => "illumos",
            OperatingSystem::Other => "Other",
        }
    }

    /// Reads an operating-system name, ignoring case: the text is lowercased
    /// and must then match one of the six short names exactly.
    pub fn from_str(s: &str) -> (r: Result<OperatingSystem, ParseOsError>)
        ensures
            match r {
                Ok(o) => os_of_text(lower_of(s@)) == Some(o),
                Err(_) => os_of_text(lower_of(s@)) is None,
            },
    {
        let low = lowercase(s);
        match OperatingSystem::from_param_exact(low.as_str()) {
            Some(o) => Ok(o),
            None => Err(ParseOsError {}),
        }
    }

    /// The operating system named by the given lowercase text, with no case
    /// folding.
    pub fn from_param_exact(t: &str) -> (r: Option<OperatingSystem>)
        ensures
            r == os_of_text(t@),
    {
        if str_eq(t, "smartos") {
            Some(OperatingSystem::SmartOS)
        } else if str_eq(t, "windows") {
            Some(OperatingSystem::Windows)
        } else if str_eq(t, "linux") {
            Some(OperatingSystem::Linux)
        } else if str_eq(t, "bsd") {
            Some(OperatingSystem::BSD)
        } else if str_eq(t, "illumos") {
            Some(OperatingSystem::Illumos)
        } else if str_eq(t, "other") {
            Some(OperatingSystem::Other)
        } else {
            None
        }
    }
}

/// The boot ROM an image uses.
#[derive(Debug, Clone, Copy, PartialEq, Eq, PartialOrd, Ord, Hash, Structural)]
pub enum BootRom {
    Bios,
    Uefi,
}

/// The display form of a boot ROM kind.
pub open spec fn boot_rom_display(b: BootRom) -> Seq<char> {
    match b {
        BootRom::Bios => "BIOS"@,
        BootRom::Uefi => "UEFI"@,
    }
}

impl BootRom {
    /// The human-readable form of this boot ROM kind.
    pub fn display_str(&self) -> (r: &'static str)
        ensures
            r@ == boot_rom_display(*self),
    {
        match self {
            BootRom::Bios => "BIOS",
            BootRom::Uefi => "UEFI",
        }
    }
}

} // verus!
