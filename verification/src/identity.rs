//! One-shot lookup of the static OS identity: name, kernel, version
//! and architecture, invariant for the process lifetime.

use vstd::prelude::*;

use crate::model::OsInfo;

verus! {

#[verifier::external_type_specification]
#[verifier::external_body]
pub struct ExInfo(os_info::Info);

/// Relies on sysinfo::System::name: the OS name, when known.
#[verifier::external_body]
fn os_name_raw() -> Option<String> {
    sysinfo::System::name()
}

/// Relies on sysinfo::System::kernel_version: the kernel version, when
/// known.
#[verifier::external_body]
fn kernel_version_raw() -> Option<String> {
    sysinfo::System::kernel_version()
}

/// Relies on sysinfo::System::os_version: the OS version, when known.
#[verifier::external_body]
fn os_version_raw() -> Option<String> {
    sysinfo::System::os_version()
}

/// Relies on os_info::get: queries the host's OS identity record.
#[verifier::external_body]
fn os_info_query() -> os_info::Info {
    os_info::get()
}

/// Relies on os_info::Info::architecture: the architecture string, when
/// known.
#[verifier::external_body]
fn architecture_raw(info: &os_info::Info) -> Option<String> {
    info.architecture().map(|a| a.to_string())
}

/// A lookup result, or the fixed placeholder when the OS gave none.
pub fn or_unknown(v: Option<String>) -> (r: String)
    ensures
        v matches Some(s) ==> r@ == s@,
        v is None ==> r@ == "Unknown"@,
{
    match v {
        Some(s) => s,
        None => "Unknown".to_string(),
    }
}

/// Assemble the identity record from the raw lookup results: absent
/// name, kernel or version become the fixed placeholder, an absent
/// architecture falls back to the build-time architecture the caller
/// supplies.
pub fn build_os_identity(
    name: Option<String>,
    kernel: Option<String>,
    version: Option<String>,
    arch: Option<String>,
    fallback_arch: String,
) -> (o: OsInfo)
    ensures
        name matches Some(s) ==> o.name@ == s@,
        name is None ==> o.name@ == "Unknown"@,
        kernel matches Some(s) ==> o.kernel@ == s@,
        kernel is None ==> o.kernel@ == "Unknown"@,
        version matches Some(s) ==> o.version@ == s@,
        version is None ==> o.version@ == "Unknown"@,
        arch matches Some(s) ==> o.arch@ == s@,
        arch is None ==> o.arch == fallback_arch,
{
    let arch_value = match arch {
        Some(a) => a,
        None => fallback_arch,
    };
    OsInfo {
        name: or_unknown(name),
        kernel: or_unknown(kernel),
        version: or_unknown(version),
        arch: arch_value,
    }
}

/// The OS identity, read once: the lookups are machine-dependent, the
/// fallback rules applied to them are those of `build_os_identity`.
pub fn get_os_info(fallback_arch: String) -> OsInfo {
    let info = os_info_query();
    let arch = architecture_raw(&info);
    build_os_identity(os_name_raw(), kernel_version_raw(), os_version_raw(), arch, fallback_arch)
}

} // verus!
