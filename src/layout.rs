//! Where the modding toolkit lives under the launcher's directory, and the
//! two package kinds that it is made of.

use vstd::prelude::*;
use crate::sync::PackageKind;
use crate::text::{join_path, path_join};

verus! {

/// The release feed of the library package (the injected modules).
pub const XXMI_LIBS_API: &'static str = "https://api.github.com/repos/SpectrumQT/XXMI-Libs-Package/releases/latest";

/// The release feed of the configuration package (the injector's
/// configuration, its core scripts and shader fixes).
pub const ZZMI_PACKAGE_API: &'static str = "https://api.github.com/repos/leotorrez/ZZMI-Package/releases/latest";

/// What an installation of the toolkit consists of.
#[derive(Debug, Clone)]
pub struct ZzmiInfo {
    pub libs_version: String,
    pub zzmi_version: String,
    pub libs_path: String,
    pub zzmi_path: String,
}

/// The toolkit's base directory inside the launcher's directory.
pub fn get_zzmi_base_dir(launcher_dir: &str) -> (r: String)
    ensures
        r@ == path_join(launcher_dir@, "zzmi"@),
{
    join_path(launcher_dir, "zzmi")
}

/// The install directory of the library package.
pub fn get_libs_dir(launcher_dir: &str) -> (r: String)
    ensures
        r@ == path_join(path_join(launcher_dir@, "zzmi"@), "xxmi-libs"@),
{
    join_path(get_zzmi_base_dir(launcher_dir).as_str(), "xxmi-libs")
}

/// The install directory of the configuration package.
pub fn get_zzmi_dir(launcher_dir: &str) -> (r: String)
    ensures
        r@ == path_join(path_join(launcher_dir@, "zzmi"@), "zzmi-package"@),
{
    join_path(get_zzmi_base_dir(launcher_dir).as_str(), "zzmi-package")
}

/// The default folder of the user's mods.
pub fn get_default_mods_dir(launcher_dir: &str) -> (r: String)
    ensures
        r@ == path_join(path_join(launcher_dir@, "zzmi"@), "Mods"@),
{
    join_path(get_zzmi_base_dir(launcher_dir).as_str(), "Mods")
}

/// The folder where downloaded archives wait to be unpacked.
pub fn get_cache_dir(launcher_dir: &str) -> (r: String)
    ensures
        r@ == path_join(path_join(launcher_dir@, "zzmi"@), "cache"@),
{
    join_path(get_zzmi_base_dir(launcher_dir).as_str(), "cache")
}

/// The library package: assets named `XXMI-PACKAGE*.zip`.
pub fn xxmi_libs_kind(launcher_dir: &str) -> (r: PackageKind)
    ensures
        r.feed_url@ == XXMI_LIBS_API@,
        r.asset_prefix@ == "XXMI-PACKAGE"@,
        r.install_dir@ == path_join(path_join(launcher_dir@, "zzmi"@), "xxmi-libs"@),
        r.cache_dir@ == path_join(path_join(launcher_dir@, "zzmi"@), "cache"@),
        r.archive_stem@ == "xxmi-libs"@,
{
    PackageKind {
        feed_url: XXMI_LIBS_API.to_string(),
        asset_prefix: "XXMI-PACKAGE".to_string(),
        install_dir: get_libs_dir(launcher_dir),
        cache_dir: get_cache_dir(launcher_dir),
        archive_stem: "xxmi-libs".to_string(),
    }
}

/// The configuration package: assets named `ZZMI*.zip`.
pub fn zzmi_package_kind(launcher_dir: &str) -> (r: PackageKind)
    ensures
        r.feed_url@ == ZZMI_PACKAGE_API@,
        r.asset_prefix@ == "ZZMI"@,
        r.install_dir@ == path_join(path_join(launcher_dir@, "zzmi"@), "zzmi-package"@),
        r.cache_dir@ == path_join(path_join(launcher_dir@, "zzmi"@), "cache"@),
        r.archive_stem@ == "zzmi-package"@,
{
    PackageKind {
        feed_url: ZZMI_PACKAGE_API.to_string(),
        asset_prefix: "ZZMI".to_string(),
        install_dir: get_zzmi_dir(launcher_dir),
        cache_dir: get_cache_dir(launcher_dir),
        archive_stem: "zzmi-package".to_string(),
    }
}

} // verus!
