//! Where DepotDownloader is fetched from, and how its archive is unpacked.

use vstd::prelude::*;
use vstd::string::*;
use crate::platform::{arch_label, arch_label_spec, os_name_spec, Os};
use crate::text::str_equals;

verus! {

/// The DepotDownloader release the application uses.
pub const DEPOTDOWNLOADER_VERSION: &'static str = "3.0.0";

/// The download address of the DepotDownloader release for an operating
/// system and a raw architecture name.
pub open spec fn depotdownloader_url_spec(os: Os, arch: Seq<char>) -> Seq<char> {
    "https://github.com/SteamRE/DepotDownloader/releases/download/DepotDownloader_"@
        + DEPOTDOWNLOADER_VERSION@ + "/DepotDownloader-"@ + os_name_spec(os) + "-"@
        + arch_label_spec(arch) + ".zip"@
}

/// The file name under which the DepotDownloader archive is stored, for a raw
/// operating-system name.
pub open spec fn depotdownloader_zip_name_spec(os_name: Seq<char>) -> Seq<char> {
    "DepotDownloader-v"@ + DEPOTDOWNLOADER_VERSION@ + "-"@ + os_name + ".zip"@
}

/// Unix permission bits that make a file executable by everyone and writable by its owner.
pub const EXECUTABLE_MODE: u32 = 0o755;

/// The permission modes to give an extracted file, in order: the mode stored
/// in the archive, if any, then the executable mode if the file is the
/// DepotDownloader program itself.
pub open spec fn extraction_modes_spec(unix_mode: Option<u32>, file_name: Seq<char>) -> Seq<u32> {
    let stored = match unix_mode {
        Some(m) => seq![m],
        None => Seq::empty(),
    };
    if file_name == "DepotDownloader"@ {
        stored.push(EXECUTABLE_MODE)
    } else {
        stored
    }
}

/// The address from which the DepotDownloader release for `os` and the raw
/// architecture name `arch` (such as `std::env::consts::ARCH`) is downloaded.
pub fn get_depotdownloader_url(os: Os, arch: &str) -> (r: String)
    ensures
        r@ == depotdownloader_url_spec(os, arch@),
{
    let mut url = String::from_str(
        "https://github.com/SteamRE/DepotDownloader/releases/download/DepotDownloader_",
    );
    url.append(DEPOTDOWNLOADER_VERSION);
    url.append("/DepotDownloader-");
    url.append(os.name());
    url.append("-");
    url.append(arch_label(arch));
    url.append(".zip");
    url
}

/// The name of the file the DepotDownloader archive is saved as, for the raw
/// operating-system name `os_name` (such as `std::env::consts::OS`).
pub fn depotdownloader_zip_name(os_name: &str) -> (r: String)
    ensures
        r@ == depotdownloader_zip_name_spec(os_name@),
{
    let mut name = String::from_str("DepotDownloader-v");
    name.append(DEPOTDOWNLOADER_VERSION);
    name.append("-");
    name.append(os_name);
    name.append(".zip");
    name
}

/// The permission modes to set, in order, on a file extracted from the
/// DepotDownloader archive (see [`extraction_modes_spec`]).
pub fn extraction_modes(unix_mode: Option<u32>, file_name: &str) -> (r: Vec<u32>)
    ensures
        r@ == extraction_modes_spec(unix_mode, file_name@),
{
    let mut modes = Vec::new();
    if let Some(m) = unix_mode {
        modes.push(m);
    }
    if str_equals(file_name, "DepotDownloader") {
        modes.push(EXECUTABLE_MODE);
    }
    assert(modes@ =~= extraction_modes_spec(unix_mode, file_name@));
    modes
}

/// The modes for an extracted file: any mode stored in the archive comes
/// first; the DepotDownloader program always ends with the executable mode
/// `0o755`, whatever the archive stores; other files get only the stored mode.
pub proof fn law_extraction_modes(unix_mode: Option<u32>, file_name: Seq<char>)
    ensures
        EXECUTABLE_MODE == 0o755,
        ({
            let modes = extraction_modes_spec(unix_mode, file_name);
            &&& modes.len() == (if unix_mode is Some { 1int } else { 0 }) + (if file_name
                == "DepotDownloader"@ { 1int } else { 0 })
            &&& unix_mode is Some ==> modes[0] == unix_mode->0
            &&& file_name == "DepotDownloader"@ ==> modes.last() == 0o755
        }),
{
}

/// Every release address points at the DepotDownloader 3.0.0 release on
/// GitHub and names a zip for the operating system and architecture; the
/// archive is saved under a name that holds the version and the raw system name.
pub proof fn law_release_address(os: Os, arch: Seq<char>, os_name: Seq<char>)
    ensures
        DEPOTDOWNLOADER_VERSION@ == "3.0.0"@,
        ({
            let prefix = "https://github.com/SteamRE/DepotDownloader/releases/download/DepotDownloader_3.0.0/DepotDownloader-"@;
            let url = depotdownloader_url_spec(os, arch);
            &&& url.take(prefix.len() as int) == prefix
            &&& url.skip(prefix.len() as int) == os_name_spec(os) + "-"@ + arch_label_spec(arch) + ".zip"@
        }),
        depotdownloader_zip_name_spec(os_name) == "DepotDownloader-v3.0.0-"@ + os_name + ".zip"@,
{
    reveal_strlit("3.0.0");
    reveal_strlit("https://github.com/SteamRE/DepotDownloader/releases/download/DepotDownloader_");
    reveal_strlit("/DepotDownloader-");
    reveal_strlit("https://github.com/SteamRE/DepotDownloader/releases/download/DepotDownloader_3.0.0/DepotDownloader-");
    reveal_strlit("DepotDownloader-v");
    reveal_strlit("-");
    reveal_strlit("DepotDownloader-v3.0.0-");
    let prefix = "https://github.com/SteamRE/DepotDownloader/releases/download/DepotDownloader_3.0.0/DepotDownloader-"@;
    let url = depotdownloader_url_spec(os, arch);
    let rest = os_name_spec(os) + "-"@ + arch_label_spec(arch) + ".zip"@;
    assert("https://github.com/SteamRE/DepotDownloader/releases/download/DepotDownloader_"@
        + DEPOTDOWNLOADER_VERSION@ + "/DepotDownloader-"@ =~= prefix);
    assert(url =~= prefix + rest);
    assert(url.take(prefix.len() as int) =~= prefix);
    assert(url.skip(prefix.len() as int) =~= rest);
    assert("DepotDownloader-v"@ + DEPOTDOWNLOADER_VERSION@ + "-"@ =~= "DepotDownloader-v3.0.0-"@);
    assert(depotdownloader_zip_name_spec(os_name) =~= "DepotDownloader-v3.0.0-"@ + os_name + ".zip"@);
}

} // verus!
