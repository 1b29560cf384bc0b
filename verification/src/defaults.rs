//! What this installer works with unless told otherwise: the package
//! managers it knows, the executables it needs, and its directories.

use vstd::prelude::*;
use crate::dependencies::{managers, PackageManager, PackageManagerView};
use crate::installer::{Locations, LocationsView};
use crate::text::texts;

verus! {

/// The known package managers, the one most at home with its index
/// first.
pub open spec fn known_managers() -> Seq<PackageManagerView> {
    seq![
        PackageManagerView {
            name: "pacman"@,
            update_cmd: "sudo pacman -Sy"@,
            install_args: "-S --noconfirm"@,
        },
        PackageManagerView {
            name: "apt"@,
            update_cmd: "sudo apt update"@,
            install_args: "install -y"@,
        },
        PackageManagerView {
            name: "dnf"@,
            update_cmd: "sudo dnf check-update"@,
            install_args: "install -y"@,
        },
    ]
}

/// The known package managers, in order of preference.
pub fn known_package_managers() -> (res: Vec<PackageManager>)
    ensures
        managers(res@) == known_managers(),
{
    let mut list: Vec<PackageManager> = Vec::new();
    list.push(PackageManager::new("pacman", "sudo pacman -Sy", "-S --noconfirm"));
    list.push(PackageManager::new("apt", "sudo apt update", "install -y"));
    list.push(PackageManager::new("dnf", "sudo dnf check-update", "install -y"));
    proof {
        assert(managers(list@) =~= known_managers());
    }
    list
}

/// The executables that the installation needs, in the order in which
/// they are looked up.
pub open spec fn required_names() -> Seq<Seq<char>> {
    seq!["curl"@, "7z"@, "rsync"@]
}

/// The executables that the installation needs.
pub fn required_dependencies() -> (res: Vec<String>)
    ensures
        texts(res@) == required_names(),
{
    let mut list: Vec<String> = Vec::new();
    list.push(String::from_str("curl"));
    list.push(String::from_str("7z"));
    list.push(String::from_str("rsync"));
    proof {
        assert(texts(list@) =~= required_names());
    }
    list
}

/// The directories of a standard installation, around the archive
/// given.
pub open spec fn standard_places(archive: Option<Seq<char>>) -> LocationsView {
    LocationsView {
        archive,
        scratch_dir: "./extracted"@,
        target_dir: "/usr/share/rime-data"@,
        backup_prefix: "/usr/share/rime-backup"@,
    }
}

/// The places of a standard installation from the archive given.
pub fn standard_locations(archive: Option<&str>) -> (res: Locations)
    ensures
        res@ == standard_places(
            match archive {
                Some(path) => Some(path@),
                None => None,
            },
        ),
{
    let archive = match archive {
        Some(path) => Some(String::from_str(path)),
        None => None,
    };
    Locations {
        archive,
        scratch_dir: String::from_str("./extracted"),
        target_dir: String::from_str("/usr/share/rime-data"),
        backup_prefix: String::from_str("/usr/share/rime-backup"),
    }
}

} // verus!
