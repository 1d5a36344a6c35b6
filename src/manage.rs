use vstd::prelude::*;
use crate::error::ManagerError;
use crate::layout::{package_path, package_path_of};
use crate::registry::{all_packages, components, id_of, lookup, package_named, registry_order};

verus! {

/// Whether one package is installed, as last probed.
pub struct InstallationStatus {
    pub name: String,
    pub installed: bool,
}

/// The install directory of every registered package, in registry order: the
/// caller probes each for existence and hands the answers to `statuses`.
pub fn probe_paths(root: &Vec<String>) -> (r: Vec<Vec<String>>)
    ensures
        r@.len() == registry_order().len(),
        forall|i: int|
            0 <= i < r@.len() ==> components(#[trigger] r@[i]@) == package_path_of(
                components(root@),
                registry_order()[i],
            ),
{
    let all = all_packages();
    let mut r: Vec<Vec<String>> = Vec::new();
    let mut i: usize = 0;
    while i < all.len()
        invariant
            i <= all@.len(),
            all@ == registry_order(),
            r@.len() == i,
            forall|j: int|
                0 <= j < i ==> components(#[trigger] r@[j]@) == package_path_of(
                    components(root@),
                    registry_order()[j],
                ),
        decreases all@.len() - i,
    {
        r.push(package_path(root, all[i]));
        i += 1;
    }
    r
}

/// Pairs each registered package's id with whether its install directory was
/// found, in registry order. Never cached: each call reports what it is given.
pub fn statuses(found: &Vec<bool>) -> (r: Vec<InstallationStatus>)
    requires
        found@.len() == registry_order().len(),
    ensures
        r@.len() == registry_order().len(),
        forall|i: int|
            0 <= i < r@.len() ==> (#[trigger] r@[i]).name@ == id_of(registry_order()[i])
                && r@[i].installed == found@[i],
{
    let all = all_packages();
    let mut r: Vec<InstallationStatus> = Vec::new();
    let mut i: usize = 0;
    while i < all.len()
        invariant
            i <= all@.len(),
            all@ == registry_order(),
            found@.len() == all@.len(),
            r@.len() == i,
            forall|j: int|
                0 <= j < i ==> (#[trigger] r@[j]).name@ == id_of(registry_order()[j])
                    && r@[j].installed == found@[j],
        decreases all@.len() - i,
    {
        r.push(InstallationStatus { name: String::from_str(all[i].id()), installed: found[i] });
        i += 1;
    }
    r
}

/// The install directory to remove when uninstalling the package named `name`.
pub fn uninstall_target(root: &Vec<String>, name: &str) -> (r: Result<Vec<String>, ManagerError>)
    ensures
        match package_named(name@) {
            None => r == Err::<Vec<String>, ManagerError>(ManagerError::UnknownPackage),
            Some(p) => r is Ok && components(r->Ok_0@) == package_path_of(components(root@), p),
        },
{
    let p = lookup(name)?;
    Ok(package_path(root, p))
}

/// Decides an uninstall from the probe of the install directory and, where it
/// exists, the outcome of removing it.
pub fn uninstall_verdict(exists: bool, removed: bool) -> (r: Result<(), ManagerError>)
    ensures
        !exists ==> r == Err::<(), ManagerError>(ManagerError::NotInstalled),
        exists && removed ==> r == Ok::<(), ManagerError>(()),
        exists && !removed ==> r == Err::<(), ManagerError>(ManagerError::CleanupFailed),
{
    if !exists {
        Err(ManagerError::NotInstalled)
    } else if removed {
        Ok(())
    } else {
        Err(ManagerError::CleanupFailed)
    }
}

} // verus!
