use vstd::prelude::*;
use crate::error::ManagerError;
use crate::registry::{
    components, dir_key_of, executable_rel_of, extension_of, archive_kind_of, lookup,
    package_named, Package, Platform,
};

verus! {

/// The installation root under the per-user local application-data directory.
pub open spec fn install_root_of(data_dir: Seq<Seq<char>>) -> Seq<Seq<char>> {
    data_dir + seq!["EmulatorX"@, "emulators"@]
}

/// A package's install directory: the root joined with its directory key.
pub open spec fn package_path_of(root: Seq<Seq<char>>, p: Package) -> Seq<Seq<char>> {
    root.push(dir_key_of(p))
}

/// The staging directory shared by all packages, under the temp directory.
pub open spec fn staging_dir_of(temp: Seq<Seq<char>>) -> Seq<Seq<char>> {
    temp.push("emulatorx_downloads"@)
}

/// The staging file a package's archive is downloaded to.
pub open spec fn staging_path_of(temp: Seq<Seq<char>>, p: Package) -> Seq<Seq<char>> {
    staging_dir_of(temp).push(dir_key_of(p) + extension_of(archive_kind_of(p)))
}

/// Copies a path component by component.
pub fn copy_path(path: &Vec<String>) -> (r: Vec<String>)
    ensures
        components(r@) == components(path@),
{
    let mut r: Vec<String> = Vec::new();
    let mut i: usize = 0;
    while i < path.len()
        invariant
            i <= path@.len(),
            components(r@) == components(path@.take(i as int)),
        decreases path@.len() - i,
    {
        r.push(path[i].clone());
        i += 1;
        assert(components(path@.take(i as int)) =~= components(path@.take(i - 1)).push(path@[i - 1]@));
        assert(components(r@) =~= components(path@.take(i - 1)).push(path@[i - 1]@));
    }
    assert(path@.take(i as int) =~= path@);
    r
}

/// Appends `extra`'s components to `path`.
pub fn join_all(path: &mut Vec<String>, extra: Vec<String>)
    ensures
        components(final(path)@) == components(old(path)@) + components(extra@),
{
    let ghost start = components(path@);
    let mut i: usize = 0;
    while i < extra.len()
        invariant
            i <= extra@.len(),
            components(path@) == start + components(extra@.take(i as int)),
        decreases extra@.len() - i,
    {
        let s = extra[i].clone();
        proof {
            lemma_push_components(path@, s);
        }
        path.push(s);
        i += 1;
        assert(components(extra@.take(i as int)) =~= components(extra@.take(i - 1)).push(extra@[i - 1]@));
        assert(components(path@) =~= start + components(extra@.take(i as int)));
    }
    assert(extra@.take(i as int) =~= extra@);
}

proof fn lemma_push_components(v: Seq<String>, s: String)
    ensures
        components(v.push(s)) == components(v).push(s@),
{
    assert(components(v.push(s)) =~= components(v).push(s@));
}

/// Appends one component to a path.
fn push_component(path: &mut Vec<String>, c: &str)
    ensures
        components(final(path)@) == components(old(path)@).push(c@),
{
    let s = String::from_str(c);
    proof {
        lemma_push_components(path@, s);
    }
    path.push(s);
}

/// The installation root under the per-user local application-data directory.
pub fn install_root(data_dir: &Vec<String>) -> (r: Vec<String>)
    ensures
        components(r@) == install_root_of(components(data_dir@)),
{
    let mut r = copy_path(data_dir);
    push_component(&mut r, "EmulatorX");
    push_component(&mut r, "emulators");
    assert(components(r@) =~= install_root_of(components(data_dir@)));
    r
}

/// A package's install directory. Pure path construction.
pub fn package_path(root: &Vec<String>, p: Package) -> (r: Vec<String>)
    ensures
        components(r@) == package_path_of(components(root@), p),
{
    let mut r = copy_path(root);
    push_component(&mut r, p.dir_key());
    r
}

/// The staging directory shared by all packages.
pub fn staging_dir(temp: &Vec<String>) -> (r: Vec<String>)
    ensures
        components(r@) == staging_dir_of(components(temp@)),
{
    let mut r = copy_path(temp);
    push_component(&mut r, "emulatorx_downloads");
    r
}

/// The staging file a package's archive is downloaded to.
pub fn staging_path(temp: &Vec<String>, p: Package) -> (r: Vec<String>)
    ensures
        components(r@) == staging_path_of(components(temp@), p),
{
    let mut r = staging_dir(temp);
    let name = p.staging_file_name();
    proof {
        lemma_push_components(r@, name);
    }
    r.push(name);
    r
}

/// The settings document inside the installation root.
pub fn settings_path(root: &Vec<String>) -> (r: Vec<String>)
    ensures
        components(r@) == components(root@).push("settings.json"@),
{
    let mut r = copy_path(root);
    push_component(&mut r, "settings.json");
    r
}

/// Where a downloaded ROM file named `file_name` is kept.
pub fn rom_path(root: &Vec<String>, file_name: &str) -> (r: Vec<String>)
    ensures
        components(r@) == components(root@).push("roms"@).push(file_name@),
{
    let mut r = copy_path(root);
    push_component(&mut r, "roms");
    push_component(&mut r, file_name);
    r
}

/// Where the executable of the package named `name` is expected for
/// `platform`: its install directory joined with the registry's relative path.
/// Resolution is declarative; whether the file exists is checked by
/// `confirm_executable`.
pub fn executable_candidate(root: &Vec<String>, name: &str, platform: Platform) -> (r: Result<
    Vec<String>,
    ManagerError,
>)
    ensures
        match package_named(name@) {
            None => r == Err::<Vec<String>, ManagerError>(ManagerError::UnknownPackage),
            Some(p) => match executable_rel_of(p, platform) {
                None => r == Err::<Vec<String>, ManagerError>(ManagerError::UnsupportedPlatform),
                Some(rel) => r is Ok && components(r->Ok_0@) == package_path_of(
                    components(root@),
                    p,
                ) + rel,
            },
        },
{
    let p = lookup(name)?;
    let rel = p.executable_rel_path(platform)?;
    let mut r = package_path(root, p);
    join_all(&mut r, rel);
    Ok(r)
}

/// Completes resolution once the caller has probed `searched`: the path itself
/// where it exists, else `ExecutableNotFound` with the install directory's
/// top-level entries attached.
pub fn confirm_executable(searched: Vec<String>, exists: bool, listing: Vec<String>) -> (r: Result<
    Vec<String>,
    ManagerError,
>)
    ensures
        exists ==> r == Ok::<Vec<String>, ManagerError>(searched),
        !exists ==> r == Err::<Vec<String>, ManagerError>(
            ManagerError::ExecutableNotFound { searched, listing },
        ),
{
    if exists {
        Ok(searched)
    } else {
        Err(ManagerError::ExecutableNotFound { searched, listing })
    }
}

/// The directory a launched executable runs in: the one that holds it.
pub fn working_directory(exe: &Vec<String>) -> (r: Vec<String>)
    requires
        exe@.len() > 0,
    ensures
        components(r@) == components(exe@).drop_last(),
{
    let mut r = copy_path(exe);
    r.pop();
    assert(components(r@) =~= components(exe@).drop_last());
    r
}

} // verus!
