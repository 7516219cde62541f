//! The root file systems of registered Functions.

use vstd::prelude::*;
use vstd::string::*;

use crate::metadata::FunctionId;
use crate::paths::join_paths;
use crate::runtime::fc::config::FirecrackerConfig;
use crate::runtime::fc::error::Error;
use crate::runtime::registration::RegistrationError;
use crate::text::{concat, split_once};

verus! {

/// The type `dashmap::DashMap`.
#[verifier::external_type_specification]
#[verifier::external_body]
#[verifier::reject_recursive_types(K)]
#[verifier::reject_recursive_types(V)]
#[verifier::reject_recursive_types(S)]
pub struct ExDashMap<K, V, S>(dashmap::DashMap<K, V, S>);

/// The texts that a map of strings holds.
pub uninterp spec fn held(map: dashmap::DashMap<String, String>) -> Map<Seq<char>, Seq<char>>;

/// Calls `dashmap::DashMap::new`: a map that holds nothing.
#[verifier::external_body]
pub(crate) fn new_map() -> (r: dashmap::DashMap<String, String>)
    ensures
        held(r).dom() == Set::<Seq<char>>::empty(),
{
    dashmap::DashMap::new()
}

/// Calls `dashmap::DashMap::insert`: the value replaces the one that the key had, if any.
#[verifier::external_body]
pub(crate) fn map_insert(map: &mut dashmap::DashMap<String, String>, key: String, value: String)
    ensures
        held(*final(map)) == held(*old(map)).insert(key@, value@),
{
    map.insert(key, value);
}

/// Calls `dashmap::DashMap::remove`: the key and its value go, if they are there.
#[verifier::external_body]
pub(crate) fn map_remove(map: &mut dashmap::DashMap<String, String>, key: &str)
    ensures
        held(*final(map)) == held(*old(map)).remove(key@),
{
    map.remove(key);
}

/// Calls `dashmap::DashMap::get`: a copy of the key's value, if it has one.
#[verifier::external_body]
pub(crate) fn map_get(map: &dashmap::DashMap<String, String>, key: &str) -> (r: Option<String>)
    ensures
        match r {
            Some(value) => held(*map).contains_key(key@) && held(*map)[key@] == value@,
            None => !held(*map).contains_key(key@),
        },
{
    map.get(key).map(|entry| entry.value().clone())
}

/// The part of a Function's name that names its root file system: all before the first dash.
pub open spec fn is_rootfs_prefix(prefix: Seq<char>, function_id: Seq<char>) -> bool {
    !prefix.contains('-') && exists|suffix: Seq<char>|
        function_id == #[trigger] (prefix + seq!['-'] + suffix)
}

/// Where the root file system of a Function has to be.
pub fn rootfs_path(config: &FirecrackerConfig, function_id: &FunctionId) -> (r: Result<
    String,
    RegistrationError,
>)
    ensures
        match r {
            Ok(path) => exists|prefix: Seq<char>|
                #[trigger] is_rootfs_prefix(prefix, function_id@) && path@ == crate::paths::joined(
                    config.uvms_rootfs_path@,
                    prefix + ".ext4"@,
                ),
            Err(err) => !function_id@.contains('-') && err == RegistrationError::FunctionIdFormat(
                *function_id,
            ),
        },
{
    match split_once(function_id.as_str(), '-') {
        Some((prefix, suffix)) => {
            proof {
                assert(function_id@ == prefix@ + seq!['-'] + suffix@);
                assert(is_rootfs_prefix(prefix@, function_id@));
            }
            Ok(
                join_paths(
                    config.uvms_rootfs_path.as_str(),
                    concat(prefix.as_str(), ".ext4").as_str(),
                ),
            )
        },
        None => Err(RegistrationError::FunctionIdFormat(function_id.clone())),
    }
}

/// A registration failed because there is no root file system at the path given.
pub open spec fn is_missing(
    r: Result<(), RegistrationError>,
    at: Seq<char>,
    why: String,
) -> bool {
    match r {
        Err(RegistrationError::MissingRootfs { path, err }) => path@ == at && err == why,
        _ => false,
    }
}

/// The root file systems of registered Functions.
pub struct RootfsRegistry {
    paths: dashmap::DashMap<String, String>,
}

impl View for RootfsRegistry {
    type V = Map<Seq<char>, Seq<char>>;

    closed spec fn view(&self) -> Map<Seq<char>, Seq<char>> {
        held(self.paths)
    }
}

impl RootfsRegistry {
    pub fn new() -> (r: RootfsRegistry)
        ensures
            r@ == Map::<Seq<char>, Seq<char>>::empty(),
    {
        let r = RootfsRegistry { paths: new_map() };
        assert(r@ =~= Map::<Seq<char>, Seq<char>>::empty());
        r
    }

    /// Registers a Function, given whether its root file system is where it has to be.
    pub fn register_function(
        &mut self,
        config: &FirecrackerConfig,
        function_id: &FunctionId,
        found: Result<(), String>,
    ) -> (r: Result<(), RegistrationError>)
        ensures
            !function_id@.contains('-') ==> {
                &&& r == Err::<(), _>(RegistrationError::FunctionIdFormat(*function_id))
                &&& final(self)@ == old(self)@
            },
            forall|prefix: Seq<char>| #[trigger]
                is_rootfs_prefix(prefix, function_id@) ==> {
                    let path = crate::paths::joined(config.uvms_rootfs_path@, prefix + ".ext4"@);
                    match found {
                        Ok(_) => r is Ok && final(self)@ == old(self)@.insert(function_id@, path),
                        Err(err) => is_missing(r, path, err) && final(self)@ == old(self)@,
                    }
                },
    {
        let path = match rootfs_path(config, function_id) {
            Ok(path) => path,
            Err(err) => {
                proof {
                    assert forall|prefix: Seq<char>| #[trigger]
                        is_rootfs_prefix(prefix, function_id@) implies false by {
                        law_rootfs_prefix_is_unique(function_id@, prefix, prefix);
                    }
                }
                return Err(err);
            },
        };
        proof {
            let one = choose|prefix: Seq<char>| #[trigger]
                is_rootfs_prefix(prefix, function_id@) && path@ == crate::paths::joined(
                    config.uvms_rootfs_path@,
                    prefix + ".ext4"@,
                );
            assert forall|prefix: Seq<char>| #[trigger]
                is_rootfs_prefix(prefix, function_id@) implies prefix == one by {
                law_rootfs_prefix_is_unique(function_id@, prefix, one);
            }
            law_rootfs_prefix_is_unique(function_id@, one, one);
        }
        match found {
            Ok(_) => {
                map_insert(&mut self.paths, function_id.clone(), path);
                Ok(())
            },
            Err(err) => Err(RegistrationError::MissingRootfs { path, err }),
        }
    }

    /// Forgets a Function, registered or not.
    pub fn deregister_function(&mut self, function_id: &FunctionId)
        ensures
            final(self)@ == old(self)@.remove(function_id@),
    {
        map_remove(&mut self.paths, function_id.as_str());
    }

    /// The root file system of a registered Function.
    pub fn lookup_rootfs_path(&self, function_id: &FunctionId) -> (r: Result<String, Error>)
        ensures
            match r {
                Ok(path) => self@.contains_key(function_id@) && path@ == self@[function_id@],
                Err(err) => !self@.contains_key(function_id@) && err == (Error::Init {
                    function_id: *function_id,
                }),
            },
    {
        match map_get(&self.paths, function_id.as_str()) {
            Some(path) => Ok(path),
            None => Err(Error::Init { function_id: function_id.clone() }),
        }
    }
}

/// A Function's name has at most one prefix that names its root file system, and one if and
/// only if there is a dash in it.
pub proof fn law_rootfs_prefix_is_unique(function_id: Seq<char>, a: Seq<char>, b: Seq<char>)
    ensures
        is_rootfs_prefix(a, function_id) && is_rootfs_prefix(b, function_id) ==> a == b,
        is_rootfs_prefix(a, function_id) ==> function_id.contains('-'),
{
    if is_rootfs_prefix(a, function_id) {
        assert(function_id[a.len() as int] == '-');
        if is_rootfs_prefix(b, function_id) {
            assert(function_id[b.len() as int] == '-');
            if a.len() < b.len() {
                assert(b[a.len() as int] == '-');
            }
            if b.len() < a.len() {
                assert(a[b.len() as int] == '-');
            }
            assert(a =~= function_id.take(a.len() as int));
            assert(b =~= function_id.take(a.len() as int));
        }
    }
}

} // verus!
