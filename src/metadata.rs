//! Package descriptors as publishers upload them, index records as the
//! registry stores them, and the transformation from one to the other.

use std::collections::BTreeMap;
use vstd::prelude::*;

verus! {

/// One dependency of an uploaded package, as the publisher describes it.
pub struct PublishedCrateDependency {
    pub optional: bool,
    pub default_features: bool,
    pub name: String,
    pub features: Vec<String>,
    pub version_req: String,
    pub target: Option<String>,
    pub kind: String,
    pub registry: Option<String>,
    /// The name under which the dependent refers to this dependency, when it
    /// renames it.
    pub explicit_name_in_toml: Option<String>,
}

/// An uploaded package's descriptor. The version is held as the text of a
/// valid semantic version.
pub struct PublishedCrate {
    pub name: String,
    pub vers: String,
    pub deps: Vec<PublishedCrateDependency>,
    pub features: BTreeMap<String, Vec<String>>,
    pub authors: Vec<String>,
    pub description: Option<String>,
    pub documentation: Option<String>,
    pub homepage: Option<String>,
    pub readme: Option<String>,
    pub readme_file: Option<String>,
    pub keywords: Vec<String>,
    pub categories: Vec<String>,
    pub license: Option<String>,
    pub license_file: Option<String>,
    pub repository: Option<String>,
    pub badges: BTreeMap<String, BTreeMap<String, String>>,
    pub links: Option<String>,
    pub v: Option<u32>,
}

/// One dependency of an index record.
pub struct RegistryDependency {
    pub name: String,
    pub req: String,
    pub features: Vec<String>,
    pub optional: bool,
    pub default_features: bool,
    pub target: Option<String>,
    pub kind: Option<String>,
    pub registry: Option<String>,
    /// The dependency's own name, when `name` is a rename of it.
    pub package: Option<String>,
    pub public: Option<bool>,
}

/// The index record of one published version.
pub struct RegistryPackage {
    pub name: String,
    pub vers: String,
    pub deps: Vec<RegistryDependency>,
    pub features: BTreeMap<String, Vec<String>>,
    pub cksum: String,
    pub yanked: bool,
    pub links: Option<String>,
    pub v: Option<u32>,
}

/// The index form of a dependency: a rename becomes the name, and the
/// original name moves to `package`; the kind is always present and every
/// dependency is public.
pub open spec fn registry_dep_of(d: PublishedCrateDependency) -> RegistryDependency {
    RegistryDependency {
        name: match d.explicit_name_in_toml {
            Some(explicit) => explicit,
            None => d.name,
        },
        req: d.version_req,
        features: d.features,
        optional: d.optional,
        default_features: d.default_features,
        target: d.target,
        kind: Some(d.kind),
        registry: d.registry,
        package: match d.explicit_name_in_toml {
            Some(_) => Some(d.name),
            None => None,
        },
        public: Some(true),
    }
}

/// `r` is the index record of descriptor `input` with archive checksum
/// `cksum`: name, version, features, links and protocol version carried
/// over, each dependency in its index form and in order, not yanked.
pub open spec fn is_record_of(r: RegistryPackage, input: PublishedCrate, cksum: String) -> bool {
    &&& r.name == input.name
    &&& r.vers == input.vers
    &&& r.deps@ == input.deps@.map_values(|d| registry_dep_of(d))
    &&& r.features == input.features
    &&& r.cksum == cksum
    &&& !r.yanked
    &&& r.links == input.links
    &&& r.v == input.v
}

/// The index form of one dependency.
pub fn dependency_to_registry(dep: PublishedCrateDependency) -> (r: RegistryDependency)
    ensures
        r == registry_dep_of(dep),
{
    let (name, package) = match dep.explicit_name_in_toml {
        Some(explicit) => (explicit, Some(dep.name)),
        None => (dep.name, None),
    };
    RegistryDependency {
        name,
        req: dep.version_req,
        features: dep.features,
        optional: dep.optional,
        default_features: dep.default_features,
        target: dep.target,
        kind: Some(dep.kind),
        registry: dep.registry,
        package,
        public: Some(true),
    }
}

/// Builds the index record of an uploaded package from its descriptor and
/// the checksum of its archive. The record is never yanked when created.
pub fn crate_to_package(input: PublishedCrate, cksum: String) -> (r: RegistryPackage)
    ensures
        is_record_of(r, input, cksum),
{
    let PublishedCrate { name, vers, deps, features, links, v, .. } = input;
    let ghost orig = deps@;
    let mut rest = deps;
    let mut out: Vec<RegistryDependency> = Vec::new();
    while rest.len() > 0
        invariant
            out@.len() + rest@.len() == orig.len(),
            rest@ == orig.subrange(out@.len() as int, orig.len() as int),
            forall|i: int| 0 <= i < out@.len() ==> out@[i] == registry_dep_of(#[trigger] orig[i]),
        decreases rest@.len(),
    {
        let d = rest.remove(0);
        proof {
            assert(d == orig[out@.len() as int]);
        }
        out.push(dependency_to_registry(d));
    }
    proof {
        assert(out@ =~= orig.map_values(|d| registry_dep_of(d)));
    }
    RegistryPackage { name, vers, deps: out, features, cksum, yanked: false, links, v }
}

/// How a rename shows in the index: a renamed dependency is listed under its
/// new name with its own name as `package`; any other keeps its name and has
/// no `package`.
pub proof fn lemma_dependency_rename(d: PublishedCrateDependency)
    ensures
        d.explicit_name_in_toml.is_some() ==> registry_dep_of(d).name
            == d.explicit_name_in_toml.unwrap() && registry_dep_of(d).package == Some(d.name),
        d.explicit_name_in_toml.is_none() ==> registry_dep_of(d).name == d.name
            && registry_dep_of(d).package.is_none(),
{
}

} // verus!
