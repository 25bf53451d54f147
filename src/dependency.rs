//! Recording local and remote dependencies into a manifest.
use vstd::prelude::*;
use crate::config::{Dependency, Manifest, Source, unique_identifiers};

verus! {

/// What was found at a local dependency's path.
#[derive(Clone, Copy, Debug, PartialEq, Eq, Structural)]
pub enum PathProbe {
    /// Nothing exists at the path.
    Missing,
    /// The path exists but holds no package manifest.
    NotAPackage,
    /// The path is a package root.
    Package,
}

pub enum DependencyError {
    /// The named path does not exist.
    PathNotFound(String),
    /// The named path exists but is not a package root.
    NotAPackage(String),
    /// The manifest at the named package root could not be read or written.
    Io(String),
}

/// The text that describes a dependency failure and names its path.
pub open spec fn dependency_message(e: DependencyError) -> Seq<char> {
    match e {
        DependencyError::PathNotFound(p) => "given package path does not exist: "@ + p@,
        DependencyError::NotAPackage(p) => "given package path does not seem to be a valid package: "@
            + p@,
        DependencyError::Io(p) => "cannot read or write the manifest at: "@ + p@,
    }
}

impl DependencyError {
    /// A human-readable description that names the path.
    pub fn message(&self) -> (r: String)
        ensures
            r@ == dependency_message(*self),
    {
        match self {
            DependencyError::PathNotFound(p) => String::from_str(
                "given package path does not exist: ",
            ).concat(p.as_str()),
            DependencyError::NotAPackage(p) => String::from_str(
                "given package path does not seem to be a valid package: ",
            ).concat(p.as_str()),
            DependencyError::Io(p) => String::from_str(
                "cannot read or write the manifest at: ",
            ).concat(p.as_str()),
        }
    }
}

pub open spec fn has_identifier(deps: Seq<Dependency>, id: Seq<char>) -> bool {
    exists|i: int| 0 <= i < deps.len() && (#[trigger] deps[i]).identifier@ == id
}

/// The dependency list after recording `d`: a record with the same
/// identifier is replaced in place, otherwise `d` is appended.
pub open spec fn upserted(deps: Seq<Dependency>, d: Dependency) -> Seq<Dependency> {
    if has_identifier(deps, d.identifier@) {
        deps.map_values(|e: Dependency| if e.identifier@ == d.identifier@ { d } else { e })
    } else {
        deps.push(d)
    }
}

/// Records `d` into the manifest, replacing any record with its identifier.
pub fn record_dependency(manifest: &mut Manifest, d: Dependency)
    requires
        old(manifest).wf(),
    ensures
        final(manifest).wf(),
        final(manifest).dependencies@ == upserted(old(manifest).dependencies@, d),
        final(manifest).name == old(manifest).name,
        final(manifest).namespace == old(manifest).namespace,
        final(manifest).version == old(manifest).version,
{
    let ghost deps = manifest.dependencies@;
    let n = manifest.dependencies.len();
    let mut i: usize = 0;
    while i < n
        invariant
            n == deps.len(),
            0 <= i <= n,
            manifest.dependencies@ == deps,
            unique_identifiers(deps),
            deps == old(manifest).dependencies@,
            manifest.name == old(manifest).name,
            manifest.namespace == old(manifest).namespace,
            manifest.version == old(manifest).version,
            forall|j: int| 0 <= j < i ==> (#[trigger] deps[j]).identifier@ != d.identifier@,
        decreases n - i,
    {
        if manifest.dependencies[i].identifier == d.identifier {
            proof {
                assert(has_identifier(deps, d.identifier@));
                assert forall|j: int| 0 <= j < deps.len() implies #[trigger] deps.update(
                    i as int,
                    d,
                )[j] == upserted(deps, d)[j] by {
                    if j != i {
                        assert(deps[j].identifier@ != deps[i as int].identifier@);
                    }
                }
                assert(deps.update(i as int, d) =~= upserted(deps, d));
                assert(unique_identifiers(deps.update(i as int, d)));
            }
            manifest.dependencies.set(i, d);
            assert(manifest.dependencies@ == upserted(deps, d));
            return ;
        }
        i += 1;
    }
    manifest.dependencies.push(d);
    proof {
        assert(manifest.dependencies@ =~= upserted(deps, d));
    }
}

/// Adds a dependency on the local package at `path`, given what was found
/// there. The manifest changes only when the path is a package root.
pub fn add_local(manifest: &mut Manifest, path: String, probe: PathProbe) -> (r: Result<
    (),
    DependencyError,
>)
    requires
        old(manifest).wf(),
    ensures
        final(manifest).wf(),
        probe == PathProbe::Missing ==> (r matches Err(DependencyError::PathNotFound(p))
            && p@ == path@),
        probe == PathProbe::NotAPackage ==> (r matches Err(DependencyError::NotAPackage(p))
            && p@ == path@),
        probe == PathProbe::Package ==> r is Ok,
        r is Err ==> *final(manifest) == *old(manifest),
        r is Ok ==> final(manifest).dependencies@ == upserted(
            old(manifest).dependencies@,
            Dependency { identifier: path, source: Source::Local(path) },
        ),
        final(manifest).name == old(manifest).name,
        final(manifest).namespace == old(manifest).namespace,
        final(manifest).version == old(manifest).version,
{
    match probe {
        PathProbe::Missing => Err(DependencyError::PathNotFound(path)),
        PathProbe::NotAPackage => Err(DependencyError::NotAPackage(path)),
        PathProbe::Package => {
            let d = Dependency { identifier: path.clone(), source: Source::Local(path) };
            record_dependency(manifest, d);
            Ok(())
        },
    }
}

/// Adds a dependency on a registry-qualified package name. Nothing is
/// checked against a registry: the record is only written to the manifest.
pub fn add_remote(manifest: &mut Manifest, identifier: String)
    requires
        old(manifest).wf(),
    ensures
        final(manifest).wf(),
        final(manifest).dependencies@ == upserted(
            old(manifest).dependencies@,
            Dependency { identifier: identifier, source: Source::Remote(identifier) },
        ),
        final(manifest).name == old(manifest).name,
        final(manifest).namespace == old(manifest).namespace,
        final(manifest).version == old(manifest).version,
{
    let d = Dependency { identifier: identifier.clone(), source: Source::Remote(identifier) };
    record_dependency(manifest, d);
}

/// Recording a dependency twice is the same as recording it once, and
/// re-recording an identifier that is already present never grows the list.
pub proof fn lemma_record_idempotent(deps: Seq<Dependency>, d: Dependency)
    requires
        unique_identifiers(deps),
    ensures
        upserted(upserted(deps, d), d) == upserted(deps, d),
        upserted(upserted(deps, d), d).len() == upserted(deps, d).len(),
        has_identifier(deps, d.identifier@) ==> upserted(deps, d).len() == deps.len(),
        unique_identifiers(upserted(deps, d)),
{
    let once = upserted(deps, d);
    if has_identifier(deps, d.identifier@) {
        let i = choose|i: int| 0 <= i < deps.len() && (#[trigger] deps[i]).identifier@ == d.identifier@;
        assert(once[i].identifier@ == d.identifier@);
        assert(has_identifier(once, d.identifier@));
        assert(upserted(once, d) =~= once);
    } else {
        assert(once[deps.len() as int] == d);
        assert(has_identifier(once, d.identifier@));
        assert(upserted(once, d) =~= once);
    }
}

} // verus!
