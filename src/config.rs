//! The mutable manifest, its immutable frozen snapshot, and the rules that
//! decide whether a manifest can be frozen.
use vstd::prelude::*;
use crate::semver::{is_valid_version, valid_version};

verus! {

/// Where a dependency comes from.
pub enum Source {
    /// A package directory on the local filesystem.
    Local(String),
    /// A registry-qualified package name.
    Remote(String),
}

/// One dependency record of a manifest.
pub struct Dependency {
    pub identifier: String,
    pub source: Source,
}

impl Dependency {
    /// Whether the dependency refers to a local package directory.
    pub fn is_local(&self) -> (r: bool)
        ensures
            r == (self.source is Local),
    {
        match self.source {
            Source::Local(_) => true,
            Source::Remote(_) => false,
        }
    }
}

/// The mutable, human-edited description of a package.
pub struct Manifest {
    pub name: String,
    pub namespace: Option<String>,
    pub version: Option<String>,
    pub dependencies: Vec<Dependency>,
}

/// No two dependency records share an identifier.
pub open spec fn unique_identifiers(deps: Seq<Dependency>) -> bool {
    forall|i: int, j: int|
        0 <= i < deps.len() && 0 <= j < deps.len() && i != j ==> deps[i].identifier@
            != deps[j].identifier@
}

impl Manifest {
    pub open spec fn wf(&self) -> bool {
        unique_identifiers(self.dependencies@)
    }

    /// A fresh manifest with only a name.
    pub fn new(name: String) -> (r: Manifest)
        ensures
            r.wf(),
            r.name == name,
            r.namespace is None,
            r.version is None,
            r.dependencies@.len() == 0,
    {
        Manifest { name, namespace: None, version: None, dependencies: Vec::new() }
    }

    pub fn set_namespace(&mut self, namespace: String)
        ensures
            final(self).namespace == Some(namespace),
            final(self).name == old(self).name,
            final(self).version == old(self).version,
            final(self).dependencies@ == old(self).dependencies@,
    {
        self.namespace = Some(namespace);
    }

    pub fn set_version(&mut self, version: String)
        ensures
            final(self).version == Some(version),
            final(self).name == old(self).name,
            final(self).namespace == old(self).namespace,
            final(self).dependencies@ == old(self).dependencies@,
    {
        self.version = Some(version);
    }
}

/// A manifest field that freezing checks.
#[derive(Clone, Copy, Debug, PartialEq, Eq, Structural)]
pub enum Field {
    Namespace,
    Version,
}

#[derive(Clone, Copy, Debug, PartialEq, Eq, Structural)]
pub enum ConfigError {
    /// A required field is unset.
    Incomplete(Field),
    /// A field is set but breaks its format rule.
    Invalid(Field),
    /// A frozen config lacks the field that was asked for.
    MissingField(Field),
}

pub open spec fn field_name(f: Field) -> Seq<char> {
    match f {
        Field::Namespace => "namespace"@,
        Field::Version => "version"@,
    }
}

/// The text that describes a configuration failure and names its field.
pub open spec fn config_message(e: ConfigError) -> Seq<char> {
    match e {
        ConfigError::Incomplete(f) => "manifest is incomplete, missing field: "@ + field_name(f),
        ConfigError::Invalid(f) => "manifest has an invalid field: "@ + field_name(f),
        ConfigError::MissingField(f) => "frozen config lacks field: "@ + field_name(f),
    }
}

impl ConfigError {
    /// A human-readable description that names the field.
    pub fn message(&self) -> (r: String)
        ensures
            r@ == config_message(*self),
    {
        let prefix = match *self {
            ConfigError::Incomplete(_) => "manifest is incomplete, missing field: ",
            ConfigError::Invalid(_) => "manifest has an invalid field: ",
            ConfigError::MissingField(_) => "frozen config lacks field: ",
        };
        let field = match *self {
            ConfigError::Incomplete(f) => f,
            ConfigError::Invalid(f) => f,
            ConfigError::MissingField(f) => f,
        };
        let name = match field {
            Field::Namespace => "namespace",
            Field::Version => "version",
        };
        String::from_str(prefix).concat(name)
    }
}

pub open spec fn is_digit(c: char) -> bool {
    '0' <= c <= '9'
}

pub open spec fn is_namespace_char(c: char) -> bool {
    ('a' <= c <= 'z') || ('A' <= c <= 'Z') || is_digit(c) || c == '_' || c == '-'
}

/// A namespace is a non-empty run of ASCII letters, digits, `_` and `-`.
pub open spec fn valid_namespace(s: Seq<char>) -> bool {
    s.len() > 0 && forall|i: int| 0 <= i < s.len() ==> is_namespace_char(#[trigger] s[i])
}

pub fn is_valid_namespace(s: &str) -> (r: bool)
    ensures
        r == valid_namespace(s@),
{
    let n = s.unicode_len();
    if n == 0 {
        return false;
    }
    let mut i: usize = 0;
    while i < n
        invariant
            n == s@.len(),
            0 <= i <= n,
            forall|j: int| 0 <= j < i ==> is_namespace_char(#[trigger] s@[j]),
        decreases n - i,
    {
        let c = s.get_char(i);
        let ok = ('a' <= c && c <= 'z') || ('A' <= c && c <= 'Z') || ('0' <= c && c <= '9') || c
            == '_' || c == '-';
        if !ok {
            return false;
        }
        i += 1;
    }
    true
}

/// The immutable snapshot of a manifest taken at build time.
pub struct FrozenConfig {
    namespace: Option<String>,
    version: Option<String>,
    dependencies: Vec<Dependency>,
}

/// What a frozen config holds.
pub struct FrozenView {
    pub namespace: Option<Seq<char>>,
    pub version: Option<Seq<char>>,
    pub dependencies: Seq<Dependency>,
}

pub open spec fn opt_view(o: Option<String>) -> Option<Seq<char>> {
    match o {
        Some(s) => Some(s@),
        None => None,
    }
}

impl View for FrozenConfig {
    type V = FrozenView;

    closed spec fn view(&self) -> FrozenView {
        FrozenView {
            namespace: opt_view(self.namespace),
            version: opt_view(self.version),
            dependencies: self.dependencies@,
        }
    }
}

/// The snapshot that freezing `m` produces.
pub open spec fn frozen_view(m: Manifest) -> FrozenView {
    FrozenView {
        namespace: opt_view(m.namespace),
        version: opt_view(m.version),
        dependencies: m.dependencies@,
    }
}

/// Why `m` cannot be frozen, if it cannot: absence is reported before
/// format, and the namespace before the version.
pub open spec fn freeze_error(m: Manifest) -> Option<ConfigError> {
    match (m.namespace, m.version) {
        (None, _) => Some(ConfigError::Incomplete(Field::Namespace)),
        (Some(_), None) => Some(ConfigError::Incomplete(Field::Version)),
        (Some(n), Some(v)) => if !valid_namespace(n@) {
            Some(ConfigError::Invalid(Field::Namespace))
        } else if !valid_version(v@) {
            Some(ConfigError::Invalid(Field::Version))
        } else {
            None
        },
    }
}

pub fn duplicate_dependency(d: &Dependency) -> (r: Dependency)
    ensures
        r == *d,
{
    let source = match &d.source {
        Source::Local(p) => Source::Local(p.clone()),
        Source::Remote(q) => Source::Remote(q.clone()),
    };
    Dependency { identifier: d.identifier.clone(), source }
}

pub fn duplicate_dependencies(deps: &Vec<Dependency>) -> (r: Vec<Dependency>)
    ensures
        r@ == deps@,
{
    let mut r: Vec<Dependency> = Vec::new();
    let mut i: usize = 0;
    while i < deps.len()
        invariant
            0 <= i <= deps@.len(),
            r@ == deps@.subrange(0, i as int),
        decreases deps@.len() - i,
    {
        r.push(duplicate_dependency(&deps[i]));
        i += 1;
    }
    assert(r@ =~= deps@);
    r
}

/// Takes the immutable snapshot of a manifest, after checking that the
/// namespace and version are set and well formed. The manifest is not changed.
pub fn freeze(manifest: &Manifest) -> (r: Result<FrozenConfig, ConfigError>)
    ensures
        match r {
            Ok(f) => freeze_error(*manifest) is None && f@ == frozen_view(*manifest),
            Err(e) => freeze_error(*manifest) == Some(e),
        },
{
    let namespace = match &manifest.namespace {
        None => return Err(ConfigError::Incomplete(Field::Namespace)),
        Some(n) => n,
    };
    let version = match &manifest.version {
        None => return Err(ConfigError::Incomplete(Field::Version)),
        Some(v) => v,
    };
    if !is_valid_namespace(namespace.as_str()) {
        return Err(ConfigError::Invalid(Field::Namespace));
    }
    if !is_valid_version(version.as_str()) {
        return Err(ConfigError::Invalid(Field::Version));
    }
    Ok(
        FrozenConfig {
            namespace: Some(namespace.clone()),
            version: Some(version.clone()),
            dependencies: duplicate_dependencies(&manifest.dependencies),
        },
    )
}

impl FrozenConfig {
    pub fn namespace(&self) -> (r: Result<String, ConfigError>)
        ensures
            match self@.namespace {
                Some(n) => r matches Ok(s) && s@ == n,
                None => r == Err::<String, ConfigError>(ConfigError::MissingField(Field::Namespace)),
            },
    {
        match &self.namespace {
            Some(n) => Ok(n.clone()),
            None => Err(ConfigError::MissingField(Field::Namespace)),
        }
    }

    pub fn version(&self) -> (r: Result<String, ConfigError>)
        ensures
            match self@.version {
                Some(v) => r matches Ok(s) && s@ == v,
                None => r == Err::<String, ConfigError>(ConfigError::MissingField(Field::Version)),
            },
    {
        match &self.version {
            Some(v) => Ok(v.clone()),
            None => Err(ConfigError::MissingField(Field::Version)),
        }
    }

    pub fn dependencies(&self) -> (r: &Vec<Dependency>)
        ensures
            r@ == self@.dependencies,
    {
        &self.dependencies
    }
}

/// Freezing is deterministic: two freezes of the same manifest state give
/// structurally equal snapshots, and a successful freeze of a manifest is
/// owed exactly when it is complete and well formed.
pub proof fn lemma_freeze_deterministic(
    m: Manifest,
    a: Result<FrozenConfig, ConfigError>,
    b: Result<FrozenConfig, ConfigError>,
)
    requires
        match a {
            Ok(f) => freeze_error(m) is None && f@ == frozen_view(m),
            Err(e) => freeze_error(m) == Some(e),
        },
        match b {
            Ok(f) => freeze_error(m) is None && f@ == frozen_view(m),
            Err(e) => freeze_error(m) == Some(e),
        },
    ensures
        a is Ok <==> b is Ok,
        a is Ok ==> a->Ok_0@ == b->Ok_0@,
        a is Err ==> a->Err_0 == b->Err_0,
{
}

/// A manifest without a namespace or without a version never freezes: it
/// is reported incomplete, and no default is put in place of the field.
pub proof fn lemma_freeze_incomplete(m: Manifest)
    requires
        m.namespace is None || m.version is None,
    ensures
        freeze_error(m) matches Some(ConfigError::Incomplete(f)) && (f == Field::Namespace
            ==> m.namespace is None) && (f == Field::Version ==> m.version is None),
{
}

} // verus!
