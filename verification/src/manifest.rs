//! The manifest model: package identity and the dependency table.

use vstd::prelude::*;

verus! {

/// Identity of the artifact being built.
#[derive(Debug, Clone, PartialEq, Eq)]
pub struct Package {
    pub name: String,
    pub version: String,
    pub main: String,
}

/// Whether a dependency is needed at compile time too, or only at run time.
#[derive(Debug, Clone, Copy, PartialEq, Eq, Structural)]
pub enum DependencyType {
    Compile,
    Runtime,
}

/// What a manifest says about one dependency: a bare coordinate, or a
/// coordinate together with an optional scope.
#[derive(Debug, Clone, PartialEq, Eq)]
pub enum DependencyDef {
    Simple(String),
    Full { value: String, scope: Option<DependencyType> },
}

/// One entry of the dependency table.
#[derive(Debug, Clone, PartialEq, Eq)]
pub struct Dependency {
    pub name: String,
    pub def: DependencyDef,
}

/// A whole manifest. The dependency table is kept in a fixed order so that the
/// generated scripts are reproducible.
#[derive(Debug, Clone, PartialEq, Eq)]
pub struct JargoToml {
    pub package: Package,
    pub dependencies: Vec<Dependency>,
}

impl DependencyDef {
    /// The library coordinate this declaration names.
    pub open spec fn coordinate(self) -> Seq<char> {
        match self {
            DependencyDef::Simple(c) => c@,
            DependencyDef::Full { value, .. } => value@,
        }
    }

    /// The scope this declaration asks for, if it names one.
    pub open spec fn declared_scope(self) -> Option<DependencyType> {
        match self {
            DependencyDef::Simple(_) => None,
            DependencyDef::Full { scope, .. } => scope,
        }
    }

    /// A declaration is well formed when its coordinate is not empty.
    pub open spec fn wf(self) -> bool {
        self.coordinate().len() > 0
    }
}

/// The names of a dependency table, in table order.
pub open spec fn dependency_names(deps: Seq<Dependency>) -> Seq<Seq<char>> {
    deps.map_values(|d: Dependency| d.name@)
}

impl JargoToml {
    /// A manifest is well formed when every declaration is and no dependency
    /// name occurs twice.
    pub open spec fn wf(self) -> bool {
        &&& forall|i: int| 0 <= i < self.dependencies@.len() ==> (#[trigger] self.dependencies@[i]).def.wf()
        &&& dependency_names(self.dependencies@).no_duplicates()
    }
}

/// A package as plain values.
pub struct PackageView {
    pub name: Seq<char>,
    pub version: Seq<char>,
    pub main: Seq<char>,
}

/// A declaration as plain values.
pub enum DependencyDefView {
    Simple(Seq<char>),
    Full { value: Seq<char>, scope: Option<DependencyType> },
}

/// A manifest as plain values: the package and the dependency table as
/// pairs of name and declaration.
pub struct ManifestView {
    pub package: PackageView,
    pub dependencies: Seq<(Seq<char>, DependencyDefView)>,
}

impl View for Package {
    type V = PackageView;

    open spec fn view(&self) -> PackageView {
        PackageView { name: self.name@, version: self.version@, main: self.main@ }
    }
}

impl View for DependencyDef {
    type V = DependencyDefView;

    open spec fn view(&self) -> DependencyDefView {
        match *self {
            DependencyDef::Simple(c) => DependencyDefView::Simple(c@),
            DependencyDef::Full { value, scope } => DependencyDefView::Full { value: value@, scope },
        }
    }
}

impl View for Dependency {
    type V = (Seq<char>, DependencyDefView);

    open spec fn view(&self) -> (Seq<char>, DependencyDefView) {
        (self.name@, self.def@)
    }
}

impl View for JargoToml {
    type V = ManifestView;

    open spec fn view(&self) -> ManifestView {
        ManifestView {
            package: self.package@,
            dependencies: self.dependencies@.map_values(|d: Dependency| d@),
        }
    }
}

/// Why a text is not a manifest.
#[derive(Debug, Clone, PartialEq, Eq)]
pub enum ManifestParseError {
    /// The text is not a TOML document; holds the parser's message.
    Syntax(String),
    /// A required field is absent; holds its dotted path.
    MissingField(String),
    /// A field holds a value of the wrong type; holds its dotted path.
    WrongType(String),
    /// A table holds a key twice; holds the dotted path of the key.
    DuplicateKey(String),
    /// A dependency names a scope that is neither `Compile` nor `Runtime`.
    UnknownScope { dependency: String, scope: String },
    /// A dependency has an empty coordinate; holds its name.
    EmptyCoordinate(String),
}

/// A parse error as plain values.
pub enum ManifestParseErrorView {
    Syntax(Seq<char>),
    MissingField(Seq<char>),
    WrongType(Seq<char>),
    DuplicateKey(Seq<char>),
    UnknownScope { dependency: Seq<char>, scope: Seq<char> },
    EmptyCoordinate(Seq<char>),
}

impl View for ManifestParseError {
    type V = ManifestParseErrorView;

    open spec fn view(&self) -> ManifestParseErrorView {
        match *self {
            ManifestParseError::Syntax(m) => ManifestParseErrorView::Syntax(m@),
            ManifestParseError::MissingField(p) => ManifestParseErrorView::MissingField(p@),
            ManifestParseError::WrongType(p) => ManifestParseErrorView::WrongType(p@),
            ManifestParseError::DuplicateKey(p) => ManifestParseErrorView::DuplicateKey(p@),
            ManifestParseError::UnknownScope { dependency, scope } => {
                ManifestParseErrorView::UnknownScope { dependency: dependency@, scope: scope@ }
            },
            ManifestParseError::EmptyCoordinate(d) => ManifestParseErrorView::EmptyCoordinate(d@),
        }
    }
}

} // verus!
