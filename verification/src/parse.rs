//! Reads a manifest out of a TOML document and checks it against the schema:
//! a `package` table with the strings `name`, `version` and `main`, and an
//! optional `dependencies` table whose values are either a coordinate string
//! or a table with a `value` string and an optional `scope` string.

use vstd::prelude::*;
use crate::document::{
    entry_keys, entry_nodes, error_message, items_of_table, lemma_entry_nodes, lookup,
    parse_document, toml_document, Item, Node,
};
use crate::manifest::{
    dependency_names, Dependency, DependencyDef, DependencyDefView, DependencyType, JargoToml,
    ManifestParseError, ManifestParseErrorView, ManifestView, Package, PackageView,
};
use crate::text::same_text;

verus! {

/// The dotted path of a key inside the table at `table`.
pub open spec fn field_path(table: Seq<char>, key: Seq<char>) -> Seq<char> {
    table + "."@ + key
}

/// The dotted path of a dependency.
pub open spec fn dependency_path(name: Seq<char>) -> Seq<char> {
    field_path("dependencies"@, name)
}

/// The position of the first key that has occurred before it, if any.
pub open spec fn first_repeat(keys: Seq<Seq<char>>) -> Option<int>
    decreases keys.len(),
{
    if keys.len() == 0 {
        None
    } else {
        match first_repeat(keys.drop_last()) {
            Some(j) => Some(j),
            None => if keys.drop_last().contains(keys.last()) {
                Some(keys.len() - 1)
            } else {
                None
            },
        }
    }
}

/// The key that a table holds twice, if any: the first that repeats an
/// earlier one.
pub open spec fn repeated_key(entries: Seq<(Seq<char>, Node)>) -> Option<Seq<char>> {
    match first_repeat(entry_keys(entries)) {
        Some(j) => Some(entries[j].0),
        None => None,
    }
}

/// A required string field of the table at `table`.
pub open spec fn read_text(entries: Seq<(Seq<char>, Node)>, table: Seq<char>, key: Seq<char>) -> Result<
    Seq<char>,
    ManifestParseErrorView,
> {
    match lookup(entries, key) {
        None => Err(ManifestParseErrorView::MissingField(field_path(table, key))),
        Some(Node::Text(s)) => Ok(s),
        Some(_) => Err(ManifestParseErrorView::WrongType(field_path(table, key))),
    }
}

/// The fields of the `package` table.
pub open spec fn read_package_fields(t: Seq<(Seq<char>, Node)>) -> Result<
    PackageView,
    ManifestParseErrorView,
> {
    match repeated_key(t) {
        Some(key) => Err(ManifestParseErrorView::DuplicateKey(field_path("package"@, key))),
        None => match read_text(t, "package"@, "name"@) {
            Err(e) => Err(e),
            Ok(name) => match read_text(t, "package"@, "version"@) {
                Err(e) => Err(e),
                Ok(version) => match read_text(t, "package"@, "main"@) {
                    Err(e) => Err(e),
                    Ok(main) => Ok(PackageView { name, version, main }),
                },
            },
        },
    }
}

/// The `package` section of a document.
pub open spec fn read_package(doc: Seq<(Seq<char>, Node)>) -> Result<
    PackageView,
    ManifestParseErrorView,
> {
    match lookup(doc, "package"@) {
        None => Err(ManifestParseErrorView::MissingField("package"@)),
        Some(Node::Table(t)) => read_package_fields(t),
        Some(_) => Err(ManifestParseErrorView::WrongType("package"@)),
    }
}

/// The scope a scope string names.
pub open spec fn scope_of(s: Seq<char>) -> Option<DependencyType> {
    if s == "Compile"@ {
        Some(DependencyType::Compile)
    } else if s == "Runtime"@ {
        Some(DependencyType::Runtime)
    } else {
        None
    }
}

/// The optional `scope` field of the table of the dependency `name`.
pub open spec fn read_scope(name: Seq<char>, entries: Seq<(Seq<char>, Node)>) -> Result<
    Option<DependencyType>,
    ManifestParseErrorView,
> {
    match lookup(entries, "scope"@) {
        None => Ok(None),
        Some(Node::Text(s)) => match scope_of(s) {
            Some(scope) => Ok(Some(scope)),
            None => Err(ManifestParseErrorView::UnknownScope { dependency: name, scope: s }),
        },
        Some(_) => Err(ManifestParseErrorView::WrongType(field_path(dependency_path(name), "scope"@))),
    }
}

/// A coordinate must not be empty.
pub open spec fn read_coordinate(name: Seq<char>, c: Seq<char>) -> Result<
    Seq<char>,
    ManifestParseErrorView,
> {
    if c.len() == 0 {
        Err(ManifestParseErrorView::EmptyCoordinate(name))
    } else {
        Ok(c)
    }
}

/// The table form of a dependency: a `value` and an optional `scope`.
pub open spec fn read_scoped(name: Seq<char>, t: Seq<(Seq<char>, Node)>) -> Result<
    DependencyDefView,
    ManifestParseErrorView,
> {
    match repeated_key(t) {
        Some(key) => Err(ManifestParseErrorView::DuplicateKey(field_path(dependency_path(name), key))),
        None => match read_text(t, dependency_path(name), "value"@) {
            Err(e) => Err(e),
            Ok(c) => match read_coordinate(name, c) {
                Err(e) => Err(e),
                Ok(value) => match read_scope(name, t) {
                    Err(e) => Err(e),
                    Ok(scope) => Ok(DependencyDefView::Full { value, scope }),
                },
            },
        },
    }
}

/// One entry of the `dependencies` section: a bare string is a simple
/// declaration, a table a scoped one, anything else is refused.
pub open spec fn read_dependency(name: Seq<char>, node: Node) -> Result<
    DependencyDefView,
    ManifestParseErrorView,
> {
    match node {
        Node::Text(c) => match read_coordinate(name, c) {
            Err(e) => Err(e),
            Ok(c) => Ok(DependencyDefView::Simple(c)),
        },
        Node::Table(t) => read_scoped(name, t),
        Node::Other => Err(ManifestParseErrorView::WrongType(dependency_path(name))),
    }
}

/// The entries of the `dependencies` table, read in order; the first entry
/// at fault decides the error.
pub open spec fn read_dependencies(entries: Seq<(Seq<char>, Node)>) -> Result<
    Seq<(Seq<char>, DependencyDefView)>,
    ManifestParseErrorView,
>
    decreases entries.len(),
{
    if entries.len() == 0 {
        Ok(Seq::empty())
    } else {
        match read_dependencies(entries.drop_last()) {
            Err(e) => Err(e),
            Ok(front) => match read_dependency(entries.last().0, entries.last().1) {
                Err(e) => Err(e),
                Ok(def) => Ok(front.push((entries.last().0, def))),
            },
        }
    }
}

/// The `dependencies` table: its names must be distinct.
pub open spec fn read_dependency_table(t: Seq<(Seq<char>, Node)>) -> Result<
    Seq<(Seq<char>, DependencyDefView)>,
    ManifestParseErrorView,
> {
    match repeated_key(t) {
        Some(key) => Err(ManifestParseErrorView::DuplicateKey(dependency_path(key))),
        None => read_dependencies(t),
    }
}

/// The optional `dependencies` section of a document; an absent section is
/// an empty table.
pub open spec fn read_dependency_section(doc: Seq<(Seq<char>, Node)>) -> Result<
    Seq<(Seq<char>, DependencyDefView)>,
    ManifestParseErrorView,
> {
    match lookup(doc, "dependencies"@) {
        None => Ok(Seq::empty()),
        Some(Node::Table(t)) => read_dependency_table(t),
        Some(_) => Err(ManifestParseErrorView::WrongType("dependencies"@)),
    }
}

/// The manifest a document holds. A key that the document holds twice is
/// refused first, then the package is read, then the dependencies.
pub open spec fn read_manifest(doc: Seq<(Seq<char>, Node)>) -> Result<
    ManifestView,
    ManifestParseErrorView,
> {
    match repeated_key(doc) {
        Some(key) => Err(ManifestParseErrorView::DuplicateKey(key)),
        None => match read_package(doc) {
            Err(e) => Err(e),
            Ok(package) => match read_dependency_section(doc) {
                Err(e) => Err(e),
                Ok(dependencies) => Ok(ManifestView { package, dependencies }),
            },
        },
    }
}

/// The manifest a text holds: that of its TOML document, or the syntax error
/// of the TOML parser.
pub open spec fn manifest_of_text(parsed: Result<Seq<(Seq<char>, Node)>, Seq<char>>) -> Result<
    ManifestView,
    ManifestParseErrorView,
> {
    match parsed {
        Ok(doc) => read_manifest(doc),
        Err(message) => Err(ManifestParseErrorView::Syntax(message)),
    }
}

/// Keys none of which repeats an earlier one are distinct.
pub proof fn lemma_no_repeat_is_distinct(keys: Seq<Seq<char>>)
    requires
        first_repeat(keys) is None,
    ensures
        keys.no_duplicates(),
    decreases keys.len(),
{
    if keys.len() > 0 {
        let front = keys.drop_last();
        lemma_no_repeat_is_distinct(front);
        assert forall|a: int, b: int| 0 <= a < keys.len() && 0 <= b < keys.len() && a != b implies keys[a]
            != keys[b] by {
            if a < front.len() && b < front.len() {
                assert(front[a] != front[b]);
            } else if a < front.len() {
                assert(front[a] == keys[a]);
            } else {
                assert(front[b] == keys[b]);
            }
        }
    }
}

/// Looks a key up in a table: the item of the first entry with this key.
pub fn find_item<'a>(entries: &'a Vec<(String, Item)>, key: &str) -> (r: Option<&'a Item>)
    ensures
        match r {
            Some(item) => lookup(entry_nodes(entries@), key@) == Some(item.node()),
            None => lookup(entry_nodes(entries@), key@) is None,
        },
{
    let ghost nodes = entry_nodes(entries@);
    proof {
        lemma_entry_nodes(entries@);
        assert(nodes.subrange(0, nodes.len() as int) == nodes);
    }
    let mut i: usize = 0;
    while i < entries.len()
        invariant
            nodes == entry_nodes(entries@),
            nodes.len() == entries@.len(),
            forall|j: int|
                0 <= j < entries@.len() ==> (#[trigger] nodes[j]) == (
                    entries@[j].0@,
                    entries@[j].1.node(),
                ),
            i <= entries.len(),
            lookup(nodes.subrange(i as int, nodes.len() as int), key@) == lookup(nodes, key@),
        decreases entries.len() - i,
    {
        let ghost rest = nodes.subrange(i as int, nodes.len() as int);
        assert(rest[0] == nodes[i as int]);
        if same_text(entries[i].0.as_str(), key) {
            return Some(&entries[i].1);
        }
        assert(rest.drop_first() == nodes.subrange(i + 1, nodes.len() as int));
        i += 1;
    }
    None
}

/// Finds the first entry whose key has occurred before it.
pub fn duplicate_key(entries: &Vec<(String, Item)>) -> (r: Option<usize>)
    ensures
        match r {
            Some(j) => j < entries@.len() && first_repeat(entry_keys(entry_nodes(entries@))) == Some(
                j as int,
            ) && repeated_key(entry_nodes(entries@)) == Some(entries@[j as int].0@),
            None => first_repeat(entry_keys(entry_nodes(entries@))) is None,
        },
{
    let ghost keys = entry_keys(entry_nodes(entries@));
    proof {
        lemma_entry_nodes(entries@);
        assert(keys.subrange(0, 0) == Seq::<Seq<char>>::empty());
    }
    let mut j: usize = 0;
    while j < entries.len()
        invariant
            keys == entry_keys(entry_nodes(entries@)),
            keys.len() == entries@.len(),
            forall|k: int| 0 <= k < entries@.len() ==> (#[trigger] keys[k]) == entries@[k].0@,
            j <= entries.len(),
            first_repeat(keys.subrange(0, j as int)) is None,
        decreases entries.len() - j,
    {
        let ghost upto = keys.subrange(0, j + 1);
        let ghost front = keys.subrange(0, j as int);
        assert(upto.drop_last() == front);
        assert(upto.last() == keys[j as int]);
        let mut i: usize = 0;
        let mut seen = false;
        while i < j
            invariant
                keys.len() == entries@.len(),
                forall|k: int| 0 <= k < entries@.len() ==> (#[trigger] keys[k]) == entries@[k].0@,
                j < entries.len(),
                i <= j,
                front == keys.subrange(0, j as int),
                seen ==> front.contains(keys[j as int]),
                !seen ==> forall|k: int| 0 <= k < i ==> front[k] != keys[j as int],
            decreases j - i,
        {
            if same_text(entries[i].0.as_str(), entries[j].0.as_str()) {
                assert(front[i as int] == keys[j as int]);
                seen = true;
            }
            i += 1;
        }
        if seen {
            proof {
                lemma_repeat_found(keys, j as int);
                assert(entry_nodes(entries@)[j as int].0 == entries@[j as int].0@);
            }
            return Some(j);
        }
        j += 1;
    }
    assert(keys.subrange(0, keys.len() as int) == keys);
    None
}

/// Where no key before `j` repeats an earlier one and the key at `j` does,
/// `j` is the first repeat of the whole sequence.
pub proof fn lemma_repeat_found(keys: Seq<Seq<char>>, j: int)
    requires
        0 <= j < keys.len(),
        first_repeat(keys.subrange(0, j)) is None,
        keys.subrange(0, j).contains(keys[j]),
    ensures
        first_repeat(keys) == Some(j),
    decreases keys.len(),
{
    if j == keys.len() - 1 {
        assert(keys.drop_last() == keys.subrange(0, j));
    } else {
        let front = keys.drop_last();
        assert(front.subrange(0, j) == keys.subrange(0, j));
        lemma_repeat_found(front, j);
    }
}

/// The dotted path of a key inside a table.
fn path_of(table: &str, key: &str) -> (path: String)
    ensures
        path@ == field_path(table@, key@),
{
    let mut path = table.to_owned();
    path.append(".");
    path.append(key);
    path
}

/// Refuses a table that holds a key twice.
fn check_keys(entries: &Vec<(String, Item)>, table: &str) -> (r: Result<(), ManifestParseError>)
    ensures
        match r {
            Ok(_) => repeated_key(entry_nodes(entries@)) is None,
            Err(e) => repeated_key(entry_nodes(entries@)) matches Some(key) && e@
                == ManifestParseErrorView::DuplicateKey(field_path(table@, key)),
        },
{
    match duplicate_key(entries) {
        Some(j) => Err(ManifestParseError::DuplicateKey(path_of(table, entries[j].0.as_str()))),
        None => Ok(()),
    }
}

/// Reads a required string field of the table at `table`.
fn text_field(entries: &Vec<(String, Item)>, table: &str, key: &str) -> (r: Result<
    String,
    ManifestParseError,
>)
    ensures
        match r {
            Ok(s) => read_text(entry_nodes(entries@), table@, key@) == Ok::<
                Seq<char>,
                ManifestParseErrorView,
            >(s@),
            Err(e) => read_text(entry_nodes(entries@), table@, key@) == Err::<
                Seq<char>,
                ManifestParseErrorView,
            >(e@),
        },
{
    match find_item(entries, key) {
        None => Err(ManifestParseError::MissingField(path_of(table, key))),
        Some(Item::Text(s)) => Ok(s.clone()),
        Some(_) => Err(ManifestParseError::WrongType(path_of(table, key))),
    }
}

/// Reads the fields of the `package` table.
fn package_fields(t: &Vec<(String, Item)>) -> (r: Result<Package, ManifestParseError>)
    ensures
        match r {
            Ok(p) => read_package_fields(entry_nodes(t@)) == Ok::<PackageView, ManifestParseErrorView>(
                p@,
            ),
            Err(e) => read_package_fields(entry_nodes(t@)) == Err::<
                PackageView,
                ManifestParseErrorView,
            >(e@),
        },
{
    match check_keys(t, "package") {
        Ok(_) => {},
        Err(e) => {
            return Err(e);
        },
    }
    let name = match text_field(t, "package", "name") {
        Ok(name) => name,
        Err(e) => {
            return Err(e);
        },
    };
    let version = match text_field(t, "package", "version") {
        Ok(version) => version,
        Err(e) => {
            return Err(e);
        },
    };
    let main = match text_field(t, "package", "main") {
        Ok(main) => main,
        Err(e) => {
            return Err(e);
        },
    };
    Ok(Package { name, version, main })
}

/// Reads the `package` section of a document.
fn package_section(doc: &Vec<(String, Item)>) -> (r: Result<Package, ManifestParseError>)
    ensures
        match r {
            Ok(p) => read_package(entry_nodes(doc@)) == Ok::<PackageView, ManifestParseErrorView>(p@),
            Err(e) => read_package(entry_nodes(doc@)) == Err::<PackageView, ManifestParseErrorView>(
                e@,
            ),
        },
{
    match find_item(doc, "package") {
        None => Err(ManifestParseError::MissingField("package".to_owned())),
        Some(Item::Table(t)) => package_fields(t),
        Some(_) => Err(ManifestParseError::WrongType("package".to_owned())),
    }
}

/// Reads a scope string: `Compile` or `Runtime`, nothing else.
pub fn parse_scope(s: &str) -> (r: Option<DependencyType>)
    ensures
        r == scope_of(s@),
{
    if same_text(s, "Compile") {
        Some(DependencyType::Compile)
    } else if same_text(s, "Runtime") {
        Some(DependencyType::Runtime)
    } else {
        None
    }
}

/// The dotted path of a dependency.
fn dependency_path_of(name: &str) -> (path: String)
    ensures
        path@ == dependency_path(name@),
{
    path_of("dependencies", name)
}

/// Reads the optional `scope` field of the table of a dependency.
fn scope_field(name: &str, t: &Vec<(String, Item)>) -> (r: Result<
    Option<DependencyType>,
    ManifestParseError,
>)
    ensures
        match r {
            Ok(scope) => read_scope(name@, entry_nodes(t@)) == Ok::<
                Option<DependencyType>,
                ManifestParseErrorView,
            >(scope),
            Err(e) => read_scope(name@, entry_nodes(t@)) == Err::<
                Option<DependencyType>,
                ManifestParseErrorView,
            >(e@),
        },
{
    match find_item(t, "scope") {
        None => Ok(None),
        Some(Item::Text(s)) => match parse_scope(s.as_str()) {
            Some(scope) => Ok(Some(scope)),
            None => Err(
                ManifestParseError::UnknownScope { dependency: name.to_owned(), scope: s.clone() },
            ),
        },
        Some(_) => Err(
            ManifestParseError::WrongType(path_of(dependency_path_of(name).as_str(), "scope")),
        ),
    }
}

/// Refuses an empty coordinate.
fn coordinate(name: &str, c: String) -> (r: Result<String, ManifestParseError>)
    ensures
        match r {
            Ok(s) => read_coordinate(name@, c@) == Ok::<Seq<char>, ManifestParseErrorView>(s@),
            Err(e) => read_coordinate(name@, c@) == Err::<Seq<char>, ManifestParseErrorView>(e@),
        },
{
    if c.as_str().is_empty() {
        Err(ManifestParseError::EmptyCoordinate(name.to_owned()))
    } else {
        Ok(c)
    }
}

/// Reads the table form of a dependency.
fn scoped_dependency(name: &str, t: &Vec<(String, Item)>) -> (r: Result<
    DependencyDef,
    ManifestParseError,
>)
    ensures
        match r {
            Ok(def) => read_scoped(name@, entry_nodes(t@)) == Ok::<
                DependencyDefView,
                ManifestParseErrorView,
            >(def@) && def.wf(),
            Err(e) => read_scoped(name@, entry_nodes(t@)) == Err::<
                DependencyDefView,
                ManifestParseErrorView,
            >(e@),
        },
{
    let path = dependency_path_of(name);
    match check_keys(t, path.as_str()) {
        Ok(_) => {},
        Err(e) => {
            return Err(e);
        },
    }
    let given = match text_field(t, path.as_str(), "value") {
        Ok(given) => given,
        Err(e) => {
            return Err(e);
        },
    };
    let value = match coordinate(name, given) {
        Ok(value) => value,
        Err(e) => {
            return Err(e);
        },
    };
    match scope_field(name, t) {
        Ok(scope) => Ok(DependencyDef::Full { value, scope }),
        Err(e) => Err(e),
    }
}

/// Reads one entry of the `dependencies` section.
fn dependency_entry(name: &str, item: &Item) -> (r: Result<DependencyDef, ManifestParseError>)
    ensures
        match r {
            Ok(def) => read_dependency(name@, item.node()) == Ok::<
                DependencyDefView,
                ManifestParseErrorView,
            >(def@) && def.wf(),
            Err(e) => read_dependency(name@, item.node()) == Err::<
                DependencyDefView,
                ManifestParseErrorView,
            >(e@),
        },
{
    match item {
        Item::Text(c) => match coordinate(name, c.clone()) {
            Ok(c) => Ok(DependencyDef::Simple(c)),
            Err(e) => Err(e),
        },
        Item::Table(t) => scoped_dependency(name, t),
        Item::Other => Err(ManifestParseError::WrongType(dependency_path_of(name))),
    }
}

/// The entries of a dependency table as plain values.
pub open spec fn dependency_views(deps: Seq<Dependency>) -> Seq<(Seq<char>, DependencyDefView)> {
    deps.map_values(|d: Dependency| d@)
}

/// Where the entries before `i` can be read and the entry at `i` cannot, the
/// whole table fails with the error of that entry.
pub proof fn lemma_first_fault(entries: Seq<(Seq<char>, Node)>, i: int)
    requires
        0 <= i < entries.len(),
        read_dependencies(entries.subrange(0, i)) is Ok,
        read_dependency(entries[i].0, entries[i].1) is Err,
    ensures
        read_dependencies(entries) == Err::<Seq<(Seq<char>, DependencyDefView)>, ManifestParseErrorView>(
            read_dependency(entries[i].0, entries[i].1)->Err_0,
        ),
    decreases entries.len(),
{
    if i == entries.len() - 1 {
        assert(entries.drop_last() == entries.subrange(0, i));
    } else {
        let front = entries.drop_last();
        assert(front.subrange(0, i) == entries.subrange(0, i));
        lemma_first_fault(front, i);
    }
}

/// Reads the entries of the `dependencies` table in order.
fn dependency_table(t: &Vec<(String, Item)>) -> (r: Result<Vec<Dependency>, ManifestParseError>)
    ensures
        match r {
            Ok(deps) => read_dependency_table(entry_nodes(t@)) == Ok::<
                Seq<(Seq<char>, DependencyDefView)>,
                ManifestParseErrorView,
            >(dependency_views(deps@)) && dependency_names(deps@).no_duplicates() && forall|i: int|
                0 <= i < deps@.len() ==> (#[trigger] deps@[i]).def.wf(),
            Err(e) => read_dependency_table(entry_nodes(t@)) == Err::<
                Seq<(Seq<char>, DependencyDefView)>,
                ManifestParseErrorView,
            >(e@),
        },
{
    match check_keys(t, "dependencies") {
        Ok(_) => {},
        Err(e) => {
            return Err(e);
        },
    }
    let ghost entries = entry_nodes(t@);
    proof {
        lemma_entry_nodes(t@);
        lemma_no_repeat_is_distinct(entry_keys(entries));
        assert(entries.subrange(0, 0) == Seq::<(Seq<char>, Node)>::empty());
    }
    let mut deps: Vec<Dependency> = Vec::new();
    let mut i: usize = 0;
    assert(dependency_views(deps@) == Seq::<(Seq<char>, DependencyDefView)>::empty());
    while i < t.len()
        invariant
            entries == entry_nodes(t@),
            entries.len() == t@.len(),
            repeated_key(entries) is None,
            entry_keys(entries).no_duplicates(),
            forall|j: int|
                0 <= j < t@.len() ==> (#[trigger] entries[j]) == (t@[j].0@, t@[j].1.node()),
            i <= t.len(),
            deps@.len() == i,
            read_dependencies(entries.subrange(0, i as int)) == Ok::<
                Seq<(Seq<char>, DependencyDefView)>,
                ManifestParseErrorView,
            >(dependency_views(deps@)),
            forall|j: int| 0 <= j < i ==> (#[trigger] deps@[j]).name@ == entries[j].0,
            forall|j: int| 0 <= j < i ==> (#[trigger] deps@[j]).def.wf(),
        decreases t.len() - i,
    {
        let ghost upto = entries.subrange(0, i + 1);
        proof {
            assert(upto.drop_last() == entries.subrange(0, i as int));
            assert(upto.last() == entries[i as int]);
        }
        match dependency_entry(t[i].0.as_str(), &t[i].1) {
            Ok(def) => {
                let ghost before = deps@;
                deps.push(Dependency { name: t[i].0.clone(), def });
                assert(dependency_views(deps@) == dependency_views(before).push(
                    (entries[i as int].0, def@),
                ));
            },
            Err(e) => {
                proof {
                    lemma_first_fault(entries, i as int);
                }
                return Err(e);
            },
        }
        i += 1;
    }
    assert(entries.subrange(0, entries.len() as int) == entries);
    assert(dependency_names(deps@) == entry_keys(entries));
    Ok(deps)
}

/// Reads the optional `dependencies` section of a document.
fn dependency_section(doc: &Vec<(String, Item)>) -> (r: Result<Vec<Dependency>, ManifestParseError>)
    ensures
        match r {
            Ok(deps) => read_dependency_section(entry_nodes(doc@)) == Ok::<
                Seq<(Seq<char>, DependencyDefView)>,
                ManifestParseErrorView,
            >(dependency_views(deps@)) && dependency_names(deps@).no_duplicates() && forall|i: int|
                0 <= i < deps@.len() ==> (#[trigger] deps@[i]).def.wf(),
            Err(e) => read_dependency_section(entry_nodes(doc@)) == Err::<
                Seq<(Seq<char>, DependencyDefView)>,
                ManifestParseErrorView,
            >(e@),
        },
{
    match find_item(doc, "dependencies") {
        None => {
            let deps: Vec<Dependency> = Vec::new();
            assert(dependency_views(deps@) == Seq::<(Seq<char>, DependencyDefView)>::empty());
            Ok(deps)
        },
        Some(Item::Table(t)) => dependency_table(t),
        Some(_) => Err(ManifestParseError::WrongType("dependencies".to_owned())),
    }
}

/// The outcome of reading a manifest, as plain values.
pub open spec fn outcome_view(r: Result<JargoToml, ManifestParseError>) -> Result<
    ManifestView,
    ManifestParseErrorView,
> {
    match r {
        Ok(m) => Ok(m@),
        Err(e) => Err(e@),
    }
}

/// Reads the manifest out of a document. The result is the manifest that the
/// schema gives for the entries of the document, or the first violation of
/// the schema; a manifest that is returned is well formed.
pub fn manifest_from_document(doc: &Vec<(String, Item)>) -> (r: Result<JargoToml, ManifestParseError>)
    ensures
        outcome_view(r) == read_manifest(entry_nodes(doc@)),
        r matches Ok(m) ==> m.wf(),
{
    match duplicate_key(doc) {
        Some(j) => {
            return Err(ManifestParseError::DuplicateKey(doc[j].0.clone()));
        },
        None => {},
    }
    let package = match package_section(doc) {
        Ok(package) => package,
        Err(e) => {
            return Err(e);
        },
    };
    match dependency_section(doc) {
        Ok(dependencies) => Ok(JargoToml { package, dependencies }),
        Err(e) => Err(e),
    }
}

/// Parses the text of a manifest. The text is handed to the TOML parser;
/// where that fails the result is its syntax error, otherwise the document
/// is read as `manifest_from_document` does.
pub fn parse_manifest(text: &str) -> (r: Result<JargoToml, ManifestParseError>)
    ensures
        outcome_view(r) == manifest_of_text(toml_document(text@)),
        r matches Ok(m) ==> m.wf(),
{
    match parse_document(text) {
        Ok(table) => {
            let doc = items_of_table(&table);
            manifest_from_document(&doc)
        },
        Err(error) => Err(ManifestParseError::Syntax(error_message(&error))),
    }
}

} // verus!
