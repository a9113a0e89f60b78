//! Renders a manifest as the two Gradle Kotlin scripts of a project.

use vstd::prelude::*;
use crate::manifest::{Dependency, DependencyDef, DependencyType, JargoToml};
use crate::scope::{compile_keyword, directive_keyword, resolve, runtime_keyword};
use crate::text::{chars_of, contains_text, occurs_at};

verus! {

/// How one character is written inside a double-quoted Kotlin string:
/// backslash, quote, dollar, line feed, carriage return and tab are escaped,
/// every other character stands for itself.
pub open spec fn escape_char(c: char) -> Seq<char> {
    if c == '\\' {
        seq!['\\', '\\']
    } else if c == '"' {
        seq!['\\', '"']
    } else if c == '$' {
        seq!['\\', '$']
    } else if c == '\n' {
        seq!['\\', 'n']
    } else if c == '\r' {
        seq!['\\', 'r']
    } else if c == '\t' {
        seq!['\\', 't']
    } else {
        seq![c]
    }
}

/// The text with each character escaped.
pub open spec fn escape(s: Seq<char>) -> Seq<char>
    decreases s.len(),
{
    if s.len() == 0 {
        Seq::empty()
    } else {
        escape_char(s[0]) + escape(s.subrange(1, s.len() as int))
    }
}

/// The text as a double-quoted Kotlin string literal.
pub open spec fn quoted(s: Seq<char>) -> Seq<char> {
    seq!['"'] + escape(s) + seq!['"']
}

/// Appends one character, escaped, to `out`.
fn push_escaped(out: &mut String, c: char)
    ensures
        final(out)@ == old(out)@ + escape_char(c),
{
    if c == '\\' || c == '"' || c == '$' {
        out.push('\\');
        out.push(c);
    } else if c == '\n' {
        out.push('\\');
        out.push('n');
    } else if c == '\r' {
        out.push('\\');
        out.push('r');
    } else if c == '\t' {
        out.push('\\');
        out.push('t');
    } else {
        out.push(c);
    }
    assert(final(out)@ =~= old(out)@ + escape_char(c));
}

/// Appends `s` as a double-quoted Kotlin string literal to `out`.
pub fn push_quoted(out: &mut String, s: &str)
    ensures
        final(out)@ == old(out)@ + quoted(s@),
{
    let chars = chars_of(s);
    out.push('"');
    let ghost start = out@;
    let mut i: usize = 0;
    assert(chars@.subrange(0, chars@.len() as int) == chars@);
    assert(out@ + escape(chars@) == start + escape(s@));
    while i < chars.len()
        invariant
            i <= chars.len(),
            chars@ == s@,
            out@ + escape(chars@.subrange(i as int, chars@.len() as int)) == start + escape(s@),
        decreases chars.len() - i,
    {
        let ghost rest = chars@.subrange(i as int, chars@.len() as int);
        let ghost before = out@;
        push_escaped(out, chars[i]);
        proof {
            assert(rest.subrange(1, rest.len() as int) == chars@.subrange(i + 1, chars@.len() as int));
            assert(before + escape_char(chars@[i as int]) + escape(rest.subrange(1, rest.len() as int))
                == before + escape(rest));
        }
        i += 1;
    }
    assert(out@ + Seq::<char>::empty() == out@);
    out.push('"');
    assert(final(out)@ =~= old(out)@ + quoted(s@));
}

/// What stands before the quoted name in the settings script.
pub open spec fn settings_prefix() -> Seq<char> {
    "rootProject.name = "@
}

/// The settings script: a single statement that names the root project.
pub open spec fn settings_text(name: Seq<char>) -> Seq<char> {
    settings_prefix() + quoted(name)
}

/// One line of the dependency block: four spaces, the configuration keyword
/// and the quoted coordinate in round brackets.
pub open spec fn directive_line(keyword: Seq<char>, coordinate: Seq<char>) -> Seq<char> {
    "    "@ + keyword + "("@ + quoted(coordinate) + ")\n"@
}

/// The line a declaration is rendered as.
pub open spec fn dependency_line(decl: DependencyDef) -> Seq<char> {
    directive_line(directive_keyword(decl), decl.coordinate())
}

/// The dependency block: the lines of all entries, in table order.
pub open spec fn dependency_block(deps: Seq<Dependency>) -> Seq<char>
    decreases deps.len(),
{
    if deps.len() == 0 {
        Seq::empty()
    } else {
        dependency_block(deps.drop_last()) + dependency_line(deps.last().def)
    }
}

/// The build script up to the dependency block: plugins, repositories and
/// the opening of the dependencies section.
pub open spec fn build_head() -> Seq<char> {
    "\nplugins {\n    java\n    application\n}\n\nrepositories {\n    mavenCentral()\n}\n\ndependencies {\n"@
}

/// What stands between the dependency block and the quoted main class.
pub open spec fn build_middle() -> Seq<char> {
    "}\n\napplication {\n    mainClass.set("@
}

/// What closes the build script.
pub open spec fn build_tail() -> Seq<char> {
    ")\n}\n"@
}

/// The build script of a manifest.
pub open spec fn build_text(deps: Seq<Dependency>, main: Seq<char>) -> Seq<char> {
    build_head() + dependency_block(deps) + build_middle() + quoted(main) + build_tail()
}

/// Renders the settings script for a root project name.
pub fn settings_script(name: &str) -> (out: String)
    ensures
        out@ == settings_text(name@),
{
    let mut out = String::new();
    out.append("rootProject.name = ");
    push_quoted(&mut out, name);
    out
}

/// Appends the line of one declaration to `out`.
pub fn push_dependency_line(out: &mut String, decl: &DependencyDef)
    ensures
        final(out)@ == old(out)@ + dependency_line(*decl),
{
    let (keyword, coordinate) = resolve(decl);
    out.append("    ");
    out.append(keyword);
    out.append("(");
    push_quoted(out, coordinate);
    out.append(")\n");
    assert(final(out)@ =~= old(out)@ + dependency_line(*decl));
}

/// Renders the dependency block of a dependency table.
pub fn dependency_script(deps: &Vec<Dependency>) -> (out: String)
    ensures
        out@ == dependency_block(deps@),
{
    let mut out = String::new();
    let mut i: usize = 0;
    assert(deps@.subrange(0, 0) == Seq::<Dependency>::empty());
    while i < deps.len()
        invariant
            i <= deps.len(),
            out@ == dependency_block(deps@.subrange(0, i as int)),
        decreases deps.len() - i,
    {
        push_dependency_line(&mut out, &deps[i].def);
        proof {
            let upto = deps@.subrange(0, i + 1);
            assert(upto.drop_last() == deps@.subrange(0, i as int));
            assert(upto.last() == deps@[i as int]);
        }
        i += 1;
    }
    assert(deps@.subrange(0, deps@.len() as int) == deps@);
    out
}

/// Renders the build script of a manifest.
pub fn build_script(config: &JargoToml) -> (out: String)
    ensures
        out@ == build_text(config.dependencies@, config.package.main@),
{
    let mut out = String::new();
    out.append(
        "\nplugins {\n    java\n    application\n}\n\nrepositories {\n    mavenCentral()\n}\n\ndependencies {\n",
    );
    let block = dependency_script(&config.dependencies);
    out.append(block.as_str());
    out.append("}\n\napplication {\n    mainClass.set(");
    push_quoted(&mut out, config.package.main.as_str());
    out.append(")\n}\n");
    assert(out@ =~= build_text(config.dependencies@, config.package.main@));
    out
}

/// A generated file: its name inside the project directory and its text.
#[derive(Debug, Clone, PartialEq, Eq)]
pub struct ScriptFile {
    pub name: String,
    pub text: String,
}

/// Name of the settings script.
pub open spec fn settings_file_name() -> Seq<char> {
    "settings.gradle.kts"@
}

/// Name of the build script.
pub open spec fn build_file_name() -> Seq<char> {
    "build.gradle.kts"@
}

/// Generates the Gradle files of a project: exactly two, the settings script
/// and then the build script. Each is to be written whole into the project
/// directory.
pub fn generate_gradle_files(config: &JargoToml) -> (files: Vec<ScriptFile>)
    ensures
        files@.len() == 2,
        files@[0].name@ == settings_file_name(),
        files@[0].text@ == settings_text(config.package.name@),
        files@[1].name@ == build_file_name(),
        files@[1].text@ == build_text(config.dependencies@, config.package.main@),
{
    let mut files: Vec<ScriptFile> = Vec::new();
    files.push(
        ScriptFile {
            name: "settings.gradle.kts".to_owned(),
            text: settings_script(config.package.name.as_str()),
        },
    );
    files.push(ScriptFile { name: "build.gradle.kts".to_owned(), text: build_script(config) });
    files
}

/// The dependency block holds the line of each of its entries.
pub proof fn lemma_block_contains_line(deps: Seq<Dependency>, i: int)
    requires
        0 <= i < deps.len(),
    ensures
        contains_text(dependency_block(deps), dependency_line(deps[i].def)),
    decreases deps.len(),
{
    let front = dependency_block(deps.drop_last());
    let line = dependency_line(deps.last().def);
    if i == deps.len() - 1 {
        assert((front + line).subrange(front.len() as int, (front.len() + line.len()) as int) == line);
        assert(occurs_at(dependency_block(deps), line, front.len() as int));
    } else {
        lemma_block_contains_line(deps.drop_last(), i);
        let part = dependency_line(deps[i].def);
        let at = choose|at: int| occurs_at(front, part, at);
        assert((front + line).subrange(at, at + part.len()) == front.subrange(at, at + part.len()));
        assert(occurs_at(dependency_block(deps), part, at));
    }
}

/// A `runtimeOnly` line is never an `implementation` line, whatever the
/// coordinates.
pub proof fn lemma_directive_lines_differ(runtime: Seq<char>, compile: Seq<char>)
    ensures
        directive_line(runtime_keyword(), runtime) != directive_line(compile_keyword(), compile),
{
    reveal_strlit("    ");
    reveal_strlit("implementation");
    reveal_strlit("runtimeOnly");
    assert(directive_line(runtime_keyword(), runtime)[4] == 'r');
    assert(directive_line(compile_keyword(), compile)[4] == 'i');
}

/// An entry declared with the run-time scope is rendered as the `runtimeOnly`
/// line of its coordinate; the dependency block holds that line, and it is
/// not an `implementation` line.
pub proof fn lemma_runtime_dependency_rendered(deps: Seq<Dependency>, i: int)
    requires
        0 <= i < deps.len(),
        deps[i].def.declared_scope() == Some(DependencyType::Runtime),
    ensures
        dependency_line(deps[i].def) == directive_line(runtime_keyword(), deps[i].def.coordinate()),
        contains_text(
            dependency_block(deps),
            directive_line(runtime_keyword(), deps[i].def.coordinate()),
        ),
        forall|c: Seq<char>|
            dependency_line(deps[i].def) != #[trigger] directive_line(compile_keyword(), c),
{
    lemma_block_contains_line(deps, i);
    assert forall|c: Seq<char>|
        dependency_line(deps[i].def) != #[trigger] directive_line(compile_keyword(), c) by {
        lemma_directive_lines_differ(deps[i].def.coordinate(), c);
    }
}

/// An entry declared with the compile scope, or with no scope at all, is
/// rendered as the `implementation` line of its coordinate, and the
/// dependency block holds that line.
pub proof fn lemma_compile_dependency_rendered(deps: Seq<Dependency>, i: int)
    requires
        0 <= i < deps.len(),
        deps[i].def.declared_scope() != Some(DependencyType::Runtime),
    ensures
        dependency_line(deps[i].def) == directive_line(compile_keyword(), deps[i].def.coordinate()),
        contains_text(
            dependency_block(deps),
            directive_line(compile_keyword(), deps[i].def.coordinate()),
        ),
{
    lemma_block_contains_line(deps, i);
}

/// With an empty dependency table the dependency block is empty, and the
/// build script is the head, directly followed by the application section.
pub proof fn lemma_empty_table(main: Seq<char>)
    ensures
        dependency_block(Seq::empty()) == Seq::<char>::empty(),
        build_text(Seq::empty(), main) == build_head() + build_middle() + quoted(main) + build_tail(),
{
    assert(build_head() + Seq::<char>::empty() == build_head());
}

} // verus!
