//! The targets of a bulk run: what the source files of a language offer.

use vstd::prelude::*;
use crate::orchestrator::extract::{
    extract_java_class_and_methods, extract_nodejs_exports, extract_python_functions,
    extract_rust_functions, java_class_and_methods, nodejs_exports, python_functions,
    rust_functions,
};
use crate::text::chars::chars_of;
use crate::text::names::{concat2, concat3, same_text};
use crate::text::search::{ends_with_str, has_prefix, has_suffix, starts_with_str};
use crate::text::split::{lemma_strings_push, strings};

verus! {

/// A source file as the bulk run sees it.
#[derive(Debug, Clone)]
pub struct SourceFile {
    /// The path by which targets name the file.
    pub path: String,
    /// The name of the file, without its directory.
    pub name: String,
    /// The name of the file, without its directory and extension.
    pub stem: String,
    /// The text of the file.
    pub content: String,
}

/// The value of a `SourceFile`.
pub struct SourceFileView {
    pub path: Seq<char>,
    pub name: Seq<char>,
    pub stem: Seq<char>,
    pub content: Seq<char>,
}

impl View for SourceFile {
    type V = SourceFileView;

    open spec fn view(&self) -> SourceFileView {
        SourceFileView {
            path: self.path@,
            name: self.name@,
            stem: self.stem@,
            content: self.content@,
        }
    }
}

/// The values of a list of source files.
pub open spec fn files_of(v: Seq<SourceFile>) -> Seq<SourceFileView> {
    v.map_values(|f: SourceFile| f@)
}

/// A language for which targets can be discovered.
#[derive(Debug, Clone, Copy, PartialEq, Eq, Structural)]
pub enum TargetKind {
    Python,
    NodeJs,
    Java,
    Rust,
}

/// Each of `names` with `prefix` before it.
pub open spec fn prefixed(prefix: Seq<char>, names: Seq<Seq<char>>) -> Seq<Seq<char>> {
    Seq::new(names.len(), |i: int| prefix + names[i])
}

/// The targets that one file offers. `context` is the archive for Java and
/// the crate for Rust. A Python target is the path, a colon and a function;
/// `__init__.py` offers none. A JavaScript target is the path, a colon and
/// an export. A Java target is the archive, the class and a static method,
/// parted by colons. A Rust target is the crate, the file's stem and a
/// public function, parted by `::`; `lib.rs` and files whose names begin
/// with `run_` offer none.
pub open spec fn file_targets(kind: TargetKind, context: Seq<char>, file: SourceFileView) -> Seq<
    Seq<char>,
> {
    match kind {
        TargetKind::Python => if file.name == "__init__.py"@ {
            Seq::<Seq<char>>::empty()
        } else {
            prefixed(file.path + ":"@, python_functions(file.content))
        },
        TargetKind::NodeJs => prefixed(file.path + ":"@, nodejs_exports(file.content)),
        TargetKind::Java => match java_class_and_methods(file.content) {
            Some(p) => prefixed(context + ":"@ + p.0 + ":"@, p.1),
            None => Seq::<Seq<char>>::empty(),
        },
        TargetKind::Rust => if file.name == "lib.rs"@ || has_prefix(file.name, "run_"@)
            || file.stem.len() == 0 {
            Seq::<Seq<char>>::empty()
        } else {
            prefixed(context + "::"@ + file.stem + "::"@, rust_functions(file.content))
        },
    }
}

/// The targets that the first `n` files offer, file after file.
pub open spec fn targets_first(
    kind: TargetKind,
    context: Seq<char>,
    files: Seq<SourceFileView>,
    n: int,
) -> Seq<Seq<char>>
    decreases n,
{
    if n <= 0 {
        Seq::<Seq<char>>::empty()
    } else {
        targets_first(kind, context, files, n - 1) + file_targets(kind, context, files[n - 1])
    }
}

/// The targets that the files offer.
pub open spec fn targets(kind: TargetKind, context: Seq<char>, files: Seq<SourceFileView>) -> Seq<
    Seq<char>,
> {
    targets_first(kind, context, files, files.len() as int)
}

/// The directory under the test root, and the extension, of a language
/// whose targets can be discovered.
pub open spec fn language_home(language: Seq<char>) -> Option<(Seq<char>, Seq<char>)> {
    if language == "python"@ {
        Some(("python"@, "py"@))
    } else if language == "javascript"@ {
        Some(("nodejs"@, "js"@))
    } else if language == "java"@ {
        Some(("java"@, "java"@))
    } else if language == "rust"@ {
        Some(("rust"@, "rs"@))
    } else {
        None
    }
}

/// Where the files of a language are looked for.
#[derive(Debug, Clone, Copy, PartialEq, Eq, Structural)]
pub enum LanguageDir {
    /// In the directory of the language under the test root.
    Subdirectory,
    /// In the test root itself.
    Root,
    /// Nowhere.
    Missing,
}

/// The targets and the warnings of a discovery.
pub open spec fn discovered(
    language: Seq<char>,
    dir: Seq<char>,
    files: Seq<SourceFileView>,
    jar: Option<Seq<char>>,
    crate_name: Option<Seq<char>>,
) -> (Seq<Seq<char>>, Seq<Seq<char>>) {
    if language == "python"@ {
        (targets(TargetKind::Python, ""@, files), Seq::<Seq<char>>::empty())
    } else if language == "javascript"@ {
        (targets(TargetKind::NodeJs, ""@, files), Seq::<Seq<char>>::empty())
    } else if language == "java"@ {
        match jar {
            Some(j) => (targets(TargetKind::Java, j, files), Seq::<Seq<char>>::empty()),
            None => (
                Seq::<Seq<char>>::empty(),
                seq![
                    "Java tests skipped (missing built jar in "@ + dir + "), run mvn package"@,
                ],
            ),
        }
    } else if language == "rust"@ {
        (
            targets(
                TargetKind::Rust,
                match crate_name {
                    Some(c) => c,
                    None => "tests_rust"@,
                },
                files,
            ),
            Seq::<Seq<char>>::empty(),
        )
    } else if language == "go"@ {
        (
            Seq::<Seq<char>>::empty(),
            seq!["Go run-all is not supported (plugin loading not implemented)"@],
        )
    } else {
        (Seq::<Seq<char>>::empty(), Seq::<Seq<char>>::empty())
    }
}

/// What a discovery found.
#[derive(Debug, Clone)]
pub struct Discovery {
    pub targets: Vec<String>,
    pub warnings: Vec<String>,
}

/// A file in the build directory is the archive to run: it is a `.jar`, and
/// holds neither sources nor documentation.
pub open spec fn usable_jar(name: Seq<char>) -> bool {
    has_suffix(name, ".jar"@) && !has_suffix(name, "-sources.jar"@) && !has_suffix(
        name,
        "-javadoc.jar"@,
    )
}

/// Whether a file in the build directory is the archive to run.
pub fn is_usable_jar(name: &str) -> (r: bool)
    ensures
        r == usable_jar(name@),
{
    let v = chars_of(name);
    ends_with_str(&v, ".jar") && !ends_with_str(&v, "-sources.jar") && !ends_with_str(
        &v,
        "-javadoc.jar",
    )
}

/// The directory under the test root, and the extension, of a language.
pub fn language_directory(language: &str) -> (r: Option<(&'static str, &'static str)>)
    ensures
        match r {
            Some(p) => language_home(language@) == Some((p.0@, p.1@)),
            None => language_home(language@) is None,
        },
{
    if same_text(language, "python") {
        Some(("python", "py"))
    } else if same_text(language, "javascript") {
        Some(("nodejs", "js"))
    } else if same_text(language, "java") {
        Some(("java", "java"))
    } else if same_text(language, "rust") {
        Some(("rust", "rs"))
    } else {
        None
    }
}

/// Where the files of a language are looked for: in its own directory
/// where that exists, else in the test root where that holds files of the
/// language.
pub fn resolve_language_dir(subdirectory_exists: bool, root_exists: bool, root_has_files: bool)
    -> (r: LanguageDir)
    ensures
        r == if subdirectory_exists {
            LanguageDir::Subdirectory
        } else if root_exists && root_has_files {
            LanguageDir::Root
        } else {
            LanguageDir::Missing
        },
{
    if subdirectory_exists {
        LanguageDir::Subdirectory
    } else if root_exists && root_has_files {
        LanguageDir::Root
    } else {
        LanguageDir::Missing
    }
}

fn push_prefixed(out: &mut Vec<String>, prefix: &str, names: &Vec<String>)
    ensures
        strings(final(out)@) == strings(old(out)@) + prefixed(prefix@, strings(names@)),
{
    let mut i: usize = 0;
    while i < names.len()
        invariant
            i <= names.len(),
            strings(out@) == strings(old(out)@) + prefixed(prefix@, strings(names@)).take(
                i as int,
            ),
        decreases names.len() - i,
    {
        let s = concat2(prefix, names[i].as_str());
        proof {
            lemma_strings_push(out@, s);
            assert(strings(names@)[i as int] == names@[i as int]@);
            assert(strings(out@).push(s@) =~= strings(old(out)@) + prefixed(
                prefix@,
                strings(names@),
            ).take(i + 1));
        }
        out.push(s);
        i += 1;
    }
    assert(prefixed(prefix@, strings(names@)).take(names.len() as int) =~= prefixed(
        prefix@,
        strings(names@),
    ));
}

fn push_file_targets(out: &mut Vec<String>, kind: TargetKind, context: &str, file: &SourceFile)
    ensures
        strings(final(out)@) == strings(old(out)@) + file_targets(kind, context@, file@),
{
    match kind {
        TargetKind::Python => {
            if !same_text(file.name.as_str(), "__init__.py") {
                let names = extract_python_functions(file.content.as_str());
                let prefix = concat2(file.path.as_str(), ":");
                push_prefixed(out, prefix.as_str(), &names);
            } else {
                assert(strings(out@) =~= strings(old(out)@) + file_targets(
                    kind,
                    context@,
                    file@,
                ));
            }
        },
        TargetKind::NodeJs => {
            let names = extract_nodejs_exports(file.content.as_str());
            let prefix = concat2(file.path.as_str(), ":");
            push_prefixed(out, prefix.as_str(), &names);
        },
        TargetKind::Java => {
            match extract_java_class_and_methods(file.content.as_str()) {
                Some(p) => {
                    let head = concat3(context, ":", p.0.as_str());
                    let prefix = concat2(head.as_str(), ":");
                    push_prefixed(out, prefix.as_str(), &p.1);
                },
                None => {
                    assert(strings(out@) =~= strings(old(out)@) + file_targets(
                        kind,
                        context@,
                        file@,
                    ));
                },
            }
        },
        TargetKind::Rust => {
            let name = chars_of(file.name.as_str());
            let stem = chars_of(file.stem.as_str());
            if same_text(file.name.as_str(), "lib.rs") || starts_with_str(&name, "run_")
                || stem.len() == 0 {
                assert(strings(out@) =~= strings(old(out)@) + file_targets(
                    kind,
                    context@,
                    file@,
                ));
            } else {
                let names = extract_rust_functions(file.content.as_str());
                let head = concat3(context, "::", file.stem.as_str());
                let prefix = concat2(head.as_str(), "::");
                push_prefixed(out, prefix.as_str(), &names);
            }
        },
    }
}

/// The targets that the files offer.
pub fn gather_targets(kind: TargetKind, context: &str, files: &Vec<SourceFile>) -> (r: Vec<String>)
    ensures
        strings(r@) == targets(kind, context@, files_of(files@)),
{
    let mut out: Vec<String> = Vec::new();
    assert(strings(out@) =~= Seq::<Seq<char>>::empty());
    let mut i: usize = 0;
    while i < files.len()
        invariant
            i <= files.len(),
            strings(out@) == targets_first(kind, context@, files_of(files@), i as int),
        decreases files.len() - i,
    {
        assert(files_of(files@)[i as int] == files@[i as int]@);
        push_file_targets(&mut out, kind, context, &files[i]);
        i += 1;
    }
    out
}

/// The targets of a language for a bulk run, from the files found for it
/// under `dir`, the archive found for Java and the crate name found for
/// Rust. Go offers none, and a warning; Java without its archive likewise.
pub fn discover_targets_for_language(
    language: &str,
    dir: &str,
    files: &Vec<SourceFile>,
    jar: Option<&str>,
    crate_name: Option<&str>,
) -> (r: Discovery)
    ensures
        (strings(r.targets@), strings(r.warnings@)) == discovered(
            language@,
            dir@,
            files_of(files@),
            match jar {
                Some(j) => Some(j@),
                None => None,
            },
            match crate_name {
                Some(c) => Some(c@),
                None => None,
            },
        ),
{
    let mut warnings: Vec<String> = Vec::new();
    let mut targets: Vec<String> = Vec::new();
    assert(strings(warnings@) =~= Seq::<Seq<char>>::empty());
    assert(strings(targets@) =~= Seq::<Seq<char>>::empty());
    if same_text(language, "python") {
        targets = gather_targets(TargetKind::Python, "", files);
    } else if same_text(language, "javascript") {
        targets = gather_targets(TargetKind::NodeJs, "", files);
    } else if same_text(language, "java") {
        match jar {
            Some(j) => {
                targets = gather_targets(TargetKind::Java, j, files);
            },
            None => {
                let w = concat3(
                    "Java tests skipped (missing built jar in ",
                    dir,
                    "), run mvn package",
                );
                proof {
                    lemma_strings_push(warnings@, w);
                }
                warnings.push(w);
                assert(strings(warnings@) =~= seq![w@]);
            },
        }
    } else if same_text(language, "rust") {
        let name = match crate_name {
            Some(c) => c,
            None => "tests_rust",
        };
        targets = gather_targets(TargetKind::Rust, name, files);
    } else if same_text(language, "go") {
        let w = String::from_str("Go run-all is not supported (plugin loading not implemented)");
        proof {
            lemma_strings_push(warnings@, w);
        }
        warnings.push(w);
        assert(strings(warnings@) =~= seq![w@]);
    }
    Discovery { targets, warnings }
}

} // verus!
