//! Languages and source files: telling the language of a target, and
//! finding the file that a target names.

use vstd::prelude::*;
use crate::error::{EscapeError, EscapeErrorView};
use crate::text::chars::{chars_of, string_of};
use crate::text::compose::{replace_char, replaced};
use crate::text::names::{concat2, same_text};
use crate::text::search::{contains, contains_str, ends_with_str, has_suffix};
use crate::text::split::{before_first, take_before};

verus! {

/// The language that a target shows by its ending, or by the word `python`
/// in it.
pub open spec fn detected_language(target: Seq<char>) -> Option<Seq<char>> {
    if has_suffix(target, ".py"@) || contains(target, "python"@) {
        Some("python"@)
    } else if has_suffix(target, ".java"@) {
        Some("java"@)
    } else if has_suffix(target, ".js"@) || has_suffix(target, ".mjs"@) {
        Some("javascript"@)
    } else if has_suffix(target, ".go"@) {
        Some("go"@)
    } else if has_suffix(target, ".rs"@) {
        Some("rust"@)
    } else {
        None
    }
}

/// The name of a language for which `filter` is another word.
pub open spec fn normalized_filter(filter: Seq<char>) -> Seq<char> {
    if filter == "js"@ || filter == "node"@ || filter == "nodejs"@ {
        "javascript"@
    } else if filter == "py"@ {
        "python"@
    } else {
        filter
    }
}

/// The ending of the source files of a language.
pub open spec fn extension_of(language: Seq<char>) -> Option<Seq<char>> {
    if language == "python"@ {
        Some("py"@)
    } else if language == "java"@ {
        Some("java"@)
    } else if language == "javascript"@ || language == "nodejs"@ {
        Some("js"@)
    } else if language == "go"@ {
        Some("go"@)
    } else if language == "rust"@ {
        Some("rs"@)
    } else {
        None
    }
}

/// The part of a target that names its source: what stands before the
/// first colon.
pub open spec fn source_part(target: Seq<char>) -> Seq<char> {
    before_first(target, ':')
}

/// The source part is a path as it stands: it holds a separator, or ends
/// in the extension.
pub open spec fn is_path(part: Seq<char>, extension: Seq<char>) -> bool {
    contains(part, "/"@) || contains(part, "\\"@) || has_suffix(part, "."@ + extension)
}

/// The file of a module: its dots turned into separators, and the
/// extension at its end.
pub open spec fn module_file(part: Seq<char>, extension: Seq<char>) -> Seq<char> {
    replaced(part, '.', "/"@) + "."@ + extension
}

/// The file that a target names. A target without a colon is the file. With
/// one, the part before it is the file where it is a path; else it is a
/// module, whose file is taken where it exists, else under `tests/` where
/// it exists there, else as it is.
pub open spec fn resolved_source(
    target: Seq<char>,
    extension: Seq<char>,
    exists_direct: bool,
    exists_under_tests: bool,
) -> Seq<char> {
    if !contains(target, ":"@) {
        target
    } else if is_path(source_part(target), extension) {
        source_part(target)
    } else if exists_direct {
        module_file(source_part(target), extension)
    } else if exists_under_tests {
        "tests/"@ + module_file(source_part(target), extension)
    } else {
        module_file(source_part(target), extension)
    }
}

/// The language that a target shows.
pub fn detect_language_from_target(target: &str) -> (r: Result<String, EscapeError>)
    ensures
        match r {
            Ok(l) => detected_language(target@) == Some(l@),
            Err(e) => detected_language(target@) is None && e@ == EscapeErrorView::UnknownLanguage(
                target@,
            ),
        },
{
    let v = chars_of(target);
    if ends_with_str(&v, ".py") || contains_str(&v, "python") {
        Ok(String::from_str("python"))
    } else if ends_with_str(&v, ".java") {
        Ok(String::from_str("java"))
    } else if ends_with_str(&v, ".js") || ends_with_str(&v, ".mjs") {
        Ok(String::from_str("javascript"))
    } else if ends_with_str(&v, ".go") {
        Ok(String::from_str("go"))
    } else if ends_with_str(&v, ".rs") {
        Ok(String::from_str("rust"))
    } else {
        Err(EscapeError::UnknownLanguage(String::from_str(target)))
    }
}

/// The name of a language for which `filter` is another word.
pub fn normalize_language_filter(filter: &str) -> (r: String)
    ensures
        r@ == normalized_filter(filter@),
{
    if same_text(filter, "js") || same_text(filter, "node") || same_text(filter, "nodejs") {
        String::from_str("javascript")
    } else if same_text(filter, "py") {
        String::from_str("python")
    } else {
        String::from_str(filter)
    }
}

/// Whether an analyzer of `language` passes the filter of a bulk run: any
/// does where no filter is set, and else the one that the filter names.
pub fn passes_filter(language: &str, filter: Option<&str>) -> (r: bool)
    ensures
        r == match filter {
            Some(f) => language@ == normalized_filter(f@),
            None => true,
        },
{
    match filter {
        Some(f) => {
            let wanted = normalize_language_filter(f);
            same_text(language, wanted.as_str())
        },
        None => true,
    }
}

/// The ending of the source files of a language.
pub fn canonical_extension(language: &str) -> (r: Option<&'static str>)
    ensures
        match r {
            Some(e) => extension_of(language@) == Some(e@),
            None => extension_of(language@) is None,
        },
{
    if same_text(language, "python") {
        Some("py")
    } else if same_text(language, "java") {
        Some("java")
    } else if same_text(language, "javascript") || same_text(language, "nodejs") {
        Some("js")
    } else if same_text(language, "go") {
        Some("go")
    } else if same_text(language, "rust") {
        Some("rs")
    } else {
        None
    }
}

/// The file of the module that a target names, where the target names a
/// module and no path: the file whose existence decides where the source
/// is looked for.
pub fn module_candidate(target: &str, extension: &str) -> (r: Option<String>)
    ensures
        match r {
            Some(f) => contains(target@, ":"@) && !is_path(source_part(target@), extension@)
                && f@ == module_file(source_part(target@), extension@),
            None => !contains(target@, ":"@) || is_path(source_part(target@), extension@),
        },
{
    let v = chars_of(target);
    if !contains_str(&v, ":") {
        return None;
    }
    let part = take_before(&v, ':');
    let ending = concat2(".", extension);
    if contains_str(&part, "/") || contains_str(&part, "\\") || ends_with_str(
        &part,
        ending.as_str(),
    ) {
        return None;
    }
    let part_text = string_of(&part);
    let file = replace_char(part_text.as_str(), '.', "/");
    Some(concat2(file.as_str(), ending.as_str()))
}

/// The file that a target names, given whether the file of its module
/// exists as it is, and whether it exists under `tests/`.
pub fn resolve_source_file(
    target: &str,
    extension: &str,
    exists_direct: bool,
    exists_under_tests: bool,
) -> (r: String)
    ensures
        r@ == resolved_source(target@, extension@, exists_direct, exists_under_tests),
{
    match module_candidate(target, extension) {
        Some(file) => {
            if exists_direct {
                file
            } else if exists_under_tests {
                concat2("tests/", file.as_str())
            } else {
                file
            }
        },
        None => {
            let v = chars_of(target);
            if contains_str(&v, ":") {
                string_of(&take_before(&v, ':'))
            } else {
                String::from_str(target)
            }
        },
    }
}

} // verus!
