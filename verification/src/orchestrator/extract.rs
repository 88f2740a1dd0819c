//! Reading the names of functions, exports, classes and crates out of
//! source text.

use vstd::prelude::*;
use crate::text::chars::{
    ascii_digit, ascii_letter, chars_of, is_ascii_digit, is_ascii_letter, string_of,
};
use crate::text::compose::{replace_char, replaced};
use crate::text::names::{concat3, insert_name, lines_of, spells, with_name};
use crate::text::runs::{
    after_prefix, run_end, skip_run, strip_prefix, trim, trim_leading_text, trim_surrounding,
    trim_trailing, trimmed, without_leading_text, without_surrounding, without_trailing,
    CharClass,
};
use crate::text::search::{
    before_match, contains, contains_str, has_prefix, starts_with_str, text_before_match,
};
use crate::text::split::{
    after_first, before_first, lemma_strings_push, lines, split, split_at_char, split_words,
    strings, take_after, take_before, texts, words,
};

verus! {

/// A character that may follow the first in an identifier.
pub open spec fn is_identifier_char(c: char) -> bool {
    c == '_' || is_ascii_letter(c) || is_ascii_digit(c)
}

/// An identifier: a letter or an underscore, followed by letters, digits
/// and underscores only.
pub open spec fn valid_identifier(name: Seq<char>) -> bool {
    &&& name.len() > 0
    &&& name[0] == '_' || is_ascii_letter(name[0])
    &&& forall|i: int| 1 <= i < name.len() ==> is_identifier_char(#[trigger] name[i])
}

/// The line is indented: it begins with white space.
pub open spec fn indented(line: Seq<char>) -> bool {
    run_end(line, CharClass::Whitespace, 0) != 0
}

/// The heading that follows one of two prefixes on a line that is not
/// indented: the trimmed text between the prefix and the first `(`.
pub open spec fn heading_after(line: Seq<char>, first: Seq<char>, second: Seq<char>) -> Option<
    Seq<char>,
> {
    if indented(line) {
        None
    } else {
        let rest = match after_prefix(line, first) {
            Some(r) => Some(r),
            None => after_prefix(line, second),
        };
        match rest {
            Some(r) => match before_match(r, "("@) {
                Some(h) => Some(trimmed(h)),
                None => None,
            },
            None => None,
        }
    }
}

/// The function that a line of Python defines at the top level, unless its
/// name begins with an underscore.
pub open spec fn python_function(line: Seq<char>) -> Option<Seq<char>> {
    match heading_after(line, "def "@, "async def "@) {
        Some(f) => if f.len() > 0 && !has_prefix(f, "_"@) {
            Some(f)
        } else {
            None
        },
        None => None,
    }
}

/// The public function that a line of Rust defines at the top level.
pub open spec fn rust_function(line: Seq<char>) -> Option<Seq<char>> {
    match heading_after(line, "pub async fn "@, "pub fn "@) {
        Some(f) => if valid_identifier(f) {
            Some(f)
        } else {
            None
        },
        None => None,
    }
}

/// The functions that the first `n` lines of Python define.
pub open spec fn python_functions_first(lines: Seq<Seq<char>>, n: int) -> Seq<Seq<char>>
    decreases n,
{
    if n <= 0 {
        Seq::<Seq<char>>::empty()
    } else {
        match python_function(lines[n - 1]) {
            Some(f) => python_functions_first(lines, n - 1).push(f),
            None => python_functions_first(lines, n - 1),
        }
    }
}

/// The functions that a Python source defines at the top level, in order.
pub open spec fn python_functions(content: Seq<char>) -> Seq<Seq<char>> {
    python_functions_first(lines(content), lines(content).len() as int)
}

/// The public functions that the first `n` lines of Rust define.
pub open spec fn rust_functions_first(lines: Seq<Seq<char>>, n: int) -> Seq<Seq<char>>
    decreases n,
{
    if n <= 0 {
        Seq::<Seq<char>>::empty()
    } else {
        match rust_function(lines[n - 1]) {
            Some(f) => rust_functions_first(lines, n - 1).push(f),
            None => rust_functions_first(lines, n - 1),
        }
    }
}

/// The public functions that a Rust source defines at the top level.
pub open spec fn rust_functions(content: Seq<char>) -> Seq<Seq<char>> {
    rust_functions_first(lines(content), lines(content).len() as int)
}

/// The name that one entry of an export block gives: what stands before
/// its colon, where that is an identifier.
pub open spec fn export_item(part: Seq<char>) -> Option<Seq<char>> {
    let item = without_trailing(trimmed(part), ';');
    if item.len() > 0 && valid_identifier(trimmed(before_first(item, ':'))) {
        Some(trimmed(before_first(item, ':')))
    } else {
        None
    }
}

/// `set` after the names of the first `n` entries were added to it.
pub open spec fn with_items_first(set: Seq<Seq<char>>, parts: Seq<Seq<char>>, n: int) -> Seq<
    Seq<char>,
>
    decreases n,
{
    if n <= 0 {
        set
    } else {
        match export_item(parts[n - 1]) {
            Some(x) => with_name(with_items_first(set, parts, n - 1), x),
            None => with_items_first(set, parts, n - 1),
        }
    }
}

/// The text of a line after its first opening brace, or all of it.
pub open spec fn after_brace(t: Seq<char>) -> Seq<char> {
    match after_first(t, '{') {
        Some(a) => a,
        None => t,
    }
}

/// The name to which a line assigns after the given prefix.
pub open spec fn assigned_name(t: Seq<char>, prefix: Seq<char>) -> Option<Seq<char>> {
    match after_prefix(t, prefix) {
        Some(rest) => if valid_identifier(trimmed(before_first(rest, '='))) {
            Some(trimmed(before_first(rest, '=')))
        } else {
            None
        },
        None => None,
    }
}

/// What the scan for exports has gathered.
pub struct ExportScan {
    /// The scan stands inside an export block that spans lines.
    pub in_block: bool,
    /// The names exported so far, each once.
    pub exports: Seq<Seq<char>>,
}

/// `set` with the name `x`, where there is one.
pub open spec fn with_optional(set: Seq<Seq<char>>, x: Option<Seq<char>>) -> Seq<Seq<char>> {
    match x {
        Some(n) => with_name(set, n),
        None => set,
    }
}

/// The scan for exports after one more line. Comment lines are passed over.
/// A line that begins with `module.exports` and holds an opening brace opens
/// a block; inside a block the entries up to the closing brace are taken.
/// Assignments to `exports.x` and `module.exports.x` give names too.
pub open spec fn export_step(st: ExportScan, line: Seq<char>) -> ExportScan {
    let t = trimmed(line);
    if has_prefix(t, "//"@) || has_prefix(t, "/*"@) || has_prefix(t, "*"@) {
        st
    } else {
        let opened = st.in_block || (has_prefix(t, "module.exports"@) && contains(t, "{"@));
        let entries = split(before_first(after_brace(t), '}'), ',');
        let block = if opened {
            with_items_first(st.exports, entries, entries.len() as int)
        } else {
            st.exports
        };
        ExportScan {
            in_block: opened && !contains(after_brace(t), "}"@),
            exports: with_optional(
                with_optional(block, assigned_name(t, "exports."@)),
                assigned_name(t, "module.exports."@),
            ),
        }
    }
}

/// The scan for exports after the first `n` lines.
pub open spec fn exports_first(lines: Seq<Seq<char>>, n: int) -> ExportScan
    decreases n,
{
    if n <= 0 {
        ExportScan { in_block: false, exports: Seq::<Seq<char>>::empty() }
    } else {
        export_step(exports_first(lines, n - 1), lines[n - 1])
    }
}

/// The names that a JavaScript source exports, each once, in the order in
/// which they first occur.
pub open spec fn nodejs_exports(content: Seq<char>) -> Seq<Seq<char>> {
    exports_first(lines(content), lines(content).len() as int).exports
}

/// The first position at or after `i` that holds the word `w`; the number
/// of words where none does.
pub open spec fn word_index(ws: Seq<Seq<char>>, w: Seq<char>, i: int) -> int
    decreases ws.len() - i,
{
    if i < 0 || i >= ws.len() {
        ws.len() as int
    } else if ws[i] == w {
        i
    } else {
        word_index(ws, w, i + 1)
    }
}

/// What the scan of a Java source has gathered.
pub struct ClassScan {
    pub package: Option<Seq<char>>,
    pub class: Option<Seq<char>>,
    pub methods: Seq<Seq<char>>,
}

/// The package that a line names.
pub open spec fn package_of(t: Seq<char>) -> Option<Seq<char>> {
    let name = trimmed(without_trailing(without_leading_text(t, "package "@), ';'));
    if has_prefix(t, "package "@) && name.len() > 0 {
        Some(name)
    } else {
        None
    }
}

/// The class that a line declares: the word after `class`.
pub open spec fn class_of(t: Seq<char>) -> Option<Seq<char>> {
    let ws = words(t);
    let idx = word_index(ws, "class"@, 0);
    if contains(t, " class "@) && idx + 1 < ws.len() {
        Some(without_trailing(trimmed(ws[idx + 1]), '{'))
    } else {
        None
    }
}

/// The static method that a line declares: the last word before its first
/// `(`, where that is an identifier and not the name of the class.
pub open spec fn static_method(t: Seq<char>, class: Option<Seq<char>>) -> Option<Seq<char>> {
    let tokens = words(before_first(t, '('));
    if contains(t, " static "@) && contains(t, "("@) && tokens.len() > 0 && class != Some(
        tokens.last(),
    ) && valid_identifier(tokens.last()) {
        Some(tokens.last())
    } else {
        None
    }
}

/// The scan of a Java source after one more line.
pub open spec fn class_step(st: ClassScan, line: Seq<char>) -> ClassScan {
    let t = trimmed(line);
    let class = if st.class is None {
        class_of(t)
    } else {
        st.class
    };
    ClassScan {
        package: match package_of(t) {
            Some(p) => Some(p),
            None => st.package,
        },
        class,
        methods: match static_method(t, class) {
            Some(m) => st.methods.push(m),
            None => st.methods,
        },
    }
}

/// The scan of a Java source after the first `n` lines.
pub open spec fn class_scan_first(lines: Seq<Seq<char>>, n: int) -> ClassScan
    decreases n,
{
    if n <= 0 {
        ClassScan { package: None, class: None, methods: Seq::<Seq<char>>::empty() }
    } else {
        class_step(class_scan_first(lines, n - 1), lines[n - 1])
    }
}

/// The class of a Java source, with its package before it, and its static
/// methods; nothing where the source declares no class.
pub open spec fn java_class_and_methods(content: Seq<char>) -> Option<(Seq<char>, Seq<Seq<char>>)> {
    let st = class_scan_first(lines(content), lines(content).len() as int);
    match st.class {
        None => None,
        Some(c) => Some(
            (
                match st.package {
                    Some(p) => p + "."@ + c,
                    None => c,
                },
                st.methods,
            ),
        ),
    }
}

/// The name that a line of a manifest gives the crate, with `_` for `-`.
pub open spec fn crate_name_of_line(line: Seq<char>) -> Option<Seq<char>> {
    let t = trimmed(line);
    if has_prefix(t, "name = "@) {
        Some(
            replaced(
                without_surrounding(trimmed(without_leading_text(t, "name = "@)), '"'),
                '-',
                "_"@,
            ),
        )
    } else {
        None
    }
}

/// The name that the first naming line, from line `i` on, gives the crate.
pub open spec fn crate_name_from(lines: Seq<Seq<char>>, i: int) -> Option<Seq<char>>
    decreases lines.len() - i,
{
    if i < 0 || i >= lines.len() {
        None
    } else {
        match crate_name_of_line(lines[i]) {
            Some(n) => Some(n),
            None => crate_name_from(lines, i + 1),
        }
    }
}

/// The name of the crate that a manifest describes.
pub open spec fn manifest_crate_name(content: Seq<char>) -> Option<Seq<char>> {
    crate_name_from(lines(content), 0)
}

/// Whether `name` is an identifier.
pub fn is_valid_identifier(name: &str) -> (r: bool)
    ensures
        r == valid_identifier(name@),
{
    valid_identifier_chars(&chars_of(name))
}

fn valid_identifier_chars(v: &Vec<char>) -> (r: bool)
    ensures
        r == valid_identifier(v@),
{
    if v.len() == 0 {
        return false;
    }
    if !(v[0] == '_' || ascii_letter(v[0])) {
        return false;
    }
    let mut i: usize = 1;
    while i < v.len()
        invariant
            1 <= i <= v.len(),
            forall|j: int| 1 <= j < i ==> is_identifier_char(#[trigger] v@[j]),
        decreases v.len() - i,
    {
        let c = v[i];
        if !(c == '_' || ascii_letter(c) || ascii_digit(c)) {
            return false;
        }
        i += 1;
    }
    true
}

fn heading_of(v: &Vec<char>, first: &str, second: &str) -> (r: Option<Vec<char>>)
    ensures
        match r {
            Some(h) => heading_after(v@, first@, second@) == Some(h@),
            None => heading_after(v@, first@, second@) is None,
        },
{
    if skip_run(v, CharClass::Whitespace, 0) != 0 {
        return None;
    }
    let rest = match strip_prefix(v, first) {
        Some(r) => r,
        None => match strip_prefix(v, second) {
            Some(r) => r,
            None => {
                return None;
            },
        },
    };
    match text_before_match(&rest, "(") {
        Some(h) => Some(trim(&h)),
        None => None,
    }
}

/// The functions that a Python source defines at the top level, in order.
pub fn extract_python_functions(content: &str) -> (r: Vec<String>)
    ensures
        strings(r@) == python_functions(content@),
{
    let rows = lines_of(content);
    let mut out: Vec<String> = Vec::new();
    assert(strings(out@) =~= Seq::<Seq<char>>::empty());
    let mut i: usize = 0;
    while i < rows.len()
        invariant
            i <= rows.len(),
            strings(rows@) == lines(content@),
            strings(out@) == python_functions_first(lines(content@), i as int),
        decreases rows.len() - i,
    {
        assert(strings(rows@)[i as int] == rows@[i as int]@);
        let v = chars_of(rows[i].as_str());
        match heading_of(&v, "def ", "async def ") {
            Some(f) => {
                if f.len() > 0 && !starts_with_str(&f, "_") {
                    let s = string_of(&f);
                    proof {
                        lemma_strings_push(out@, s);
                    }
                    out.push(s);
                }
            },
            None => {},
        }
        i += 1;
    }
    out
}

/// The public functions that a Rust source defines at the top level.
pub fn extract_rust_functions(content: &str) -> (r: Vec<String>)
    ensures
        strings(r@) == rust_functions(content@),
{
    let rows = lines_of(content);
    let mut out: Vec<String> = Vec::new();
    assert(strings(out@) =~= Seq::<Seq<char>>::empty());
    let mut i: usize = 0;
    while i < rows.len()
        invariant
            i <= rows.len(),
            strings(rows@) == lines(content@),
            strings(out@) == rust_functions_first(lines(content@), i as int),
        decreases rows.len() - i,
    {
        assert(strings(rows@)[i as int] == rows@[i as int]@);
        let v = chars_of(rows[i].as_str());
        match heading_of(&v, "pub async fn ", "pub fn ") {
            Some(f) => {
                if valid_identifier_chars(&f) {
                    let s = string_of(&f);
                    proof {
                        lemma_strings_push(out@, s);
                    }
                    out.push(s);
                }
            },
            None => {},
        }
        i += 1;
    }
    out
}

fn add_assigned(set: &mut Vec<String>, t: &Vec<char>, prefix: &str)
    ensures
        strings(final(set)@) == with_optional(strings(old(set)@), assigned_name(t@, prefix@)),
        strings(old(set)@).no_duplicates() ==> strings(final(set)@).no_duplicates(),
{
    match strip_prefix(t, prefix) {
        Some(rest) => {
            let f = trim(&take_before(&rest, '='));
            if valid_identifier_chars(&f) {
                insert_name(set, string_of(&f));
            }
        },
        None => {},
    }
}

fn add_items(set: &mut Vec<String>, entries: &Vec<Vec<char>>)
    ensures
        strings(final(set)@) == with_items_first(
            strings(old(set)@),
            texts(entries@),
            entries@.len() as int,
        ),
        strings(old(set)@).no_duplicates() ==> strings(final(set)@).no_duplicates(),
{
    let mut i: usize = 0;
    while i < entries.len()
        invariant
            i <= entries.len(),
            strings(set@) == with_items_first(strings(old(set)@), texts(entries@), i as int),
            strings(old(set)@).no_duplicates() ==> strings(set@).no_duplicates(),
        decreases entries.len() - i,
    {
        assert(texts(entries@)[i as int] == entries@[i as int]@);
        let item = trim_trailing(&trim(&entries[i]), ';');
        if item.len() > 0 {
            let name = trim(&take_before(&item, ':'));
            if valid_identifier_chars(&name) {
                insert_name(set, string_of(&name));
            }
        }
        i += 1;
    }
}

/// The names that a JavaScript source exports, each once, in the order in
/// which they first occur.
pub fn extract_nodejs_exports(content: &str) -> (r: Vec<String>)
    ensures
        strings(r@) == nodejs_exports(content@),
        strings(r@).no_duplicates(),
{
    let rows = lines_of(content);
    let mut exports: Vec<String> = Vec::new();
    let mut in_block = false;
    assert(strings(exports@) =~= Seq::<Seq<char>>::empty());
    let mut i: usize = 0;
    while i < rows.len()
        invariant
            i <= rows.len(),
            strings(rows@) == lines(content@),
            (ExportScan { in_block, exports: strings(exports@) }) == exports_first(
                lines(content@),
                i as int,
            ),
            strings(exports@).no_duplicates(),
        decreases rows.len() - i,
    {
        assert(strings(rows@)[i as int] == rows@[i as int]@);
        let t = trim(&chars_of(rows[i].as_str()));
        if !(starts_with_str(&t, "//") || starts_with_str(&t, "/*") || starts_with_str(&t, "*")) {
            if starts_with_str(&t, "module.exports") && contains_str(&t, "{") {
                in_block = true;
            }
            if in_block {
                let after = match take_after(&t, '{') {
                    Some(a) => a,
                    None => t.clone(),
                };
                assert(after@ == after_brace(t@));
                if contains_str(&after, "}") {
                    in_block = false;
                }
                let entries = split_at_char(&take_before(&after, '}'), ',');
                add_items(&mut exports, &entries);
            }
            add_assigned(&mut exports, &t, "exports.");
            add_assigned(&mut exports, &t, "module.exports.");
        }
        i += 1;
    }
    exports
}

fn find_word(ws: &Vec<Vec<char>>, w: &str) -> (r: usize)
    ensures
        r as int == word_index(texts(ws@), w@, 0),
        r <= ws.len(),
{
    let mut i: usize = 0;
    while i < ws.len()
        invariant
            i <= ws.len(),
            word_index(texts(ws@), w@, i as int) == word_index(texts(ws@), w@, 0),
        decreases ws.len() - i,
    {
        assert(texts(ws@)[i as int] == ws@[i as int]@);
        if spells(&ws[i], w) {
            return i;
        }
        i += 1;
    }
    i
}

/// The class of a Java source, with its package before it, and its static
/// methods.
pub fn extract_java_class_and_methods(content: &str) -> (r: Option<(String, Vec<String>)>)
    ensures
        match r {
            Some(p) => java_class_and_methods(content@) == Some((p.0@, strings(p.1@))),
            None => java_class_and_methods(content@) is None,
        },
{
    let rows = lines_of(content);
    let mut package: Option<String> = None;
    let mut class: Option<String> = None;
    let mut methods: Vec<String> = Vec::new();
    assert(strings(methods@) =~= Seq::<Seq<char>>::empty());
    let mut i: usize = 0;
    while i < rows.len()
        invariant
            i <= rows.len(),
            strings(rows@) == lines(content@),
            (ClassScan {
                package: crate::protocol::opt_text(package),
                class: crate::protocol::opt_text(class),
                methods: strings(methods@),
            }) == class_scan_first(lines(content@), i as int),
        decreases rows.len() - i,
    {
        assert(strings(rows@)[i as int] == rows@[i as int]@);
        let t = trim(&chars_of(rows[i].as_str()));
        if starts_with_str(&t, "package ") {
            let name = trim(&trim_trailing(&trim_leading_text(&t, "package "), ';'));
            if name.len() > 0 {
                package = Some(string_of(&name));
            }
        }
        if class.is_none() && contains_str(&t, " class ") {
            let ws = split_words(&t);
            let idx = find_word(&ws, "class");
            if idx < ws.len() && idx + 1 < ws.len() {
                assert(texts(ws@)[idx + 1] == ws@[idx + 1]@);
                class = Some(string_of(&trim_trailing(&trim(&ws[idx + 1]), '{')));
            }
        }
        if contains_str(&t, " static ") && contains_str(&t, "(") {
            let tokens = split_words(&take_before(&t, '('));
            if tokens.len() > 0 {
                let name = &tokens[tokens.len() - 1];
                assert(texts(tokens@).last() == name@);
                let is_class = match &class {
                    Some(c) => spells(name, c.as_str()),
                    None => false,
                };
                if !is_class && valid_identifier_chars(name) {
                    let s = string_of(name);
                    proof {
                        lemma_strings_push(methods@, s);
                    }
                    methods.push(s);
                }
            }
        }
        i += 1;
    }
    match class {
        None => None,
        Some(c) => {
            let fqcn = match package {
                Some(p) => concat3(p.as_str(), ".", c.as_str()),
                None => c,
            };
            Some((fqcn, methods))
        },
    }
}

/// The name of the crate that a manifest describes.
pub fn parse_crate_name(manifest: &str) -> (r: Option<String>)
    ensures
        crate::protocol::opt_text(r) == manifest_crate_name(manifest@),
{
    let rows = lines_of(manifest);
    let mut i: usize = 0;
    while i < rows.len()
        invariant
            i <= rows.len(),
            strings(rows@) == lines(manifest@),
            crate_name_from(lines(manifest@), i as int) == manifest_crate_name(manifest@),
        decreases rows.len() - i,
    {
        assert(strings(rows@)[i as int] == rows@[i as int]@);
        let t = trim(&chars_of(rows[i].as_str()));
        if starts_with_str(&t, "name = ") {
            let value = trim_surrounding(&trim(&trim_leading_text(&t, "name = ")), '"');
            let text = string_of(&value);
            return Some(replace_char(text.as_str(), '-', "_"));
        }
        i += 1;
    }
    None
}

} // verus!
