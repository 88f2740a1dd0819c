//! The scanner for Rust source text.

use vstd::prelude::*;
use crate::protocol::{
    escapes_of, lemma_escapes_push, ConfidenceLevel, EscapeType, StaticAnalysisResult,
    StaticEscape, StaticEscapeView,
};
use crate::static_analyzer::{all_located, assemble, finding, new_finding, StaticEscapeAnalyzer};
use crate::text::chars::{chars_of, string_of};
use crate::text::compose::{byte_column, column_of, count, count_char, push_chars};
use crate::text::names::{
    concat2, concat3, has_name, insert_name, insert_names, lines_of, nonempty, same_text,
    with_name, with_names,
};
use crate::text::runs::{
    after_last, after_prefix, leading_name, strip_prefix, take_after_last, take_last_name,
    take_name, trailing_name, trim, trim_leading, trim_start, trimmed, trimmed_start,
    without_leading,
};
use crate::text::search::{
    after_match, before_match, contains, contains_str, find, find_str, has_prefix,
    starts_with_str, text_after_match, text_before_match,
};
use crate::text::split::{lemma_strings_push, lines, split, strings};

verus! {

/// The function that a target names: what follows its last colon, where
/// the target holds a colon and something follows it.
pub open spec fn target_function(target: Seq<char>) -> Option<Seq<char>> {
    if contains(target, ":"@) {
        nonempty(trimmed(after_last(target, ':')))
    } else {
        None
    }
}

/// The name that follows the first `fn ` of a line.
pub open spec fn fn_name(line: Seq<char>) -> Option<Seq<char>> {
    match after_match(line, "fn "@) {
        Some(rest) => nonempty(leading_name(rest)),
        None => None,
    }
}

/// The name at the start of a text.
pub open spec fn ident(value: Seq<char>) -> Option<Seq<char>> {
    nonempty(leading_name(value))
}

/// The name that one argument of a signature binds.
pub open spec fn param_name(piece: Seq<char>) -> Option<Seq<char>> {
    let a = trimmed(piece);
    if a.len() == 0 {
        None
    } else if has_prefix(a, "self"@) || has_prefix(a, "&self"@) || has_prefix(a, "&mut self"@) {
        Some("self"@)
    } else {
        let b = match before_match(a, ":"@) {
            Some(t) => t,
            None => a,
        };
        let c = trimmed(without_leading(trimmed(b), '&'));
        let d = match after_prefix(c, "mut "@) {
            Some(t) => t,
            None => c,
        };
        ident(trimmed(d))
    }
}

/// The names that the first `n` argument pieces bind.
pub open spec fn params_first(pieces: Seq<Seq<char>>, n: int) -> Seq<Seq<char>>
    decreases n,
{
    if n <= 0 {
        Seq::<Seq<char>>::empty()
    } else {
        match param_name(pieces[n - 1]) {
            Some(x) => with_name(params_first(pieces, n - 1), x),
            None => params_first(pieces, n - 1),
        }
    }
}

/// The names that a signature binds: those of the arguments between its
/// first `(` and the next `)`, each once, in order.
pub open spec fn params(signature: Seq<char>) -> Seq<Seq<char>> {
    match after_match(signature, "("@) {
        None => Seq::<Seq<char>>::empty(),
        Some(rest) => match before_match(rest, ")"@) {
            None => Seq::<Seq<char>>::empty(),
            Some(args) => params_first(split(args, ','), split(args, ',').len() as int),
        },
    }
}

/// The name that a `let` on the line binds.
pub open spec fn let_binding(line: Seq<char>) -> Option<Seq<char>> {
    match after_match(line, "let "@) {
        None => None,
        Some(rest) => {
            let r = trimmed_start(rest);
            if has_prefix(r, "("@) {
                None
            } else {
                match after_prefix(r, "mut "@) {
                    Some(t) => ident(trimmed_start(t)),
                    None => ident(r),
                }
            }
        },
    }
}

/// The opening braces of a line less its closing braces.
pub open spec fn brace_delta(line: Seq<char>) -> int {
    count(line, '{') - count(line, '}')
}

/// The line spawns a thread or a task.
pub open spec fn spawns_thread(line: Seq<char>) -> bool {
    contains(line, "thread::spawn"@) || contains(line, "std::thread::spawn"@) || contains(
        line,
        "tokio::spawn"@,
    ) || contains(line, "tokio::task::spawn"@) || contains(line, "thread::Builder"@)
}

/// The handle that the line joins or awaits: the last name before its
/// first dot.
pub open spec fn join_call(line: Seq<char>) -> Option<Seq<char>> {
    if contains(line, ".join()"@) || contains(line, ".await"@) {
        match before_match(line, "."@) {
            Some(before) => nonempty(trailing_name(before)),
            None => None,
        }
    } else {
        None
    }
}

/// The finding for a `return` of a known local on the line.
pub open spec fn return_escape(
    line: Seq<char>,
    file: Seq<char>,
    number: int,
    function: Seq<char>,
    locals: Seq<Seq<char>>,
) -> Option<StaticEscapeView> {
    match after_match(line, "return "@) {
        None => None,
        Some(rest) => match ident(trimmed(rest)) {
            None => None,
            Some(name) => if locals.contains(name) {
                Some(
                    finding(
                        EscapeType::ReturnEscape,
                        file,
                        number,
                        column_of(line, find(line, "return "@)->0),
                        function,
                        Some(trimmed(line)),
                        name,
                        "Variable '"@ + name + "' returned from function"@,
                        ConfidenceLevel::High,
                    ),
                )
            } else {
                None
            },
        },
    }
}

/// The line names a constructor of a heap-allocated structure.
pub open spec fn allocates(line: Seq<char>) -> bool {
    contains(line, "Box::new"@) || contains(line, "Vec::new"@) || contains(line, "String::new"@)
        || contains(line, "Arc::new"@) || contains(line, "Rc::new"@) || contains(
        line,
        "HashMap::new"@,
    ) || contains(line, "HashSet::new"@)
}

/// The finding for a heap allocation on the line.
pub open spec fn heap_escape(
    line: Seq<char>,
    file: Seq<char>,
    number: int,
    function: Seq<char>,
) -> Option<StaticEscapeView> {
    if allocates(line) {
        let var = match let_binding(line) {
            Some(v) => v,
            None => "<unknown>"@,
        };
        let col = match find(line, var) {
            Some(i) => column_of(line, i),
            None => 0,
        };
        Some(
            finding(
                EscapeType::HeapEscape,
                file,
                number,
                col,
                function,
                Some(trimmed(line)),
                var,
                "Heap-allocated structure assigned to local variable"@,
                ConfidenceLevel::Medium,
            ),
        )
    } else {
        None
    }
}

/// The finding for the spawn pattern `pattern` on the line.
pub open spec fn spawn_finding(
    line: Seq<char>,
    file: Seq<char>,
    number: int,
    function: Seq<char>,
    pattern: Seq<char>,
    what: Seq<char>,
) -> StaticEscapeView {
    finding(
        EscapeType::ConcurrencyEscape,
        file,
        number,
        column_of(line, find(line, pattern)->0),
        function,
        Some(trimmed(line)),
        pattern,
        what + " may leak work beyond scope"@,
        ConfidenceLevel::High,
    )
}

/// The finding for the first spawn pattern, in the order of the list, that
/// the line holds: thread spawns, task spawns, thread builders.
pub open spec fn concurrency_escape(
    line: Seq<char>,
    file: Seq<char>,
    number: int,
    function: Seq<char>,
) -> Option<StaticEscapeView> {
    if contains(line, "std::thread::spawn"@) {
        Some(spawn_finding(line, file, number, function, "std::thread::spawn"@, "Thread spawn"@))
    } else if contains(line, "thread::spawn"@) {
        Some(spawn_finding(line, file, number, function, "thread::spawn"@, "Thread spawn"@))
    } else if contains(line, "tokio::spawn"@) {
        Some(spawn_finding(line, file, number, function, "tokio::spawn"@, "Async task spawn"@))
    } else if contains(line, "tokio::task::spawn"@) {
        Some(
            spawn_finding(
                line,
                file,
                number,
                function,
                "tokio::task::spawn"@,
                "Async task spawn"@,
            ),
        )
    } else if contains(line, "std::thread::Builder"@) {
        Some(
            spawn_finding(line, file, number, function, "std::thread::Builder"@, "Thread builder"@),
        )
    } else if contains(line, "thread::Builder"@) {
        Some(spawn_finding(line, file, number, function, "thread::Builder"@, "Thread builder"@))
    } else {
        None
    }
}

/// The function of a target.
pub fn parse_target_function(target: &str) -> (r: Option<String>)
    ensures
        crate::protocol::opt_text(r) == target_function(target@),
{
    let v = chars_of(target);
    if contains_str(&v, ":") {
        let t = trim(&take_after_last(&v, ':'));
        if t.len() > 0 {
            return Some(string_of(&t));
        }
    }
    None
}

/// The name that follows the first `fn ` of a line.
pub fn extract_fn_name(line: &str) -> (r: Option<String>)
    ensures
        crate::protocol::opt_text(r) == fn_name(line@),
{
    let v = chars_of(line);
    match text_after_match(&v, "fn ") {
        Some(rest) => {
            let name = take_name(&rest);
            if name.len() > 0 {
                Some(string_of(&name))
            } else {
                None
            }
        },
        None => None,
    }
}

/// The name at the start of a text.
pub fn sanitize_ident(value: &str) -> (r: Option<String>)
    ensures
        crate::protocol::opt_text(r) == ident(value@),
{
    let v = chars_of(value);
    sanitize_chars(&v)
}

fn sanitize_chars(v: &Vec<char>) -> (r: Option<String>)
    ensures
        crate::protocol::opt_text(r) == ident(v@),
{
    let name = take_name(v);
    if name.len() > 0 {
        Some(string_of(&name))
    } else {
        None
    }
}

fn param_of(piece: &str) -> (r: Option<String>)
    ensures
        crate::protocol::opt_text(r) == param_name(piece@),
{
    let a = trim(&chars_of(piece));
    if a.len() == 0 {
        return None;
    }
    if starts_with_str(&a, "self") || starts_with_str(&a, "&self") || starts_with_str(
        &a,
        "&mut self",
    ) {
        return Some(String::from_str("self"));
    }
    let b = match text_before_match(&a, ":") {
        Some(t) => t,
        None => a,
    };
    let c = trim(&trim_leading(&trim(&b), '&'));
    let d = match strip_prefix(&c, "mut ") {
        Some(t) => t,
        None => c,
    };
    sanitize_chars(&trim(&d))
}

/// The names that a signature binds, each once, in order.
pub fn extract_params(signature: &str) -> (r: Vec<String>)
    ensures
        strings(r@) == params(signature@),
        strings(r@).no_duplicates(),
{
    let mut out: Vec<String> = Vec::new();
    assert(strings(out@) =~= Seq::<Seq<char>>::empty());
    let v = chars_of(signature);
    let rest = match text_after_match(&v, "(") {
        Some(t) => t,
        None => {
            return out;
        },
    };
    let args = match text_before_match(&rest, ")") {
        Some(t) => t,
        None => {
            return out;
        },
    };
    let pieces = crate::text::names::to_strings(&crate::text::split::split_at_char(&args, ','));
    let mut i: usize = 0;
    while i < pieces.len()
        invariant
            i <= pieces.len(),
            strings(out@) == params_first(strings(pieces@), i as int),
            strings(out@).no_duplicates(),
        decreases pieces.len() - i,
    {
        assert(strings(pieces@)[i as int] == pieces@[i as int]@);
        match param_of(pieces[i].as_str()) {
            Some(name) => {
                insert_name(&mut out, name);
            },
            None => {},
        }
        i += 1;
    }
    out
}

/// The name that a `let` on the line binds.
pub fn extract_let_binding(line: &str) -> (r: Option<String>)
    ensures
        crate::protocol::opt_text(r) == let_binding(line@),
{
    let v = chars_of(line);
    match text_after_match(&v, "let ") {
        None => None,
        Some(rest) => {
            let r = trim_start(&rest);
            if starts_with_str(&r, "(") {
                None
            } else {
                match strip_prefix(&r, "mut ") {
                    Some(t) => sanitize_chars(&trim_start(&t)),
                    None => sanitize_chars(&r),
                }
            }
        },
    }
}

/// The opening braces of a line less its closing braces.
pub fn count_braces(line: &str) -> (r: i32)
    requires
        line@.len() <= i32::MAX,
    ensures
        r as int == brace_delta(line@),
{
    let v = chars_of(line);
    proof {
        crate::text::compose::lemma_count_bounds(v@, '{', v@.len() as int);
        crate::text::compose::lemma_count_bounds(v@, '}', v@.len() as int);
    }
    let opens = count_char(&v, '{');
    let closes = count_char(&v, '}');
    (opens as i64 - closes as i64) as i32
}

/// Whether the line spawns a thread or a task.
pub fn is_thread_creation(line: &str) -> (r: bool)
    ensures
        r == spawns_thread(line@),
{
    let v = chars_of(line);
    contains_str(&v, "thread::spawn") || contains_str(&v, "std::thread::spawn") || contains_str(
        &v,
        "tokio::spawn",
    ) || contains_str(&v, "tokio::task::spawn") || contains_str(&v, "thread::Builder")
}

/// The handle that the line joins or awaits.
pub fn extract_join_call(line: &str) -> (r: Option<String>)
    ensures
        crate::protocol::opt_text(r) == join_call(line@),
{
    let v = chars_of(line);
    if contains_str(&v, ".join()") || contains_str(&v, ".await") {
        match text_before_match(&v, ".") {
            Some(before) => {
                let name = take_last_name(&before);
                if name.len() > 0 {
                    Some(string_of(&name))
                } else {
                    None
                }
            },
            None => None,
        }
    } else {
        None
    }
}

/// The finding for a `return` of a known local on the line.
pub fn detect_return_escape(
    line: &str,
    source_file: &str,
    line_number: usize,
    function_name: &str,
    locals: &Vec<String>,
) -> (r: Option<StaticEscape>)
    ensures
        match r {
            Some(e) => return_escape(
                line@,
                source_file@,
                line_number as int,
                function_name@,
                strings(locals@),
            ) == Some(e@),
            None => return_escape(
                line@,
                source_file@,
                line_number as int,
                function_name@,
                strings(locals@),
            ) is None,
        },
{
    let v = chars_of(line);
    let idx = match find_str(&v, "return ") {
        Some(i) => i,
        None => {
            return None;
        },
    };
    let rest = match text_after_match(&v, "return ") {
        Some(t) => t,
        None => {
            return None;
        },
    };
    let name = match sanitize_chars(&trim(&rest)) {
        Some(n) => n,
        None => {
            return None;
        },
    };
    if !has_name(locals, name.as_str()) {
        return None;
    }
    let reason = concat3("Variable '", name.as_str(), "' returned from function");
    Some(
        new_finding(
            EscapeType::ReturnEscape,
            source_file,
            line_number,
            byte_column(&v, idx),
            function_name,
            Some(string_of(&trim(&v))),
            name,
            reason,
            ConfidenceLevel::High,
        ),
    )
}

/// The finding for a heap allocation on the line.
pub fn detect_heap_escape(
    line: &str,
    source_file: &str,
    line_number: usize,
    function_name: &str,
) -> (r: Option<StaticEscape>)
    ensures
        match r {
            Some(e) => heap_escape(line@, source_file@, line_number as int, function_name@)
                == Some(e@),
            None => heap_escape(line@, source_file@, line_number as int, function_name@) is None,
        },
{
    let v = chars_of(line);
    if !(contains_str(&v, "Box::new") || contains_str(&v, "Vec::new") || contains_str(
        &v,
        "String::new",
    ) || contains_str(&v, "Arc::new") || contains_str(&v, "Rc::new") || contains_str(
        &v,
        "HashMap::new",
    ) || contains_str(&v, "HashSet::new")) {
        return None;
    }
    let var = match extract_let_binding(line) {
        Some(x) => x,
        None => String::from_str("<unknown>"),
    };
    let col = match find_str(&v, var.as_str()) {
        Some(i) => byte_column(&v, i),
        None => 0,
    };
    Some(
        new_finding(
            EscapeType::HeapEscape,
            source_file,
            line_number,
            col,
            function_name,
            Some(string_of(&trim(&v))),
            var,
            String::from_str("Heap-allocated structure assigned to local variable"),
            ConfidenceLevel::Medium,
        ),
    )
}

fn spawn_escape(
    v: &Vec<char>,
    source_file: &str,
    line_number: usize,
    function_name: &str,
    pattern: &str,
    what: &str,
) -> (r: StaticEscape)
    requires
        contains(v@, pattern@),
    ensures
        r@ == spawn_finding(
            v@,
            source_file@,
            line_number as int,
            function_name@,
            pattern@,
            what@,
        ),
{
    let col = match find_str(v, pattern) {
        Some(i) => byte_column(v, i),
        None => 0,
    };
    new_finding(
        EscapeType::ConcurrencyEscape,
        source_file,
        line_number,
        col,
        function_name,
        Some(string_of(&trim(v))),
        String::from_str(pattern),
        concat2(what, " may leak work beyond scope"),
        ConfidenceLevel::High,
    )
}

/// The finding for the first spawn pattern that the line holds.
pub fn detect_concurrency(
    line: &str,
    source_file: &str,
    line_number: usize,
    function_name: &str,
) -> (r: Option<StaticEscape>)
    ensures
        match r {
            Some(e) => concurrency_escape(line@, source_file@, line_number as int, function_name@)
                == Some(e@),
            None => concurrency_escape(line@, source_file@, line_number as int, function_name@)
                is None,
        },
{
    let v = chars_of(line);
    if contains_str(&v, "std::thread::spawn") {
        Some(
            spawn_escape(
                &v,
                source_file,
                line_number,
                function_name,
                "std::thread::spawn",
                "Thread spawn",
            ),
        )
    } else if contains_str(&v, "thread::spawn") {
        Some(
            spawn_escape(
                &v,
                source_file,
                line_number,
                function_name,
                "thread::spawn",
                "Thread spawn",
            ),
        )
    } else if contains_str(&v, "tokio::spawn") {
        Some(
            spawn_escape(
                &v,
                source_file,
                line_number,
                function_name,
                "tokio::spawn",
                "Async task spawn",
            ),
        )
    } else if contains_str(&v, "tokio::task::spawn") {
        Some(
            spawn_escape(
                &v,
                source_file,
                line_number,
                function_name,
                "tokio::task::spawn",
                "Async task spawn",
            ),
        )
    } else if contains_str(&v, "std::thread::Builder") {
        Some(
            spawn_escape(
                &v,
                source_file,
                line_number,
                function_name,
                "std::thread::Builder",
                "Thread builder",
            ),
        )
    } else if contains_str(&v, "thread::Builder") {
        Some(
            spawn_escape(
                &v,
                source_file,
                line_number,
                function_name,
                "thread::Builder",
                "Thread builder",
            ),
        )
    } else {
        None
    }
}

/// The findings of a scan of a whole file: one for each of the first `n`
/// lines that holds a spawn pattern.
pub open spec fn file_escapes_first(lines: Seq<Seq<char>>, file: Seq<char>, n: int) -> Seq<
    StaticEscapeView,
>
    decreases n,
{
    if n <= 0 {
        Seq::<StaticEscapeView>::empty()
    } else {
        match concurrency_escape(lines[n - 1], file, n, "<module>"@) {
            Some(e) => file_escapes_first(lines, file, n - 1).push(e),
            None => file_escapes_first(lines, file, n - 1),
        }
    }
}

/// The findings of a scan of a whole file.
pub open spec fn file_escapes(source: Seq<char>, file: Seq<char>) -> Seq<StaticEscapeView> {
    file_escapes_first(lines(source), file, lines(source).len() as int)
}

/// What the scan of a function has gathered so far.
pub struct RustScan {
    /// The scan stands inside the body of the function.
    pub in_target: bool,
    /// A heading of the function was seen.
    pub found: bool,
    /// The braces opened and not yet closed.
    pub depth: int,
    /// The names bound so far.
    pub locals: Seq<Seq<char>>,
    /// The names bound to a spawned thread or task.
    pub handles: Seq<Seq<char>>,
    /// The names joined or awaited.
    pub joined: Seq<Seq<char>>,
    /// The findings so far.
    pub escapes: Seq<StaticEscapeView>,
}

/// The signature that begins on an earlier line and has reached line `i`:
/// it takes in the lines that follow until it holds an opening brace.
pub open spec fn signature_end(lines: Seq<Seq<char>>, i: int, sig: Seq<char>) -> (int, Seq<char>)
    decreases lines.len() - i,
{
    if !contains(sig, "{"@) && i + 1 < lines.len() {
        signature_end(lines, i + 1, sig.push('\n') + lines[i + 1])
    } else {
        (i, sig)
    }
}

/// The scan after a line of the body.
pub open spec fn body_step(
    st: RustScan,
    line: Seq<char>,
    file: Seq<char>,
    function: Seq<char>,
    number: int,
) -> RustScan {
    let locals = match let_binding(line) {
        Some(l) => with_name(st.locals, l),
        None => st.locals,
    };
    let handles = match let_binding(line) {
        Some(l) => if spawns_thread(line) {
            with_name(st.handles, l)
        } else {
            st.handles
        },
        None => st.handles,
    };
    let joined = match join_call(line) {
        Some(h) => with_name(st.joined, h),
        None => st.joined,
    };
    let returned = match return_escape(line, file, number, function, locals) {
        Some(e) => st.escapes.push(e),
        None => st.escapes,
    };
    let heaped = match heap_escape(line, file, number, function) {
        Some(e) => returned.push(e),
        None => returned,
    };
    let escapes = match concurrency_escape(line, file, number, function) {
        Some(e) => heaped.push(e),
        None => heaped,
    };
    RustScan {
        in_target: st.in_target,
        found: st.found,
        depth: st.depth + brace_delta(line),
        locals,
        handles,
        joined,
        escapes,
    }
}

/// The scan after the heading of the function was met on line `i`: the
/// signature's end, and the scan that stands there.
pub open spec fn heading_step(st: RustScan, lines: Seq<Seq<char>>, i: int) -> (int, RustScan) {
    let end = signature_end(lines, i, lines[i]);
    let depth = brace_delta(end.1);
    (
        end.0,
        RustScan {
            in_target: depth > 0,
            found: true,
            depth,
            locals: with_names(st.locals, params(end.1)),
            handles: st.handles,
            joined: st.joined,
            escapes: st.escapes,
        },
    )
}

/// The scan of the lines from `i` on. Outside the function it looks for a
/// heading with the function's name. Inside it takes line after line, and
/// ends with the line on which no brace is left open.
pub open spec fn scan_from(
    lines: Seq<Seq<char>>,
    file: Seq<char>,
    function: Seq<char>,
    i: int,
    st: RustScan,
) -> RustScan
    decreases lines.len() - i,
{
    if i < 0 || i >= lines.len() {
        st
    } else if !st.in_target {
        if fn_name(lines[i]) == Some(function) {
            let next = heading_step(st, lines, i);
            if next.0 < i || next.0 >= lines.len() {
                next.1
            } else {
                scan_from(lines, file, function, next.0 + 1, next.1)
            }
        } else {
            scan_from(lines, file, function, i + 1, st)
        }
    } else {
        let next = body_step(st, lines[i], file, function, i + 1);
        if next.depth <= 0 {
            next
        } else {
            scan_from(lines, file, function, i + 1, next)
        }
    }
}

/// The scan that holds the given parts.
pub open spec fn scan_state(
    in_target: bool,
    found: bool,
    depth: int,
    locals: Seq<Seq<char>>,
    handles: Seq<Seq<char>>,
    joined: Seq<Seq<char>>,
    escapes: Seq<StaticEscapeView>,
) -> RustScan {
    RustScan { in_target, found, depth, locals, handles, joined, escapes }
}

/// The scan before the first line.
pub open spec fn scan_start() -> RustScan {
    RustScan {
        in_target: false,
        found: false,
        depth: 0,
        locals: Seq::<Seq<char>>::empty(),
        handles: Seq::<Seq<char>>::empty(),
        joined: Seq::<Seq<char>>::empty(),
        escapes: Seq::<StaticEscapeView>::empty(),
    }
}

/// The number of the line that binds `var` in the body of the function,
/// looked for from line `i` on.
pub open spec fn variable_line_from(
    lines: Seq<Seq<char>>,
    function: Seq<char>,
    var: Seq<char>,
    i: int,
    in_target: bool,
    depth: int,
) -> Option<int>
    decreases lines.len() - i,
{
    if i < 0 || i >= lines.len() {
        None
    } else if !in_target {
        if fn_name(lines[i]) == Some(function) {
            variable_line_from(lines, function, var, i + 1, true, brace_delta(lines[i]))
        } else {
            variable_line_from(lines, function, var, i + 1, false, depth)
        }
    } else if contains(lines[i], "let "@ + var) || contains(lines[i], "let mut "@ + var) {
        Some(i + 1)
    } else if depth + brace_delta(lines[i]) <= 0 {
        None
    } else {
        variable_line_from(lines, function, var, i + 1, true, depth + brace_delta(lines[i]))
    }
}

/// The number of the first line in the body of the function that binds `var`.
pub open spec fn variable_line(source: Seq<char>, function: Seq<char>, var: Seq<char>) -> Option<
    int,
> {
    variable_line_from(lines(source), function, var, 0, false, 0)
}

/// The finding for a handle that is never joined.
pub open spec fn unjoined_finding(
    file: Seq<char>,
    function: Seq<char>,
    handle: Seq<char>,
    number: int,
) -> StaticEscapeView {
    finding(
        EscapeType::ConcurrencyEscape,
        file,
        number,
        0,
        function,
        None,
        handle,
        "Thread/task handle '"@ + handle + "' created but not joined"@,
        ConfidenceLevel::High,
    )
}

/// The findings for the first `n` handles: one for each that is not joined
/// and whose binding is found.
pub open spec fn unjoined_first(
    handles: Seq<Seq<char>>,
    joined: Seq<Seq<char>>,
    source: Seq<char>,
    file: Seq<char>,
    function: Seq<char>,
    n: int,
) -> Seq<StaticEscapeView>
    decreases n,
{
    if n <= 0 {
        Seq::<StaticEscapeView>::empty()
    } else {
        let prev = unjoined_first(handles, joined, source, file, function, n - 1);
        if joined.contains(handles[n - 1]) {
            prev
        } else {
            match variable_line(source, function, handles[n - 1]) {
                Some(number) => prev.push(unjoined_finding(file, function, handles[n - 1], number)),
                None => prev,
            }
        }
    }
}

/// The scan of a whole source text for one function.
pub open spec fn function_scan(source: Seq<char>, file: Seq<char>, function: Seq<char>) -> RustScan {
    scan_from(lines(source), file, function, 0, scan_start())
}

/// The findings for one function: those of its lines, in order, and then
/// one for each handle that is never joined, in the order of their binding.
pub open spec fn function_escapes(source: Seq<char>, file: Seq<char>, function: Seq<char>) -> Seq<
    StaticEscapeView,
> {
    let st = function_scan(source, file, function);
    st.escapes + unjoined_first(
        st.handles,
        st.joined,
        source,
        file,
        function,
        st.handles.len() as int,
    )
}

/// The warnings for one function: one where no heading names it.
pub open spec fn function_warnings(source: Seq<char>, file: Seq<char>, function: Seq<char>) -> Seq<
    Seq<char>,
> {
    if function_scan(source, file, function).found {
        Seq::<Seq<char>>::empty()
    } else {
        seq!["Target function '"@ + function + "' not found in source file"@]
    }
}

/// The findings of a scan of a whole file.
pub fn analyze_file(source: &str, source_file: &str) -> (escapes: Vec<StaticEscape>)
    ensures
        escapes_of(escapes@) == file_escapes(source@, source_file@),
{
    let rows = lines_of(source);
    let mut escapes: Vec<StaticEscape> = Vec::new();
    assert(escapes_of(escapes@) =~= Seq::<StaticEscapeView>::empty());
    let mut i: usize = 0;
    while i < rows.len()
        invariant
            i <= rows.len(),
            strings(rows@) == lines(source@),
            escapes_of(escapes@) == file_escapes_first(lines(source@), source_file@, i as int),
        decreases rows.len() - i,
    {
        assert(strings(rows@)[i as int] == rows@[i as int]@);
        match detect_concurrency(rows[i].as_str(), source_file, i + 1, "<module>") {
            Some(e) => {
                proof {
                    lemma_escapes_push(escapes@, e);
                }
                escapes.push(e);
            },
            None => {},
        }
        i += 1;
    }
    escapes
}

/// The number of the first line in the body of the function that binds
/// `var_name`.
pub fn find_variable_line(source: &str, function_name: &str, var_name: &str) -> (r: Option<usize>)
    ensures
        match r {
            Some(n) => variable_line(source@, function_name@, var_name@) == Some(n as int),
            None => variable_line(source@, function_name@, var_name@) is None,
        },
{
    let rows = lines_of(source);
    let plain = concat2("let ", var_name);
    let mutable = concat2("let mut ", var_name);
    let mut in_target = false;
    let mut opens: u128 = 0;
    let mut closes: u128 = 0;
    let mut i: usize = 0;
    let ghost ls = lines(source@);
    while i < rows.len()
        invariant
            i <= rows.len(),
            ls == strings(rows@),
            ls == lines(source@),
            plain@ == "let "@ + var_name@,
            mutable@ == "let mut "@ + var_name@,
            opens <= (i + 1) * 0xffff_ffff_ffff_ffff,
            closes <= (i + 1) * 0xffff_ffff_ffff_ffff,
            variable_line_from(ls, function_name@, var_name@, i as int, in_target, opens - closes)
                == variable_line(source@, function_name@, var_name@),
        decreases rows.len() - i,
    {
        let line = rows[i].as_str();
        assert(ls[i as int] == line@);
        let v = chars_of(line);
        let o = count_char(&v, '{');
        let c = count_char(&v, '}');
        if !in_target {
            let is_target = match extract_fn_name(line) {
                Some(name) => same_text(name.as_str(), function_name),
                None => false,
            };
            if is_target {
                in_target = true;
                opens = o as u128;
                closes = c as u128;
            }
        } else {
            if contains_str(&v, plain.as_str()) || contains_str(&v, mutable.as_str()) {
                return Some(i + 1);
            }
            opens = opens + o as u128;
            closes = closes + c as u128;
            if opens <= closes {
                return None;
            }
        }
        i += 1;
    }
    None
}

/// The findings for one function, and the warning where it is not found.
pub fn analyze_function(
    source: &str,
    source_file: &str,
    function_name: &str,
    warnings: &mut Vec<String>,
) -> (escapes: Vec<StaticEscape>)
    ensures
        escapes_of(escapes@) == function_escapes(source@, source_file@, function_name@),
        strings(final(warnings)@) == strings(old(warnings)@) + function_warnings(
            source@,
            source_file@,
            function_name@,
        ),
{
    let rows = lines_of(source);
    let mut escapes: Vec<StaticEscape> = Vec::new();
    let mut in_target = false;
    let mut found = false;
    let mut done = false;
    let mut opens: u128 = 0;
    let mut closes: u128 = 0;
    let mut locals: Vec<String> = Vec::new();
    let mut handles: Vec<String> = Vec::new();
    let mut joined: Vec<String> = Vec::new();
    let mut i: usize = 0;
    let ghost ls = lines(source@);
    let ghost f = source_file@;
    let ghost n = function_name@;
    let ghost total = function_scan(source@, f, n);
    proof {
        assert(escapes_of(escapes@) =~= Seq::<StaticEscapeView>::empty());
        assert(strings(locals@) =~= Seq::<Seq<char>>::empty());
        assert(strings(handles@) =~= Seq::<Seq<char>>::empty());
        assert(strings(joined@) =~= Seq::<Seq<char>>::empty());
    }
    while i < rows.len() && !done
        invariant
            i <= rows.len(),
            ls == strings(rows@),
            ls == lines(source@),
            f == source_file@,
            n == function_name@,
            total == function_scan(source@, f, n),
            opens <= (i + 1) * 0xffff_ffff_ffff_ffff,
            closes <= (i + 1) * 0xffff_ffff_ffff_ffff,
            !done ==> scan_from(
                ls,
                f,
                n,
                i as int,
                scan_state(in_target, found, opens - closes, strings(locals@), strings(handles@), strings(joined@), escapes_of(escapes@)),
            ) == total,
            done ==> scan_state(in_target, found, opens - closes, strings(locals@), strings(handles@), strings(joined@), escapes_of(escapes@)) == total,
        decreases rows.len() - i,
    {
        let line = rows[i].as_str();
        assert(ls[i as int] == line@);
        let ghost st = scan_state(in_target, found, opens - closes, strings(locals@), strings(handles@), strings(joined@), escapes_of(escapes@));
        if !in_target {
            let is_target = match extract_fn_name(line) {
                Some(name) => same_text(name.as_str(), function_name),
                None => false,
            };
            if is_target {
                let ghost i0 = i as int;
                let mut sig = chars_of(line);
                while !contains_str(&sig, "{") && i + 1 < rows.len()
                    invariant
                        i0 <= i < rows.len(),
                        ls == strings(rows@),
                        signature_end(ls, i as int, sig@) == signature_end(ls, i0, ls[i0]),
                    decreases rows.len() - i,
                {
                    i += 1;
                    sig.push('\n');
                    assert(ls[i as int] == rows@[i as int]@);
                    let next = chars_of(rows[i].as_str());
                    push_chars(&mut sig, &next);
                }
                let sig_text = string_of(&sig);
                let ps = extract_params(sig_text.as_str());
                insert_names(&mut locals, ps);
                opens = count_char(&sig, '{') as u128;
                closes = count_char(&sig, '}') as u128;
                in_target = opens > closes;
                found = true;
                assert(heading_step(st, ls, i0) == (
                    i as int,
                    scan_state(in_target, found, opens - closes, strings(locals@), strings(handles@), strings(joined@), escapes_of(escapes@)),
                ));
            }
        } else {
            match extract_let_binding(line) {
                Some(local) => {
                    if is_thread_creation(line) {
                        insert_name(&mut handles, local.clone());
                    }
                    insert_name(&mut locals, local);
                },
                None => {},
            }
            match extract_join_call(line) {
                Some(handle) => {
                    insert_name(&mut joined, handle);
                },
                None => {},
            }
            match detect_return_escape(line, source_file, i + 1, function_name, &locals) {
                Some(e) => {
                    proof {
                        lemma_escapes_push(escapes@, e);
                    }
                    escapes.push(e);
                },
                None => {},
            }
            match detect_heap_escape(line, source_file, i + 1, function_name) {
                Some(e) => {
                    proof {
                        lemma_escapes_push(escapes@, e);
                    }
                    escapes.push(e);
                },
                None => {},
            }
            match detect_concurrency(line, source_file, i + 1, function_name) {
                Some(e) => {
                    proof {
                        lemma_escapes_push(escapes@, e);
                    }
                    escapes.push(e);
                },
                None => {},
            }
            let v = chars_of(line);
            opens = opens + count_char(&v, '{') as u128;
            closes = closes + count_char(&v, '}') as u128;
            if opens <= closes {
                done = true;
            }
            assert(body_step(st, line@, f, n, i + 1) == scan_state(in_target, found, opens - closes, strings(locals@), strings(handles@), strings(joined@), escapes_of(escapes@)));
        }
        i += 1;
    }
    let ghost scanned = escapes_of(escapes@);
    let mut k: usize = 0;
    while k < handles.len()
        invariant
            k <= handles.len(),
            f == source_file@,
            n == function_name@,
            escapes_of(escapes@) == scanned + unjoined_first(
                strings(handles@),
                strings(joined@),
                source@,
                f,
                n,
                k as int,
            ),
        decreases handles.len() - k,
    {
        let handle = handles[k].as_str();
        assert(strings(handles@)[k as int] == handle@);
        let ghost before = escapes_of(escapes@);
        if !has_name(&joined, handle) {
            match find_variable_line(source, function_name, handle) {
                Some(number) => {
                    let e = new_finding(
                        EscapeType::ConcurrencyEscape,
                        source_file,
                        number,
                        0,
                        function_name,
                        None,
                        String::from_str(handle),
                        concat3("Thread/task handle '", handle, "' created but not joined"),
                        ConfidenceLevel::High,
                    );
                    proof {
                        lemma_escapes_push(escapes@, e);
                    }
                    escapes.push(e);
                },
                None => {},
            }
        }
        assert(escapes_of(escapes@) =~= scanned + unjoined_first(
            strings(handles@),
            strings(joined@),
            source@,
            f,
            n,
            k + 1,
        ));
        k += 1;
    }
    if !found {
        let w = concat3("Target function '", function_name, "' not found in source file");
        proof {
            lemma_strings_push(warnings@, w);
        }
        warnings.push(w);
        assert(strings(warnings@) =~= strings(old(warnings)@) + function_warnings(
            source@,
            f,
            n,
        ));
    } else {
        assert(strings(warnings@) =~= strings(old(warnings)@) + function_warnings(
            source@,
            f,
            n,
        ));
    }
    escapes
}

/// The findings of a scan: those of the function that the target names,
/// or those of the whole file where it names none.
pub open spec fn analysis_escapes(target: Seq<char>, file: Seq<char>, source: Seq<char>) -> Seq<
    StaticEscapeView,
> {
    match target_function(target) {
        Some(f) => function_escapes(source, file, f),
        None => file_escapes(source, file),
    }
}

/// The warnings of a scan.
pub open spec fn analysis_warnings(target: Seq<char>, file: Seq<char>, source: Seq<char>) -> Seq<
    Seq<char>,
> {
    match target_function(target) {
        Some(f) => function_warnings(source, file, f) + (if function_escapes(source, file, f).len() == 0 {
            seq!["No Rust escapes detected by heuristic analyzer"@]
        } else {
            Seq::<Seq<char>>::empty()
        }),
        None => Seq::<Seq<char>>::empty(),
    }
}

/// The scanner for Rust source text.
#[derive(Debug, Clone, Copy)]
pub struct RustStaticAnalyzer;

impl RustStaticAnalyzer {
    /// The scanner.
    pub fn new() -> (r: Self)
        ensures
            r == RustStaticAnalyzer,
    {
        RustStaticAnalyzer
    }

    /// Scans a source text: the function of the target where it names one,
    /// the whole file where it does not.
    pub fn analyze_source(&self, target: &str, source_file: &str, source: &str, elapsed_ms: u64)
        -> (r: StaticAnalysisResult)
        ensures
            r@.target == target@,
            r@.source_file == source_file@,
            r@.escapes == analysis_escapes(target@, source_file@, source@),
            r@.warnings == analysis_warnings(target@, source_file@, source@),
            r@.analysis_time_ms == elapsed_ms,
            r@.summary.counts(r@.escapes),
            r@.summary.consistent(),
    {
        let mut warnings: Vec<String> = Vec::new();
        assert(strings(warnings@) =~= Seq::<Seq<char>>::empty());
        let escapes = match parse_target_function(target) {
            Some(function_name) => {
                let found = analyze_function(source, source_file, function_name.as_str(), &mut warnings);
                if found.len() == 0 {
                    let w = String::from_str("No Rust escapes detected by heuristic analyzer");
                    proof {
                        lemma_strings_push(warnings@, w);
                    }
                    warnings.push(w);
                }
                found
            },
            None => analyze_file(source, source_file),
        };
        assert(strings(warnings@) =~= analysis_warnings(target@, source_file@, source@));
        assemble(target, source_file, escapes, warnings, elapsed_ms)
    }
}

impl StaticEscapeAnalyzer for RustStaticAnalyzer {
    open spec fn language_name(&self) -> Seq<char> {
        "rust"@
    }

    open spec fn toolchain_command(&self) -> (Seq<char>, Seq<char>) {
        ("rustc"@, "--version"@)
    }

    fn language(&self) -> (r: &'static str) {
        "rust"
    }

    fn availability_command(&self) -> (r: (&'static str, &'static str)) {
        ("rustc", "--version")
    }
}

/// A scan that has seen a heading of the function does not forget it.
pub proof fn lemma_found_stays(
    lines: Seq<Seq<char>>,
    file: Seq<char>,
    function: Seq<char>,
    i: int,
    st: RustScan,
)
    requires
        st.found,
    ensures
        scan_from(lines, file, function, i, st).found,
    decreases lines.len() - i,
{
    if 0 <= i < lines.len() {
        if !st.in_target {
            if fn_name(lines[i]) == Some(function) {
                let next = heading_step(st, lines, i);
                if !(next.0 < i || next.0 >= lines.len()) {
                    lemma_found_stays(lines, file, function, next.0 + 1, next.1);
                }
            } else {
                lemma_found_stays(lines, file, function, i + 1, st);
            }
        } else {
            let next = body_step(st, lines[i], file, function, i + 1);
            if next.depth > 0 {
                lemma_found_stays(lines, file, function, i + 1, next);
            }
        }
    }
}

/// A scan that never sees a heading of the function gathers nothing.
pub proof fn lemma_unseen_gathers_nothing(
    lines: Seq<Seq<char>>,
    file: Seq<char>,
    function: Seq<char>,
    i: int,
    st: RustScan,
)
    requires
        !st.in_target,
        st.escapes.len() == 0,
        st.handles.len() == 0,
    ensures
        scan_from(lines, file, function, i, st).found || (scan_from(
            lines,
            file,
            function,
            i,
            st,
        ).escapes.len() == 0 && scan_from(lines, file, function, i, st).handles.len() == 0),
    decreases lines.len() - i,
{
    if 0 <= i < lines.len() {
        if fn_name(lines[i]) == Some(function) {
            let next = heading_step(st, lines, i);
            if !(next.0 < i || next.0 >= lines.len()) {
                lemma_found_stays(lines, file, function, next.0 + 1, next.1);
            }
        } else {
            lemma_unseen_gathers_nothing(lines, file, function, i + 1, st);
        }
    }
}

/// Where no heading names the function, the scan reports no escape, and
/// warns that the function was not found.
pub proof fn lemma_missing_function(source: Seq<char>, file: Seq<char>, function: Seq<char>)
    requires
        !function_scan(source, file, function).found,
    ensures
        function_escapes(source, file, function).len() == 0,
        function_warnings(source, file, function).len() == 1,
{
    lemma_unseen_gathers_nothing(lines(source), file, function, 0, scan_start());
}

/// The line that binds a variable is one of the lines.
pub proof fn lemma_variable_line_bounds(
    lines: Seq<Seq<char>>,
    function: Seq<char>,
    var: Seq<char>,
    i: int,
    in_target: bool,
    depth: int,
)
    requires
        0 <= i,
    ensures
        match variable_line_from(lines, function, var, i, in_target, depth) {
            Some(n) => i < n <= lines.len(),
            None => true,
        },
    decreases lines.len() - i,
{
    if i < lines.len() {
        if !in_target {
            if fn_name(lines[i]) == Some(function) {
                lemma_variable_line_bounds(
                    lines,
                    function,
                    var,
                    i + 1,
                    true,
                    brace_delta(lines[i]),
                );
            } else {
                lemma_variable_line_bounds(lines, function, var, i + 1, false, depth);
            }
        } else if contains(lines[i], "let "@ + var) || contains(lines[i], "let mut "@ + var) {
        } else if depth + brace_delta(lines[i]) <= 0 {
        } else {
            lemma_variable_line_bounds(
                lines,
                function,
                var,
                i + 1,
                true,
                depth + brace_delta(lines[i]),
            );
        }
    }
}

proof fn lemma_scan_located(
    lines: Seq<Seq<char>>,
    file: Seq<char>,
    function: Seq<char>,
    i: int,
    st: RustScan,
)
    requires
        0 <= i,
        lines.len() <= usize::MAX,
        all_located(st.escapes, file, function, lines.len() as int),
    ensures
        all_located(
            scan_from(lines, file, function, i, st).escapes,
            file,
            function,
            lines.len() as int,
        ),
    decreases lines.len() - i,
{
    if i < lines.len() {
        if !st.in_target {
            if fn_name(lines[i]) == Some(function) {
                let next = heading_step(st, lines, i);
                if !(next.0 < i || next.0 >= lines.len()) {
                    lemma_scan_located(lines, file, function, next.0 + 1, next.1);
                }
            } else {
                lemma_scan_located(lines, file, function, i + 1, st);
            }
        } else {
            let next = body_step(st, lines[i], file, function, i + 1);
            assert(all_located(next.escapes, file, function, lines.len() as int));
            if next.depth > 0 {
                lemma_scan_located(lines, file, function, i + 1, next);
            }
        }
    }
}

proof fn lemma_unjoined_located(
    handles: Seq<Seq<char>>,
    joined: Seq<Seq<char>>,
    source: Seq<char>,
    file: Seq<char>,
    function: Seq<char>,
    n: int,
)
    requires
        lines(source).len() <= usize::MAX,
    ensures
        all_located(
            unjoined_first(handles, joined, source, file, function, n),
            file,
            function,
            lines(source).len() as int,
        ),
    decreases n,
{
    if n > 0 {
        lemma_unjoined_located(handles, joined, source, file, function, n - 1);
        lemma_variable_line_bounds(lines(source), function, handles[n - 1], 0, false, 0);
    }
}

/// Every finding of a function scan names the file and the function that
/// were given, and lies on one of the lines of the source.
pub proof fn lemma_findings_located(source: Seq<char>, file: Seq<char>, function: Seq<char>)
    requires
        lines(source).len() <= usize::MAX,
    ensures
        all_located(
            function_escapes(source, file, function),
            file,
            function,
            lines(source).len() as int,
        ),
{
    let st = function_scan(source, file, function);
    lemma_scan_located(lines(source), file, function, 0, scan_start());
    lemma_unjoined_located(
        st.handles,
        st.joined,
        source,
        file,
        function,
        st.handles.len() as int,
    );
}

} // verus!
