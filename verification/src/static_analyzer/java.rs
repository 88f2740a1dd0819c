//! The scanner for Java source text.

use vstd::prelude::*;
use crate::protocol::{
    escapes_of, lemma_escapes_push, ConfidenceLevel, EscapeType, StaticAnalysisResult,
    StaticEscape, StaticEscapeView,
};
use crate::static_analyzer::{all_located, assemble, finding, new_finding, StaticEscapeAnalyzer};
use crate::text::chars::{chars_of, string_of};
use crate::text::compose::{count, count_char};
use crate::text::names::{
    concat3, has_name, insert_name, lines_of, nonempty, same_text, with_name,
};
use crate::text::runs::{
    after_last, all_name_chars, leading_name, only_name_chars, take_after_last,
    take_last_name, take_name, trailing_name, trim, trimmed,
};
use crate::text::search::{
    after_match, before_match, contains, contains_str, text_after_match, text_before_match,
};
use crate::text::split::{
    before_first, lemma_strings_push, lines, split_words, strings, take_before, texts, words,
};

verus! {

/// The method that a target names: what follows its last colon, where the
/// target holds a colon.
pub open spec fn target_function(target: Seq<char>) -> Option<Seq<char>> {
    if contains(target, ":"@) {
        Some(trimmed(after_last(target, ':')))
    } else {
        None
    }
}

/// The name of the method that a line declares or calls: the last word
/// before its first `(`, where at least one word stands before it.
pub open spec fn method_name(line: Seq<char>) -> Option<Seq<char>> {
    let heading = words(before_first(line, '('));
    if contains(line, "("@) && heading.len() >= 2 && all_name_chars(heading.last()) {
        Some(heading.last())
    } else {
        None
    }
}

/// The variable that a line declares as a `Thread`.
pub open spec fn thread_variable(line: Seq<char>) -> Option<Seq<char>> {
    match after_match(line, "Thread "@) {
        Some(rest) => {
            let name = leading_name(trimmed(rest));
            if name.len() > 0 && name != "new"@ {
                Some(name)
            } else {
                None
            }
        },
        None => None,
    }
}

/// The variable that a line declares as an `ExecutorService`.
pub open spec fn executor_variable(line: Seq<char>) -> Option<Seq<char>> {
    match after_match(line, "ExecutorService "@) {
        Some(rest) => nonempty(leading_name(trimmed(rest))),
        None => None,
    }
}

/// The last name before the first dot of a line.
pub open spec fn variable_before_dot(line: Seq<char>) -> Option<Seq<char>> {
    match before_match(line, "."@) {
        Some(before) => nonempty(trailing_name(before)),
        None => None,
    }
}

/// The variable that a line joins.
pub open spec fn join_call(line: Seq<char>) -> Option<Seq<char>> {
    if contains(line, ".join()"@) {
        variable_before_dot(line)
    } else {
        None
    }
}

/// The line creates a thread.
pub open spec fn creates_thread(line: Seq<char>) -> bool {
    contains(line, "new Thread"@) || contains(line, "new java.lang.Thread"@)
}

/// The finding for a thread that a line creates and starts.
pub open spec fn thread_creation(
    line: Seq<char>,
    file: Seq<char>,
    number: int,
    function: Seq<char>,
) -> Option<StaticEscapeView> {
    let t = trimmed(line);
    if creates_thread(t) && contains(t, ".start()"@) {
        Some(
            finding(
                EscapeType::ConcurrencyEscape,
                file,
                number,
                0,
                function,
                Some(t),
                "thread"@,
                "Thread created and started"@,
                ConfidenceLevel::High,
            ),
        )
    } else {
        None
    }
}

/// The findings of a scan of a whole file: one for each of the first `n`
/// lines that creates and starts a thread.
pub open spec fn file_escapes_first(lines: Seq<Seq<char>>, file: Seq<char>, n: int) -> Seq<
    StaticEscapeView,
>
    decreases n,
{
    if n <= 0 {
        Seq::<StaticEscapeView>::empty()
    } else {
        match thread_creation(lines[n - 1], file, n, "<class>"@) {
            Some(e) => file_escapes_first(lines, file, n - 1).push(e),
            None => file_escapes_first(lines, file, n - 1),
        }
    }
}

/// The findings of a scan of a whole file.
pub open spec fn file_escapes(source: Seq<char>, file: Seq<char>) -> Seq<StaticEscapeView> {
    file_escapes_first(lines(source), file, lines(source).len() as int)
}

/// The number of the line, among those up to `max`, that creates `var`
/// inside the method, looked for from line `i` on.
pub open spec fn variable_line_from(
    lines: Seq<Seq<char>>,
    method: Seq<char>,
    var: Seq<char>,
    max: int,
    i: int,
    in_method: bool,
) -> Option<int>
    decreases lines.len() - i,
{
    if i < 0 || i >= lines.len() || i > max {
        None
    } else if !in_method {
        variable_line_from(
            lines,
            method,
            var,
            max,
            i + 1,
            method_name(trimmed(lines[i])) == Some(method),
        )
    } else if contains(lines[i], var) && (contains(lines[i], "new Thread"@) || contains(
        lines[i],
        "ExecutorService"@,
    )) {
        Some(i + 1)
    } else {
        variable_line_from(lines, method, var, max, i + 1, true)
    }
}

/// The number of the first line after the method's heading, and not after
/// line `max`, that names `var` and creates a thread or an executor.
pub open spec fn variable_line(
    lines: Seq<Seq<char>>,
    method: Seq<char>,
    var: Seq<char>,
    max: int,
) -> Option<int> {
    variable_line_from(lines, method, var, max, 0, false)
}

/// What the scan of a method has gathered so far.
pub struct JavaScan {
    /// The scan stands inside the body of the method.
    pub in_target: bool,
    /// A heading of the method was seen.
    pub found: bool,
    /// The braces opened and not yet closed.
    pub depth: int,
    /// The variables that hold a thread or an executor.
    pub vars: Seq<Seq<char>>,
    /// The variables joined or shut down.
    pub joined: Seq<Seq<char>>,
    /// The findings so far.
    pub escapes: Seq<StaticEscapeView>,
}

/// The scan that holds the given parts.
pub open spec fn scan_state(
    in_target: bool,
    found: bool,
    depth: int,
    vars: Seq<Seq<char>>,
    joined: Seq<Seq<char>>,
    escapes: Seq<StaticEscapeView>,
) -> JavaScan {
    JavaScan { in_target, found, depth, vars, joined, escapes }
}

/// The finding for a thread created and started on one line.
pub open spec fn inline_finding(
    t: Seq<char>,
    file: Seq<char>,
    method: Seq<char>,
    number: int,
) -> StaticEscapeView {
    finding(
        EscapeType::ConcurrencyEscape,
        file,
        number,
        0,
        method,
        Some(t),
        "thread"@,
        "Thread created and started inline without join"@,
        ConfidenceLevel::High,
    )
}

/// The finding for a thread or an executor that is never joined or shut down.
pub open spec fn unjoined_finding(
    file: Seq<char>,
    method: Seq<char>,
    var: Seq<char>,
    number: int,
) -> StaticEscapeView {
    finding(
        EscapeType::ConcurrencyEscape,
        file,
        number,
        0,
        method,
        None,
        var,
        "Thread/Executor '"@ + var + "' created but not joined/shutdown"@,
        ConfidenceLevel::High,
    )
}

/// The scan after the line of the body whose trimmed text is `t`.
pub open spec fn body_step(
    st: JavaScan,
    t: Seq<char>,
    file: Seq<char>,
    method: Seq<char>,
    number: int,
) -> JavaScan {
    let vars1 = if creates_thread(t) {
        match thread_variable(t) {
            Some(v) => with_name(st.vars, v),
            None => st.vars,
        }
    } else {
        st.vars
    };
    let escapes = if creates_thread(t) && contains(t, ".start()"@) && !contains(t, ".join()"@) {
        st.escapes.push(inline_finding(t, file, method, number))
    } else {
        st.escapes
    };
    let vars = if (contains(t, "Executors."@) || contains(t, "ExecutorService"@)) && !contains(
        t,
        ".shutdown()"@,
    ) {
        match executor_variable(t) {
            Some(v) => with_name(vars1, v),
            None => vars1,
        }
    } else {
        vars1
    };
    let joined1 = match join_call(t) {
        Some(v) => with_name(st.joined, v),
        None => st.joined,
    };
    let joined = if contains(t, ".shutdown()"@) || contains(t, ".awaitTermination("@) {
        match variable_before_dot(t) {
            Some(v) => with_name(joined1, v),
            None => joined1,
        }
    } else {
        joined1
    };
    JavaScan {
        in_target: st.in_target,
        found: st.found,
        depth: st.depth + count(t, '{') - count(t, '}'),
        vars,
        joined,
        escapes,
    }
}

/// The findings for the first `n` variables: one for each that is not
/// joined and whose creation is found up to line `max`.
pub open spec fn unjoined_first(
    vars: Seq<Seq<char>>,
    joined: Seq<Seq<char>>,
    lines: Seq<Seq<char>>,
    file: Seq<char>,
    method: Seq<char>,
    max: int,
    n: int,
) -> Seq<StaticEscapeView>
    decreases n,
{
    if n <= 0 {
        Seq::<StaticEscapeView>::empty()
    } else {
        let prev = unjoined_first(vars, joined, lines, file, method, max, n - 1);
        if joined.contains(vars[n - 1]) {
            prev
        } else {
            match variable_line(lines, method, vars[n - 1], max) {
                Some(number) => prev.push(unjoined_finding(file, method, vars[n - 1], number)),
                None => prev,
            }
        }
    }
}

/// The scan of the lines from `i` on. Outside the method it looks for a
/// heading with the method's name. Inside it takes line after line; on the
/// line that leaves no brace open it reports the variables never joined,
/// and ends.
pub open spec fn scan_from(
    lines: Seq<Seq<char>>,
    file: Seq<char>,
    method: Seq<char>,
    i: int,
    st: JavaScan,
) -> JavaScan
    decreases lines.len() - i,
{
    if i < 0 || i >= lines.len() {
        st
    } else if !st.in_target {
        if method_name(trimmed(lines[i])) == Some(method) {
            scan_from(
                lines,
                file,
                method,
                i + 1,
                scan_state(
                    true,
                    true,
                    if contains(trimmed(lines[i]), "{"@) {
                        1
                    } else {
                        0
                    },
                    st.vars,
                    st.joined,
                    st.escapes,
                ),
            )
        } else {
            scan_from(lines, file, method, i + 1, st)
        }
    } else {
        let next = body_step(st, trimmed(lines[i]), file, method, i + 1);
        if next.depth <= 0 {
            scan_state(
                next.in_target,
                next.found,
                next.depth,
                next.vars,
                next.joined,
                next.escapes + unjoined_first(
                    next.vars,
                    next.joined,
                    lines,
                    file,
                    method,
                    i,
                    next.vars.len() as int,
                ),
            )
        } else {
            scan_from(lines, file, method, i + 1, next)
        }
    }
}

/// The scan of a whole source text for one method.
pub open spec fn method_scan(source: Seq<char>, file: Seq<char>, method: Seq<char>) -> JavaScan {
    scan_from(
        lines(source),
        file,
        method,
        0,
        scan_state(
            false,
            false,
            0,
            Seq::<Seq<char>>::empty(),
            Seq::<Seq<char>>::empty(),
            Seq::<StaticEscapeView>::empty(),
        ),
    )
}

/// The findings for one method.
pub open spec fn method_escapes(source: Seq<char>, file: Seq<char>, method: Seq<char>) -> Seq<
    StaticEscapeView,
> {
    method_scan(source, file, method).escapes
}

/// The warnings for one method: one where no heading names it.
pub open spec fn method_warnings(source: Seq<char>, file: Seq<char>, method: Seq<char>) -> Seq<
    Seq<char>,
> {
    if method_scan(source, file, method).found {
        Seq::<Seq<char>>::empty()
    } else {
        seq!["Target method '"@ + method + "' not found in source file"@]
    }
}

/// The method of a target.
pub fn parse_target_function(target: &str) -> (r: Option<String>)
    ensures
        crate::protocol::opt_text(r) == target_function(target@),
{
    let v = chars_of(target);
    if contains_str(&v, ":") {
        Some(string_of(&trim(&take_after_last(&v, ':'))))
    } else {
        None
    }
}

fn method_name_of(v: &Vec<char>) -> (r: Option<String>)
    ensures
        crate::protocol::opt_text(r) == method_name(v@),
{
    if !contains_str(v, "(") {
        return None;
    }
    let heading = split_words(&take_before(v, '('));
    if heading.len() >= 2 {
        let last = &heading[heading.len() - 1];
        assert(texts(heading@).last() == last@);
        if only_name_chars(last) {
            return Some(string_of(last));
        }
    }
    None
}

/// The name of the method that a line declares or calls.
pub fn extract_method_name(line: &str) -> (r: Option<String>)
    ensures
        crate::protocol::opt_text(r) == method_name(line@),
{
    method_name_of(&chars_of(line))
}

fn thread_variable_of(v: &Vec<char>) -> (r: Option<String>)
    ensures
        crate::protocol::opt_text(r) == thread_variable(v@),
{
    match text_after_match(v, "Thread ") {
        Some(rest) => {
            let name = take_name(&trim(&rest));
            if name.len() > 0 && !crate::text::names::spells(&name, "new") {
                Some(string_of(&name))
            } else {
                None
            }
        },
        None => None,
    }
}

/// The variable that a line declares as a `Thread`.
pub fn extract_thread_variable(line: &str) -> (r: Option<String>)
    ensures
        crate::protocol::opt_text(r) == thread_variable(line@),
{
    thread_variable_of(&chars_of(line))
}

fn executor_variable_of(v: &Vec<char>) -> (r: Option<String>)
    ensures
        crate::protocol::opt_text(r) == executor_variable(v@),
{
    match text_after_match(v, "ExecutorService ") {
        Some(rest) => {
            let name = take_name(&trim(&rest));
            if name.len() > 0 {
                Some(string_of(&name))
            } else {
                None
            }
        },
        None => None,
    }
}

/// The variable that a line declares as an `ExecutorService`.
pub fn extract_executor_variable(line: &str) -> (r: Option<String>)
    ensures
        crate::protocol::opt_text(r) == executor_variable(line@),
{
    executor_variable_of(&chars_of(line))
}

fn variable_before_dot_of(v: &Vec<char>) -> (r: Option<String>)
    ensures
        crate::protocol::opt_text(r) == variable_before_dot(v@),
{
    match text_before_match(v, ".") {
        Some(before) => {
            let name = take_last_name(&before);
            if name.len() > 0 {
                Some(string_of(&name))
            } else {
                None
            }
        },
        None => None,
    }
}

/// The last name before the first dot of a line.
pub fn extract_variable_before_dot(line: &str) -> (r: Option<String>)
    ensures
        crate::protocol::opt_text(r) == variable_before_dot(line@),
{
    variable_before_dot_of(&chars_of(line))
}

fn join_call_of(v: &Vec<char>) -> (r: Option<String>)
    ensures
        crate::protocol::opt_text(r) == join_call(v@),
{
    if !contains_str(v, ".join()") {
        return None;
    }
    variable_before_dot_of(v)
}

/// The variable that a line joins.
pub fn extract_join_call(line: &str) -> (r: Option<String>)
    ensures
        crate::protocol::opt_text(r) == join_call(line@),
{
    join_call_of(&chars_of(line))
}

fn creates_thread_in(v: &Vec<char>) -> (r: bool)
    ensures
        r == creates_thread(v@),
{
    contains_str(v, "new Thread") || contains_str(v, "new java.lang.Thread")
}

/// The finding for a thread that a line creates and starts.
pub fn detect_thread_creation(line: &str, source_file: &str, line_num: usize, function: &str) -> (r:
    Option<StaticEscape>)
    ensures
        match r {
            Some(e) => thread_creation(line@, source_file@, line_num as int, function@) == Some(
                e@,
            ),
            None => thread_creation(line@, source_file@, line_num as int, function@) is None,
        },
{
    let t = trim(&chars_of(line));
    if creates_thread_in(&t) && contains_str(&t, ".start()") {
        Some(
            new_finding(
                EscapeType::ConcurrencyEscape,
                source_file,
                line_num,
                0,
                function,
                Some(string_of(&t)),
                String::from_str("thread"),
                String::from_str("Thread created and started"),
                ConfidenceLevel::High,
            ),
        )
    } else {
        None
    }
}

/// The findings of a scan of a whole file.
pub fn analyze_file(source: &str, source_file: &str) -> (escapes: Vec<StaticEscape>)
    ensures
        escapes_of(escapes@) == file_escapes(source@, source_file@),
{
    let rows = lines_of(source);
    let mut escapes: Vec<StaticEscape> = Vec::new();
    assert(escapes_of(escapes@) =~= Seq::<StaticEscapeView>::empty());
    let mut i: usize = 0;
    while i < rows.len()
        invariant
            i <= rows.len(),
            strings(rows@) == lines(source@),
            escapes_of(escapes@) == file_escapes_first(lines(source@), source_file@, i as int),
        decreases rows.len() - i,
    {
        assert(strings(rows@)[i as int] == rows@[i as int]@);
        match detect_thread_creation(rows[i].as_str(), source_file, i + 1, "<class>") {
            Some(e) => {
                proof {
                    lemma_escapes_push(escapes@, e);
                }
                escapes.push(e);
            },
            None => {},
        }
        i += 1;
    }
    escapes
}

/// The number of the first line after the method's heading, and not after
/// line `max_idx`, that names `var_name` and creates a thread or an executor.
pub fn find_variable_line(
    lines: &Vec<String>,
    method_name: &str,
    var_name: &str,
    max_idx: usize,
) -> (r: Option<usize>)
    ensures
        match r {
            Some(n) => variable_line(strings(lines@), method_name@, var_name@, max_idx as int)
                == Some(n as int),
            None => variable_line(strings(lines@), method_name@, var_name@, max_idx as int)
                is None,
        },
{
    let mut in_method = false;
    let mut i: usize = 0;
    let ghost ls = strings(lines@);
    while i < lines.len() && i <= max_idx
        invariant
            i <= lines.len(),
            ls == strings(lines@),
            variable_line_from(ls, method_name@, var_name@, max_idx as int, i as int, in_method)
                == variable_line(ls, method_name@, var_name@, max_idx as int),
        decreases lines.len() - i,
    {
        assert(ls[i as int] == lines@[i as int]@);
        let v = chars_of(lines[i].as_str());
        if !in_method {
            in_method = match method_name_of(&trim(&v)) {
                Some(name) => same_text(name.as_str(), method_name),
                None => false,
            };
        } else if contains_str(&v, var_name) && (contains_str(&v, "new Thread") || contains_str(
            &v,
            "ExecutorService",
        )) {
            return Some(i + 1);
        }
        i += 1;
    }
    None
}

/// The findings for one method, and the warning where it is not found.
pub fn analyze_method(
    source: &str,
    source_file: &str,
    method_name: &str,
    warnings: &mut Vec<String>,
) -> (escapes: Vec<StaticEscape>)
    ensures
        escapes_of(escapes@) == method_escapes(source@, source_file@, method_name@),
        strings(final(warnings)@) == strings(old(warnings)@) + method_warnings(
            source@,
            source_file@,
            method_name@,
        ),
{
    let rows = lines_of(source);
    let mut escapes: Vec<StaticEscape> = Vec::new();
    let mut in_target = false;
    let mut found = false;
    let mut done = false;
    let mut opens: u128 = 0;
    let mut closes: u128 = 0;
    let mut vars: Vec<String> = Vec::new();
    let mut joined: Vec<String> = Vec::new();
    let mut i: usize = 0;
    let ghost ls = lines(source@);
    let ghost f = source_file@;
    let ghost m = method_name@;
    let ghost total = method_scan(source@, f, m);
    proof {
        assert(escapes_of(escapes@) =~= Seq::<StaticEscapeView>::empty());
        assert(strings(vars@) =~= Seq::<Seq<char>>::empty());
        assert(strings(joined@) =~= Seq::<Seq<char>>::empty());
    }
    while i < rows.len() && !done
        invariant
            i <= rows.len(),
            ls == strings(rows@),
            ls == lines(source@),
            f == source_file@,
            m == method_name@,
            total == method_scan(source@, f, m),
            opens <= (i + 1) * 0xffff_ffff_ffff_ffff,
            closes <= (i + 1) * 0xffff_ffff_ffff_ffff,
            !done ==> scan_from(
                ls,
                f,
                m,
                i as int,
                scan_state(
                    in_target,
                    found,
                    opens - closes,
                    strings(vars@),
                    strings(joined@),
                    escapes_of(escapes@),
                ),
            ) == total,
            done ==> scan_state(
                in_target,
                found,
                opens - closes,
                strings(vars@),
                strings(joined@),
                escapes_of(escapes@),
            ) == total,
        decreases rows.len() - i,
    {
        assert(ls[i as int] == rows@[i as int]@);
        let t = trim(&chars_of(rows[i].as_str()));
        let ghost st = scan_state(
            in_target,
            found,
            opens - closes,
            strings(vars@),
            strings(joined@),
            escapes_of(escapes@),
        );
        if !in_target {
            let is_target = match method_name_of(&t) {
                Some(name) => same_text(name.as_str(), method_name),
                None => false,
            };
            if is_target {
                found = true;
                in_target = true;
                closes = 0;
                opens = if contains_str(&t, "{") {
                    1
                } else {
                    0
                };
            }
        } else {
            if creates_thread_in(&t) {
                match thread_variable_of(&t) {
                    Some(v) => {
                        insert_name(&mut vars, v);
                    },
                    None => {},
                }
                if contains_str(&t, ".start()") && !contains_str(&t, ".join()") {
                    let e = new_finding(
                        EscapeType::ConcurrencyEscape,
                        source_file,
                        i + 1,
                        0,
                        method_name,
                        Some(string_of(&t)),
                        String::from_str("thread"),
                        String::from_str("Thread created and started inline without join"),
                        ConfidenceLevel::High,
                    );
                    proof {
                        lemma_escapes_push(escapes@, e);
                    }
                    escapes.push(e);
                }
            }
            if (contains_str(&t, "Executors.") || contains_str(&t, "ExecutorService"))
                && !contains_str(&t, ".shutdown()") {
                match executor_variable_of(&t) {
                    Some(v) => {
                        insert_name(&mut vars, v);
                    },
                    None => {},
                }
            }
            match join_call_of(&t) {
                Some(v) => {
                    insert_name(&mut joined, v);
                },
                None => {},
            }
            if contains_str(&t, ".shutdown()") || contains_str(&t, ".awaitTermination(") {
                match variable_before_dot_of(&t) {
                    Some(v) => {
                        insert_name(&mut joined, v);
                    },
                    None => {},
                }
            }
            opens = opens + count_char(&t, '{') as u128;
            closes = closes + count_char(&t, '}') as u128;
            let ghost next = scan_state(
                in_target,
                found,
                opens - closes,
                strings(vars@),
                strings(joined@),
                escapes_of(escapes@),
            );
            assert(body_step(st, t@, f, m, i + 1) == next);
            if opens <= closes {
                let mut k: usize = 0;
                while k < vars.len()
                    invariant
                        k <= vars.len(),
                        i < rows.len(),
                        ls == strings(rows@),
                        f == source_file@,
                        m == method_name@,
                        escapes_of(escapes@) == next.escapes + unjoined_first(
                            strings(vars@),
                            strings(joined@),
                            ls,
                            f,
                            m,
                            i as int,
                            k as int,
                        ),
                    decreases vars.len() - k,
                {
                    let var = vars[k].as_str();
                    assert(strings(vars@)[k as int] == var@);
                    if !has_name(&joined, var) {
                        match find_variable_line(&rows, method_name, var, i) {
                            Some(number) => {
                                let e = new_finding(
                                    EscapeType::ConcurrencyEscape,
                                    source_file,
                                    number,
                                    0,
                                    method_name,
                                    None,
                                    String::from_str(var),
                                    concat3(
                                        "Thread/Executor '",
                                        var,
                                        "' created but not joined/shutdown",
                                    ),
                                    ConfidenceLevel::High,
                                );
                                proof {
                                    lemma_escapes_push(escapes@, e);
                                }
                                escapes.push(e);
                            },
                            None => {},
                        }
                    }
                    assert(escapes_of(escapes@) =~= next.escapes + unjoined_first(
                        strings(vars@),
                        strings(joined@),
                        ls,
                        f,
                        m,
                        i as int,
                        k + 1,
                    ));
                    k += 1;
                }
                done = true;
            }
        }
        i += 1;
    }
    if !found {
        let w = concat3("Target method '", method_name, "' not found in source file");
        proof {
            lemma_strings_push(warnings@, w);
        }
        warnings.push(w);
        assert(strings(warnings@) =~= strings(old(warnings)@) + method_warnings(source@, f, m));
    } else {
        assert(strings(warnings@) =~= strings(old(warnings)@) + method_warnings(source@, f, m));
    }
    escapes
}

/// The findings of a scan: those of the function that the target names,
/// or those of the whole file where it names none.
pub open spec fn analysis_escapes(target: Seq<char>, file: Seq<char>, source: Seq<char>) -> Seq<
    StaticEscapeView,
> {
    match target_function(target) {
        Some(f) => method_escapes(source, file, f),
        None => file_escapes(source, file),
    }
}

/// The warnings of a scan.
pub open spec fn analysis_warnings(target: Seq<char>, file: Seq<char>, source: Seq<char>) -> Seq<
    Seq<char>,
> {
    match target_function(target) {
        Some(f) => method_warnings(source, file, f),
        None => Seq::<Seq<char>>::empty(),
    }
}

/// The scanner for Java source text.
#[derive(Debug, Clone, Copy)]
pub struct JavaStaticAnalyzer;

impl JavaStaticAnalyzer {
    /// The scanner.
    pub fn new() -> (r: Self)
        ensures
            r == JavaStaticAnalyzer,
    {
        JavaStaticAnalyzer
    }

    /// Scans a source text: the function of the target where it names one,
    /// the whole file where it does not.
    pub fn analyze_source(&self, target: &str, source_file: &str, source: &str, elapsed_ms: u64)
        -> (r: StaticAnalysisResult)
        ensures
            r@.target == target@,
            r@.source_file == source_file@,
            r@.escapes == analysis_escapes(target@, source_file@, source@),
            r@.warnings == analysis_warnings(target@, source_file@, source@),
            r@.analysis_time_ms == elapsed_ms,
            r@.summary.counts(r@.escapes),
            r@.summary.consistent(),
    {
        let mut warnings: Vec<String> = Vec::new();
        assert(strings(warnings@) =~= Seq::<Seq<char>>::empty());
        let escapes = match parse_target_function(target) {
            Some(function_name) => {
                let found = analyze_method(source, source_file, function_name.as_str(), &mut warnings);
                found
            },
            None => analyze_file(source, source_file),
        };
        assert(strings(warnings@) =~= analysis_warnings(target@, source_file@, source@));
        assemble(target, source_file, escapes, warnings, elapsed_ms)
    }
}

impl StaticEscapeAnalyzer for JavaStaticAnalyzer {
    open spec fn language_name(&self) -> Seq<char> {
        "java"@
    }

    open spec fn toolchain_command(&self) -> (Seq<char>, Seq<char>) {
        ("javac"@, "-version"@)
    }

    fn language(&self) -> (r: &'static str) {
        "java"
    }

    fn availability_command(&self) -> (r: (&'static str, &'static str)) {
        ("javac", "-version")
    }
}

/// A scan that has seen a heading does not forget it.
pub proof fn lemma_found_stays(
    lines: Seq<Seq<char>>,
    file: Seq<char>,
    method: Seq<char>,
    i: int,
    st: JavaScan,
)
    requires
        st.found,
    ensures
        scan_from(lines, file, method, i, st).found,
    decreases lines.len() - i,
{
    if 0 <= i < lines.len() {
        if !st.in_target {
            if method_name(trimmed(lines[i])) == Some(method) {
                lemma_found_stays(
                    lines,
                    file,
                    method,
                    i + 1,
                    scan_state(
                        true,
                        true,
                        if contains(trimmed(lines[i]), "{"@) {
                            1
                        } else {
                            0
                        },
                        st.vars,
                        st.joined,
                        st.escapes,
                    ),
                );
            } else {
                lemma_found_stays(lines, file, method, i + 1, st);
            }
        } else {
            let next = body_step(st, trimmed(lines[i]), file, method, i + 1);
            if next.depth > 0 {
                lemma_found_stays(lines, file, method, i + 1, next);
            }
        }
    }
}

/// A scan that never sees a heading gathers nothing.
pub proof fn lemma_unseen_gathers_nothing(
    lines: Seq<Seq<char>>,
    file: Seq<char>,
    method: Seq<char>,
    i: int,
    st: JavaScan,
)
    requires
        !st.in_target,
        st.escapes.len() == 0,
    ensures
        scan_from(lines, file, method, i, st).found || scan_from(
            lines,
            file,
            method,
            i,
            st,
        ).escapes.len() == 0,
    decreases lines.len() - i,
{
    if 0 <= i < lines.len() {
        if method_name(trimmed(lines[i])) == Some(method) {
            lemma_found_stays(
                lines,
                file,
                method,
                i + 1,
                scan_state(
                    true,
                    true,
                    if contains(trimmed(lines[i]), "{"@) {
                        1
                    } else {
                        0
                    },
                    st.vars,
                    st.joined,
                    st.escapes,
                ),
            );
        } else {
            lemma_unseen_gathers_nothing(lines, file, method, i + 1, st);
        }
    }
}

/// Where no heading names the method, the scan reports no escape, and
/// warns that the method was not found.
pub proof fn lemma_missing_function(source: Seq<char>, file: Seq<char>, method: Seq<char>)
    requires
        !method_scan(source, file, method).found,
    ensures
        method_escapes(source, file, method).len() == 0,
        method_warnings(source, file, method).len() == 1,
{
    lemma_unseen_gathers_nothing(
        lines(source),
        file,
        method,
        0,
        scan_state(
            false,
            false,
            0,
            Seq::<Seq<char>>::empty(),
            Seq::<Seq<char>>::empty(),
            Seq::<StaticEscapeView>::empty(),
        ),
    );
}

/// The line that creates a variable is one of the lines up to the last
/// one looked at.
pub proof fn lemma_variable_line_bounds(
    lines: Seq<Seq<char>>,
    method: Seq<char>,
    var: Seq<char>,
    max: int,
    i: int,
    in_method: bool,
)
    requires
        0 <= i,
    ensures
        match variable_line_from(lines, method, var, max, i, in_method) {
            Some(n) => i < n <= lines.len() && n <= max + 1,
            None => true,
        },
    decreases lines.len() - i,
{
    if i < lines.len() && i <= max {
        if !in_method {
            lemma_variable_line_bounds(
                lines,
                method,
                var,
                max,
                i + 1,
                method_name(trimmed(lines[i])) == Some(method),
            );
        } else if contains(lines[i], var) && (contains(lines[i], "new Thread"@) || contains(
            lines[i],
            "ExecutorService"@,
        )) {
        } else {
            lemma_variable_line_bounds(lines, method, var, max, i + 1, true);
        }
    }
}

proof fn lemma_unjoined_located(
    vars: Seq<Seq<char>>,
    joined: Seq<Seq<char>>,
    lines: Seq<Seq<char>>,
    file: Seq<char>,
    method: Seq<char>,
    max: int,
    n: int,
)
    requires
        lines.len() <= usize::MAX,
    ensures
        all_located(
            unjoined_first(vars, joined, lines, file, method, max, n),
            file,
            method,
            lines.len() as int,
        ),
    decreases n,
{
    if n > 0 {
        lemma_unjoined_located(vars, joined, lines, file, method, max, n - 1);
        lemma_variable_line_bounds(lines, method, vars[n - 1], max, 0, false);
    }
}

proof fn lemma_scan_located(
    lines: Seq<Seq<char>>,
    file: Seq<char>,
    method: Seq<char>,
    i: int,
    st: JavaScan,
)
    requires
        0 <= i,
        lines.len() <= usize::MAX,
        all_located(st.escapes, file, method, lines.len() as int),
    ensures
        all_located(
            scan_from(lines, file, method, i, st).escapes,
            file,
            method,
            lines.len() as int,
        ),
    decreases lines.len() - i,
{
    if i < lines.len() {
        if !st.in_target {
            if method_name(trimmed(lines[i])) == Some(method) {
                lemma_scan_located(
                    lines,
                    file,
                    method,
                    i + 1,
                    scan_state(
                        true,
                        true,
                        if contains(trimmed(lines[i]), "{"@) {
                            1
                        } else {
                            0
                        },
                        st.vars,
                        st.joined,
                        st.escapes,
                    ),
                );
            } else {
                lemma_scan_located(lines, file, method, i + 1, st);
            }
        } else {
            let next = body_step(st, trimmed(lines[i]), file, method, i + 1);
            assert(all_located(next.escapes, file, method, lines.len() as int));
            if next.depth <= 0 {
                lemma_unjoined_located(
                    next.vars,
                    next.joined,
                    lines,
                    file,
                    method,
                    i,
                    next.vars.len() as int,
                );
            } else {
                lemma_scan_located(lines, file, method, i + 1, next);
            }
        }
    }
}

/// Every finding of a method scan names the file and the method that were
/// given, and lies on one of the lines of the source.
pub proof fn lemma_findings_located(source: Seq<char>, file: Seq<char>, method: Seq<char>)
    requires
        lines(source).len() <= usize::MAX,
    ensures
        all_located(method_escapes(source, file, method), file, method, lines(source).len() as int),
{
    lemma_scan_located(
        lines(source),
        file,
        method,
        0,
        scan_state(
            false,
            false,
            0,
            Seq::<Seq<char>>::empty(),
            Seq::<Seq<char>>::empty(),
            Seq::<StaticEscapeView>::empty(),
        ),
    );
}

} // verus!
