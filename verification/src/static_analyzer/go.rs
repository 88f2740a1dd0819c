//! The scanner for Go source text.

use vstd::prelude::*;
use crate::protocol::{
    escapes_of, lemma_escapes_push, ConfidenceLevel, EscapeType, StaticAnalysisResult,
    StaticEscape, StaticEscapeView,
};
use crate::static_analyzer::{all_located, assemble, finding, new_finding, StaticEscapeAnalyzer};
use crate::text::chars::{char_is_whitespace, chars_of, slice_of, string_of, unicode_whitespace};
use crate::text::compose::{count, count_char};
use crate::text::names::{
    concat3, has_name, insert_name, lines_of, nonempty, same_text, with_name,
};
use crate::text::runs::{
    after_last, leading_name, run_end, skip_run, take_after_last, take_name, trim, trimmed,
    CharClass,
};
use crate::text::search::{
    after_match, before_match, contains, contains_str, has_prefix, starts_with_str,
    text_after_match, text_before_match,
};
use crate::text::split::{lemma_strings_push, lines, split_words, strings, texts, words};

verus! {

/// The function that a target names: what follows its last colon, where the
/// target holds a colon.
pub open spec fn target_function(target: Seq<char>) -> Option<Seq<char>> {
    if contains(target, ":"@) {
        Some(trimmed(after_last(target, ':')))
    } else {
        None
    }
}

/// The name that follows the first `func ` of a line, where an opening
/// parenthesis, white space or the end of the line follows the name.
pub open spec fn func_name(line: Seq<char>) -> Option<Seq<char>> {
    match after_match(line, "func "@) {
        Some(rest) => {
            let n = run_end(rest, CharClass::Name, 0);
            if n < rest.len() && !(rest[n] == '(' || unicode_whitespace(rest[n])) {
                None
            } else {
                nonempty(rest.subrange(0, n))
            }
        },
        None => None,
    }
}

/// The text before the assignment on a line: before its first `:=`, or
/// else before its first ` = `.
pub open spec fn before_assignment(line: Seq<char>) -> Option<Seq<char>> {
    match before_match(line, ":="@) {
        Some(t) => Some(t),
        None => before_match(line, " = "@),
    }
}

/// The variable to which a line assigns a new channel.
pub open spec fn channel_make(line: Seq<char>) -> Option<Seq<char>> {
    if contains(line, "make(chan"@) {
        match before_assignment(line) {
            Some(before) => if words(trimmed(before)).len() > 0 {
                Some(words(trimmed(before)).last())
            } else {
                None
            },
            None => None,
        }
    } else {
        None
    }
}

/// The channel from which a line receives.
pub open spec fn channel_receive(line: Seq<char>) -> Option<Seq<char>> {
    match after_match(line, "<-"@) {
        Some(rest) => nonempty(leading_name(trimmed(rest))),
        None => None,
    }
}

/// The trimmed line starts a goroutine and is no comment.
pub open spec fn spawns_goroutine(t: Seq<char>) -> bool {
    contains(t, "go "@) && !has_prefix(t, "//"@)
}

/// The finding for a goroutine that a line starts.
pub open spec fn goroutine(line: Seq<char>, file: Seq<char>, number: int, function: Seq<char>)
    -> Option<StaticEscapeView> {
    let t = trimmed(line);
    if spawns_goroutine(t) {
        Some(
            finding(
                EscapeType::ConcurrencyEscape,
                file,
                number,
                0,
                function,
                Some(t),
                "goroutine"@,
                "Goroutine spawned"@,
                ConfidenceLevel::High,
            ),
        )
    } else {
        None
    }
}

/// The findings of a scan of a whole file: one for each of the first `n`
/// lines that starts a goroutine.
pub open spec fn file_escapes_first(lines: Seq<Seq<char>>, file: Seq<char>, n: int) -> Seq<
    StaticEscapeView,
>
    decreases n,
{
    if n <= 0 {
        Seq::<StaticEscapeView>::empty()
    } else {
        match goroutine(lines[n - 1], file, n, "<module>"@) {
            Some(e) => file_escapes_first(lines, file, n - 1).push(e),
            None => file_escapes_first(lines, file, n - 1),
        }
    }
}

/// The findings of a scan of a whole file.
pub open spec fn file_escapes(source: Seq<char>, file: Seq<char>) -> Seq<StaticEscapeView> {
    file_escapes_first(lines(source), file, lines(source).len() as int)
}

/// What the scan of a function has gathered so far.
pub struct GoScan {
    /// The scan stands inside the body of the function.
    pub in_target: bool,
    /// A heading of the function was seen.
    pub found: bool,
    /// The braces opened and not yet closed.
    pub depth: int,
    /// The channels made.
    pub channels: Seq<Seq<char>>,
    /// The channels received from.
    pub received: Seq<Seq<char>>,
    /// The findings so far.
    pub escapes: Seq<StaticEscapeView>,
}

/// The scan that holds the given parts.
pub open spec fn scan_state(
    in_target: bool,
    found: bool,
    depth: int,
    channels: Seq<Seq<char>>,
    received: Seq<Seq<char>>,
    escapes: Seq<StaticEscapeView>,
) -> GoScan {
    GoScan { in_target, found, depth, channels, received, escapes }
}

/// The finding for a goroutine started inside the function.
pub open spec fn spawn_finding(t: Seq<char>, file: Seq<char>, function: Seq<char>, number: int)
    -> StaticEscapeView {
    finding(
        EscapeType::ConcurrencyEscape,
        file,
        number,
        0,
        function,
        Some(t),
        "goroutine"@,
        "Goroutine spawned - may not complete before function return"@,
        ConfidenceLevel::High,
    )
}

/// The finding for a channel that is never received from.
pub open spec fn channel_finding(
    file: Seq<char>,
    function: Seq<char>,
    channel: Seq<char>,
    number: int,
) -> StaticEscapeView {
    finding(
        EscapeType::ConcurrencyEscape,
        file,
        number,
        0,
        function,
        None,
        channel,
        "Channel '"@ + channel + "' created but never received on (goroutine may leak)"@,
        ConfidenceLevel::Medium,
    )
}

/// The scan after the line of the body whose trimmed text is `t`.
pub open spec fn body_step(
    st: GoScan,
    t: Seq<char>,
    file: Seq<char>,
    function: Seq<char>,
    number: int,
) -> GoScan {
    GoScan {
        in_target: st.in_target,
        found: st.found,
        depth: st.depth + count(t, '{') - count(t, '}'),
        channels: match channel_make(t) {
            Some(c) => with_name(st.channels, c),
            None => st.channels,
        },
        received: match channel_receive(t) {
            Some(c) => with_name(st.received, c),
            None => st.received,
        },
        escapes: if spawns_goroutine(t) {
            st.escapes.push(spawn_finding(t, file, function, number))
        } else {
            st.escapes
        },
    }
}

/// The findings for the first `n` channels: one, on line `number`, for each
/// that is never received from.
pub open spec fn unreceived_first(
    channels: Seq<Seq<char>>,
    received: Seq<Seq<char>>,
    file: Seq<char>,
    function: Seq<char>,
    number: int,
    n: int,
) -> Seq<StaticEscapeView>
    decreases n,
{
    if n <= 0 {
        Seq::<StaticEscapeView>::empty()
    } else {
        let prev = unreceived_first(channels, received, file, function, number, n - 1);
        if received.contains(channels[n - 1]) {
            prev
        } else {
            prev.push(channel_finding(file, function, channels[n - 1], number))
        }
    }
}

/// The scan of the lines from `i` on. Outside the function it looks for a
/// heading with the function's name. Inside it takes line after line; on
/// the line that leaves no brace open it reports the channels never
/// received from, and ends.
pub open spec fn scan_from(
    lines: Seq<Seq<char>>,
    file: Seq<char>,
    function: Seq<char>,
    i: int,
    st: GoScan,
) -> GoScan
    decreases lines.len() - i,
{
    if i < 0 || i >= lines.len() {
        st
    } else if !st.in_target {
        if func_name(trimmed(lines[i])) == Some(function) {
            scan_from(
                lines,
                file,
                function,
                i + 1,
                scan_state(
                    true,
                    true,
                    if contains(trimmed(lines[i]), "{"@) {
                        1
                    } else {
                        0
                    },
                    st.channels,
                    st.received,
                    st.escapes,
                ),
            )
        } else {
            scan_from(lines, file, function, i + 1, st)
        }
    } else {
        let next = body_step(st, trimmed(lines[i]), file, function, i + 1);
        if next.depth <= 0 {
            scan_state(
                next.in_target,
                next.found,
                next.depth,
                next.channels,
                next.received,
                next.escapes + unreceived_first(
                    next.channels,
                    next.received,
                    file,
                    function,
                    i + 1,
                    next.channels.len() as int,
                ),
            )
        } else {
            scan_from(lines, file, function, i + 1, next)
        }
    }
}

/// The scan of a whole source text for one function.
pub open spec fn function_scan(source: Seq<char>, file: Seq<char>, function: Seq<char>) -> GoScan {
    scan_from(
        lines(source),
        file,
        function,
        0,
        scan_state(
            false,
            false,
            0,
            Seq::<Seq<char>>::empty(),
            Seq::<Seq<char>>::empty(),
            Seq::<StaticEscapeView>::empty(),
        ),
    )
}

/// The findings for one function.
pub open spec fn function_escapes(source: Seq<char>, file: Seq<char>, function: Seq<char>) -> Seq<
    StaticEscapeView,
> {
    function_scan(source, file, function).escapes
}

/// The warnings for one function: one where no heading names it.
pub open spec fn function_warnings(source: Seq<char>, file: Seq<char>, function: Seq<char>) -> Seq<
    Seq<char>,
> {
    if function_scan(source, file, function).found {
        Seq::<Seq<char>>::empty()
    } else {
        seq!["Target function '"@ + function + "' not found in source file"@]
    }
}

/// The function of a target.
pub fn parse_target_function(target: &str) -> (r: Option<String>)
    ensures
        crate::protocol::opt_text(r) == target_function(target@),
{
    let v = chars_of(target);
    if contains_str(&v, ":") {
        Some(string_of(&trim(&take_after_last(&v, ':'))))
    } else {
        None
    }
}

fn func_name_of(v: &Vec<char>) -> (r: Option<String>)
    ensures
        crate::protocol::opt_text(r) == func_name(v@),
{
    match text_after_match(v, "func ") {
        Some(rest) => {
            let n = skip_run(&rest, CharClass::Name, 0);
            if n < rest.len() && !(rest[n] == '(' || char_is_whitespace(rest[n])) {
                None
            } else if n > 0 {
                Some(string_of(&slice_of(&rest, 0, n)))
            } else {
                None
            }
        },
        None => None,
    }
}

/// The name that follows the first `func ` of a line.
pub fn extract_func_name(line: &str) -> (r: Option<String>)
    ensures
        crate::protocol::opt_text(r) == func_name(line@),
{
    func_name_of(&chars_of(line))
}

fn channel_make_of(v: &Vec<char>) -> (r: Option<String>)
    ensures
        crate::protocol::opt_text(r) == channel_make(v@),
{
    if !contains_str(v, "make(chan") {
        return None;
    }
    let before = match text_before_match(v, ":=") {
        Some(t) => t,
        None => match text_before_match(v, " = ") {
            Some(t) => t,
            None => {
                return None;
            },
        },
    };
    let parts = split_words(&trim(&before));
    if parts.len() > 0 {
        let last = &parts[parts.len() - 1];
        assert(texts(parts@).last() == last@);
        Some(string_of(last))
    } else {
        None
    }
}

/// The variable to which a line assigns a new channel.
pub fn extract_channel_make(line: &str) -> (r: Option<String>)
    ensures
        crate::protocol::opt_text(r) == channel_make(line@),
{
    channel_make_of(&chars_of(line))
}

fn channel_receive_of(v: &Vec<char>) -> (r: Option<String>)
    ensures
        crate::protocol::opt_text(r) == channel_receive(v@),
{
    match text_after_match(v, "<-") {
        Some(rest) => {
            let name = take_name(&trim(&rest));
            if name.len() > 0 {
                Some(string_of(&name))
            } else {
                None
            }
        },
        None => None,
    }
}

/// The channel from which a line receives.
pub fn extract_channel_receive(line: &str) -> (r: Option<String>)
    ensures
        crate::protocol::opt_text(r) == channel_receive(line@),
{
    channel_receive_of(&chars_of(line))
}

fn spawns_goroutine_in(t: &Vec<char>) -> (r: bool)
    ensures
        r == spawns_goroutine(t@),
{
    contains_str(t, "go ") && !starts_with_str(t, "//")
}

/// The finding for a goroutine that a line starts.
pub fn detect_goroutine(line: &str, source_file: &str, line_num: usize, function: &str) -> (r:
    Option<StaticEscape>)
    ensures
        match r {
            Some(e) => goroutine(line@, source_file@, line_num as int, function@) == Some(e@),
            None => goroutine(line@, source_file@, line_num as int, function@) is None,
        },
{
    let t = trim(&chars_of(line));
    if spawns_goroutine_in(&t) {
        Some(
            new_finding(
                EscapeType::ConcurrencyEscape,
                source_file,
                line_num,
                0,
                function,
                Some(string_of(&t)),
                String::from_str("goroutine"),
                String::from_str("Goroutine spawned"),
                ConfidenceLevel::High,
            ),
        )
    } else {
        None
    }
}

/// The findings of a scan of a whole file.
pub fn analyze_file(source: &str, source_file: &str) -> (escapes: Vec<StaticEscape>)
    ensures
        escapes_of(escapes@) == file_escapes(source@, source_file@),
{
    let rows = lines_of(source);
    let mut escapes: Vec<StaticEscape> = Vec::new();
    assert(escapes_of(escapes@) =~= Seq::<StaticEscapeView>::empty());
    let mut i: usize = 0;
    while i < rows.len()
        invariant
            i <= rows.len(),
            strings(rows@) == lines(source@),
            escapes_of(escapes@) == file_escapes_first(lines(source@), source_file@, i as int),
        decreases rows.len() - i,
    {
        assert(strings(rows@)[i as int] == rows@[i as int]@);
        match detect_goroutine(rows[i].as_str(), source_file, i + 1, "<module>") {
            Some(e) => {
                proof {
                    lemma_escapes_push(escapes@, e);
                }
                escapes.push(e);
            },
            None => {},
        }
        i += 1;
    }
    escapes
}

/// The findings for one function, and the warning where it is not found.
pub fn analyze_function(
    source: &str,
    source_file: &str,
    function_name: &str,
    warnings: &mut Vec<String>,
) -> (escapes: Vec<StaticEscape>)
    ensures
        escapes_of(escapes@) == function_escapes(source@, source_file@, function_name@),
        strings(final(warnings)@) == strings(old(warnings)@) + function_warnings(
            source@,
            source_file@,
            function_name@,
        ),
{
    let rows = lines_of(source);
    let mut escapes: Vec<StaticEscape> = Vec::new();
    let mut in_target = false;
    let mut found = false;
    let mut done = false;
    let mut opens: u128 = 0;
    let mut closes: u128 = 0;
    let mut channels: Vec<String> = Vec::new();
    let mut received: Vec<String> = Vec::new();
    let mut i: usize = 0;
    let ghost ls = lines(source@);
    let ghost f = source_file@;
    let ghost m = function_name@;
    let ghost total = function_scan(source@, f, m);
    proof {
        assert(escapes_of(escapes@) =~= Seq::<StaticEscapeView>::empty());
        assert(strings(channels@) =~= Seq::<Seq<char>>::empty());
        assert(strings(received@) =~= Seq::<Seq<char>>::empty());
    }
    while i < rows.len() && !done
        invariant
            i <= rows.len(),
            ls == strings(rows@),
            ls == lines(source@),
            f == source_file@,
            m == function_name@,
            total == function_scan(source@, f, m),
            opens <= (i + 1) * 0xffff_ffff_ffff_ffff,
            closes <= (i + 1) * 0xffff_ffff_ffff_ffff,
            !done ==> scan_from(
                ls,
                f,
                m,
                i as int,
                scan_state(
                    in_target,
                    found,
                    opens - closes,
                    strings(channels@),
                    strings(received@),
                    escapes_of(escapes@),
                ),
            ) == total,
            done ==> scan_state(
                in_target,
                found,
                opens - closes,
                strings(channels@),
                strings(received@),
                escapes_of(escapes@),
            ) == total,
        decreases rows.len() - i,
    {
        assert(ls[i as int] == rows@[i as int]@);
        let t = trim(&chars_of(rows[i].as_str()));
        let ghost st = scan_state(
            in_target,
            found,
            opens - closes,
            strings(channels@),
            strings(received@),
            escapes_of(escapes@),
        );
        if !in_target {
            let is_target = match func_name_of(&t) {
                Some(name) => same_text(name.as_str(), function_name),
                None => false,
            };
            if is_target {
                found = true;
                in_target = true;
                closes = 0;
                opens = if contains_str(&t, "{") {
                    1
                } else {
                    0
                };
            }
        } else {
            match channel_make_of(&t) {
                Some(c) => {
                    insert_name(&mut channels, c);
                },
                None => {},
            }
            match channel_receive_of(&t) {
                Some(c) => {
                    insert_name(&mut received, c);
                },
                None => {},
            }
            if spawns_goroutine_in(&t) {
                let e = new_finding(
                    EscapeType::ConcurrencyEscape,
                    source_file,
                    i + 1,
                    0,
                    function_name,
                    Some(string_of(&t)),
                    String::from_str("goroutine"),
                    String::from_str(
                        "Goroutine spawned - may not complete before function return",
                    ),
                    ConfidenceLevel::High,
                );
                proof {
                    lemma_escapes_push(escapes@, e);
                }
                escapes.push(e);
            }
            opens = opens + count_char(&t, '{') as u128;
            closes = closes + count_char(&t, '}') as u128;
            let ghost next = scan_state(
                in_target,
                found,
                opens - closes,
                strings(channels@),
                strings(received@),
                escapes_of(escapes@),
            );
            assert(body_step(st, t@, f, m, i + 1) == next);
            if opens <= closes {
                let mut k: usize = 0;
                while k < channels.len()
                    invariant
                        k <= channels.len(),
                        i < rows.len(),
                        f == source_file@,
                        m == function_name@,
                        escapes_of(escapes@) == next.escapes + unreceived_first(
                            strings(channels@),
                            strings(received@),
                            f,
                            m,
                            i + 1,
                            k as int,
                        ),
                    decreases channels.len() - k,
                {
                    let channel = channels[k].as_str();
                    assert(strings(channels@)[k as int] == channel@);
                    if !has_name(&received, channel) {
                        let e = new_finding(
                            EscapeType::ConcurrencyEscape,
                            source_file,
                            i + 1,
                            0,
                            function_name,
                            None,
                            String::from_str(channel),
                            concat3(
                                "Channel '",
                                channel,
                                "' created but never received on (goroutine may leak)",
                            ),
                            ConfidenceLevel::Medium,
                        );
                        proof {
                            lemma_escapes_push(escapes@, e);
                        }
                        escapes.push(e);
                    }
                    assert(escapes_of(escapes@) =~= next.escapes + unreceived_first(
                        strings(channels@),
                        strings(received@),
                        f,
                        m,
                        i + 1,
                        k + 1,
                    ));
                    k += 1;
                }
                done = true;
            }
        }
        i += 1;
    }
    if !found {
        let w = concat3("Target function '", function_name, "' not found in source file");
        proof {
            lemma_strings_push(warnings@, w);
        }
        warnings.push(w);
        assert(strings(warnings@) =~= strings(old(warnings)@) + function_warnings(source@, f, m));
    } else {
        assert(strings(warnings@) =~= strings(old(warnings)@) + function_warnings(source@, f, m));
    }
    escapes
}

/// The findings of a scan: those of the function that the target names,
/// or those of the whole file where it names none.
pub open spec fn analysis_escapes(target: Seq<char>, file: Seq<char>, source: Seq<char>) -> Seq<
    StaticEscapeView,
> {
    match target_function(target) {
        Some(f) => function_escapes(source, file, f),
        None => file_escapes(source, file),
    }
}

/// The warnings of a scan.
pub open spec fn analysis_warnings(target: Seq<char>, file: Seq<char>, source: Seq<char>) -> Seq<
    Seq<char>,
> {
    match target_function(target) {
        Some(f) => function_warnings(source, file, f),
        None => Seq::<Seq<char>>::empty(),
    }
}

/// The scanner for Go source text.
#[derive(Debug, Clone, Copy)]
pub struct GoStaticAnalyzer;

impl GoStaticAnalyzer {
    /// The scanner.
    pub fn new() -> (r: Self)
        ensures
            r == GoStaticAnalyzer,
    {
        GoStaticAnalyzer
    }

    /// Scans a source text: the function of the target where it names one,
    /// the whole file where it does not.
    pub fn analyze_source(&self, target: &str, source_file: &str, source: &str, elapsed_ms: u64)
        -> (r: StaticAnalysisResult)
        ensures
            r@.target == target@,
            r@.source_file == source_file@,
            r@.escapes == analysis_escapes(target@, source_file@, source@),
            r@.warnings == analysis_warnings(target@, source_file@, source@),
            r@.analysis_time_ms == elapsed_ms,
            r@.summary.counts(r@.escapes),
            r@.summary.consistent(),
    {
        let mut warnings: Vec<String> = Vec::new();
        assert(strings(warnings@) =~= Seq::<Seq<char>>::empty());
        let escapes = match parse_target_function(target) {
            Some(function_name) => {
                let found = analyze_function(source, source_file, function_name.as_str(), &mut warnings);
                found
            },
            None => analyze_file(source, source_file),
        };
        assert(strings(warnings@) =~= analysis_warnings(target@, source_file@, source@));
        assemble(target, source_file, escapes, warnings, elapsed_ms)
    }
}

impl StaticEscapeAnalyzer for GoStaticAnalyzer {
    open spec fn language_name(&self) -> Seq<char> {
        "go"@
    }

    open spec fn toolchain_command(&self) -> (Seq<char>, Seq<char>) {
        ("go"@, "version"@)
    }

    fn language(&self) -> (r: &'static str) {
        "go"
    }

    fn availability_command(&self) -> (r: (&'static str, &'static str)) {
        ("go", "version")
    }
}

/// A scan that has seen a heading does not forget it.
pub proof fn lemma_found_stays(
    lines: Seq<Seq<char>>,
    file: Seq<char>,
    function: Seq<char>,
    i: int,
    st: GoScan,
)
    requires
        st.found,
    ensures
        scan_from(lines, file, function, i, st).found,
    decreases lines.len() - i,
{
    if 0 <= i < lines.len() {
        if !st.in_target {
            if func_name(trimmed(lines[i])) == Some(function) {
                lemma_found_stays(
                    lines,
                    file,
                    function,
                    i + 1,
                    scan_state(
                        true,
                        true,
                        if contains(trimmed(lines[i]), "{"@) {
                            1
                        } else {
                            0
                        },
                        st.channels,
                        st.received,
                        st.escapes,
                    ),
                );
            } else {
                lemma_found_stays(lines, file, function, i + 1, st);
            }
        } else {
            let next = body_step(st, trimmed(lines[i]), file, function, i + 1);
            if next.depth > 0 {
                lemma_found_stays(lines, file, function, i + 1, next);
            }
        }
    }
}

/// A scan that never sees a heading gathers nothing.
pub proof fn lemma_unseen_gathers_nothing(
    lines: Seq<Seq<char>>,
    file: Seq<char>,
    function: Seq<char>,
    i: int,
    st: GoScan,
)
    requires
        !st.in_target,
        st.escapes.len() == 0,
    ensures
        scan_from(lines, file, function, i, st).found || scan_from(
            lines,
            file,
            function,
            i,
            st,
        ).escapes.len() == 0,
    decreases lines.len() - i,
{
    if 0 <= i < lines.len() {
        if func_name(trimmed(lines[i])) == Some(function) {
            lemma_found_stays(
                lines,
                file,
                function,
                i + 1,
                scan_state(
                    true,
                    true,
                    if contains(trimmed(lines[i]), "{"@) {
                        1
                    } else {
                        0
                    },
                    st.channels,
                    st.received,
                    st.escapes,
                ),
            );
        } else {
            lemma_unseen_gathers_nothing(lines, file, function, i + 1, st);
        }
    }
}

/// Where no heading names the function, the scan reports no escape, and
/// warns that the function was not found.
pub proof fn lemma_missing_function(source: Seq<char>, file: Seq<char>, function: Seq<char>)
    requires
        !function_scan(source, file, function).found,
    ensures
        function_escapes(source, file, function).len() == 0,
        function_warnings(source, file, function).len() == 1,
{
    lemma_unseen_gathers_nothing(
        lines(source),
        file,
        function,
        0,
        scan_state(
            false,
            false,
            0,
            Seq::<Seq<char>>::empty(),
            Seq::<Seq<char>>::empty(),
            Seq::<StaticEscapeView>::empty(),
        ),
    );
}

proof fn lemma_unreceived_located(
    channels: Seq<Seq<char>>,
    received: Seq<Seq<char>>,
    file: Seq<char>,
    function: Seq<char>,
    number: int,
    count: int,
    n: int,
)
    requires
        1 <= number <= count <= usize::MAX,
    ensures
        all_located(
            unreceived_first(channels, received, file, function, number, n),
            file,
            function,
            count,
        ),
    decreases n,
{
    if n > 0 {
        lemma_unreceived_located(channels, received, file, function, number, count, n - 1);
    }
}

proof fn lemma_scan_located(
    lines: Seq<Seq<char>>,
    file: Seq<char>,
    function: Seq<char>,
    i: int,
    st: GoScan,
)
    requires
        0 <= i,
        lines.len() <= usize::MAX,
        all_located(st.escapes, file, function, lines.len() as int),
    ensures
        all_located(
            scan_from(lines, file, function, i, st).escapes,
            file,
            function,
            lines.len() as int,
        ),
    decreases lines.len() - i,
{
    if i < lines.len() {
        if !st.in_target {
            if func_name(trimmed(lines[i])) == Some(function) {
                lemma_scan_located(
                    lines,
                    file,
                    function,
                    i + 1,
                    scan_state(
                        true,
                        true,
                        if contains(trimmed(lines[i]), "{"@) {
                            1
                        } else {
                            0
                        },
                        st.channels,
                        st.received,
                        st.escapes,
                    ),
                );
            } else {
                lemma_scan_located(lines, file, function, i + 1, st);
            }
        } else {
            let next = body_step(st, trimmed(lines[i]), file, function, i + 1);
            assert(all_located(next.escapes, file, function, lines.len() as int));
            if next.depth <= 0 {
                lemma_unreceived_located(
                    next.channels,
                    next.received,
                    file,
                    function,
                    i + 1,
                    lines.len() as int,
                    next.channels.len() as int,
                );
            } else {
                lemma_scan_located(lines, file, function, i + 1, next);
            }
        }
    }
}

/// Every finding of a function scan names the file and the function that
/// were given, and lies on one of the lines of the source.
pub proof fn lemma_findings_located(source: Seq<char>, file: Seq<char>, function: Seq<char>)
    requires
        lines(source).len() <= usize::MAX,
    ensures
        all_located(
            function_escapes(source, file, function),
            file,
            function,
            lines(source).len() as int,
        ),
{
    lemma_scan_located(
        lines(source),
        file,
        function,
        0,
        scan_state(
            false,
            false,
            0,
            Seq::<Seq<char>>::empty(),
            Seq::<Seq<char>>::empty(),
            Seq::<StaticEscapeView>::empty(),
        ),
    );
}

} // verus!
