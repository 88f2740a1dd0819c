//! The analyzers that run targets: what each is, which targets it takes,
//! and how its probe is started and checked.

use vstd::prelude::*;
use crate::error::{EscapeError, EscapeErrorView};
use crate::protocol::{AnalyzerInfo, AnalyzerInfoView, HealthCheckResponse};
use crate::text::chars::chars_of;
use crate::text::names::same_text;
use crate::text::search::{
    contains, contains_str, ends_with_str, has_suffix, lemma_contains, occurs_at,
};
use crate::text::split::{lemma_strings_push, strings};

pub mod go;
pub mod java;
pub mod nodejs;
pub mod python;
pub mod rust;

verus! {

/// The rule by which an analyzer tells whether a target is its own.
#[derive(Debug, Clone, Copy, PartialEq, Eq, Structural)]
pub enum TargetRule {
    /// Ends in `.py`, or holds no dot.
    Python,
    /// Ends in `.java`, or names an archive by `.jar:`.
    Java,
    /// Ends in `.js`, `.mjs` or `.cjs`.
    NodeJs,
    /// Ends in `.go`.
    Go,
    /// Ends in `.rs`, or holds a module path with `::`.
    Rust,
}

impl TargetRule {
    /// Whether the rule takes the target.
    pub open spec fn accepts(self, target: Seq<char>) -> bool {
        match self {
            TargetRule::Python => has_suffix(target, ".py"@) || !contains(target, "."@),
            TargetRule::Java => has_suffix(target, ".java"@) || contains(target, ".jar:"@),
            TargetRule::NodeJs => has_suffix(target, ".js"@) || has_suffix(target, ".mjs"@)
                || has_suffix(target, ".cjs"@),
            TargetRule::Go => has_suffix(target, ".go"@),
            TargetRule::Rust => has_suffix(target, ".rs"@) || contains(target, "::"@),
        }
    }

    /// Whether the rule takes the target.
    pub fn test(&self, target: &str) -> (r: bool)
        ensures
            r == self.accepts(target@),
    {
        let v = chars_of(target);
        match self {
            TargetRule::Python => ends_with_str(&v, ".py") || !contains_str(&v, "."),
            TargetRule::Java => ends_with_str(&v, ".java") || contains_str(&v, ".jar:"),
            TargetRule::NodeJs => ends_with_str(&v, ".js") || ends_with_str(&v, ".mjs")
                || ends_with_str(&v, ".cjs"),
            TargetRule::Go => ends_with_str(&v, ".go"),
            TargetRule::Rust => ends_with_str(&v, ".rs") || contains_str(&v, "::"),
        }
    }
}

/// What every analyzer tells of itself.
pub trait Analyzer {
    /// The language that the analyzer runs.
    spec fn language_name(&self) -> Seq<char>;

    /// Whether the analyzer takes the target.
    spec fn handles(&self, target: Seq<char>) -> bool;

    /// What the analyzer is and can do.
    spec fn description(&self) -> AnalyzerInfoView;

    /// The language that the analyzer runs.
    fn language(&self) -> (r: &str)
        ensures
            r@ == self.language_name(),
    ;

    /// Whether the analyzer takes the target.
    fn can_handle(&self, target: &str) -> (r: bool)
        ensures
            r == self.handles(target@),
    ;

    /// What the analyzer is and can do.
    fn info(&self) -> (r: AnalyzerInfo)
        ensures
            r@ == self.description(),
    ;
}

/// How the health of an analyzer is checked.
#[derive(Debug, Clone)]
pub enum HealthPlan {
    /// Run the program with the arguments; it must end well.
    Run(String, Vec<String>),
    /// The file must exist.
    CheckBinary(String),
    /// Nothing is to be checked.
    Nothing,
}

/// The value of a `HealthPlan`.
pub enum HealthPlanView {
    Run(Seq<char>, Seq<Seq<char>>),
    CheckBinary(Seq<char>),
    Nothing,
}

impl View for HealthPlan {
    type V = HealthPlanView;

    open spec fn view(&self) -> HealthPlanView {
        match self {
            HealthPlan::Run(p, a) => HealthPlanView::Run(p@, strings(a@)),
            HealthPlan::CheckBinary(b) => HealthPlanView::CheckBinary(b@),
            HealthPlan::Nothing => HealthPlanView::Nothing,
        }
    }
}

/// An analyzer whose probe is a child process that reads a request from its
/// standard input and writes the response to its standard output.
#[derive(Debug, Clone)]
pub struct BridgeAnalyzer {
    pub lang: String,
    /// The command that starts the probe: the program and its arguments.
    pub bridge_cmd: Vec<String>,
    /// The command that checks the health of the probe, where there is one.
    pub health_cmd: Option<Vec<String>>,
    pub analyzer_info: AnalyzerInfo,
    pub can_handle_fn: TargetRule,
}

/// The arguments of a command: all but its first word.
pub open spec fn arguments(cmd: Seq<Seq<char>>) -> Seq<Seq<char>> {
    cmd.subrange(1, cmd.len() as int)
}

fn tail_of(cmd: &Vec<String>) -> (r: Vec<String>)
    requires
        cmd@.len() > 0,
    ensures
        strings(r@) == arguments(strings(cmd@)),
{
    let mut out: Vec<String> = Vec::new();
    let mut i: usize = 1;
    while i < cmd.len()
        invariant
            1 <= i <= cmd.len(),
            strings(out@) == strings(cmd@).subrange(1, i as int),
        decreases cmd.len() - i,
    {
        let s = cmd[i].clone();
        proof {
            lemma_strings_push(out@, s);
            assert(strings(cmd@).subrange(1, i as int).push(s@) =~= strings(cmd@).subrange(
                1,
                i + 1,
            ));
        }
        out.push(s);
        i += 1;
    }
    out
}

impl BridgeAnalyzer {
    /// The health plan: the health command where there is one, else the
    /// existence of the probe's program, else nothing.
    pub open spec fn planned_health(&self) -> Option<HealthPlanView> {
        match self.health_cmd {
            Some(cmd) => if cmd@.len() > 0 {
                Some(HealthPlanView::Run(cmd@[0]@, arguments(strings(cmd@))))
            } else {
                None
            },
            None => if self.bridge_cmd@.len() > 0 {
                Some(HealthPlanView::CheckBinary(self.bridge_cmd@[0]@))
            } else {
                Some(HealthPlanView::Nothing)
            },
        }
    }

    /// An analyzer from its parts.
    pub fn new(
        lang: String,
        bridge_cmd: Vec<String>,
        health_cmd: Option<Vec<String>>,
        analyzer_info: AnalyzerInfo,
        can_handle_fn: TargetRule,
    ) -> (r: Self)
        ensures
            r.lang == lang,
            r.bridge_cmd == bridge_cmd,
            r.health_cmd == health_cmd,
            r.analyzer_info == analyzer_info,
            r.can_handle_fn == can_handle_fn,
    {
        BridgeAnalyzer { lang, bridge_cmd, health_cmd, analyzer_info, can_handle_fn }
    }

    /// The program that starts the probe, and its arguments. An analyzer
    /// without a command cannot be run.
    pub fn bridge_invocation(&self) -> (r: Result<(String, Vec<String>), EscapeError>)
        ensures
            match r {
                Ok(p) => self.bridge_cmd@.len() > 0 && p.0@ == self.bridge_cmd@[0]@ && strings(
                    p.1@,
                ) == arguments(strings(self.bridge_cmd@)),
                Err(e) => self.bridge_cmd@.len() == 0 && e@ == EscapeErrorView::EmptyBridgeCommand(
                    self.lang@,
                ),
            },
    {
        if self.bridge_cmd.len() == 0 {
            return Err(EscapeError::EmptyBridgeCommand(self.lang.clone()));
        }
        Ok((self.bridge_cmd[0].clone(), tail_of(&self.bridge_cmd)))
    }

    /// The failure of a probe that ended badly, with what it wrote as its
    /// error, word for word.
    pub fn bridge_failure(&self, stderr: &str) -> (e: EscapeError)
        ensures
            e@ == EscapeErrorView::BridgeFailed(self.lang@, stderr@),
    {
        EscapeError::BridgeFailed(self.lang.clone(), String::from_str(stderr))
    }

    /// How the health of the analyzer is checked. A health command without
    /// words is an error.
    pub fn health_plan(&self) -> (r: Result<HealthPlan, EscapeError>)
        ensures
            match r {
                Ok(p) => self.planned_health() == Some(p@),
                Err(e) => self.planned_health() is None && e@
                    == EscapeErrorView::EmptyHealthCommand,
            },
    {
        match &self.health_cmd {
            Some(cmd) => {
                if cmd.len() == 0 {
                    return Err(EscapeError::EmptyHealthCommand);
                }
                Ok(HealthPlan::Run(cmd[0].clone(), tail_of(cmd)))
            },
            None => {
                if self.bridge_cmd.len() > 0 {
                    Ok(HealthPlan::CheckBinary(self.bridge_cmd[0].clone()))
                } else {
                    Ok(HealthPlan::Nothing)
                }
            },
        }
    }

    /// What the health check amounts to, given its plan and whether what
    /// the plan asked for held: the sign of life, or the failure.
    pub fn health_outcome(&self, plan: &HealthPlan, passed: bool) -> (r: Result<
        HealthCheckResponse,
        EscapeError,
    >)
        ensures
            match r {
                Ok(h) => (passed || plan@ is Nothing) && h.pong@ == "healthy"@ && h.analyzer_info@
                    == self.analyzer_info@,
                Err(e) => !passed && match plan@ {
                    HealthPlanView::Run(_, _) => e@ == EscapeErrorView::HealthCheckFailed(
                        self.lang@,
                    ),
                    HealthPlanView::CheckBinary(b) => e@ == EscapeErrorView::BinaryMissing(
                        self.lang@,
                        b,
                    ),
                    HealthPlanView::Nothing => false,
                },
            },
    {
        if !passed {
            match plan {
                HealthPlan::Run(_, _) => {
                    return Err(EscapeError::HealthCheckFailed(self.lang.clone()));
                },
                HealthPlan::CheckBinary(b) => {
                    return Err(EscapeError::BinaryMissing(self.lang.clone(), b.clone()));
                },
                HealthPlan::Nothing => {},
            }
        }
        Ok(
            HealthCheckResponse {
                pong: String::from_str("healthy"),
                analyzer_info: self.analyzer_info.duplicate(),
            },
        )
    }
}

impl Analyzer for BridgeAnalyzer {
    open spec fn language_name(&self) -> Seq<char> {
        self.lang@
    }

    open spec fn handles(&self, target: Seq<char>) -> bool {
        self.can_handle_fn.accepts(target)
    }

    open spec fn description(&self) -> AnalyzerInfoView {
        self.analyzer_info@
    }

    fn language(&self) -> (r: &str) {
        self.lang.as_str()
    }

    fn can_handle(&self, target: &str) -> (r: bool) {
        self.can_handle_fn.test(target)
    }

    fn info(&self) -> (r: AnalyzerInfo) {
        self.analyzer_info.duplicate()
    }
}

/// Whether an analyzer is the one asked for: the one of the language where
/// a language is given, else one that takes the target.
pub open spec fn selects(a: BridgeAnalyzer, target: Seq<char>, language: Option<Seq<char>>) -> bool {
    match language {
        Some(l) => a.lang@ == l,
        None => a.can_handle_fn.accepts(target),
    }
}

/// The position of the first analyzer, at or after `i`, that is the one
/// asked for; the number of analyzers where none is.
pub open spec fn first_selected(
    analyzers: Seq<BridgeAnalyzer>,
    target: Seq<char>,
    language: Option<Seq<char>>,
    i: int,
) -> int
    decreases analyzers.len() - i,
{
    if i < 0 || i >= analyzers.len() {
        analyzers.len() as int
    } else if selects(analyzers[i], target, language) {
        i
    } else {
        first_selected(analyzers, target, language, i + 1)
    }
}

/// The first analyzer asked for comes before every other that is asked for.
pub proof fn lemma_first_selected(
    analyzers: Seq<BridgeAnalyzer>,
    target: Seq<char>,
    language: Option<Seq<char>>,
    i: int,
)
    requires
        0 <= i <= analyzers.len(),
    ensures
        i <= first_selected(analyzers, target, language, i) <= analyzers.len(),
        first_selected(analyzers, target, language, i) < analyzers.len() ==> selects(
            analyzers[first_selected(analyzers, target, language, i)],
            target,
            language,
        ),
        forall|j: int|
            i <= j < first_selected(analyzers, target, language, i) ==> !selects(
                #[trigger] analyzers[j],
                target,
                language,
            ),
    decreases analyzers.len() - i,
{
    if i < analyzers.len() && !selects(analyzers[i], target, language) {
        lemma_first_selected(analyzers, target, language, i + 1);
    }
}

/// The analyzers of a session, in the order in which they were registered.
#[derive(Debug, Clone)]
pub struct AnalyzerRegistry {
    pub analyzers: Vec<BridgeAnalyzer>,
}

impl AnalyzerRegistry {
    /// A registry without analyzers.
    pub fn new() -> (r: Self)
        ensures
            r.analyzers@.len() == 0,
    {
        AnalyzerRegistry { analyzers: Vec::new() }
    }

    /// Adds an analyzer after those that are registered.
    pub fn register(&mut self, analyzer: BridgeAnalyzer)
        ensures
            final(self).analyzers@ == old(self).analyzers@.push(analyzer),
    {
        self.analyzers.push(analyzer);
    }

    /// The position of the analyzer for a target: the first of the given
    /// language, or the first that takes the target where no language is
    /// given.
    pub fn find_index(&self, target: &str, language: Option<&str>) -> (r: Option<usize>)
        ensures
            match r {
                Some(i) => i < self.analyzers@.len() && i as int == first_selected(
                    self.analyzers@,
                    target@,
                    match language {
                        Some(l) => Some(l@),
                        None => None,
                    },
                    0,
                ) && selects(
                    self.analyzers@[i as int],
                    target@,
                    match language {
                        Some(l) => Some(l@),
                        None => None,
                    },
                ) && forall|j: int|
                    0 <= j < i ==> !selects(
                        #[trigger] self.analyzers@[j],
                        target@,
                        match language {
                            Some(l) => Some(l@),
                            None => None,
                        },
                    ),
                None => first_selected(
                    self.analyzers@,
                    target@,
                    match language {
                        Some(l) => Some(l@),
                        None => None,
                    },
                    0,
                ) == self.analyzers@.len(),
            },
    {
        let ghost wanted = match language {
            Some(l) => Some(l@),
            None => None,
        };
        let mut i: usize = 0;
        while i < self.analyzers.len()
            invariant
                i <= self.analyzers.len(),
                wanted == match language {
                    Some(l) => Some(l@),
                    None => None,
                },
                first_selected(self.analyzers@, target@, wanted, i as int) == first_selected(
                    self.analyzers@,
                    target@,
                    wanted,
                    0,
                ),
            decreases self.analyzers.len() - i,
        {
            let a = &self.analyzers[i];
            let hit = match language {
                Some(l) => same_text(a.lang.as_str(), l),
                None => a.can_handle_fn.test(target),
            };
            if hit {
                proof {
                    lemma_first_selected(self.analyzers@, target@, wanted, 0);
                }
                return Some(i);
            }
            i += 1;
        }
        None
    }

    /// The analyzer for a target, or an error where none is registered
    /// for it.
    pub fn find_analyzer(&self, target: &str, language: Option<&str>) -> (r: Result<
        &BridgeAnalyzer,
        EscapeError,
    >)
        ensures
            match r {
                Ok(a) => {
                    let i = first_selected(
                        self.analyzers@,
                        target@,
                        match language {
                            Some(l) => Some(l@),
                            None => None,
                        },
                        0,
                    );
                    i < self.analyzers@.len() && *a == self.analyzers@[i]
                },
                Err(e) => first_selected(
                    self.analyzers@,
                    target@,
                    match language {
                        Some(l) => Some(l@),
                        None => None,
                    },
                    0,
                ) == self.analyzers@.len() && e@ == EscapeErrorView::NoAnalyzer(target@),
            },
    {
        match self.find_index(target, language) {
            Some(i) => Ok(&self.analyzers[i]),
            None => Err(EscapeError::NoAnalyzer(String::from_str(target))),
        }
    }

    /// The analyzers, in the order in which they were registered.
    pub fn list_analyzers(&self) -> (r: &Vec<BridgeAnalyzer>)
        ensures
            r@ == self.analyzers@,
    {
        &self.analyzers
    }
}

/// The strings of a list of words.
pub fn owned(words: Vec<&'static str>) -> (r: Vec<String>)
    ensures
        r@.len() == words@.len(),
        forall|i: int| 0 <= i < words@.len() ==> (#[trigger] r@[i])@ == words@[i]@,
{
    let mut out: Vec<String> = Vec::new();
    let mut i: usize = 0;
    while i < words.len()
        invariant
            i <= words.len(),
            out@.len() == i,
            forall|j: int| 0 <= j < i ==> (#[trigger] out@[j])@ == words@[j]@,
        decreases words.len() - i,
    {
        out.push(String::from_str(words[i]));
        i += 1;
    }
    out
}

/// A text that ends in `p` ends in the last two characters of `p`.
proof fn lemma_suffix_tail(t: Seq<char>, p: Seq<char>)
    requires
        has_suffix(t, p),
        p.len() >= 2,
    ensures
        t.len() >= p.len(),
        t[t.len() - 1] == p[p.len() - 1],
        t[t.len() - 2] == p[p.len() - 2],
{
    let from = t.len() - p.len();
    let tail = t.subrange(from, from + p.len());
    assert(tail[p.len() - 1] == t[t.len() - 1]);
    assert(tail[p.len() - 2] == t[t.len() - 2]);
}

/// A text that ends in an extension holds a dot.
proof fn lemma_suffix_has_dot(t: Seq<char>, p: Seq<char>)
    requires
        has_suffix(t, p),
        p.len() >= 1,
        p[0] == '.',
    ensures
        contains(t, "."@),
{
    reveal_strlit(".");
    let from = t.len() - p.len();
    assert(t.subrange(from, from + p.len())[0] == t[from]);
    assert(t.subrange(from, from + 1) =~= "."@);
    assert(occurs_at(t, "."@, from));
    lemma_contains(t, "."@);
}

/// A target is declared in one language: it ends in the extension of one of
/// the five, names an archive only where it is Java's, and holds a module
/// path only where it is Rust's.
pub open spec fn declared(target: Seq<char>) -> bool {
    &&& has_suffix(target, ".py"@) || has_suffix(target, ".java"@) || has_suffix(target, ".js"@)
        || has_suffix(target, ".go"@) || has_suffix(target, ".rs"@)
    &&& contains(target, ".jar:"@) ==> has_suffix(target, ".java"@)
    &&& contains(target, "::"@) ==> has_suffix(target, ".rs"@)
}

/// Exactly one rule takes a target that is declared in one language.
pub proof fn lemma_one_rule_accepts(target: Seq<char>)
    requires
        declared(target),
    ensures
        exists|r: TargetRule|
            r.accepts(target) && forall|q: TargetRule| q.accepts(target) ==> q == r,
{
    reveal_strlit(".py");
    reveal_strlit(".java");
    reveal_strlit(".js");
    reveal_strlit(".mjs");
    reveal_strlit(".cjs");
    reveal_strlit(".go");
    reveal_strlit(".rs");
    if has_suffix(target, ".py"@) {
        lemma_suffix_tail(target, ".py"@);
        lemma_suffix_has_dot(target, ".py"@);
    }
    if has_suffix(target, ".java"@) {
        lemma_suffix_tail(target, ".java"@);
        lemma_suffix_has_dot(target, ".java"@);
    }
    if has_suffix(target, ".js"@) {
        lemma_suffix_tail(target, ".js"@);
        lemma_suffix_has_dot(target, ".js"@);
    }
    if has_suffix(target, ".mjs"@) {
        lemma_suffix_tail(target, ".mjs"@);
        lemma_suffix_has_dot(target, ".mjs"@);
    }
    if has_suffix(target, ".cjs"@) {
        lemma_suffix_tail(target, ".cjs"@);
        lemma_suffix_has_dot(target, ".cjs"@);
    }
    if has_suffix(target, ".go"@) {
        lemma_suffix_tail(target, ".go"@);
        lemma_suffix_has_dot(target, ".go"@);
    }
    if has_suffix(target, ".rs"@) {
        lemma_suffix_tail(target, ".rs"@);
        lemma_suffix_has_dot(target, ".rs"@);
    }
    let r = if has_suffix(target, ".py"@) {
        TargetRule::Python
    } else if has_suffix(target, ".java"@) {
        TargetRule::Java
    } else if has_suffix(target, ".js"@) {
        TargetRule::NodeJs
    } else if has_suffix(target, ".go"@) {
        TargetRule::Go
    } else {
        TargetRule::Rust
    };
    assert(r.accepts(target));
    assert forall|q: TargetRule| q.accepts(target) implies q == r by {
        match q {
            TargetRule::Python => {},
            TargetRule::Java => {},
            TargetRule::NodeJs => {},
            TargetRule::Go => {},
            TargetRule::Rust => {},
        }
    }
}

} // verus!
