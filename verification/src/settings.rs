//! Application settings: their defaults, the semantic checks that
//! deserialisation alone cannot express, and where the settings file is found.
use vstd::prelude::*;
use crate::paths::{
    is_extended_by, is_separator, is_verbatim, lemma_main_separator, main_separator, needs_separator,
    path_join,
};
use crate::text::{decimal, push_decimal};

verus! {

/// Environment variable that names the settings file.
pub const ENV_VAR: &'static str = "GOBAI_CONFIG";

/// File name of the settings file inside the application config directory.
pub const CONFIG_FILENAME: &'static str = "config.toml";

/// How much the agent asks the user to confirm before acting.
#[derive(Debug, Clone, Copy, PartialEq, Eq, Structural)]
pub enum ConfirmLevel {
    Strict,
    Normal,
    Autonomous,
}

impl Default for ConfirmLevel {
    fn default() -> (r: Self)
        ensures
            r == ConfirmLevel::Normal,
    {
        ConfirmLevel::Normal
    }
}

/// What to do when a minor issue is found.
#[derive(Debug, Clone, Copy, PartialEq, Eq, Structural)]
pub enum MinorPolicy {
    RecordAndContinue,
    BlockUntilResolved,
    PromptUser,
}

impl Default for MinorPolicy {
    fn default() -> (r: Self)
        ensures
            r == MinorPolicy::RecordAndContinue,
    {
        MinorPolicy::RecordAndContinue
    }
}

/// What happens to a task's worktree when the task ends.
#[derive(Debug, Clone, Copy, PartialEq, Eq, Structural)]
pub enum WorktreeCleanup {
    Keep,
    Remove,
}

impl Default for WorktreeCleanup {
    fn default() -> (r: Self)
        ensures
            r == WorktreeCleanup::Keep,
    {
        WorktreeCleanup::Keep
    }
}

/// Iteration caps of the design and implementation loops.
#[derive(Debug, Clone)]
pub struct LoopSettings {
    pub design_max: u32,
    pub impl_max: u32,
    pub cli_failure_max: u32,
    pub extension_step: u32,
}

pub open spec fn loop_is_default(l: LoopSettings) -> bool {
    &&& l.design_max == 3
    &&& l.impl_max == 3
    &&& l.cli_failure_max == 2
    &&& l.extension_step == 2
}

impl Default for LoopSettings {
    fn default() -> (r: Self)
        ensures
            loop_is_default(r),
    {
        LoopSettings { design_max: 3, impl_max: 3, cli_failure_max: 2, extension_step: 2 }
    }
}

/// IEEE-754 single-precision bit pattern of 0.8, the default warning ratio.
pub const DEFAULT_WARN_AT_RATIO_BITS: u32 = 0x3F4C_CCCD;

/// IEEE-754 double-precision bit pattern of 0.0.
pub const RATIO_MIN_BITS: u64 = 0;

/// IEEE-754 double-precision bit pattern of 1.0.
pub const RATIO_MAX_BITS: u64 = 0x3FF0_0000_0000_0000;

/// Per-task cost caps.
///
/// The warning ratio is a single-precision float; it is held here by its
/// IEEE-754 bit pattern (`f32::to_bits`), on which the range check is exact.
#[derive(Debug, Clone)]
pub struct CostSettings {
    pub max_api_calls_per_task: u32,
    pub max_tokens_per_task: u64,
    pub warn_at_ratio_bits: u32,
}

pub open spec fn cost_is_default(c: CostSettings) -> bool {
    &&& c.max_api_calls_per_task == 60
    &&& c.max_tokens_per_task == 1_500_000
    &&& c.warn_at_ratio_bits == DEFAULT_WARN_AT_RATIO_BITS
}

impl Default for CostSettings {
    fn default() -> (r: Self)
        ensures
            cost_is_default(r),
    {
        CostSettings {
            max_api_calls_per_task: 60,
            max_tokens_per_task: 1_500_000,
            warn_at_ratio_bits: DEFAULT_WARN_AT_RATIO_BITS,
        }
    }
}

/// Git worktree handling.
#[derive(Debug, Clone)]
pub struct WorktreeSettings {
    pub cleanup_on_done: WorktreeCleanup,
    pub cleanup_on_abort: WorktreeCleanup,
    pub base_ref: String,
    pub prune_orphans_on_startup: bool,
}

pub open spec fn worktree_is_default(w: WorktreeSettings) -> bool {
    &&& w.cleanup_on_done == WorktreeCleanup::Keep
    &&& w.cleanup_on_abort == WorktreeCleanup::Keep
    &&& w.base_ref@ == "main"@
    &&& w.prune_orphans_on_startup
}

impl Default for WorktreeSettings {
    fn default() -> (r: Self)
        ensures
            worktree_is_default(r),
    {
        WorktreeSettings {
            cleanup_on_done: WorktreeCleanup::Keep,
            cleanup_on_abort: WorktreeCleanup::Keep,
            base_ref: "main".to_owned(),
            prune_orphans_on_startup: true,
        }
    }
}

/// Settings of the coding agents that are driven.
#[derive(Debug, Clone)]
pub struct AgentSettings {
    pub codex_model: Option<String>,
    pub claude_model: Option<String>,
    pub timeout_secs: Option<u32>,
    pub retries: Option<u32>,
    pub include_extra_summary_paths: Vec<String>,
}

pub open spec fn agent_is_default(a: AgentSettings) -> bool {
    &&& a.codex_model is None
    &&& a.claude_model is None
    &&& a.timeout_secs is None
    &&& a.retries is None
    &&& a.include_extra_summary_paths@.len() == 0
}

impl Default for AgentSettings {
    fn default() -> (r: Self)
        ensures
            agent_is_default(r),
    {
        AgentSettings {
            codex_model: None,
            claude_model: None,
            timeout_secs: None,
            retries: None,
            include_extra_summary_paths: Vec::new(),
        }
    }
}

/// Logging: secrets to redact and size limits.
#[derive(Debug, Clone)]
pub struct LogSettings {
    pub redaction_patterns: Vec<String>,
    pub task_size_limit_mb: u32,
    pub global_soft_limit_gb: u32,
}

pub open spec fn default_redaction_patterns() -> Seq<Seq<char>> {
    seq!["AWS_*"@, "GCP_*"@, "GITHUB_TOKEN"@, "Bearer .*"@]
}

pub open spec fn log_is_default(l: LogSettings) -> bool {
    &&& l.redaction_patterns.deep_view() == default_redaction_patterns()
    &&& l.task_size_limit_mb == 100
    &&& l.global_soft_limit_gb == 5
}

impl Default for LogSettings {
    fn default() -> (r: Self)
        ensures
            log_is_default(r),
    {
        let mut redaction_patterns: Vec<String> = Vec::new();
        redaction_patterns.push("AWS_*".to_owned());
        redaction_patterns.push("GCP_*".to_owned());
        redaction_patterns.push("GITHUB_TOKEN".to_owned());
        redaction_patterns.push("Bearer .*".to_owned());
        let r = LogSettings { redaction_patterns, task_size_limit_mb: 100, global_soft_limit_gb: 5 };
        assert(r.redaction_patterns.deep_view() =~= default_redaction_patterns());
        r
    }
}

/// User interface preferences.
#[derive(Debug, Clone)]
pub struct UiSettings {
    pub theme: Option<String>,
    pub language: Option<String>,
    pub notifications: Option<bool>,
}

pub open spec fn ui_is_default(u: UiSettings) -> bool {
    &&& u.theme is None
    &&& u.language is None
    &&& u.notifications is None
}

impl Default for UiSettings {
    fn default() -> (r: Self)
        ensures
            ui_is_default(r),
    {
        UiSettings { theme: None, language: None, notifications: None }
    }
}

/// All settings of the application.
#[derive(Debug, Clone)]
pub struct Settings {
    pub confirm_level: ConfirmLevel,
    pub minor_policy: MinorPolicy,
    pub loop_: LoopSettings,
    pub cost: CostSettings,
    pub worktree: WorktreeSettings,
    pub agent: AgentSettings,
    pub log: LogSettings,
    pub ui: UiSettings,
}

pub open spec fn settings_are_default(s: Settings) -> bool {
    &&& s.confirm_level == ConfirmLevel::Normal
    &&& s.minor_policy == MinorPolicy::RecordAndContinue
    &&& loop_is_default(s.loop_)
    &&& cost_is_default(s.cost)
    &&& worktree_is_default(s.worktree)
    &&& agent_is_default(s.agent)
    &&& log_is_default(s.log)
    &&& ui_is_default(s.ui)
}

impl Default for Settings {
    fn default() -> (r: Self)
        ensures
            settings_are_default(r),
    {
        Settings {
            confirm_level: ConfirmLevel::Normal,
            minor_policy: MinorPolicy::RecordAndContinue,
            loop_: LoopSettings::default(),
            cost: CostSettings::default(),
            worktree: WorktreeSettings::default(),
            agent: AgentSettings::default(),
            log: LogSettings::default(),
            ui: UiSettings::default(),
        }
    }
}


/// A semantic problem found in settings that deserialised fine.
///
/// The out-of-range value and the bounds of the range are floats; they are
/// held by their IEEE-754 bit patterns (single precision for the value,
/// double precision for the bounds).
#[derive(Debug, Clone, PartialEq)]
pub enum ValidationError {
    NonPositive { field: &'static str, value: String },
    OutOfRange { field: &'static str, value_bits: u32, min_bits: u64, max_bits: u64 },
    InvalidRegex { field: &'static str, index: usize, pattern: String, reason: String },
}

/// What a `ValidationError` says, as plain values.
pub enum ValidationErrorView {
    NonPositive { field: Seq<char>, value: Seq<char> },
    OutOfRange { field: Seq<char>, value_bits: u32, min_bits: u64, max_bits: u64 },
    InvalidRegex { field: Seq<char>, index: nat, pattern: Seq<char>, reason: Seq<char> },
}

impl View for ValidationError {
    type V = ValidationErrorView;

    open spec fn view(&self) -> ValidationErrorView {
        match self {
            ValidationError::NonPositive { field, value } => ValidationErrorView::NonPositive {
                field: field@,
                value: value@,
            },
            ValidationError::OutOfRange { field, value_bits, min_bits, max_bits } =>
                ValidationErrorView::OutOfRange {
                field: field@,
                value_bits: *value_bits,
                min_bits: *min_bits,
                max_bits: *max_bits,
            },
            ValidationError::InvalidRegex { field, index, pattern, reason } =>
                ValidationErrorView::InvalidRegex {
                field: field@,
                index: *index as nat,
                pattern: pattern@,
                reason: reason@,
            },
        }
    }
}

/// The message for a problem. `value_text`, `min_text` and `max_text` are
/// how the out-of-range value and the bounds read; the other kinds do not use
/// them.
pub open spec fn problem_message(
    e: ValidationErrorView,
    value_text: Seq<char>,
    min_text: Seq<char>,
    max_text: Seq<char>,
) -> Seq<char> {
    match e {
        ValidationErrorView::NonPositive { field, value } => field
            + " は正の値である必要があります (現在: "@ + value + ")"@,
        ValidationErrorView::OutOfRange { field, .. } => field + " は "@ + min_text + " 以上 "@
            + max_text + " 以下である必要があります (現在: "@ + value_text + ")"@,
        ValidationErrorView::InvalidRegex { field, index, pattern, reason } => field + "["@
            + decimal(index) + "] の正規表現がコンパイルできません (\""@ + pattern + "\"): "@
            + reason,
    }
}

impl ValidationError {
    /// The message shown to the user. The out-of-range value and the bounds
    /// are floats, held here by their bit patterns; the caller passes how
    /// they read (`value_text`, `min_text`, `max_text`), and the other kinds
    /// of problem ignore these.
    pub fn message(&self, value_text: &str, min_text: &str, max_text: &str) -> (r: String)
        ensures
            r@ == problem_message(self@, value_text@, min_text@, max_text@),
    {
        let mut m = String::new();
        match self {
            ValidationError::NonPositive { field, value } => {
                m.append(field);
                m.append(" は正の値である必要があります (現在: ");
                m.append(value.as_str());
                m.append(")");
            },
            ValidationError::OutOfRange { field, .. } => {
                m.append(field);
                m.append(" は ");
                m.append(min_text);
                m.append(" 以上 ");
                m.append(max_text);
                m.append(" 以下である必要があります (現在: ");
                m.append(value_text);
                m.append(")");
            },
            ValidationError::InvalidRegex { field, index, pattern, reason } => {
                m.append(field);
                m.append("[");
                push_decimal(&mut m, *index as u64);
                m.append("] の正規表現がコンパイルできません (\"");
                m.append(pattern.as_str());
                m.append("\"): ");
                m.append(reason.as_str());
            },
        }
        m
    }
}

pub open spec fn error_views(errors: Seq<ValidationError>) -> Seq<ValidationErrorView> {
    errors.map_values(|e: ValidationError| e@)
}

/// The error for a count that must be positive: reported exactly when it is 0,
/// with that value as text.
pub open spec fn positive_check(field: Seq<char>, value: int) -> Seq<ValidationErrorView> {
    if value == 0 {
        seq![ValidationErrorView::NonPositive { field, value: seq!['0'] }]
    } else {
        Seq::empty()
    }
}

/// The agent timeout is optional; when it is set it must be positive.
pub open spec fn timeout_check(timeout: Option<u32>) -> Seq<ValidationErrorView> {
    match timeout {
        Some(t) => positive_check("agent.timeout_secs"@, t as int),
        None => Seq::empty(),
    }
}

/// Whether the single-precision float with bit pattern `bits` lies in
/// [0.0, 1.0] (so is not NaN). Non-negative floats are ordered as their bit
/// patterns, 0x3F80_0000 is 1.0, and 0x8000_0000 is -0.0, which equals 0.0;
/// every other pattern with the sign bit set is negative or NaN.
pub open spec fn ratio_in_unit_range(bits: u32) -> bool {
    bits <= 0x3F80_0000 || bits == 0x8000_0000
}

pub open spec fn ratio_check(bits: u32) -> Seq<ValidationErrorView> {
    if ratio_in_unit_range(bits) {
        Seq::empty()
    } else {
        seq![
            ValidationErrorView::OutOfRange {
                field: "cost.warn_at_ratio"@,
                value_bits: bits,
                min_bits: RATIO_MIN_BITS,
                max_bits: RATIO_MAX_BITS,
            },
        ]
    }
}

/// The error for redaction pattern `i`, given what compiling it reported.
pub open spec fn regex_check(
    patterns: Seq<Seq<char>>,
    compile_errors: Seq<Option<Seq<char>>>,
    i: int,
) -> Seq<ValidationErrorView> {
    match compile_errors[i] {
        Some(reason) => seq![
            ValidationErrorView::InvalidRegex {
                field: "log.redaction_patterns"@,
                index: i as nat,
                pattern: patterns[i],
                reason,
            },
        ],
        None => Seq::empty(),
    }
}

/// The errors for the first `n` redaction patterns, in order.
pub open spec fn regex_checks(
    patterns: Seq<Seq<char>>,
    compile_errors: Seq<Option<Seq<char>>>,
    n: nat,
) -> Seq<ValidationErrorView>
    decreases n,
{
    if n == 0 {
        Seq::empty()
    } else {
        regex_checks(patterns, compile_errors, (n - 1) as nat) + regex_check(
            patterns,
            compile_errors,
            n - 1,
        )
    }
}

/// The checks on numbers, in the order in which they are reported.
pub open spec fn number_checks(s: Settings) -> Seq<ValidationErrorView> {
    positive_check("loop.design_max"@, s.loop_.design_max as int)
        + positive_check("loop.impl_max"@, s.loop_.impl_max as int)
        + positive_check("loop.cli_failure_max"@, s.loop_.cli_failure_max as int)
        + positive_check("loop.extension_step"@, s.loop_.extension_step as int)
        + positive_check("cost.max_api_calls_per_task"@, s.cost.max_api_calls_per_task as int)
        + positive_check("log.task_size_limit_mb"@, s.log.task_size_limit_mb as int)
        + positive_check("log.global_soft_limit_gb"@, s.log.global_soft_limit_gb as int)
        + positive_check("cost.max_tokens_per_task"@, s.cost.max_tokens_per_task as int)
        + timeout_check(s.agent.timeout_secs)
        + ratio_check(s.cost.warn_at_ratio_bits)
}

/// Every problem in `s`, in order, given what compiling each redaction
/// pattern reported (`None` where it compiled).
pub open spec fn validation_errors(
    s: Settings,
    compile_errors: Seq<Option<Seq<char>>>,
) -> Seq<ValidationErrorView> {
    let patterns = s.log.redaction_patterns.deep_view();
    number_checks(s) + regex_checks(patterns, compile_errors, patterns.len())
}

/// What the settings check returns for a list of problems.
pub open spec fn validation_result_matches(
    r: Result<(), Vec<ValidationError>>,
    expected: Seq<ValidationErrorView>,
) -> bool {
    match r {
        Ok(()) => expected.len() == 0,
        Err(errors) => expected.len() > 0 && error_views(errors@) == expected,
    }
}

/// What the regex crate reports when compiling `pattern`: `None` when it
/// compiles, else the text of the error.
pub uninterp spec fn regex_compile_error(pattern: Seq<char>) -> Option<Seq<char>>;

pub open spec fn compile_errors_of(patterns: Seq<Seq<char>>) -> Seq<Option<Seq<char>>> {
    patterns.map_values(|p: Seq<char>| regex_compile_error(p))
}

/// Calls `regex::Regex::new` on `pattern`.
///
/// Trusted: the result (whether it compiles, and the text of the error when
/// it does not) is named `regex_compile_error`; it depends on the pattern
/// alone. Nothing else is claimed of it.
#[verifier::external_body]
fn compile_regex(pattern: &str) -> (r: Option<String>)
    ensures
        r.deep_view() == regex_compile_error(pattern@),
{
    match regex::Regex::new(pattern) {
        Ok(_) => None,
        Err(e) => Some(e.to_string()),
    }
}

proof fn lemma_push_view(errors: Seq<ValidationError>, e: ValidationError)
    ensures
        error_views(errors.push(e)) == error_views(errors).push(e@),
{
    assert(error_views(errors.push(e)) =~= error_views(errors).push(e@));
}

fn check_positive(errors: &mut Vec<ValidationError>, field: &'static str, value: u64)
    ensures
        error_views(final(errors)@) == error_views(old(errors)@) + positive_check(
            field@,
            value as int,
        ),
{
    proof {
        reveal_strlit("0");
        assert("0"@ =~= seq!['0']);
    }
    if value == 0 {
        let e = ValidationError::NonPositive { field, value: "0".to_owned() };
        proof {
            lemma_push_view(errors@, e);
        }
        errors.push(e);
    }
    assert(error_views(errors@) =~= error_views(old(errors)@) + positive_check(field@, value as int));
}

/// Checks `s` against its semantic rules, given what compiling each redaction
/// pattern reported (`None` where it compiled). Every problem is reported, in
/// order: the counts that must be positive, the optional agent timeout, the
/// warning ratio, then each redaction pattern that did not compile.
pub fn validate_with(s: &Settings, compile_errors: &Vec<Option<String>>) -> (r: Result<
    (),
    Vec<ValidationError>,
>)
    requires
        compile_errors@.len() == s.log.redaction_patterns@.len(),
    ensures
        validation_result_matches(r, validation_errors(*s, compile_errors.deep_view())),
{
    let mut errors: Vec<ValidationError> = Vec::new();
    check_positive(&mut errors, "loop.design_max", s.loop_.design_max as u64);
    check_positive(&mut errors, "loop.impl_max", s.loop_.impl_max as u64);
    check_positive(&mut errors, "loop.cli_failure_max", s.loop_.cli_failure_max as u64);
    check_positive(&mut errors, "loop.extension_step", s.loop_.extension_step as u64);
    check_positive(&mut errors, "cost.max_api_calls_per_task", s.cost.max_api_calls_per_task as u64);
    check_positive(&mut errors, "log.task_size_limit_mb", s.log.task_size_limit_mb as u64);
    check_positive(&mut errors, "log.global_soft_limit_gb", s.log.global_soft_limit_gb as u64);
    check_positive(&mut errors, "cost.max_tokens_per_task", s.cost.max_tokens_per_task);
    if let Some(t) = s.agent.timeout_secs {
        check_positive(&mut errors, "agent.timeout_secs", t as u64);
    }
    let bits = s.cost.warn_at_ratio_bits;
    if !(bits <= 0x3F80_0000 || bits == 0x8000_0000) {
        let e = ValidationError::OutOfRange {
            field: "cost.warn_at_ratio",
            value_bits: bits,
            min_bits: RATIO_MIN_BITS,
            max_bits: RATIO_MAX_BITS,
        };
        proof {
            lemma_push_view(errors@, e);
        }
        errors.push(e);
    }
    assert(error_views(errors@) =~= number_checks(*s));
    let ghost patterns = s.log.redaction_patterns.deep_view();
    let ghost results = compile_errors.deep_view();
    let n = s.log.redaction_patterns.len();
    let mut i: usize = 0;
    while i < n
        invariant
            n == s.log.redaction_patterns@.len(),
            n == compile_errors@.len(),
            i <= n,
            patterns == s.log.redaction_patterns.deep_view(),
            results == compile_errors.deep_view(),
            error_views(errors@) == number_checks(*s) + regex_checks(patterns, results, i as nat),
        decreases n - i,
    {
        assert(results[i as int] == compile_errors@[i as int].deep_view());
        match &compile_errors[i] {
            Some(reason) => {
                let e = ValidationError::InvalidRegex {
                    field: "log.redaction_patterns",
                    index: i,
                    pattern: s.log.redaction_patterns[i].clone(),
                    reason: reason.clone(),
                };
                proof {
                    lemma_push_view(errors@, e);
                }
                errors.push(e);
            },
            None => {},
        }
        assert(error_views(errors@) =~= number_checks(*s) + regex_checks(
            patterns,
            results,
            (i + 1) as nat,
        ));
        i = i + 1;
    }
    if errors.len() == 0 {
        Ok(())
    } else {
        Err(errors)
    }
}

/// Checks `s` against its semantic rules, compiling each redaction pattern
/// with the regex crate. Every problem is reported, in order (see
/// `validate_with`).
pub fn validate(s: &Settings) -> (r: Result<(), Vec<ValidationError>>)
    ensures
        validation_result_matches(
            r,
            validation_errors(*s, compile_errors_of(s.log.redaction_patterns.deep_view())),
        ),
{
    let n = s.log.redaction_patterns.len();
    let ghost patterns = s.log.redaction_patterns.deep_view();
    let mut compile_errors: Vec<Option<String>> = Vec::new();
    let mut i: usize = 0;
    while i < n
        invariant
            n == s.log.redaction_patterns@.len(),
            i <= n,
            patterns == s.log.redaction_patterns.deep_view(),
            compile_errors@.len() == i,
            compile_errors.deep_view() == compile_errors_of(patterns).take(i as int),
        decreases n - i,
    {
        let e = compile_regex(s.log.redaction_patterns[i].as_str());
        compile_errors.push(e);
        assert(compile_errors.deep_view() =~= compile_errors_of(patterns).take((i + 1) as int));
        i = i + 1;
    }
    assert(compile_errors_of(patterns).take(n as int) =~= compile_errors_of(patterns));
    validate_with(s, &compile_errors)
}


/// Number of redaction patterns among the first `n` whose compilation
/// reported an error.
pub open spec fn failed_pattern_count(compile_errors: Seq<Option<Seq<char>>>, n: nat) -> nat
    decreases n,
{
    if n == 0 {
        0
    } else {
        failed_pattern_count(compile_errors, (n - 1) as nat) + if compile_errors[n - 1] is Some {
            1nat
        } else {
            0nat
        }
    }
}

pub open spec fn zero_count(value: int) -> nat {
    if value == 0 {
        1
    } else {
        0
    }
}

/// Number of rules that `s` breaks.
pub open spec fn failed_rule_count(s: Settings, compile_errors: Seq<Option<Seq<char>>>) -> nat {
    zero_count(s.loop_.design_max as int) + zero_count(s.loop_.impl_max as int) + zero_count(
        s.loop_.cli_failure_max as int,
    ) + zero_count(s.loop_.extension_step as int) + zero_count(
        s.cost.max_api_calls_per_task as int,
    ) + zero_count(s.log.task_size_limit_mb as int) + zero_count(
        s.log.global_soft_limit_gb as int,
    ) + zero_count(s.cost.max_tokens_per_task as int) + (if s.agent.timeout_secs == Some(0u32) {
        1nat
    } else {
        0nat
    }) + (if ratio_in_unit_range(s.cost.warn_at_ratio_bits) {
        0nat
    } else {
        1nat
    }) + failed_pattern_count(compile_errors, s.log.redaction_patterns@.len())
}

proof fn lemma_regex_checks_len(
    patterns: Seq<Seq<char>>,
    compile_errors: Seq<Option<Seq<char>>>,
    n: nat,
)
    ensures
        regex_checks(patterns, compile_errors, n).len() == failed_pattern_count(compile_errors, n),
    decreases n,
{
    if n > 0 {
        lemma_regex_checks_len(patterns, compile_errors, (n - 1) as nat);
    }
}

/// Checking collects problems rather than stopping at the first: one error is
/// reported for each rule that the settings break, so the settings pass
/// exactly when they break none.
pub proof fn lemma_every_broken_rule_is_reported(
    s: Settings,
    compile_errors: Seq<Option<Seq<char>>>,
)
    ensures
        validation_errors(s, compile_errors).len() == failed_rule_count(s, compile_errors),
        validation_errors(s, compile_errors).len() == 0 <==> failed_rule_count(s, compile_errors)
            == 0,
{
    let patterns = s.log.redaction_patterns.deep_view();
    lemma_regex_checks_len(patterns, compile_errors, patterns.len());
}

/// The default settings break no rule, provided that each default redaction
/// pattern compiles.
pub proof fn lemma_defaults_are_valid(s: Settings, compile_errors: Seq<Option<Seq<char>>>)
    requires
        settings_are_default(s),
        compile_errors.len() == s.log.redaction_patterns@.len(),
        forall|i: int| 0 <= i < compile_errors.len() ==> #[trigger] compile_errors[i] is None,
    ensures
        validation_errors(s, compile_errors).len() == 0,
{
    lemma_every_broken_rule_is_reported(s, compile_errors);
    let n = s.log.redaction_patterns@.len();
    assert(failed_pattern_count(compile_errors, n) == 0) by {
        lemma_no_failed_patterns(compile_errors, n);
    }
}

proof fn lemma_no_failed_patterns(compile_errors: Seq<Option<Seq<char>>>, n: nat)
    requires
        n <= compile_errors.len(),
        forall|i: int| 0 <= i < compile_errors.len() ==> #[trigger] compile_errors[i] is None,
    ensures
        failed_pattern_count(compile_errors, n) == 0,
    decreases n,
{
    if n > 0 {
        lemma_no_failed_patterns(compile_errors, (n - 1) as nat);
        assert(compile_errors[n - 1] is None);
    }
}

/// Only numbers and patterns are checked: the enumerated choices, the
/// worktree and user-interface settings, the agent models, retries and extra
/// paths cannot make settings invalid.
pub proof fn lemma_only_limits_and_patterns_are_checked(
    s1: Settings,
    s2: Settings,
    compile_errors: Seq<Option<Seq<char>>>,
)
    requires
        s1.loop_ == s2.loop_,
        s1.cost == s2.cost,
        s1.agent.timeout_secs == s2.agent.timeout_secs,
        s1.log == s2.log,
    ensures
        validation_errors(s1, compile_errors) == validation_errors(s2, compile_errors),
{
}


/// Makes `figment::Error` usable in signatures; Verus sees nothing inside it.
#[verifier::external_type_specification]
#[verifier::external_body]
pub struct ExFigmentError(figment::Error);

/// Why settings could not be loaded: the sources could not be read or did not
/// fit the settings' shape, or the values broke the semantic rules.
#[derive(Debug)]
pub enum SettingsError {
    Load(figment::Error),
    Validation(Vec<ValidationError>),
}

/// How the floats of one problem read: the out-of-range value and the
/// bounds (empty for the other kinds of problem).
#[derive(Debug, Clone)]
pub struct FloatTexts {
    pub value: String,
    pub min: String,
    pub max: String,
}

/// The lines for the first `n` problems: each is `  - `, the problem's
/// message and a line break.
pub open spec fn problem_lines(
    errors: Seq<ValidationErrorView>,
    texts: Seq<FloatTexts>,
    n: nat,
) -> Seq<char>
    decreases n,
{
    if n == 0 {
        Seq::empty()
    } else {
        problem_lines(errors, texts, (n - 1) as nat) + "  - "@ + problem_message(
            errors[n - 1],
            texts[n - 1].value@,
            texts[n - 1].min@,
            texts[n - 1].max@,
        ) + "\n"@
    }
}

impl SettingsError {
    /// The message shown to the user. A load failure is followed by the
    /// error's own text (`to_string`); a validation failure lists every
    /// problem on its own line. `float_texts[i]` is how the floats of the
    /// `i`-th problem read (see `ValidationError::message`).
    pub fn message(&self, float_texts: &Vec<FloatTexts>) -> (r: String)
        requires
            self matches SettingsError::Validation(errors) ==> float_texts@.len()
                == errors@.len(),
        ensures
            match self {
                SettingsError::Load(e) => exists|d: String|
                    #[trigger] vstd::string::to_string_from_display_ensures::<figment::Error>(e, d)
                        && r@ == "設定ファイルの読み込みに失敗しました: "@ + d@,
                SettingsError::Validation(errors) => r@ == "設定値が不正です:\n"@ + problem_lines(
                    error_views(errors@),
                    float_texts@,
                    errors@.len(),
                ),
            },
    {
        match self {
            SettingsError::Load(e) => {
                let mut m = String::new();
                m.append("設定ファイルの読み込みに失敗しました: ");
                let detail = e.to_string();
                m.append(detail.as_str());
                m
            },
            SettingsError::Validation(errors) => {
                let mut m = String::new();
                m.append("設定値が不正です:\n");
                let ghost head = m@;
                let n = errors.len();
                let mut i: usize = 0;
                while i < n
                    invariant
                        n == errors@.len(),
                        n == float_texts@.len(),
                        i <= n,
                        m@ == head + problem_lines(error_views(errors@), float_texts@, i as nat),
                    decreases n - i,
                {
                    let t = &float_texts[i];
                    let line = errors[i].message(t.value.as_str(), t.min.as_str(), t.max.as_str());
                    m.append("  - ");
                    m.append(line.as_str());
                    m.append("\n");
                    assert(error_views(errors@)[i as int] == errors@[i as int]@);
                    assert(m@ =~= head + problem_lines(
                        error_views(errors@),
                        float_texts@,
                        (i + 1) as nat,
                    ));
                    i = i + 1;
                }
                m
            },
        }
    }
}

impl From<figment::Error> for SettingsError {
    fn from(e: figment::Error) -> (r: Self)
        ensures
            r == SettingsError::Load(e),
    {
        SettingsError::Load(e)
    }
}

impl vstd::std_specs::convert::FromSpecImpl<figment::Error> for SettingsError {
    open spec fn obeys_from_spec() -> bool {
        true
    }

    open spec fn from_spec(v: figment::Error) -> Self {
        SettingsError::Load(v)
    }
}

/// What loading returns for settings extracted from the merged sources (or
/// the extraction error): the extraction error as a load error; otherwise the
/// settings when they break no rule, else every problem found.
pub open spec fn load_result_matches(
    extracted: Result<Settings, figment::Error>,
    r: Result<Settings, SettingsError>,
) -> bool {
    match extracted {
        Err(e) => r == Err::<Settings, SettingsError>(SettingsError::Load(e)),
        Ok(s) => {
            let expected = validation_errors(s, compile_errors_of(s.log.redaction_patterns.deep_view()));
            match r {
                Ok(t) => t == s && expected.len() == 0,
                Err(SettingsError::Validation(errors)) => expected.len() > 0 && error_views(
                    errors@,
                ) == expected,
                Err(SettingsError::Load(_)) => false,
            }
        },
    }
}

/// Finishes loading: maps an extraction error to `SettingsError::Load`, and
/// checks extracted settings, turning their problems into
/// `SettingsError::Validation`.
pub fn settings_from_extracted(extracted: Result<Settings, figment::Error>) -> (r: Result<
    Settings,
    SettingsError,
>)
    ensures
        load_result_matches(extracted, r),
{
    match extracted {
        Err(e) => Err(SettingsError::Load(e)),
        Ok(s) => match validate(&s) {
            Ok(()) => Ok(s),
            Err(errors) => Err(SettingsError::Validation(errors)),
        },
    }
}

/// Settings that load successfully break no rule.
pub proof fn lemma_loaded_settings_are_valid(
    extracted: Result<Settings, figment::Error>,
    r: Result<Settings, SettingsError>,
)
    requires
        load_result_matches(extracted, r),
        r is Ok,
    ensures
        validation_errors(
            r->Ok_0,
            compile_errors_of(r->Ok_0.log.redaction_patterns.deep_view()),
        ).len() == 0,
{
}

/// The value of the settings-file variable, with an empty value treated as
/// unset.
pub fn config_override(env_value: Option<String>) -> (r: Option<String>)
    ensures
        r == (match env_value {
            Some(v) => if v@.len() > 0 {
                Some(v)
            } else {
                None
            },
            None => None,
        }),
{
    match env_value {
        Some(v) => if v.as_str().is_empty() {
            None
        } else {
            Some(v)
        },
        None => None,
    }
}

/// Which settings file to use: the one the variable names, whether or not it
/// exists; otherwise the candidate in the config directory, if there is one
/// and it exists; otherwise none.
pub fn choose_config_path(
    env_value: Option<String>,
    candidate: Option<String>,
    candidate_exists: bool,
) -> (r: Option<String>)
    ensures
        r == (match env_value {
            Some(v) => Some(v),
            None => if candidate_exists {
                candidate
            } else {
                None
            },
        }),
{
    match env_value {
        Some(v) => Some(v),
        None => if candidate_exists {
            candidate
        } else {
            None
        },
    }
}

pub proof fn lemma_config_filename_is_plain()
    ensures
        crate::paths::is_plain_component(CONFIG_FILENAME@),
{
    reveal_strlit("config.toml");
    assert(CONFIG_FILENAME@ =~= seq!['c', 'o', 'n', 'f', 'i', 'g', '.', 't', 'o', 'm', 'l']);
}

/// The first step of finding the settings file: either the answer, or a
/// candidate file whose existence decides it (see `Discovery::resolve`).
#[derive(Debug, Clone, PartialEq)]
pub enum Discovery {
    /// The settings file to use, if any; nothing needs checking.
    Found(Option<String>),
    /// Use this file if it exists, else none.
    CheckExists(String),
}

/// Starts finding the settings file: the path the variable names is taken as
/// it is (it need not exist yet); otherwise, with a config directory, the
/// candidate is `config.toml` in it, to be used only if it exists; without
/// one there is no file.
pub fn discover_with(env_value: Option<String>, config_dir: Option<&str>) -> (r: Discovery)
    ensures
        env_value is Some ==> r == Discovery::Found(env_value),
        env_value is None && config_dir is None ==> r == Discovery::Found(None),
        env_value is None && config_dir is Some ==> r is CheckExists,
        env_value is None && config_dir is Some && !is_verbatim(config_dir->Some_0@) ==> is_extended_by(
            config_dir->Some_0@,
            CONFIG_FILENAME@,
            r->CheckExists_0@,
        ),
{
    if env_value.is_some() {
        return Discovery::Found(env_value);
    }
    match config_dir {
        None => Discovery::Found(None),
        Some(dir) => {
            proof {
                lemma_config_filename_is_plain();
            }
            Discovery::CheckExists(path_join(dir, CONFIG_FILENAME))
        },
    }
}

impl Discovery {
    /// Finishes finding the settings file, given whether the candidate
    /// exists (ignored when there is no candidate).
    pub fn resolve(self, candidate_exists: bool) -> (r: Option<String>)
        ensures
            r == (match self {
                Discovery::Found(p) => p,
                Discovery::CheckExists(c) => if candidate_exists {
                    Some(c)
                } else {
                    None
                },
            }),
    {
        match self {
            Discovery::Found(p) => p,
            Discovery::CheckExists(c) => choose_config_path(None, Some(c), candidate_exists),
        }
    }
}

/// The problem reported when the count `field` is zero.
pub open spec fn zero_count_problem(field: Seq<char>) -> ValidationErrorView {
    ValidationErrorView::NonPositive { field, value: seq!['0'] }
}

proof fn lemma_concat_contains<A>(a: Seq<A>, b: Seq<A>, x: A)
    ensures
        (a + b).contains(x) <==> (a.contains(x) || b.contains(x)),
{
    if a.contains(x) {
        let i = choose|i: int| 0 <= i < a.len() && a[i] == x;
        assert((a + b)[i] == x);
    }
    if b.contains(x) {
        let i = choose|i: int| 0 <= i < b.len() && b[i] == x;
        assert((a + b)[a.len() + i] == x);
    }
    if (a + b).contains(x) {
        let i = choose|i: int| 0 <= i < (a + b).len() && (a + b)[i] == x;
        if i < a.len() {
            assert(a[i] == x);
        } else {
            assert(b[i - a.len()] == x);
        }
    }
}

proof fn lemma_positive_check_contains(field: Seq<char>, value: int, other: Seq<char>)
    ensures
        positive_check(field, value).contains(zero_count_problem(other)) <==> (value == 0 && field
            == other),
{
    if value == 0 {
        assert(positive_check(field, value)[0] == zero_count_problem(field));
    }
}

proof fn lemma_regex_checks_report_no_counts(
    patterns: Seq<Seq<char>>,
    compile_errors: Seq<Option<Seq<char>>>,
    n: nat,
)
    ensures
        forall|i: int|
            0 <= i < regex_checks(patterns, compile_errors, n).len() ==> #[trigger] regex_checks(
                patterns,
                compile_errors,
                n,
            )[i] is InvalidRegex,
    decreases n,
{
    if n > 0 {
        lemma_regex_checks_report_no_counts(patterns, compile_errors, (n - 1) as nat);
        let front = regex_checks(patterns, compile_errors, (n - 1) as nat);
        let last = regex_check(patterns, compile_errors, n - 1);
        assert forall|i: int|
            0 <= i < regex_checks(patterns, compile_errors, n).len() implies #[trigger] regex_checks(
            patterns,
            compile_errors,
            n,
        )[i] is InvalidRegex by {
            if i < front.len() {
                assert(regex_checks(patterns, compile_errors, n)[i] == front[i]);
            } else {
                assert(regex_checks(patterns, compile_errors, n)[i] == last[i - front.len()]);
            }
        }
    }
}

proof fn lemma_count_field_names_differ()
    ensures
        ({
            let names = seq![
                "loop.design_max"@,
                "loop.impl_max"@,
                "loop.cli_failure_max"@,
                "loop.extension_step"@,
                "cost.max_api_calls_per_task"@,
                "log.task_size_limit_mb"@,
                "log.global_soft_limit_gb"@,
                "cost.max_tokens_per_task"@,
                "agent.timeout_secs"@,
            ];
            forall|i: int, j: int| 0 <= i < j < 9 ==> names[i] != names[j]
        }),
{
    reveal_strlit("loop.design_max");
    reveal_strlit("loop.impl_max");
    reveal_strlit("loop.cli_failure_max");
    reveal_strlit("loop.extension_step");
    reveal_strlit("cost.max_api_calls_per_task");
    reveal_strlit("log.task_size_limit_mb");
    reveal_strlit("log.global_soft_limit_gb");
    reveal_strlit("cost.max_tokens_per_task");
    reveal_strlit("agent.timeout_secs");
    let names = seq![
        "loop.design_max"@,
        "loop.impl_max"@,
        "loop.cli_failure_max"@,
        "loop.extension_step"@,
        "cost.max_api_calls_per_task"@,
        "log.task_size_limit_mb"@,
        "log.global_soft_limit_gb"@,
        "cost.max_tokens_per_task"@,
        "agent.timeout_secs"@,
    ];
    let lens = seq![15int, 13, 20, 19, 27, 22, 24, 24, 18];
    assert forall|i: int| 0 <= i < 9 implies #[trigger] names[i].len() == lens[i] by {
        if i == 0 {
        } else if i == 1 {
        } else if i == 2 {
        } else if i == 3 {
        } else if i == 4 {
        } else if i == 5 {
        } else if i == 6 {
        } else if i == 7 {
        } else {
        }
    }
    assert(names[6][0] != names[7][0]);
    assert forall|i: int, j: int| 0 <= i < j < 9 implies names[i] != names[j] by {
        if i == 6 && j == 7 {
            assert(names[i][0] != names[j][0]);
        } else {
            assert(names[i].len() == lens[i]);
            assert(names[j].len() == lens[j]);
        }
    }
}

/// Each count that must be positive is reported under its own name, exactly
/// when that count itself is zero (for the optional agent timeout: when it
/// is set to zero).
pub proof fn lemma_each_zero_count_is_reported_by_name(
    s: Settings,
    compile_errors: Seq<Option<Seq<char>>>,
)
    ensures
        ({
            let v = validation_errors(s, compile_errors);
            &&& v.contains(zero_count_problem("loop.design_max"@)) <==> s.loop_.design_max == 0
            &&& v.contains(zero_count_problem("loop.impl_max"@)) <==> s.loop_.impl_max == 0
            &&& v.contains(zero_count_problem("loop.cli_failure_max"@)) <==> s.loop_.cli_failure_max
                == 0
            &&& v.contains(zero_count_problem("loop.extension_step"@)) <==> s.loop_.extension_step
                == 0
            &&& v.contains(zero_count_problem("cost.max_api_calls_per_task"@))
                <==> s.cost.max_api_calls_per_task == 0
            &&& v.contains(zero_count_problem("log.task_size_limit_mb"@)) <==> s.log.task_size_limit_mb
                == 0
            &&& v.contains(zero_count_problem("log.global_soft_limit_gb"@))
                <==> s.log.global_soft_limit_gb == 0
            &&& v.contains(zero_count_problem("cost.max_tokens_per_task"@))
                <==> s.cost.max_tokens_per_task == 0
            &&& v.contains(zero_count_problem("agent.timeout_secs"@)) <==> s.agent.timeout_secs
                == Some(0u32)
        }),
{
    let names = seq![
        "loop.design_max"@,
        "loop.impl_max"@,
        "loop.cli_failure_max"@,
        "loop.extension_step"@,
        "cost.max_api_calls_per_task"@,
        "log.task_size_limit_mb"@,
        "log.global_soft_limit_gb"@,
        "cost.max_tokens_per_task"@,
        "agent.timeout_secs"@,
    ];
    let values = seq![
        s.loop_.design_max as int,
        s.loop_.impl_max as int,
        s.loop_.cli_failure_max as int,
        s.loop_.extension_step as int,
        s.cost.max_api_calls_per_task as int,
        s.log.task_size_limit_mb as int,
        s.log.global_soft_limit_gb as int,
        s.cost.max_tokens_per_task as int,
    ];
    lemma_count_field_names_differ();
    let patterns = s.log.redaction_patterns.deep_view();
    let r = regex_checks(patterns, compile_errors, patterns.len());
    lemma_regex_checks_report_no_counts(patterns, compile_errors, patterns.len());
    let p0 = positive_check(names[0], values[0]);
    let p1 = positive_check(names[1], values[1]);
    let p2 = positive_check(names[2], values[2]);
    let p3 = positive_check(names[3], values[3]);
    let p4 = positive_check(names[4], values[4]);
    let p5 = positive_check(names[5], values[5]);
    let p6 = positive_check(names[6], values[6]);
    let p7 = positive_check(names[7], values[7]);
    let t = timeout_check(s.agent.timeout_secs);
    let q = ratio_check(s.cost.warn_at_ratio_bits);
    assert(validation_errors(s, compile_errors) == p0 + p1 + p2 + p3 + p4 + p5 + p6 + p7 + t + q
        + r);
    assert forall|k: int| 0 <= k < 9 implies {
        let x = zero_count_problem(#[trigger] names[k]);
        &&& validation_errors(s, compile_errors).contains(x) <==> (if k < 8 {
            values[k] == 0
        } else {
            s.agent.timeout_secs == Some(0u32)
        })
    } by {
        let x = zero_count_problem(names[k]);
        lemma_concat_contains(p0 + p1 + p2 + p3 + p4 + p5 + p6 + p7 + t + q, r, x);
        lemma_concat_contains(p0 + p1 + p2 + p3 + p4 + p5 + p6 + p7 + t, q, x);
        lemma_concat_contains(p0 + p1 + p2 + p3 + p4 + p5 + p6 + p7, t, x);
        lemma_concat_contains(p0 + p1 + p2 + p3 + p4 + p5 + p6, p7, x);
        lemma_concat_contains(p0 + p1 + p2 + p3 + p4 + p5, p6, x);
        lemma_concat_contains(p0 + p1 + p2 + p3 + p4, p5, x);
        lemma_concat_contains(p0 + p1 + p2 + p3, p4, x);
        lemma_concat_contains(p0 + p1 + p2, p3, x);
        lemma_concat_contains(p0 + p1, p2, x);
        lemma_concat_contains(p0, p1, x);
        lemma_positive_check_contains(names[0], values[0], names[k]);
        lemma_positive_check_contains(names[1], values[1], names[k]);
        lemma_positive_check_contains(names[2], values[2], names[k]);
        lemma_positive_check_contains(names[3], values[3], names[k]);
        lemma_positive_check_contains(names[4], values[4], names[k]);
        lemma_positive_check_contains(names[5], values[5], names[k]);
        lemma_positive_check_contains(names[6], values[6], names[k]);
        lemma_positive_check_contains(names[7], values[7], names[k]);
        match s.agent.timeout_secs {
            Some(tv) => lemma_positive_check_contains(names[8], tv as int, names[k]),
            None => {},
        }
        if q.contains(x) {
            let i = choose|i: int| 0 <= i < q.len() && q[i] == x;
        }
        if r.contains(x) {
            let i = choose|i: int| 0 <= i < r.len() && r[i] == x;
            assert(r[i] is InvalidRegex);
        }
    }
    assert(names[0] == "loop.design_max"@);
    let _ = zero_count_problem(names[1]);
    let _ = zero_count_problem(names[2]);
    let _ = zero_count_problem(names[3]);
    let _ = zero_count_problem(names[4]);
    let _ = zero_count_problem(names[5]);
    let _ = zero_count_problem(names[6]);
    let _ = zero_count_problem(names[7]);
    let _ = zero_count_problem(names[8]);
}

/// The settings-file candidate is `config.toml` in the config directory,
/// joined as the platform joins paths: after a directory that does not end
/// with a separator comes the platform's main separator, the same whatever
/// the directory (and the same as in the storage layout), which is `/` where
/// `/` is the main separator (Unix); after one that does, `config.toml`
/// follows directly.
pub proof fn lemma_config_candidate_is_in_dir(
    d1: Seq<char>,
    c1: Seq<char>,
    d2: Seq<char>,
    c2: Seq<char>,
)
    requires
        is_extended_by(d1, CONFIG_FILENAME@, c1),
        is_extended_by(d2, CONFIG_FILENAME@, c2),
    ensures
        needs_separator(d1) && needs_separator(d2) ==> c1[d1.len() as int] == c2[d2.len() as int]
            && is_separator(c1[d1.len() as int]),
        needs_separator(d1) && main_separator() == '/' ==> c1 == d1 + "/"@ + CONFIG_FILENAME@,
        d1.len() > 0 && d1.last() == '/' ==> c1 == d1 + CONFIG_FILENAME@,
{
    lemma_main_separator();
    reveal_strlit("/");
    assert("/"@ =~= seq!['/']);
    if needs_separator(d1) {
        assert(c1[d1.len() as int] == main_separator());
    }
    if needs_separator(d2) {
        assert(c2[d2.len() as int] == main_separator());
    }
}

/// Whether the single-precision float whose IEEE-754 bit pattern is `bits`
/// is a number in [0.0, 1.0], read from its fields: the sign bit, the 8-bit
/// biased exponent and the 23-bit fraction. Zero of either sign, every
/// positive number with a biased exponent below 127 (below 1.0) and 1.0
/// itself (exponent 127, fraction 0) are in; negative numbers, numbers above
/// 1.0, infinities and NaNs (exponent 255) are out.
pub open spec fn f32_in_unit_interval(bits: u32) -> bool {
    let sign = bits / 0x8000_0000;
    let exponent = (bits / 0x80_0000) % 0x100;
    let fraction = bits % 0x80_0000;
    if sign == 0 {
        exponent < 127 || (exponent == 127 && fraction == 0)
    } else {
        exponent == 0 && fraction == 0
    }
}

proof fn lemma_ratio_range_is_unit_interval(bits: u32)
    ensures
        ratio_in_unit_range(bits) <==> f32_in_unit_interval(bits),
{
    assert(ratio_in_unit_range(bits) <==> f32_in_unit_interval(bits)) by (nonlinear_arith);
}

/// The warning ratio is rejected exactly when it is not a float in
/// [0.0, 1.0]: settings get an out-of-range problem if and only if the
/// ratio's IEEE-754 fields put it outside that interval (or make it NaN), so
/// every ratio between 0.0 and 1.0 passes.
pub proof fn lemma_ratio_rejected_exactly_outside_unit_interval(
    s: Settings,
    compile_errors: Seq<Option<Seq<char>>>,
)
    ensures
        (exists|i: int|
            0 <= i < validation_errors(s, compile_errors).len() && #[trigger] validation_errors(
                s,
                compile_errors,
            )[i] is OutOfRange) <==> !f32_in_unit_interval(s.cost.warn_at_ratio_bits),
{
    let bits = s.cost.warn_at_ratio_bits;
    lemma_ratio_range_is_unit_interval(bits);
    let v = validation_errors(s, compile_errors);
    let patterns = s.log.redaction_patterns.deep_view();
    let r = regex_checks(patterns, compile_errors, patterns.len());
    lemma_regex_checks_report_no_counts(patterns, compile_errors, patterns.len());
    let front = positive_check("loop.design_max"@, s.loop_.design_max as int) + positive_check(
        "loop.impl_max"@,
        s.loop_.impl_max as int,
    ) + positive_check("loop.cli_failure_max"@, s.loop_.cli_failure_max as int) + positive_check(
        "loop.extension_step"@,
        s.loop_.extension_step as int,
    ) + positive_check("cost.max_api_calls_per_task"@, s.cost.max_api_calls_per_task as int)
        + positive_check("log.task_size_limit_mb"@, s.log.task_size_limit_mb as int)
        + positive_check("log.global_soft_limit_gb"@, s.log.global_soft_limit_gb as int)
        + positive_check("cost.max_tokens_per_task"@, s.cost.max_tokens_per_task as int)
        + timeout_check(s.agent.timeout_secs);
    let q = ratio_check(bits);
    assert(v == front + q + r);
    assert forall|i: int| 0 <= i < front.len() implies #[trigger] front[i] is NonPositive by {
    }
    if !ratio_in_unit_range(bits) {
        assert(v[front.len() as int] == q[0]);
        assert(v[front.len() as int] is OutOfRange);
    }
    if exists|i: int| 0 <= i < v.len() && #[trigger] v[i] is OutOfRange {
        let i = choose|i: int| 0 <= i < v.len() && #[trigger] v[i] is OutOfRange;
        if i < front.len() {
            assert(v[i] == front[i]);
        } else if i < front.len() + q.len() {
            assert(v[i] == q[i - front.len()]);
        } else {
            assert(v[i] == r[i - front.len() - q.len()]);
        }
    }
}

} // verus!
