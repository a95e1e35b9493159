//! Command policy: decides whether a remote command may run.
//!
//! A command is rejected when its lower-cased, trimmed form contains a
//! dangerous token, or when a shell scan of the command as written finds a
//! hazard: a pipe, `&`, redirection, newline or `$'` outside quotes, a
//! command substitution (backtick or `$(`) outside single quotes, or a quote
//! left open. Otherwise it is accepted when it starts with a read-only or a
//! low-risk prefix, and rejected as not whitelisted when it starts with
//! neither.
//!
//! The scan follows the shell's quoting: single quotes end at the next single
//! quote; double quotes end at the next double quote not escaped by a
//! backslash; outside single quotes a backslash escapes the next character.
//! It does not follow here-documents, and parameter expansions such as
//! `${name}` pass, since they run no command.
use vstd::prelude::*;
use vstd::string::*;
use crate::text::{
    chars_of, contains_seq, is_infix, lower_of, lowercase, starts_with_seq, trim, trim_of,
};

verus! {

/// Tokens whose presence anywhere in the normalized command rejects it,
/// checked in this order.
pub open spec fn dangerous_tokens() -> Seq<Seq<char>> {
    seq![
        "rm "@, "docker rm"@, "docker system prune"@, "docker volume rm"@, "kill "@,
        "shutdown"@, "reboot"@, "poweroff"@, " > "@, " >> "@, ";"@, "&&"@, "||"@,
    ]
}

/// Prefixes of read-only commands.
pub open spec fn readonly_prefixes() -> Seq<Seq<char>> {
    seq![
        "docker ps"@, "docker logs"@, "docker inspect"@, "docker stats"@, "docker network"@,
        "docker images"@, "docker exec"@, "ip "@, "ip-"@, "df -h"@, "df -bg"@, "free -h"@,
        "free -m"@, "systemctl status"@, "systemctl show"@, "systemctl list-units"@,
        "journalctl"@, "cat"@, "grep"@, "ls"@, "find"@, "tail"@, "head"@, "echo"@, "pwd"@,
        "whoami"@, "uptime"@, "date"@, "wc"@, "curl"@, "ec2-metadata"@, "cut"@,
    ]
}

/// Prefixes of commands that change remote state in a bounded way (restarts).
pub open spec fn lowrisk_prefixes() -> Seq<Seq<char>> {
    seq!["docker-compose restart"@, "docker restart"@, "systemctl restart"@]
}

/// The first token of `tokens`, from index `i` on, that occurs in `s`.
pub open spec fn first_infix_from(tokens: Seq<Seq<char>>, s: Seq<char>, i: int) -> Option<
    Seq<char>,
>
    decreases tokens.len() - i,
{
    if i < 0 || i >= tokens.len() {
        None
    } else if is_infix(tokens[i], s) {
        Some(tokens[i])
    } else {
        first_infix_from(tokens, s, i + 1)
    }
}

/// Some entry of `prefixes` is a prefix of `s`.
pub open spec fn has_prefix_in(prefixes: Seq<Seq<char>>, s: Seq<char>) -> bool {
    exists|i: int| 0 <= i < prefixes.len() && (#[trigger] prefixes[i]).is_prefix_of(s)
}

/// Where a left-to-right scan of a command stands: outside quotes, or
/// inside a single- or double-quoted span.
#[derive(Debug, Clone, Copy, PartialEq, Eq, Structural)]
pub enum QuoteState {
    Outside,
    InSingle,
    InDouble,
}

/// `s` without its first `n` characters (empty when it is shorter).
pub open spec fn after(s: Seq<char>, n: int) -> Seq<char> {
    if 0 <= n <= s.len() {
        s.subrange(n, s.len() as int)
    } else {
        Seq::empty()
    }
}

/// The command substitution that starts `s`, if any: a backtick or `$(`.
pub open spec fn substitution_token(s: Seq<char>) -> Option<Seq<char>> {
    if s.len() >= 1 && s[0] == '`' {
        Some("`"@)
    } else if s.len() >= 2 && s[0] == '$' && s[1] == '(' {
        Some("$("@)
    } else {
        None
    }
}

/// The shell operator that starts `s`, if any, of those that act outside
/// quotes: a pipe, `&`, a redirection, a newline, or `$'` quoting.
pub open spec fn operator_token(s: Seq<char>) -> Option<Seq<char>> {
    if s.len() == 0 {
        None
    } else if s[0] == '|' {
        Some("|"@)
    } else if s[0] == '&' {
        Some("&"@)
    } else if s[0] == '<' {
        Some("<"@)
    } else if s[0] == '>' {
        Some(">"@)
    } else if s[0] == '\n' {
        Some("newline"@)
    } else if s.len() >= 2 && s[0] == '$' && s[1] == '\'' {
        Some("$'"@)
    } else {
        None
    }
}

/// The first shell hazard that a scan of `s` finds, starting in state `q`:
/// an operator outside quotes, a command substitution outside single quotes,
/// or `unclosed quote` when the text ends inside a quoted span.
pub open spec fn hazard(s: Seq<char>, q: QuoteState) -> Option<Seq<char>>
    decreases s.len(),
{
    if s.len() == 0 {
        if q == QuoteState::Outside {
            None
        } else {
            Some("unclosed quote"@)
        }
    } else {
        match q {
            QuoteState::InSingle => if s[0] == '\'' {
                hazard(after(s, 1), QuoteState::Outside)
            } else {
                hazard(after(s, 1), QuoteState::InSingle)
            },
            QuoteState::InDouble => if s[0] == '\\' {
                hazard(after(s, 2), QuoteState::InDouble)
            } else if substitution_token(s) is Some {
                substitution_token(s)
            } else if s[0] == '"' {
                hazard(after(s, 1), QuoteState::Outside)
            } else {
                hazard(after(s, 1), QuoteState::InDouble)
            },
            QuoteState::Outside => if s[0] == '\\' {
                hazard(after(s, 2), QuoteState::Outside)
            } else if substitution_token(s) is Some {
                substitution_token(s)
            } else if operator_token(s) is Some {
                operator_token(s)
            } else if s[0] == '\'' {
                hazard(after(s, 1), QuoteState::InSingle)
            } else if s[0] == '"' {
                hazard(after(s, 1), QuoteState::InDouble)
            } else {
                hazard(after(s, 1), QuoteState::Outside)
            },
        }
    }
}

/// The first shell hazard in a command as written.
pub open spec fn shell_hazard(command: Seq<char>) -> Option<Seq<char>> {
    hazard(command, QuoteState::Outside)
}

/// A pipe stands outside quotes before any other hazard.
pub open spec fn has_unquoted_pipe(command: Seq<char>) -> bool {
    shell_hazard(command) == Some("|"@)
}

/// Reason given when a dangerous token is found.
pub open spec fn dangerous_reason(token: Seq<char>) -> Seq<char> {
    "contains dangerous operation: "@ + token
}

/// Reason given for a pipe outside quotes.
pub open spec fn pipe_reason() -> Seq<char> {
    dangerous_reason("|"@)
}

/// Reason given for a command that matches no allowed prefix.
pub open spec fn unlisted_reason() -> Seq<char> {
    "command not in whitelist"@
}

/// The verdict of the policy, as a value.
pub enum Verdict {
    Safe,
    LowRisk,
    Rejected(Seq<char>),
}

/// The verdict of the policy for `command`, whose trimmed, lower-cased form
/// is `normalized`.
pub open spec fn verdict_of(command: Seq<char>, normalized: Seq<char>) -> Verdict {
    match first_infix_from(dangerous_tokens(), normalized, 0) {
        Some(token) => Verdict::Rejected(dangerous_reason(token)),
        None => if let Some(token) = shell_hazard(command) {
            Verdict::Rejected(dangerous_reason(token))
        } else {
            allowlist_verdict(normalized)
        },
    }
}

/// The verdict of the allow-lists alone on a normalized command.
pub open spec fn allowlist_verdict(normalized: Seq<char>) -> Verdict {
    if has_prefix_in(readonly_prefixes(), normalized) {
        Verdict::Safe
    } else if has_prefix_in(lowrisk_prefixes(), normalized) {
        Verdict::LowRisk
    } else {
        Verdict::Rejected(unlisted_reason())
    }
}

/// The normalized form of a command: trimmed, then lower-cased.
pub open spec fn normalized_of(command: Seq<char>) -> Seq<char> {
    lower_of(trim_of(command))
}

/// Verdict on a command.
#[derive(Debug, Clone, PartialEq, Eq)]
pub enum Classification {
    /// Read-only; may run at once.
    Safe,
    /// Changes remote state (a restart); may run at once.
    LowRisk,
    /// Must not run; the reason names the rule that fired.
    Rejected(String),
}

impl View for Classification {
    type V = Verdict;

    open spec fn view(&self) -> Verdict {
        match self {
            Classification::Safe => Verdict::Safe,
            Classification::LowRisk => Verdict::LowRisk,
            Classification::Rejected(reason) => Verdict::Rejected(reason@),
        }
    }
}

impl Classification {
    /// Whether the command may run.
    pub fn is_allowed(&self) -> (r: bool)
        ensures
            r == !(self@ is Rejected),
    {
        match self {
            Classification::Rejected(_) => false,
            _ => true,
        }
    }
}

/// Result of command validation.
pub struct CommandValidation {
    pub safe: bool,
    pub reason: Option<String>,
}

fn dangerous_list() -> (r: Vec<&'static str>)
    ensures
        r@.len() == dangerous_tokens().len(),
        forall|i: int| 0 <= i < r@.len() ==> #[trigger] r@[i]@ == dangerous_tokens()[i],
{
    vec![
        "rm ", "docker rm", "docker system prune", "docker volume rm", "kill ", "shutdown",
        "reboot", "poweroff", " > ", " >> ", ";", "&&", "||",
    ]
}

fn readonly_list() -> (r: Vec<&'static str>)
    ensures
        r@.len() == readonly_prefixes().len(),
        forall|i: int| 0 <= i < r@.len() ==> #[trigger] r@[i]@ == readonly_prefixes()[i],
{
    vec![
        "docker ps", "docker logs", "docker inspect", "docker stats", "docker network",
        "docker images", "docker exec", "ip ", "ip-", "df -h", "df -bg", "free -h", "free -m",
        "systemctl status", "systemctl show", "systemctl list-units", "journalctl", "cat",
        "grep", "ls", "find", "tail", "head", "echo", "pwd", "whoami", "uptime", "date", "wc",
        "curl", "ec2-metadata", "cut",
    ]
}

fn lowrisk_list() -> (r: Vec<&'static str>)
    ensures
        r@.len() == lowrisk_prefixes().len(),
        forall|i: int| 0 <= i < r@.len() ==> #[trigger] r@[i]@ == lowrisk_prefixes()[i],
{
    vec!["docker-compose restart", "docker restart", "systemctl restart"]
}

/// The first dangerous token that occurs in `normalized`, if any.
fn find_dangerous(normalized: &Vec<char>) -> (r: Option<&'static str>)
    ensures
        match r {
            Some(t) => first_infix_from(dangerous_tokens(), normalized@, 0) == Some(t@),
            None => first_infix_from(dangerous_tokens(), normalized@, 0) is None,
        },
{
    let tokens = dangerous_list();
    let mut i: usize = 0;
    while i < tokens.len()
        invariant
            0 <= i <= tokens@.len(),
            tokens@.len() == dangerous_tokens().len(),
            forall|j: int| 0 <= j < tokens@.len() ==> #[trigger] tokens@[j]@ == dangerous_tokens()[j],
            first_infix_from(dangerous_tokens(), normalized@, 0) == first_infix_from(
                dangerous_tokens(),
                normalized@,
                i as int,
            ),
        decreases tokens@.len() - i,
    {
        let token = chars_of(tokens[i]);
        if contains_seq(normalized, &token) {
            return Some(tokens[i]);
        }
        i += 1;
    }
    None
}

/// Whether some entry of `prefixes` starts `normalized`.
fn starts_with_any(normalized: &Vec<char>, prefixes: &Vec<&'static str>, spec_list: Ghost<Seq<Seq<char>>>) -> (r: bool)
    requires
        prefixes@.len() == spec_list@.len(),
        forall|i: int| 0 <= i < prefixes@.len() ==> #[trigger] prefixes@[i]@ == spec_list@[i],
    ensures
        r == has_prefix_in(spec_list@, normalized@),
{
    let mut i: usize = 0;
    while i < prefixes.len()
        invariant
            0 <= i <= prefixes@.len(),
            prefixes@.len() == spec_list@.len(),
            forall|j: int| 0 <= j < prefixes@.len() ==> #[trigger] prefixes@[j]@ == spec_list@[j],
            forall|j: int| 0 <= j < i ==> !(#[trigger] spec_list@[j]).is_prefix_of(normalized@),
        decreases prefixes@.len() - i,
    {
        let p = chars_of(prefixes[i]);
        if starts_with_seq(normalized, &p) {
            assert(spec_list@[i as int].is_prefix_of(normalized@));
            return true;
        }
        i += 1;
    }
    false
}

proof fn lemma_after_after(s: Seq<char>, i: int, k: int)
    requires
        0 <= i <= s.len(),
        k >= 0,
    ensures
        after(after(s, i), k) == after(s, if i + k <= s.len() { i + k } else { s.len() as int }),
{
    let j = if i + k <= s.len() { i + k } else { s.len() as int };
    assert(after(after(s, i), k) =~= after(s, j));
}

/// The command substitution at index `i` of `s`, if any.
fn substitution_at(s: &Vec<char>, i: usize) -> (r: Option<&'static str>)
    requires
        i < s@.len(),
    ensures
        match r {
            Some(t) => substitution_token(after(s@, i as int)) == Some(t@),
            None => substitution_token(after(s@, i as int)) is None,
        },
{
    let ghost rest = after(s@, i as int);
    assert(rest[0] == s@[i as int]);
    assert(i + 1 < s@.len() ==> rest[1] == s@[i + 1]);
    if s[i] == '`' {
        Some("`")
    } else if s[i] == '$' && i < s.len() - 1 && s[i + 1] == '(' {
        Some("$(")
    } else {
        None
    }
}

/// The shell operator at index `i` of `s`, if any.
fn operator_at(s: &Vec<char>, i: usize) -> (r: Option<&'static str>)
    requires
        i < s@.len(),
    ensures
        match r {
            Some(t) => operator_token(after(s@, i as int)) == Some(t@),
            None => operator_token(after(s@, i as int)) is None,
        },
{
    let ghost rest = after(s@, i as int);
    assert(rest[0] == s@[i as int]);
    assert(i + 1 < s@.len() ==> rest[1] == s@[i + 1]);
    let c = s[i];
    if c == '|' {
        Some("|")
    } else if c == '&' {
        Some("&")
    } else if c == '<' {
        Some("<")
    } else if c == '>' {
        Some(">")
    } else if c == '\n' {
        Some("newline")
    } else if c == '$' && i < s.len() - 1 && s[i + 1] == '\'' {
        Some("$'")
    } else {
        None
    }
}

/// The first shell hazard in `s`, scanning from the left.
pub fn find_hazard(s: &Vec<char>) -> (r: Option<&'static str>)
    ensures
        match r {
            Some(t) => shell_hazard(s@) == Some(t@),
            None => shell_hazard(s@) is None,
        },
{
    let n = s.len();
    let mut i: usize = 0;
    let mut q = QuoteState::Outside;
    assert(after(s@, 0) =~= s@);
    while i < n
        invariant
            n == s@.len(),
            0 <= i <= n,
            shell_hazard(s@) == hazard(after(s@, i as int), q),
        decreases n - i,
    {
        let ghost rest = after(s@, i as int);
        assert(rest[0] == s@[i as int]);
        proof {
            lemma_after_after(s@, i as int, 1);
            lemma_after_after(s@, i as int, 2);
        }
        let c = s[i];
        let skip_two: usize = if i < n - 1 {
            i + 2
        } else {
            n
        };
        match q {
            QuoteState::InSingle => {
                if c == '\'' {
                    q = QuoteState::Outside;
                }
                i = i + 1;
            },
            QuoteState::InDouble => {
                if c == '\\' {
                    i = skip_two;
                } else {
                    match substitution_at(s, i) {
                        Some(t) => {
                            return Some(t);
                        },
                        None => {},
                    }
                    if c == '"' {
                        q = QuoteState::Outside;
                    }
                    i = i + 1;
                }
            },
            QuoteState::Outside => {
                if c == '\\' {
                    i = skip_two;
                } else {
                    match substitution_at(s, i) {
                        Some(t) => {
                            return Some(t);
                        },
                        None => {},
                    }
                    match operator_at(s, i) {
                        Some(t) => {
                            return Some(t);
                        },
                        None => {},
                    }
                    if c == '\'' {
                        q = QuoteState::InSingle;
                    } else if c == '"' {
                        q = QuoteState::InDouble;
                    }
                    i = i + 1;
                }
            },
        }
    }
    assert(after(s@, i as int) =~= Seq::<char>::empty());
    if q == QuoteState::Outside {
        None
    } else {
        Some("unclosed quote")
    }
}

/// Classifies `command` given its normalized (trimmed, lower-cased) form.
pub fn classify_normalized(command: &str, normalized: &str) -> (r: Classification)
    ensures
        r@ == verdict_of(command@, normalized@),
{
    let norm = chars_of(normalized);
    match find_dangerous(&norm) {
        Some(token) => {
            let mut reason = String::from_str("contains dangerous operation: ");
            reason.append(token);
            return Classification::Rejected(reason);
        },
        None => {},
    }
    let raw = chars_of(command);
    match find_hazard(&raw) {
        Some(token) => {
            let mut reason = String::from_str("contains dangerous operation: ");
            reason.append(token);
            return Classification::Rejected(reason);
        },
        None => {},
    }
    if starts_with_any(&norm, &readonly_list(), Ghost(readonly_prefixes())) {
        return Classification::Safe;
    }
    if starts_with_any(&norm, &lowrisk_list(), Ghost(lowrisk_prefixes())) {
        return Classification::LowRisk;
    }
    Classification::Rejected(String::from_str("command not in whitelist"))
}

/// Classifies a command: trims it, lower-cases it, and applies the policy.
pub fn classify(command: &str) -> (r: Classification)
    ensures
        r@ == verdict_of(command@, normalized_of(command@)),
{
    let trimmed = trim(command);
    let lower = lowercase(trimmed);
    classify_normalized(command, lower.as_str())
}

/// Validates a command against the policy: `safe` when it may run, and
/// otherwise the reason it may not.
pub fn validate_command(command: &str) -> (r: CommandValidation)
    ensures
        r.safe == !(verdict_of(command@, normalized_of(command@)) is Rejected),
        match verdict_of(command@, normalized_of(command@)) {
            Verdict::Rejected(reason) => r.reason is Some && r.reason->0@ == reason,
            _ => r.reason is None,
        },
{
    match classify(command) {
        Classification::Rejected(reason) => CommandValidation { safe: false, reason: Some(reason) },
        _ => CommandValidation { safe: true, reason: None },
    }
}

proof fn lemma_first_infix_found(tokens: Seq<Seq<char>>, s: Seq<char>, j: int, i: int)
    requires
        0 <= j <= i < tokens.len(),
        is_infix(tokens[i], s),
    ensures
        first_infix_from(tokens, s, j) is Some,
    decreases i - j,
{
    if j < i && !is_infix(tokens[j], s) {
        lemma_first_infix_found(tokens, s, j + 1, i);
    }
}

/// A command whose normalized form contains any dangerous token is rejected
/// for that reason, whatever allowed prefix it starts with.
pub proof fn lemma_dangerous_rejected(command: Seq<char>, normalized: Seq<char>, i: int)
    requires
        0 <= i < dangerous_tokens().len(),
        is_infix(dangerous_tokens()[i], normalized),
    ensures
        verdict_of(command, normalized) is Rejected,
        first_infix_from(dangerous_tokens(), normalized, 0) is Some,
        verdict_of(command, normalized) == Verdict::Rejected(
            dangerous_reason(first_infix_from(dangerous_tokens(), normalized, 0)->0),
        ),
{
    lemma_first_infix_found(dangerous_tokens(), normalized, 0, i);
}

/// One piece of a command as written: plain text, or a closed span in
/// single or double quotes.
pub enum Segment {
    Plain(Seq<char>),
    SingleQuoted(Seq<char>),
    DoubleQuoted(Seq<char>),
}

/// A character that the shell reads as itself outside quotes.
pub open spec fn is_plain_char(c: char) -> bool {
    c != '\'' && c != '"' && c != '\\' && c != '`' && c != '$' && c != '|' && c != '&' && c != '<'
        && c != '>' && c != '\n'
}

/// A character that a double-quoted span holds as itself.
pub open spec fn is_double_quoted_char(c: char) -> bool {
    c != '"' && c != '\\' && c != '`' && c != '$'
}

/// A segment whose text the shell takes literally: plain characters only;
/// no single quote inside single quotes; no `"`, backslash, backtick or `$`
/// inside double quotes. Quoted spans may hold pipes.
pub open spec fn segment_ok(g: Segment) -> bool {
    match g {
        Segment::Plain(t) => forall|i: int| 0 <= i < t.len() ==> is_plain_char(#[trigger] t[i]),
        Segment::SingleQuoted(t) => forall|i: int| 0 <= i < t.len() ==> #[trigger] t[i] != '\'',
        Segment::DoubleQuoted(t) => forall|i: int|
            0 <= i < t.len() ==> is_double_quoted_char(#[trigger] t[i]),
    }
}

/// The text of a segment as written.
pub open spec fn render(g: Segment) -> Seq<char> {
    match g {
        Segment::Plain(t) => t,
        Segment::SingleQuoted(t) => seq!['\''] + t + seq!['\''],
        Segment::DoubleQuoted(t) => seq!['"'] + t + seq!['"'],
    }
}

/// The text of a sequence of segments, written one after another.
pub open spec fn join(gs: Seq<Segment>) -> Seq<char>
    decreases gs.len(),
{
    if gs.len() == 0 {
        Seq::empty()
    } else {
        render(gs[0]) + join(gs.drop_first())
    }
}

proof fn lemma_plain_passes(t: Seq<char>, rest: Seq<char>)
    requires
        forall|i: int| 0 <= i < t.len() ==> is_plain_char(#[trigger] t[i]),
    ensures
        hazard(t + rest, QuoteState::Outside) == hazard(rest, QuoteState::Outside),
    decreases t.len(),
{
    if t.len() > 0 {
        let s = t + rest;
        assert(s[0] == t[0]);
        assert(is_plain_char(t[0]));
        assert(after(s, 1) =~= t.drop_first() + rest);
        assert forall|i: int| 0 <= i < t.drop_first().len() implies is_plain_char(
            #[trigger] t.drop_first()[i],
        ) by {
            assert(t.drop_first()[i] == t[i + 1]);
        }
        lemma_plain_passes(t.drop_first(), rest);
    } else {
        assert(t + rest =~= rest);
    }
}

proof fn lemma_single_body(t: Seq<char>, rest: Seq<char>)
    requires
        forall|i: int| 0 <= i < t.len() ==> #[trigger] t[i] != '\'',
    ensures
        hazard(t + seq!['\''] + rest, QuoteState::InSingle) == hazard(rest, QuoteState::Outside),
    decreases t.len(),
{
    let s = t + seq!['\''] + rest;
    if t.len() > 0 {
        assert(s[0] == t[0]);
        assert(after(s, 1) =~= t.drop_first() + seq!['\''] + rest);
        assert forall|i: int| 0 <= i < t.drop_first().len() implies #[trigger] t.drop_first()[i]
            != '\'' by {
            assert(t.drop_first()[i] == t[i + 1]);
        }
        lemma_single_body(t.drop_first(), rest);
    } else {
        assert(s[0] == '\'');
        assert(after(s, 1) =~= rest);
    }
}

proof fn lemma_double_body(t: Seq<char>, rest: Seq<char>)
    requires
        forall|i: int| 0 <= i < t.len() ==> is_double_quoted_char(#[trigger] t[i]),
    ensures
        hazard(t + seq!['"'] + rest, QuoteState::InDouble) == hazard(rest, QuoteState::Outside),
    decreases t.len(),
{
    let s = t + seq!['"'] + rest;
    if t.len() > 0 {
        assert(s[0] == t[0]);
        assert(is_double_quoted_char(t[0]));
        assert(after(s, 1) =~= t.drop_first() + seq!['"'] + rest);
        assert forall|i: int| 0 <= i < t.drop_first().len() implies is_double_quoted_char(
            #[trigger] t.drop_first()[i],
        ) by {
            assert(t.drop_first()[i] == t[i + 1]);
        }
        lemma_double_body(t.drop_first(), rest);
    } else {
        assert(s[0] == '"');
        assert(after(s, 1) =~= rest);
    }
}

proof fn lemma_segment_passes(g: Segment, rest: Seq<char>)
    requires
        segment_ok(g),
    ensures
        hazard(render(g) + rest, QuoteState::Outside) == hazard(rest, QuoteState::Outside),
{
    match g {
        Segment::Plain(t) => {
            lemma_plain_passes(t, rest);
        },
        Segment::SingleQuoted(t) => {
            let s = render(g) + rest;
            assert(s[0] == '\'');
            assert(after(s, 1) =~= t + seq!['\''] + rest);
            lemma_single_body(t, rest);
        },
        Segment::DoubleQuoted(t) => {
            let s = render(g) + rest;
            assert(s[0] == '"');
            assert(after(s, 1) =~= t + seq!['"'] + rest);
            lemma_double_body(t, rest);
        },
    }
}

proof fn lemma_join_passes(gs: Seq<Segment>, rest: Seq<char>)
    requires
        forall|i: int| 0 <= i < gs.len() ==> segment_ok(#[trigger] gs[i]),
    ensures
        hazard(join(gs) + rest, QuoteState::Outside) == hazard(rest, QuoteState::Outside),
    decreases gs.len(),
{
    if gs.len() > 0 {
        assert(segment_ok(gs[0]));
        assert forall|i: int| 0 <= i < gs.drop_first().len() implies segment_ok(
            #[trigger] gs.drop_first()[i],
        ) by {
            assert(gs.drop_first()[i] == gs[i + 1]);
        }
        lemma_join_passes(gs.drop_first(), rest);
        assert(join(gs) + rest =~= render(gs[0]) + (join(gs.drop_first()) + rest));
        lemma_segment_passes(gs[0], join(gs.drop_first()) + rest);
    } else {
        assert(join(gs) + rest =~= rest);
    }
}

/// Pipes inside quotes never cause a rejection. A command written as plain
/// text and closed quoted spans, whose quoted spans may hold pipes, has no
/// shell hazard, so the allow-lists decide unless a dangerous token is
/// present.
pub proof fn lemma_quoted_pipes_pass(gs: Seq<Segment>, normalized: Seq<char>)
    requires
        forall|i: int| 0 <= i < gs.len() ==> segment_ok(#[trigger] gs[i]),
    ensures
        shell_hazard(join(gs)) is None,
        first_infix_from(dangerous_tokens(), normalized, 0) is None ==> verdict_of(
            join(gs),
            normalized,
        ) == allowlist_verdict(normalized),
{
    lemma_join_passes(gs, Seq::empty());
    assert(join(gs) + Seq::<char>::empty() =~= join(gs));
}

/// A pipe outside quotes is always rejected: after any text of plain parts
/// and closed quoted spans, a `|` is the hazard found, whatever follows it.
pub proof fn lemma_unquoted_pipe_rejected(gs: Seq<Segment>, rest: Seq<char>, normalized: Seq<char>)
    requires
        forall|i: int| 0 <= i < gs.len() ==> segment_ok(#[trigger] gs[i]),
    ensures
        has_unquoted_pipe(join(gs) + seq!['|'] + rest),
        verdict_of(join(gs) + seq!['|'] + rest, normalized) is Rejected,
        first_infix_from(dangerous_tokens(), normalized, 0) is None ==> verdict_of(
            join(gs) + seq!['|'] + rest,
            normalized,
        ) == Verdict::Rejected(pipe_reason()),
{
    let tail = seq!['|'] + rest;
    assert(join(gs) + seq!['|'] + rest =~= join(gs) + tail);
    lemma_join_passes(gs, tail);
    assert(tail[0] == '|');
}

} // verus!
