//! Validation rules for the parts of a task configuration.
use vstd::prelude::*;
use crate::tasks::error::{invalid, reports, TaskError};
use crate::text::{
    all_ws, chars_of, contains_seq, has_substr, is_all_ws, is_trim_stable, is_ws, occurs_at,
    str_has_char, trim_stable, utf8_len,
};

verus! {

broadcast use vstd::string::group_string_axioms;

/// Longest accepted command, in bytes.
pub const MAX_COMMAND_LEN: usize = 4096;

/// Longest accepted argument, in bytes.
pub const MAX_ARG_LEN: usize = 4096;

/// Longest accepted working directory path, in bytes.
pub const MAX_WORKING_DIR_LEN: usize = 4096;

/// Longest accepted environment variable key, in bytes.
pub const MAX_ENV_KEY_LEN: usize = 1024;

/// Longest accepted environment variable value, in bytes.
pub const MAX_ENV_VALUE_LEN: usize = 4096;

/// Security validation utilities for task configuration.
pub struct SecurityValidator;

/// The command holds a pattern that is clearly an injection attempt:
/// a NUL character, CRLF, or a direct `eval(` / `exec(` call.
pub open spec fn has_injection(c: Seq<char>) -> bool {
    ||| has_substr(c, "\0"@)
    ||| has_substr(c, "\x00"@)
    ||| has_substr(c, "\r\n"@)
    ||| has_substr(c, "eval("@)
    ||| has_substr(c, "exec("@)
}

/// The message of the first rule a command breaks, or `None` when it is valid.
pub open spec fn command_check(c: Seq<char>) -> Option<Seq<char>> {
    if all_ws(c) {
        Some("Command cannot be empty"@)
    } else if has_injection(c) {
        Some("Command contains potentially dangerous injection patterns"@)
    } else if !trim_stable(c) {
        Some("Command cannot have leading or trailing whitespace"@)
    } else if utf8_len(c) > MAX_COMMAND_LEN {
        Some("Command length exceeds maximum allowed length"@)
    } else {
        None
    }
}

/// The message of the first rule an argument breaks, or `None` when it is valid.
pub open spec fn arg_check(a: Seq<char>) -> Option<Seq<char>> {
    if a.contains('\0') {
        Some("Argument contains null characters"@)
    } else if a.len() == 0 {
        Some("Arguments cannot be empty"@)
    } else if !trim_stable(a) {
        Some("Argument '"@ + a + "' cannot have leading/trailing whitespace"@)
    } else if utf8_len(a) > MAX_ARG_LEN {
        Some("Argument '"@ + a + "' exceeds maximum length"@)
    } else {
        None
    }
}

/// The message of the first argument, in order, that breaks a rule.
pub open spec fn args_check(args: Seq<Seq<char>>) -> Option<Seq<char>>
    decreases args.len(),
{
    if args.len() == 0 {
        None
    } else {
        match arg_check(args[0]) {
            Some(m) => Some(m),
            None => args_check(args.drop_first()),
        }
    }
}

/// The message of the first rule a working directory breaks, given what the
/// file system reported: whether the path exists and whether it is a directory.
pub open spec fn working_dir_check(d: Seq<char>, exists: bool, is_dir: bool) -> Option<Seq<char>> {
    if !exists {
        Some("Working directory does not exist: "@ + d)
    } else if !is_dir {
        Some("Working directory is not a directory: "@ + d)
    } else if !trim_stable(d) {
        Some("Working directory cannot have leading/trailing whitespace"@)
    } else if utf8_len(d) > MAX_WORKING_DIR_LEN {
        Some("Working directory path exceeds maximum length"@)
    } else {
        None
    }
}

/// The message of the first rule an environment variable breaks.
pub open spec fn env_var_check(k: Seq<char>, v: Seq<char>) -> Option<Seq<char>> {
    if all_ws(k) {
        Some("Environment variable key cannot be empty"@)
    } else if k.contains('=') || k.contains('\0') {
        Some("Environment variable key contains invalid characters"@)
    } else if k.contains(' ') {
        Some("Environment variable key '"@ + k + "' cannot contain spaces"@)
    } else if utf8_len(k) > MAX_ENV_KEY_LEN {
        Some("Environment variable key '"@ + k + "' exceeds maximum length"@)
    } else if v.contains('\0') {
        Some("Environment variable value contains null characters"@)
    } else if !trim_stable(v) {
        Some("Environment variable '"@ + k + "' value cannot have leading/trailing whitespace"@)
    } else if utf8_len(v) > MAX_ENV_VALUE_LEN {
        Some("Environment variable '"@ + k + "' value exceeds maximum length"@)
    } else {
        None
    }
}

/// The message of the first variable, in order, that breaks a rule.
pub open spec fn env_check(env: Seq<(Seq<char>, Seq<char>)>) -> Option<Seq<char>>
    decreases env.len(),
{
    if env.len() == 0 {
        None
    } else {
        match env_var_check(env[0].0, env[0].1) {
            Some(m) => Some(m),
            None => env_check(env.drop_first()),
        }
    }
}

/// The shell metacharacters that strict validation refuses.
pub open spec fn has_shell_meta(c: Seq<char>) -> bool {
    ||| has_substr(c, ";"@)
    ||| has_substr(c, "&"@)
    ||| has_substr(c, "|"@)
    ||| has_substr(c, "`"@)
    ||| has_substr(c, "$"@)
    ||| has_substr(c, "("@)
    ||| has_substr(c, ")"@)
    ||| has_substr(c, "{"@)
    ||| has_substr(c, "}"@)
    ||| has_substr(c, "["@)
    ||| has_substr(c, "]"@)
    ||| has_substr(c, "<"@)
    ||| has_substr(c, ">"@)
    ||| has_substr(c, "&&"@)
    ||| has_substr(c, "||"@)
    ||| has_substr(c, ">>"@)
    ||| has_substr(c, "<<"@)
    ||| has_substr(c, "\n"@)
    ||| has_substr(c, "\r"@)
}

/// The message of the first strict rule a command breaks.
pub open spec fn strict_command_check(c: Seq<char>) -> Option<Seq<char>> {
    if all_ws(c) {
        Some("Command cannot be empty"@)
    } else if has_shell_meta(c) {
        Some("Command contains shell metacharacters (use validate_command for developer tools)"@)
    } else {
        None
    }
}

/// A character that strict validation refuses anywhere in a command.
pub open spec fn is_shell_meta_char(ch: char) -> bool {
    ||| ch == ';'
    ||| ch == '&'
    ||| ch == '|'
    ||| ch == '`'
    ||| ch == '$'
    ||| ch == '('
    ||| ch == ')'
    ||| ch == '{'
    ||| ch == '}'
    ||| ch == '['
    ||| ch == ']'
    ||| ch == '<'
    ||| ch == '>'
    ||| ch == '\n'
    ||| ch == '\r'
}

/// Command validation, stated as its rules: a command passes exactly when
/// it is not blank; holds no NUL character, no CRLF and no `eval(` or
/// `exec(` call; neither starts nor ends with whitespace; and is at most
/// `MAX_COMMAND_LEN` bytes. Shell features such as pipes, redirections and
/// `&&` are allowed.
pub proof fn command_check_law(c: Seq<char>)
    ensures
        command_check(c) is None <==> {
            &&& !all_ws(c)
            &&& !c.contains('\0')
            &&& !has_substr(c, seq!['\r', '\n'])
            &&& !has_substr(c, seq!['e', 'v', 'a', 'l', '('])
            &&& !has_substr(c, seq!['e', 'x', 'e', 'c', '('])
            &&& (c.len() == 0 || (!is_ws(c[0]) && !is_ws(c[c.len() - 1])))
            &&& utf8_len(c) <= MAX_COMMAND_LEN
        },
{
    reveal_strlit("\0");
    reveal_strlit("\x00");
    reveal_strlit("\r\n");
    reveal_strlit("eval(");
    reveal_strlit("exec(");
    assert("\0"@ =~= seq!['\0']);
    assert("\x00"@ =~= seq!['\0']);
    assert("\r\n"@ =~= seq!['\r', '\n']);
    assert("eval("@ =~= seq!['e', 'v', 'a', 'l', '(']);
    assert("exec("@ =~= seq!['e', 'x', 'e', 'c', '(']);
    lemma_single_char_substr(c, '\0');
}

/// Working-directory validation, stated as its rules: a directory that does
/// not exist is refused naming it, then one that is not a directory; an
/// existing directory passes exactly when it neither starts nor ends with
/// whitespace and is at most `MAX_WORKING_DIR_LEN` bytes.
pub proof fn working_dir_check_law(d: Seq<char>, exists: bool, is_dir: bool)
    ensures
        !exists ==> working_dir_check(d, exists, is_dir) == Some(
            "Working directory does not exist: "@ + d,
        ),
        exists && !is_dir ==> working_dir_check(d, exists, is_dir) == Some(
            "Working directory is not a directory: "@ + d,
        ),
        exists && is_dir ==> (working_dir_check(d, exists, is_dir) is None <==> ((d.len() == 0 || (
        !is_ws(d[0]) && !is_ws(d[d.len() - 1]))) && utf8_len(d) <= MAX_WORKING_DIR_LEN)),
{
}

/// An argument that breaks none of the rules: it holds no NUL character, is
/// not empty, neither starts nor ends with whitespace, and is at most
/// `MAX_ARG_LEN` bytes. Nothing else about its characters matters; spaces
/// and punctuation inside it are allowed.
pub open spec fn arg_ok(a: Seq<char>) -> bool {
    &&& !a.contains('\0')
    &&& a.len() > 0
    &&& !is_ws(a[0])
    &&& !is_ws(a[a.len() - 1])
    &&& utf8_len(a) <= MAX_ARG_LEN
}

/// Argument validation, stated as the rules themselves: an argument passes
/// exactly when it breaks none of them, whatever it holds inside.
pub proof fn arg_check_law(a: Seq<char>)
    ensures
        arg_check(a) is None <==> arg_ok(a),
{
}

/// Argument lists pass exactly when every argument passes on its own.
pub proof fn args_check_law(args: Seq<Seq<char>>)
    ensures
        args_check(args) is None <==> forall|i: int| 0 <= i < args.len() ==> arg_ok(#[trigger] args[i]),
    decreases args.len(),
{
    if args.len() > 0 {
        args_check_law(args.drop_first());
        arg_check_law(args[0]);
        assert forall|i: int| 1 <= i < args.len() implies #[trigger] args[i] == args.drop_first()[i
            - 1] by {}
        if forall|i: int| 0 <= i < args.len() ==> arg_ok(#[trigger] args[i]) {
            assert(arg_ok(args[0]));
            assert forall|j: int| 0 <= j < args.drop_first().len() implies arg_ok(
                #[trigger] args.drop_first()[j],
            ) by {
                assert(arg_ok(args[j + 1]));
            }
        }
        if args_check(args) is None {
            assert forall|i: int| 0 <= i < args.len() implies arg_ok(#[trigger] args[i]) by {
                if i > 0 {
                    assert(arg_ok(args.drop_first()[i - 1]));
                }
            }
        }
    }
}

/// A one-character pattern occurs exactly where that character does.
proof fn lemma_single_char_substr(c: Seq<char>, x: char)
    ensures
        has_substr(c, seq![x]) <==> c.contains(x),
{
    if has_substr(c, seq![x]) {
        let i = choose|i: int| occurs_at(c, seq![x], i);
        assert(c.subrange(i, i + 1)[0] == c[i]);
    }
    if c.contains(x) {
        let i = choose|i: int| 0 <= i < c.len() && c[i] == x;
        assert(c.subrange(i, i + 1) =~= seq![x]);
        assert(occurs_at(c, seq![x], i));
    }
}

/// A two-character pattern occurs only where its first character does.
proof fn lemma_pair_substr(c: Seq<char>, x: char, y: char)
    ensures
        has_substr(c, seq![x, y]) ==> c.contains(x),
{
    if has_substr(c, seq![x, y]) {
        let i = choose|i: int| occurs_at(c, seq![x, y], i);
        assert(c.subrange(i, i + 2)[0] == c[i]);
    }
}

/// Strict validation, stated as a set of characters: a command passes it
/// exactly when it is not blank and none of its characters is one of
/// `; & | ` $ ( ) { } [ ] < >`, newline or carriage return. The doubled
/// patterns (`&&`, `||`, `>>`, `<<`) add nothing to the single ones.
pub proof fn strict_command_char_law(c: Seq<char>)
    ensures
        strict_command_check(c) is None <==> (!all_ws(c) && forall|i: int|
            0 <= i < c.len() ==> !is_shell_meta_char(#[trigger] c[i])),
{
    reveal_strlit(";");
    reveal_strlit("&");
    reveal_strlit("|");
    reveal_strlit("`");
    reveal_strlit("$");
    reveal_strlit("(");
    reveal_strlit(")");
    reveal_strlit("{");
    reveal_strlit("}");
    reveal_strlit("[");
    reveal_strlit("]");
    reveal_strlit("<");
    reveal_strlit(">");
    reveal_strlit("&&");
    reveal_strlit("||");
    reveal_strlit(">>");
    reveal_strlit("<<");
    reveal_strlit("\n");
    reveal_strlit("\r");
    assert(";"@ =~= seq![';']);
    assert("&"@ =~= seq!['&']);
    assert("|"@ =~= seq!['|']);
    assert("`"@ =~= seq!['`']);
    assert("$"@ =~= seq!['$']);
    assert("("@ =~= seq!['(']);
    assert(")"@ =~= seq![')']);
    assert("{"@ =~= seq!['{']);
    assert("}"@ =~= seq!['}']);
    assert("["@ =~= seq!['[']);
    assert("]"@ =~= seq![']']);
    assert("<"@ =~= seq!['<']);
    assert(">"@ =~= seq!['>']);
    assert("&&"@ =~= seq!['&', '&']);
    assert("||"@ =~= seq!['|', '|']);
    assert(">>"@ =~= seq!['>', '>']);
    assert("<<"@ =~= seq!['<', '<']);
    assert("\n"@ =~= seq!['\n']);
    assert("\r"@ =~= seq!['\r']);
    lemma_single_char_substr(c, ';');
    lemma_single_char_substr(c, '&');
    lemma_single_char_substr(c, '|');
    lemma_single_char_substr(c, '`');
    lemma_single_char_substr(c, '$');
    lemma_single_char_substr(c, '(');
    lemma_single_char_substr(c, ')');
    lemma_single_char_substr(c, '{');
    lemma_single_char_substr(c, '}');
    lemma_single_char_substr(c, '[');
    lemma_single_char_substr(c, ']');
    lemma_single_char_substr(c, '<');
    lemma_single_char_substr(c, '>');
    lemma_single_char_substr(c, '\n');
    lemma_single_char_substr(c, '\r');
    lemma_pair_substr(c, '&', '&');
    lemma_pair_substr(c, '|', '|');
    lemma_pair_substr(c, '>', '>');
    lemma_pair_substr(c, '<', '<');
}

/// An environment variable that breaks none of the rules: its key is not
/// blank, holds no `=`, NUL or space and is at most `MAX_ENV_KEY_LEN` bytes;
/// its value holds no NUL, has no leading or trailing whitespace and is at
/// most `MAX_ENV_VALUE_LEN` bytes.
pub open spec fn env_var_ok(k: Seq<char>, v: Seq<char>) -> bool {
    &&& !all_ws(k)
    &&& !k.contains('=')
    &&& !k.contains('\0')
    &&& !k.contains(' ')
    &&& utf8_len(k) <= MAX_ENV_KEY_LEN
    &&& !v.contains('\0')
    &&& trim_stable(v)
    &&& utf8_len(v) <= MAX_ENV_VALUE_LEN
}

/// Environment validation, stated per variable: a list of variables passes
/// exactly when each variable on its own breaks none of the rules.
pub proof fn env_check_law(env: Seq<(Seq<char>, Seq<char>)>)
    ensures
        env_check(env) is None <==> forall|i: int|
            0 <= i < env.len() ==> env_var_ok(#[trigger] env[i].0, env[i].1),
    decreases env.len(),
{
    if env.len() > 0 {
        env_check_law(env.drop_first());
        assert forall|i: int| 1 <= i < env.len() implies #[trigger] env[i] == env.drop_first()[i
            - 1] by {}
        if env_check(env) is None {
            assert forall|i: int| 0 <= i < env.len() implies env_var_ok(
                #[trigger] env[i].0,
                env[i].1,
            ) by {
                if i > 0 {
                    assert(env_var_ok(env.drop_first()[i - 1].0, env.drop_first()[i - 1].1));
                }
            }
        }
        if forall|i: int| 0 <= i < env.len() ==> env_var_ok(#[trigger] env[i].0, env[i].1) {
            assert(env_var_ok(env[0].0, env[0].1));
            assert forall|j: int| 0 <= j < env.drop_first().len() implies env_var_ok(
                #[trigger] env.drop_first()[j].0,
                env.drop_first()[j].1,
            ) by {
                assert(env_var_ok(env[j + 1].0, env[j + 1].1));
            }
        }
    }
}

/// Whether a list of environment variables passes validation does not
/// depend on their order: two lists holding the same variables, each as
/// many times, pass or fail together.
pub proof fn env_check_order_law(a: Seq<(Seq<char>, Seq<char>)>, b: Seq<(Seq<char>, Seq<char>)>)
    requires
        a.to_multiset() == b.to_multiset(),
    ensures
        (env_check(a) is None) == (env_check(b) is None),
{
    broadcast use vstd::seq_lib::to_multiset_contains;

    env_check_law(a);
    env_check_law(b);
    if env_check(a) is None {
        assert forall|i: int| 0 <= i < b.len() implies env_var_ok(#[trigger] b[i].0, b[i].1) by {
            assert(b.contains(b[i]));
            assert(b.to_multiset().count(b[i]) > 0);
            assert(a.contains(b[i]));
        }
    }
    if env_check(b) is None {
        assert forall|i: int| 0 <= i < a.len() implies env_var_ok(#[trigger] a[i].0, a[i].1) by {
            assert(a.contains(a[i]));
            assert(a.to_multiset().count(a[i]) > 0);
            assert(b.contains(a[i]));
        }
    }
}

/// The string views of a sequence of strings.
pub open spec fn strs(v: Seq<String>) -> Seq<Seq<char>> {
    v.map_values(|s: String| s@)
}

/// The string views of a sequence of key/value pairs.
pub open spec fn pairs(v: Seq<(String, String)>) -> Seq<(Seq<char>, Seq<char>)> {
    v.map_values(|p: (String, String)| (p.0@, p.1@))
}

/// Whether `pat` occurs in the characters `cv`.
fn has_pattern(cv: &Vec<char>, pat: &str) -> (b: bool)
    ensures
        b == has_substr(cv@, pat@),
{
    let pv = chars_of(pat);
    contains_seq(cv, &pv)
}

/// A whole-file check on the byte length of a string slice.
fn byte_len_over(s: &str, limit: usize) -> (b: bool)
    ensures
        b == (utf8_len(s@) > limit),
{
    s.as_bytes().len() > limit
}

proof fn lemma_check_skip<A>(s: Seq<A>, i: int)
    requires
        0 <= i < s.len(),
    ensures
        s.skip(i)[0] == s[i],
        s.skip(i).drop_first() == s.skip(i + 1),
        s.skip(i).len() > 0,
{
    assert(s.skip(i).drop_first() =~= s.skip(i + 1));
}

impl SecurityValidator {
    /// Validates a command name: not empty, no obvious injection pattern,
    /// no leading or trailing whitespace, at most 4096 bytes. Shell features
    /// such as pipes and redirections are accepted.
    pub fn validate_command(command: &str) -> (r: Result<(), TaskError>)
        ensures
            reports(r, command_check(command@)),
    {
        if is_all_ws(command) {
            return invalid("Command cannot be empty".to_string());
        }
        if Self::contains_obvious_injection(command) {
            return invalid(
                "Command contains potentially dangerous injection patterns".to_string(),
            );
        }
        if !is_trim_stable(command) {
            return invalid("Command cannot have leading or trailing whitespace".to_string());
        }
        if byte_len_over(command, MAX_COMMAND_LEN) {
            return invalid("Command length exceeds maximum allowed length".to_string());
        }
        Ok(())
    }

    /// The message of the first rule `arg` breaks.
    fn check_arg(arg: &String) -> (r: Option<String>)
        ensures
            match r {
                Some(m) => arg_check(arg@) == Some(m@),
                None => arg_check(arg@) is None,
            },
    {
        let a = arg.as_str();
        if str_has_char(a, '\0') {
            return Some("Argument contains null characters".to_string());
        }
        if a.is_empty() {
            return Some("Arguments cannot be empty".to_string());
        }
        if !is_trim_stable(a) {
            return Some(
                crate::text::cat3("Argument '", a, "' cannot have leading/trailing whitespace"),
            );
        }
        if byte_len_over(a, MAX_ARG_LEN) {
            return Some(crate::text::cat3("Argument '", a, "' exceeds maximum length"));
        }
        None
    }

    /// Validates arguments in order: each must hold no NUL character, be
    /// non-empty, have no leading or trailing whitespace and be at most 4096
    /// bytes. The first argument that breaks a rule decides the error.
    pub fn validate_args(args: &[String]) -> (r: Result<(), TaskError>)
        ensures
            reports(r, args_check(strs(args@))),
    {
        let ghost all = strs(args@);
        assert(all.skip(0) =~= all);
        let mut i: usize = 0;
        while i < args.len()
            invariant
                all == strs(args@),
                i <= args@.len(),
                args_check(all) == args_check(all.skip(i as int)),
            decreases args@.len() - i,
        {
            proof {
                lemma_check_skip(all, i as int);
            }
            match Self::check_arg(&args[i]) {
                Some(m) => {
                    return invalid(m);
                },
                None => {},
            }
            i = i + 1;
        }
        assert(all.skip(i as int).len() == 0);
        Ok(())
    }

    /// Validates a working directory path, asking the file system whether it
    /// exists and, when it does, whether it is a directory. The outcome is
    /// that of `validate_working_dir_status` for what the file system
    /// answered about `dir`.
    pub fn validate_working_dir(dir: &str) -> (r: Result<(), TaskError>)
        ensures
            exists|e: bool, d: bool|
                #[trigger] dir_answered(dir@, e, d) && reports(r, working_dir_check(dir@, e, d)),
    {
        let exists = path_exists(dir);
        if !exists {
            let r = Self::validate_working_dir_status(dir, false, false);
            assert(dir_answered(dir@, false, false));
            return r;
        }
        let is_dir = path_is_dir(dir);
        let r = Self::validate_working_dir_status(dir, true, is_dir);
        assert(dir_answered(dir@, true, is_dir));
        r
    }

    /// Validates a working directory path given what the file system reported.
    pub fn validate_working_dir_status(dir: &str, exists: bool, is_dir: bool) -> (r: Result<
        (),
        TaskError,
    >)
        ensures
            reports(r, working_dir_check(dir@, exists, is_dir)),
    {
        if !exists {
            return invalid(crate::text::cat2("Working directory does not exist: ", dir));
        }
        if !is_dir {
            return invalid(crate::text::cat2("Working directory is not a directory: ", dir));
        }
        if !is_trim_stable(dir) {
            return invalid(
                "Working directory cannot have leading/trailing whitespace".to_string(),
            );
        }
        if byte_len_over(dir, MAX_WORKING_DIR_LEN) {
            return invalid("Working directory path exceeds maximum length".to_string());
        }
        Ok(())
    }

    /// The message of the first rule one environment variable breaks.
    fn check_env_var(key: &String, value: &String) -> (r: Option<String>)
        ensures
            match r {
                Some(m) => env_var_check(key@, value@) == Some(m@),
                None => env_var_check(key@, value@) is None,
            },
    {
        let k = key.as_str();
        let v = value.as_str();
        if is_all_ws(k) {
            return Some("Environment variable key cannot be empty".to_string());
        }
        if str_has_char(k, '=') || str_has_char(k, '\0') {
            return Some("Environment variable key contains invalid characters".to_string());
        }
        if str_has_char(k, ' ') {
            return Some(crate::text::cat3("Environment variable key '", k, "' cannot contain spaces"));
        }
        if byte_len_over(k, MAX_ENV_KEY_LEN) {
            return Some(crate::text::cat3("Environment variable key '", k, "' exceeds maximum length"));
        }
        if str_has_char(v, '\0') {
            return Some("Environment variable value contains null characters".to_string());
        }
        if !is_trim_stable(v) {
            return Some(
                crate::text::cat3(
                    "Environment variable '",
                    k,
                    "' value cannot have leading/trailing whitespace",
                ),
            );
        }
        if byte_len_over(v, MAX_ENV_VALUE_LEN) {
            return Some(
                crate::text::cat3("Environment variable '", k, "' value exceeds maximum length"),
            );
        }
        None
    }

    /// Validates environment variables in order. A key must not be empty or
    /// all whitespace, must not hold `=`, NUL or a space, and must be at most
    /// 1024 bytes; a value must hold no NUL character, have no leading or
    /// trailing whitespace and be at most 4096 bytes. The first variable that
    /// breaks a rule decides the error.
    pub fn validate_env_vars(env: &Vec<(String, String)>) -> (r: Result<(), TaskError>)
        ensures
            reports(r, env_check(pairs(env@))),
    {
        let ghost all = pairs(env@);
        assert(all.skip(0) =~= all);
        let mut i: usize = 0;
        while i < env.len()
            invariant
                all == pairs(env@),
                i <= env@.len(),
                env_check(all) == env_check(all.skip(i as int)),
            decreases env@.len() - i,
        {
            proof {
                lemma_check_skip(all, i as int);
            }
            let pair = &env[i];
            match Self::check_env_var(&pair.0, &pair.1) {
                Some(m) => {
                    return invalid(m);
                },
                None => {},
            }
            i = i + 1;
        }
        assert(all.skip(i as int).len() == 0);
        Ok(())
    }

    /// Whether the command holds an obvious injection pattern.
    fn contains_obvious_injection(input: &str) -> (b: bool)
        ensures
            b == has_injection(input@),
    {
        let cv = chars_of(input);
        has_pattern(&cv, "\0") || has_pattern(&cv, "\x00") || has_pattern(&cv, "\r\n")
            || has_pattern(&cv, "eval(") || has_pattern(&cv, "exec(")
    }

    /// Validates a command from an untrusted source: not empty, and free of
    /// every shell metacharacter.
    pub fn validate_command_strict(command: &str) -> (r: Result<(), TaskError>)
        ensures
            reports(r, strict_command_check(command@)),
    {
        if is_all_ws(command) {
            return invalid("Command cannot be empty".to_string());
        }
        let cv = chars_of(command);
        if has_pattern(&cv, ";") || has_pattern(&cv, "&") || has_pattern(&cv, "|")
            || has_pattern(&cv, "`") || has_pattern(&cv, "$") || has_pattern(&cv, "(")
            || has_pattern(&cv, ")") || has_pattern(&cv, "{") || has_pattern(&cv, "}")
            || has_pattern(&cv, "[") || has_pattern(&cv, "]") || has_pattern(&cv, "<")
            || has_pattern(&cv, ">") || has_pattern(&cv, "&&") || has_pattern(&cv, "||")
            || has_pattern(&cv, ">>") || has_pattern(&cv, "<<") || has_pattern(&cv, "\n")
            || has_pattern(&cv, "\r") {
            return invalid(
                "Command contains shell metacharacters (use validate_command for developer tools)".to_string(),
            );
        }
        Ok(())
    }
}

/// `b` is an answer the file system gave, through
/// `std::path::Path::exists`, to whether the path `p` exists. It is a
/// relation, not a function: two questions about one path may be answered
/// differently, since the disk may change between them.
pub uninterp spec fn exists_answered(p: Seq<char>, b: bool) -> bool;

/// `b` is an answer the file system gave, through
/// `std::path::Path::is_dir`, to whether the path `p` is a directory. As
/// with `exists_answered`, two answers about one path may differ.
pub uninterp spec fn is_dir_answered(p: Seq<char>, b: bool) -> bool;

/// The file system was asked about the working directory `p` as the checks
/// ask: whether it exists, answered `e`, and, only when it does, whether it
/// is a directory, answered `d` (`d` is false when it was not asked).
pub open spec fn dir_answered(p: Seq<char>, e: bool, d: bool) -> bool {
    &&& exists_answered(p, e)
    &&& if e { is_dir_answered(p, d) } else { !d }
}

/// Asks the file system whether `dir` names an existing path
/// (`std::path::Path::exists`). The contract says only that the result is
/// the answer given for `dir`; which answer that is depends on the disk and
/// is not stated.
#[verifier::external_body]
pub(crate) fn path_exists(dir: &str) -> (r: bool)
    ensures
        exists_answered(dir@, r),
{
    std::path::Path::new(dir).exists()
}

/// Asks the file system whether `dir` names a directory
/// (`std::path::Path::is_dir`). The contract says only that the result is
/// the answer given for `dir`; which answer that is depends on the disk and
/// is not stated.
#[verifier::external_body]
pub(crate) fn path_is_dir(dir: &str) -> (r: bool)
    ensures
        is_dir_answered(dir@, r),
{
    std::path::Path::new(dir).is_dir()
}

} // verus!
