//! Task configuration: what to run and how, with its builder and validation.
use vstd::prelude::*;
use crate::tasks::error::{reports, TaskError};
use crate::tasks::security::{
    arg_ok, args_check_law, env_check_law, env_var_ok,
    args_check, command_check, dir_answered, env_check, pairs, strs, working_dir_check, SecurityValidator, path_exists, path_is_dir,
};

verus! {

/// Specifies the source stream for output monitoring.
#[derive(Debug, Clone, Copy, PartialEq, Eq, Structural)]
pub enum StreamSource {
    /// Standard output stream.
    Stdout,
    /// Standard error stream.
    Stderr,
}

impl Default for StreamSource {
    fn default() -> (r: StreamSource)
        ensures
            r == StreamSource::Stdout,
    {
        StreamSource::Stdout
    }
}

/// Configuration for a task to be executed.
#[derive(Debug)]
pub struct TaskConfig {
    /// The command or executable to run.
    pub command: String,
    /// Arguments to pass to the command.
    pub args: Option<Vec<String>>,
    /// Working directory for the command.
    pub working_dir: Option<String>,
    /// Environment variables for the command.
    pub env: Option<EnvVars>,
    /// Maximum allowed runtime in milliseconds.
    pub timeout_ms: Option<u64>,
    /// Allow providing input to the task via stdin.
    pub enable_stdin: Option<bool>,
    /// Text whose appearance in the output means the task is ready.
    pub ready_indicator: Option<String>,
    /// Stream in which the ready indicator is looked for.
    pub ready_indicator_source: Option<StreamSource>,
    /// Run the process in its own process group (default: true).
    pub use_process_group: Option<bool>,
}

/// The mathematical content of a task configuration.
pub struct TaskConfigView {
    pub command: Seq<char>,
    pub args: Option<Seq<Seq<char>>>,
    pub working_dir: Option<Seq<char>>,
    pub env: Option<Seq<(Seq<char>, Seq<char>)>>,
    pub timeout_ms: Option<u64>,
    pub enable_stdin: Option<bool>,
    pub ready_indicator: Option<Seq<char>>,
    pub ready_indicator_source: Option<StreamSource>,
    pub use_process_group: Option<bool>,
}

/// The view of an optional string.
pub open spec fn opt_str(o: Option<String>) -> Option<Seq<char>> {
    match o {
        Some(s) => Some(s@),
        None => None,
    }
}

/// The view of an optional list of strings.
pub open spec fn opt_strs(o: Option<Vec<String>>) -> Option<Seq<Seq<char>>> {
    match o {
        Some(v) => Some(strs(v@)),
        None => None,
    }
}

/// The view of optional environment variables.
pub open spec fn opt_env(o: Option<EnvVars>) -> Option<Seq<(Seq<char>, Seq<char>)>> {
    match o {
        Some(e) => Some(e@),
        None => None,
    }
}

/// The view of an optional list of key/value pairs.
pub open spec fn opt_pairs(o: Option<Vec<(String, String)>>) -> Option<Seq<(Seq<char>, Seq<char>)>> {
    match o {
        Some(v) => Some(pairs(v@)),
        None => None,
    }
}

impl View for TaskConfig {
    type V = TaskConfigView;

    open spec fn view(&self) -> TaskConfigView {
        TaskConfigView {
            command: self.command@,
            args: opt_strs(self.args),
            working_dir: opt_str(self.working_dir),
            env: opt_env(self.env),
            timeout_ms: self.timeout_ms,
            enable_stdin: self.enable_stdin,
            ready_indicator: opt_str(self.ready_indicator),
            ready_indicator_source: self.ready_indicator_source,
            use_process_group: self.use_process_group,
        }
    }
}

/// The default configuration for a command: stdin disabled, ready indicator
/// looked for in stdout, process group enabled, nothing else set.
pub open spec fn default_config_view(command: Seq<char>) -> TaskConfigView {
    TaskConfigView {
        command,
        args: None,
        working_dir: None,
        env: None,
        timeout_ms: None,
        enable_stdin: Some(false),
        ready_indicator: None,
        ready_indicator_source: Some(StreamSource::Stdout),
        use_process_group: Some(true),
    }
}

/// Position of the first pair whose key is `k`, or the length when there is none.
pub open spec fn key_pos(e: Seq<(Seq<char>, Seq<char>)>, k: Seq<char>) -> int
    decreases e.len(),
{
    if e.len() == 0 {
        0
    } else if e[0].0 == k {
        0
    } else {
        1 + key_pos(e.drop_first(), k)
    }
}

/// Sets `k` to `v`: the pair with key `k` gets the new value in place, or the
/// pair is appended when the key is new.
pub open spec fn env_set(e: Seq<(Seq<char>, Seq<char>)>, k: Seq<char>, v: Seq<char>) -> Seq<
    (Seq<char>, Seq<char>),
> {
    let i = key_pos(e, k);
    if i < e.len() {
        e.update(i, (k, v))
    } else {
        e.push((k, v))
    }
}

/// The pairs collected from `s` in order, each key kept once with its last value.
pub open spec fn env_collect(s: Seq<(Seq<char>, Seq<char>)>) -> Seq<(Seq<char>, Seq<char>)>
    decreases s.len(),
{
    if s.len() == 0 {
        Seq::empty()
    } else {
        env_set(env_collect(s.drop_last()), s.last().0, s.last().1)
    }
}

/// No key occurs twice.
pub open spec fn keys_distinct(e: Seq<(Seq<char>, Seq<char>)>) -> bool {
    forall|i: int, j: int| 0 <= i < j < e.len() ==> #[trigger] e[i].0 != #[trigger] e[j].0
}

/// The value recorded for `k`, if any.
pub open spec fn env_lookup(e: Seq<(Seq<char>, Seq<char>)>, k: Seq<char>) -> Option<Seq<char>> {
    let i = key_pos(e, k);
    if i < e.len() {
        Some(e[i].1)
    } else {
        None
    }
}

proof fn lemma_key_pos(e: Seq<(Seq<char>, Seq<char>)>, k: Seq<char>)
    ensures
        0 <= key_pos(e, k) <= e.len(),
        key_pos(e, k) < e.len() ==> e[key_pos(e, k)].0 == k,
        forall|j: int| 0 <= j < key_pos(e, k) ==> #[trigger] e[j].0 != k,
    decreases e.len(),
{
    if e.len() > 0 && e[0].0 != k {
        lemma_key_pos(e.drop_first(), k);
        assert forall|j: int| 0 <= j < key_pos(e, k) implies #[trigger] e[j].0 != k by {
            if j > 0 {
                assert(e[j] == e.drop_first()[j - 1]);
            }
        }
    }
}

proof fn lemma_key_pos_unique(e: Seq<(Seq<char>, Seq<char>)>, k: Seq<char>, i: int)
    requires
        0 <= i <= e.len(),
        i < e.len() ==> e[i].0 == k,
        forall|j: int| 0 <= j < i ==> #[trigger] e[j].0 != k,
    ensures
        key_pos(e, k) == i,
{
    lemma_key_pos(e, k);
    let p = key_pos(e, k);
    if p < i {
        assert(e[p].0 != k);
    } else if i < p {
        assert(e[i].0 != k);
    }
}

/// Setting a key keeps keys distinct.
pub proof fn lemma_env_set_distinct(e: Seq<(Seq<char>, Seq<char>)>, k: Seq<char>, v: Seq<char>)
    requires
        keys_distinct(e),
    ensures
        keys_distinct(env_set(e, k, v)),
        env_lookup(env_set(e, k, v), k) == Some(v),
{
    lemma_key_pos(e, k);
    let r = env_set(e, k, v);
    let i = key_pos(e, k);
    if i < e.len() {
        assert forall|a: int, b: int| 0 <= a < b < r.len() implies #[trigger] r[a].0 != #[trigger] r[b].0 by {
            assert(e[a].0 != e[b].0);
        }
        lemma_key_pos(r, k);
        lemma_key_pos_unique(r, k, i);
    } else {
        assert forall|a: int, b: int| 0 <= a < b < r.len() implies #[trigger] r[a].0 != #[trigger] r[b].0 by {
            if b < e.len() {
                assert(e[a].0 != e[b].0);
            } else {
                assert(e[a].0 != k);
            }
        }
        lemma_key_pos_unique(r, k, e.len() as int);
    }
}

/// Setting one key leaves the value of every other key as it was.
proof fn lemma_env_set_other(e: Seq<(Seq<char>, Seq<char>)>, k: Seq<char>, v: Seq<char>, k2: Seq<char>)
    requires
        k2 != k,
    ensures
        env_lookup(env_set(e, k, v), k2) == env_lookup(e, k2),
{
    lemma_key_pos(e, k);
    lemma_key_pos(e, k2);
    let r = env_set(e, k, v);
    let i = key_pos(e, k);
    let p = key_pos(e, k2);
    if i < e.len() {
        assert forall|j: int| 0 <= j < p implies #[trigger] r[j].0 != k2 by {
            assert(e[j].0 != k2);
        }
        lemma_key_pos_unique(r, k2, p);
    } else {
        if p < e.len() {
            assert forall|j: int| 0 <= j < p implies #[trigger] r[j].0 != k2 by {
                assert(e[j].0 != k2);
            }
            lemma_key_pos_unique(r, k2, p);
        } else {
            assert forall|j: int| 0 <= j < r.len() implies #[trigger] r[j].0 != k2 by {
                if j < e.len() {
                    assert(e[j].0 != k2);
                }
            }
            lemma_key_pos_unique(r, k2, r.len() as int);
        }
    }
}

/// `i` is the position of the last pair of `s` whose key is `k`.
pub open spec fn last_key_at(s: Seq<(Seq<char>, Seq<char>)>, k: Seq<char>, i: int) -> bool {
    &&& 0 <= i < s.len()
    &&& s[i].0 == k
    &&& forall|j: int| i < j < s.len() ==> s[j].0 != k
}

/// The collected pairs hold a key exactly when some given pair has it.
proof fn lemma_env_collect_has(s: Seq<(Seq<char>, Seq<char>)>, k: Seq<char>)
    ensures
        env_lookup(env_collect(s), k) is Some <==> s.map_values(|p: (Seq<char>, Seq<char>)| p.0).contains(k),
    decreases s.len(),
{
    if s.len() > 0 {
        let init = s.drop_last();
        let c0 = env_collect(init);
        assert(env_collect(s) == env_set(c0, s.last().0, s.last().1));
        lemma_env_collect_has(init, k);
        lemma_env_collect_distinct(init);
        let ks = s.map_values(|p: (Seq<char>, Seq<char>)| p.0);
        let ki = init.map_values(|p: (Seq<char>, Seq<char>)| p.0);
        assert(ks =~= ki.push(s.last().0));
        if s.last().0 == k {
            lemma_env_set_distinct(c0, k, s.last().1);
            assert(ks[ks.len() - 1] == k);
        } else {
            lemma_env_set_other(c0, s.last().0, s.last().1, k);
            if ks.contains(k) {
                let i = choose|i: int| 0 <= i < ks.len() && ks[i] == k;
                assert(ki[i] == k);
            }
            if ki.contains(k) {
                let i = choose|i: int| 0 <= i < ki.len() && ki[i] == k;
                assert(ks[i] == k);
            }
        }
    }
}

/// The collected value of a key is that of its last pair.
proof fn lemma_env_collect_last(s: Seq<(Seq<char>, Seq<char>)>, k: Seq<char>, i: int)
    requires
        last_key_at(s, k, i),
    ensures
        env_lookup(env_collect(s), k) == Some(s[i].1),
    decreases s.len(),
{
    let init = s.drop_last();
    let c0 = env_collect(init);
    let n = s.len() - 1;
    assert(env_collect(s) == env_set(c0, s[n].0, s[n].1));
    lemma_env_collect_distinct(init);
    if i == n {
        lemma_env_set_distinct(c0, k, s[n].1);
    } else {
        assert(s[n].0 != k);
        lemma_env_set_other(c0, s[n].0, s[n].1, k);
        assert(init[i] == s[i]);
        assert forall|j: int| i < j < init.len() implies init[j].0 != k by {
            assert(init[j] == s[j]);
        }
        assert(last_key_at(init, k, i));
        lemma_env_collect_last(init, k, i);
    }
}

/// Collecting pairs keeps, for each key, the value of its last occurrence:
/// a key given twice keeps the later value, a key given once keeps its
/// value, and a key never given has none.
pub proof fn env_collect_law(s: Seq<(Seq<char>, Seq<char>)>, k: Seq<char>, i: int)
    ensures
        env_lookup(env_collect(s), k) is Some <==> s.map_values(|p: (Seq<char>, Seq<char>)| p.0).contains(k),
        last_key_at(s, k, i) ==> env_lookup(env_collect(s), k) == Some(s[i].1),
{
    lemma_env_collect_has(s, k);
    if last_key_at(s, k, i) {
        lemma_env_collect_last(s, k, i);
    }
}

/// Collected pairs never repeat a key.
pub proof fn lemma_env_collect_distinct(s: Seq<(Seq<char>, Seq<char>)>)
    ensures
        keys_distinct(env_collect(s)),
    decreases s.len(),
{
    if s.len() > 0 {
        lemma_env_collect_distinct(s.drop_last());
        lemma_env_set_distinct(env_collect(s.drop_last()), s.last().0, s.last().1);
    }
}

/// Collecting pairs whose keys are already distinct changes nothing.
pub proof fn lemma_env_collect_identity(s: Seq<(Seq<char>, Seq<char>)>)
    requires
        keys_distinct(s),
    ensures
        env_collect(s) == s,
    decreases s.len(),
{
    if s.len() > 0 {
        let init = s.drop_last();
        assert(keys_distinct(init)) by {
            assert forall|a: int, b: int| 0 <= a < b < init.len() implies #[trigger] init[a].0 != #[trigger] init[b].0 by {
                assert(init[a] == s[a] && init[b] == s[b]);
            }
        }
        lemma_env_collect_identity(init);
        lemma_key_pos(init, s.last().0);
        assert forall|j: int| 0 <= j < init.len() implies #[trigger] init[j].0 != s.last().0 by {
            assert(s[j] == init[j]);
            assert(s[j].0 != s[s.len() - 1].0);
        }
        lemma_key_pos_unique(init, s.last().0, init.len() as int);
        assert(init.push(s.last()) =~= s);
    }
}

/// Sets `k` to `v` in the pairs `env`.
fn env_set_exec(env: &mut Vec<(String, String)>, k: String, v: String)
    ensures
        pairs(final(env)@) == env_set(pairs(old(env)@), k@, v@),
{
    let ghost e = pairs(env@);
    proof {
        lemma_key_pos(e, k@);
    }
    let mut i: usize = 0;
    while i < env.len()
        invariant
            e == pairs(env@),
            env@ == old(env)@,
            i <= env@.len(),
            forall|j: int| 0 <= j < i ==> #[trigger] e[j].0 != k@,
        decreases env@.len() - i,
    {
        if env[i].0 == k {
            proof {
                assert(e[i as int].0 == env@[i as int].0@);
                lemma_key_pos_unique(e, k@, i as int);
            }
            let ghost kv = k@;
            let ghost vv = v@;
            env.set(i, (k, v));
            assert(pairs(env@) =~= e.update(i as int, (kv, vv)));
            assert(env_set(e, kv, vv) == e.update(i as int, (kv, vv)));
            return;
        }
        i = i + 1;
    }
    proof {
        lemma_key_pos_unique(e, k@, i as int);
    }
    env.push((k, v));
    assert(pairs(env@) =~= e.push((k@, v@)));
}

/// Collects pairs in order, keeping each key once with the value given last.
pub fn collect_env(list: Vec<(String, String)>) -> (r: Vec<(String, String)>)
    ensures
        pairs(r@) == env_collect(pairs(list@)),
        keys_distinct(pairs(r@)),
{
    let ghost s = pairs(list@);
    let mut r: Vec<(String, String)> = Vec::new();
    let n = list.len();
    let mut idx: usize = 0;
    while idx < n
        invariant
            n == s.len(),
            s == pairs(list@),
            idx <= n,
            pairs(r@) == env_collect(s.take(idx as int)),
        decreases n - idx,
    {
        let k = list[idx].0.clone();
        let v = list[idx].1.clone();
        proof {
            assert(s.take(idx + 1).drop_last() =~= s.take(idx as int));
            assert(s.take(idx + 1).last() == s[idx as int]);
        }
        env_set_exec(&mut r, k, v);
        idx = idx + 1;
    }
    assert(s.take(n as int) =~= s);
    proof {
        lemma_env_collect_distinct(s);
    }
    r
}

/// A copy of a list of strings.
pub fn clone_strings(v: &Vec<String>) -> (r: Vec<String>)
    ensures
        strs(r@) == strs(v@),
{
    let mut r: Vec<String> = Vec::new();
    let mut i: usize = 0;
    while i < v.len()
        invariant
            i <= v.len(),
            r@.len() == i,
            strs(r@) == strs(v@).take(i as int),
        decreases v.len() - i,
    {
        r.push(v[i].clone());
        assert(strs(r@) =~= strs(v@).take(i + 1));
        i = i + 1;
    }
    assert(strs(v@).take(v.len() as int) =~= strs(v@));
    r
}

/// A copy of an optional string.
pub fn clone_opt_string(o: &Option<String>) -> (r: Option<String>)
    ensures
        opt_str(r) == opt_str(*o),
{
    match o {
        Some(s) => Some(s.clone()),
        None => None,
    }
}

/// A copy of an optional list of strings.
pub fn clone_opt_strings(o: &Option<Vec<String>>) -> (r: Option<Vec<String>>)
    ensures
        opt_strs(r) == opt_strs(*o),
{
    match o {
        Some(v) => Some(clone_strings(v)),
        None => None,
    }
}

/// A copy of a list of key/value pairs.
pub fn clone_pairs(v: &Vec<(String, String)>) -> (r: Vec<(String, String)>)
    ensures
        pairs(r@) == pairs(v@),
{
    let mut r: Vec<(String, String)> = Vec::new();
    let mut i: usize = 0;
    while i < v.len()
        invariant
            i <= v.len(),
            r@.len() == i,
            pairs(r@) == pairs(v@).take(i as int),
        decreases v.len() - i,
    {
        r.push((v[i].0.clone(), v[i].1.clone()));
        assert(pairs(r@) =~= pairs(v@).take(i + 1));
        i = i + 1;
    }
    assert(pairs(v@).take(v.len() as int) =~= pairs(v@));
    r
}

/// Environment variables: key/value pairs in the order their keys were
/// first given, each key once.
#[derive(Debug, PartialEq, Eq)]
pub struct EnvVars {
    pairs: Vec<(String, String)>,
}

impl View for EnvVars {
    type V = Seq<(Seq<char>, Seq<char>)>;

    closed spec fn view(&self) -> Seq<(Seq<char>, Seq<char>)> {
        pairs(self.pairs@)
    }
}

impl EnvVars {
    /// No key occurs twice.
    #[verifier::type_invariant]
    closed spec fn keys_once(self) -> bool {
        keys_distinct(pairs(self.pairs@))
    }

    /// No variables.
    pub fn new() -> (e: EnvVars)
        ensures
            e@ == Seq::<(Seq<char>, Seq<char>)>::empty(),
    {
        let e = EnvVars { pairs: Vec::new() };
        assert(e@ =~= Seq::<(Seq<char>, Seq<char>)>::empty());
        e
    }

    /// The variables of `list`, in order, each key kept once with the value
    /// given last.
    pub fn from_pairs(list: Vec<(String, String)>) -> (e: EnvVars)
        ensures
            e@ == env_collect(pairs(list@)),
    {
        EnvVars { pairs: collect_env(list) }
    }

    /// The variables as key/value pairs; no key occurs twice.
    pub fn as_pairs(&self) -> (v: &Vec<(String, String)>)
        ensures
            pairs(v@) == self@,
            keys_distinct(self@),
    {
        proof {
            use_type_invariant(self);
        }
        &self.pairs
    }

    /// The variables as key/value pairs; no key occurs twice.
    pub fn into_pairs(self) -> (v: Vec<(String, String)>)
        ensures
            pairs(v@) == self@,
            keys_distinct(self@),
    {
        proof {
            use_type_invariant(&self);
        }
        self.pairs
    }

    /// The number of variables.
    pub fn len(&self) -> (n: usize)
        ensures
            n == self@.len(),
    {
        self.pairs.len()
    }
}

impl Clone for EnvVars {
    /// A copy of the variables.
    fn clone(&self) -> (r: EnvVars)
        ensures
            r@ == self@,
    {
        proof {
            use_type_invariant(self);
        }
        EnvVars { pairs: clone_pairs(&self.pairs) }
    }
}

/// A copy of optional environment variables.
pub fn clone_opt_env(o: &Option<EnvVars>) -> (r: Option<EnvVars>)
    ensures
        opt_env(r) == opt_env(*o),
{
    match o {
        Some(e) => Some(e.clone()),
        None => None,
    }
}

impl Clone for TaskConfig {
    /// A copy of the configuration, with the same content.
    fn clone(&self) -> (r: TaskConfig)
        ensures
            r@ == self@,
    {
        TaskConfig {
            command: self.command.clone(),
            args: clone_opt_strings(&self.args),
            working_dir: clone_opt_string(&self.working_dir),
            env: clone_opt_env(&self.env),
            timeout_ms: self.timeout_ms,
            enable_stdin: self.enable_stdin,
            ready_indicator: clone_opt_string(&self.ready_indicator),
            ready_indicator_source: self.ready_indicator_source,
            use_process_group: self.use_process_group,
        }
    }
}

impl Default for TaskConfig {
    fn default() -> (r: TaskConfig)
        ensures
            r@ == default_config_view(Seq::empty()),
    {
        TaskConfig {
            command: String::new(),
            args: None,
            working_dir: None,
            env: None,
            timeout_ms: None,
            enable_stdin: Some(false),
            ready_indicator: None,
            ready_indicator_source: Some(StreamSource::Stdout),
            use_process_group: Some(true),
        }
    }
}

/// The message of the first rule a ready indicator breaks: it must not be empty.
pub open spec fn ready_indicator_check(ri: Seq<char>) -> Option<Seq<char>> {
    if ri.len() == 0 {
        Some("Ready indicator cannot be empty"@)
    } else {
        None
    }
}

/// The message of the first rule a timeout breaks: it must be positive.
pub open spec fn timeout_check(t: u64) -> Option<Seq<char>> {
    if t == 0 {
        Some("Timeout must be greater than 0"@)
    } else {
        None
    }
}

/// The message of the first rule a configuration breaks, checking in order
/// the command, ready indicator, arguments, working directory (given what the
/// file system reported of it), environment variables and timeout.
pub open spec fn config_check(c: TaskConfigView, dir_exists: bool, dir_is_dir: bool) -> Option<Seq<char>> {
    if command_check(c.command) is Some {
        command_check(c.command)
    } else if c.ready_indicator is Some && ready_indicator_check(c.ready_indicator->0) is Some {
        ready_indicator_check(c.ready_indicator->0)
    } else if c.args is Some && args_check(c.args->0) is Some {
        args_check(c.args->0)
    } else if c.working_dir is Some && working_dir_check(c.working_dir->0, dir_exists, dir_is_dir) is Some {
        working_dir_check(c.working_dir->0, dir_exists, dir_is_dir)
    } else if c.env is Some && env_check(c.env->0) is Some {
        env_check(c.env->0)
    } else if c.timeout_ms is Some && timeout_check(c.timeout_ms->0) is Some {
        timeout_check(c.timeout_ms->0)
    } else {
        None
    }
}

/// Configuration validation, stated part by part: a configuration passes
/// exactly when its command passes, its ready indicator (if set) is not
/// empty, each of its arguments passes on its own, its working directory (if
/// set) exists, is a directory and passes, each environment variable passes
/// on its own, and its timeout (if set) is positive.
pub proof fn config_check_law(c: TaskConfigView, dir_exists: bool, dir_is_dir: bool)
    ensures
        config_check(c, dir_exists, dir_is_dir) is None <==> {
            &&& command_check(c.command) is None
            &&& c.ready_indicator matches Some(ri) ==> ri.len() > 0
            &&& c.args matches Some(a) ==> forall|i: int| 0 <= i < a.len() ==> arg_ok(#[trigger] a[i])
            &&& c.working_dir matches Some(w) ==> dir_exists && dir_is_dir
                && working_dir_check(w, true, true) is None
            &&& c.env matches Some(v) ==> forall|i: int|
                0 <= i < v.len() ==> env_var_ok(#[trigger] v[i].0, v[i].1)
            &&& c.timeout_ms matches Some(t) ==> t > 0
        },
{
    if let Some(a) = c.args {
        args_check_law(a);
    }
    if let Some(v) = c.env {
        env_check_law(v);
    }
}

impl TaskConfig {
    /// A configuration for `command` with every other setting at its default.
    pub fn new(command: &str) -> (r: TaskConfig)
        ensures
            r@ == default_config_view(command@),
    {
        TaskConfig { command: command.to_string(), ..Default::default() }
    }

    /// Sets the arguments.
    pub fn args(self, args: Vec<String>) -> (r: TaskConfig)
        ensures
            r@ == (TaskConfigView { args: Some(strs(args@)), ..self@ }),
    {
        TaskConfig { args: Some(args), ..self }
    }

    /// Sets the working directory.
    pub fn working_dir(self, dir: &str) -> (r: TaskConfig)
        ensures
            r@ == (TaskConfigView { working_dir: Some(dir@), ..self@ }),
    {
        TaskConfig { working_dir: Some(dir.to_string()), ..self }
    }

    /// Sets the environment variables; a key given twice keeps the later value.
    pub fn env(self, env: Vec<(String, String)>) -> (r: TaskConfig)
        ensures
            r@ == (TaskConfigView { env: Some(env_collect(pairs(env@))), ..self@ }),
            keys_distinct(r@.env->0),
    {
        let e = EnvVars::from_pairs(env);
        proof {
            lemma_env_collect_distinct(pairs(env@));
        }
        TaskConfig { env: Some(e), ..self }
    }

    /// Sets the maximum runtime in milliseconds.
    pub fn timeout_ms(self, timeout: u64) -> (r: TaskConfig)
        ensures
            r@ == (TaskConfigView { timeout_ms: Some(timeout), ..self@ }),
    {
        TaskConfig { timeout_ms: Some(timeout), ..self }
    }

    /// Enables or disables stdin input.
    pub fn enable_stdin(self, b: bool) -> (r: TaskConfig)
        ensures
            r@ == (TaskConfigView { enable_stdin: Some(b), ..self@ }),
    {
        TaskConfig { enable_stdin: Some(b), ..self }
    }

    /// Sets the ready indicator.
    pub fn ready_indicator(self, indicator: &str) -> (r: TaskConfig)
        ensures
            r@ == (TaskConfigView { ready_indicator: Some(indicator@), ..self@ }),
    {
        TaskConfig { ready_indicator: Some(indicator.to_string()), ..self }
    }

    /// Sets the stream the ready indicator is looked for in.
    pub fn ready_indicator_source(self, source: StreamSource) -> (r: TaskConfig)
        ensures
            r@ == (TaskConfigView { ready_indicator_source: Some(source), ..self@ }),
    {
        TaskConfig { ready_indicator_source: Some(source), ..self }
    }

    /// Enables or disables process group management.
    pub fn use_process_group(self, enabled: bool) -> (r: TaskConfig)
        ensures
            r@ == (TaskConfigView { use_process_group: Some(enabled), ..self@ }),
    {
        TaskConfig { use_process_group: Some(enabled), ..self }
    }

    /// Validates the configuration. The working directory, when set, is
    /// checked against the file system; the outcome is that of
    /// `validate_with_dir_status` for what the file system answered about
    /// that directory. Without a working directory nothing is asked.
    pub fn validate(&self) -> (r: Result<(), TaskError>)
        ensures
            self@.working_dir matches Some(p) ==> exists|e: bool, d: bool|
                #[trigger] dir_answered(p, e, d) && reports(r, config_check(self@, e, d)),
            self@.working_dir is None ==> reports(r, config_check(self@, true, true)),
    {
        let (exists, is_dir) = match &self.working_dir {
            Some(dir) => {
                let e = path_exists(dir.as_str());
                if e {
                    (true, path_is_dir(dir.as_str()))
                } else {
                    (false, false)
                }
            },
            None => (true, true),
        };
        let r = self.validate_with_dir_status(exists, is_dir);
        proof {
            if self@.working_dir is Some {
                assert(dir_answered(self@.working_dir->0, exists, is_dir));
            }
        }
        r
    }

    /// Validates the configuration given what the file system reported of the
    /// working directory: whether it exists and whether it is a directory.
    pub fn validate_with_dir_status(&self, dir_exists: bool, dir_is_dir: bool) -> (r: Result<
        (),
        TaskError,
    >)
        ensures
            reports(r, config_check(self@, dir_exists, dir_is_dir)),
    {
        SecurityValidator::validate_command(self.command.as_str())?;
        if let Some(ready_indicator) = &self.ready_indicator {
            validate_ready_indicator(ready_indicator)?;
        }
        if let Some(args) = &self.args {
            SecurityValidator::validate_args(args.as_slice())?;
        }
        if let Some(dir) = &self.working_dir {
            SecurityValidator::validate_working_dir_status(dir.as_str(), dir_exists, dir_is_dir)?;
        }
        if let Some(env) = &self.env {
            SecurityValidator::validate_env_vars(env.as_pairs())?;
        }
        if let Some(timeout) = &self.timeout_ms {
            validate_timeout(*timeout)?;
        }
        Ok(())
    }

    /// Whether process group management is enabled; it is unless explicitly disabled.
    pub fn is_process_group_enabled(&self) -> (b: bool)
        ensures
            b == (self.use_process_group != Some(false)),
    {
        match self.use_process_group {
            Some(b) => b,
            None => true,
        }
    }
}

/// Validates a ready indicator: it must not be empty (surrounding whitespace is allowed).
pub fn validate_ready_indicator(indicator: &String) -> (r: Result<(), TaskError>)
    ensures
        reports(r, ready_indicator_check(indicator@)),
{
    if indicator.as_str().is_empty() {
        return crate::tasks::error::invalid("Ready indicator cannot be empty".to_string());
    }
    Ok(())
}

/// Validates a timeout: it must be greater than zero.
pub fn validate_timeout(timeout: u64) -> (r: Result<(), TaskError>)
    ensures
        reports(r, timeout_check(timeout)),
{
    if timeout == 0 {
        return crate::tasks::error::invalid("Timeout must be greater than 0".to_string());
    }
    Ok(())
}

} // verus!
