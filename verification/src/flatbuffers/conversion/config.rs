//! Conversions of stream sources and task configurations.
use vstd::prelude::*;
use vstd::std_specs::convert::{FromSpecImpl, TryFromSpecImpl};
use crate::flatbuffers::conversion::{ConversionError, FromFlatbuffers, ToFlatbuffers};
use crate::flatbuffers::schema;
use crate::tasks::config::{
    clone_opt_string, clone_opt_strings, env_collect, keys_distinct, lemma_env_collect_identity,
    opt_env, opt_str, opt_strs, EnvVars, StreamSource, TaskConfig, TaskConfigView,
};
use crate::tasks::security::{pairs, strs};

verus! {

/// Schema code of a stream source.
pub open spec fn stream_source_fb(s: StreamSource) -> i8 {
    match s {
        StreamSource::Stdout => 0,
        StreamSource::Stderr => 1,
    }
}

/// Stream source of a schema code; unknown codes are refused.
pub open spec fn stream_source_of_fb(c: i8) -> Result<StreamSource, ConversionError> {
    if c == 0 {
        Ok(StreamSource::Stdout)
    } else if c == 1 {
        Ok(StreamSource::Stderr)
    } else {
        Err(ConversionError::InvalidStreamSource(c))
    }
}

impl TryFrom<schema::StreamSource> for StreamSource {
    type Error = ConversionError;

    fn try_from(fb_source: schema::StreamSource) -> (r: Result<StreamSource, ConversionError>)
        ensures
            r == stream_source_of_fb(fb_source.0),
    {
        match fb_source.0 {
            0 => Ok(StreamSource::Stdout),
            1 => Ok(StreamSource::Stderr),
            _ => Err(ConversionError::InvalidStreamSource(fb_source.0)),
        }
    }
}

impl TryFromSpecImpl<schema::StreamSource> for StreamSource {
    open spec fn obeys_try_from_spec() -> bool {
        true
    }

    open spec fn try_from_spec(v: schema::StreamSource) -> Result<StreamSource, ConversionError> {
        stream_source_of_fb(v.0)
    }
}

impl From<StreamSource> for schema::StreamSource {
    fn from(source: StreamSource) -> (r: schema::StreamSource)
        ensures
            r.0 == stream_source_fb(source),
    {
        match source {
            StreamSource::Stdout => schema::StreamSource(0),
            StreamSource::Stderr => schema::StreamSource(1),
        }
    }
}

impl FromSpecImpl<StreamSource> for schema::StreamSource {
    open spec fn obeys_from_spec() -> bool {
        true
    }

    open spec fn from_spec(v: StreamSource) -> schema::StreamSource {
        schema::StreamSource(stream_source_fb(v))
    }
}

/// The mathematical content of a `TaskConfig` record.
pub struct ConfigRecordView {
    pub command: Seq<char>,
    pub args: Option<Seq<Seq<char>>>,
    pub working_dir: Option<Seq<char>>,
    pub env: Option<Seq<(Seq<char>, Seq<char>)>>,
    pub timeout_ms: u64,
    pub enable_stdin: bool,
    pub ready_indicator: Option<Seq<char>>,
    pub ready_indicator_source: i8,
    pub use_process_group: bool,
}

/// The key/value views of env entries.
pub open spec fn entries(v: Seq<schema::EnvEntry>) -> Seq<(Seq<char>, Seq<char>)> {
    v.map_values(|e: schema::EnvEntry| (e.key@, e.value@))
}

impl View for schema::TaskConfig {
    type V = ConfigRecordView;

    open spec fn view(&self) -> ConfigRecordView {
        ConfigRecordView {
            command: self.command@,
            args: opt_strs(self.args),
            working_dir: opt_str(self.working_dir),
            env: match self.env {
                Some(v) => Some(entries(v@)),
                None => None,
            },
            timeout_ms: self.timeout_ms,
            enable_stdin: self.enable_stdin,
            ready_indicator: opt_str(self.ready_indicator),
            ready_indicator_source: self.ready_indicator_source.0,
            use_process_group: self.use_process_group,
        }
    }
}

/// The record of a configuration: unset timeout becomes 0, unset flags
/// become `false`, an unset ready indicator source becomes stdout.
pub open spec fn config_record(c: TaskConfigView) -> ConfigRecordView {
    ConfigRecordView {
        command: c.command,
        args: c.args,
        working_dir: c.working_dir,
        env: c.env,
        timeout_ms: match c.timeout_ms {
            Some(t) => t,
            None => 0,
        },
        enable_stdin: c.enable_stdin == Some(true),
        ready_indicator: c.ready_indicator,
        ready_indicator_source: stream_source_fb(
            match c.ready_indicator_source {
                Some(s) => s,
                None => StreamSource::Stdout,
            },
        ),
        use_process_group: c.use_process_group == Some(true),
    }
}

/// The configuration read leniently from a record (`TryFrom`): a zero timeout
/// reads as none, flags read as set, an unknown source code reads as none,
/// and env entries are collected with each key once, its last value winning.
pub open spec fn config_of_record(f: ConfigRecordView) -> TaskConfigView {
    TaskConfigView {
        command: f.command,
        args: f.args,
        working_dir: f.working_dir,
        env: match f.env {
            Some(e) => Some(env_collect(e)),
            None => None,
        },
        timeout_ms: if f.timeout_ms == 0 { None } else { Some(f.timeout_ms) },
        enable_stdin: Some(f.enable_stdin),
        ready_indicator: f.ready_indicator,
        ready_indicator_source: match stream_source_of_fb(f.ready_indicator_source) {
            Ok(s) => Some(s),
            Err(_) => None,
        },
        use_process_group: Some(f.use_process_group),
    }
}

/// The configuration read strictly from a record (`from_flatbuffers`), given
/// that its source code is known: flags read as `Some(true)` when set and as
/// unset otherwise.
pub open spec fn config_of_record_strict(f: ConfigRecordView, source: StreamSource) -> TaskConfigView {
    TaskConfigView {
        command: f.command,
        args: f.args,
        working_dir: f.working_dir,
        env: match f.env {
            Some(e) => Some(env_collect(e)),
            None => None,
        },
        timeout_ms: if f.timeout_ms == 0 { None } else { Some(f.timeout_ms) },
        enable_stdin: if f.enable_stdin { Some(true) } else { None },
        ready_indicator: f.ready_indicator,
        ready_indicator_source: Some(source),
        use_process_group: if f.use_process_group { Some(true) } else { None },
    }
}

/// The env entries of key/value pairs, in order.
fn env_entries(v: &Vec<(String, String)>) -> (r: Vec<schema::EnvEntry>)
    ensures
        entries(r@) == pairs(v@),
{
    let mut r: Vec<schema::EnvEntry> = Vec::new();
    let mut i: usize = 0;
    while i < v.len()
        invariant
            i <= v.len(),
            r@.len() == i,
            entries(r@) == pairs(v@).take(i as int),
        decreases v.len() - i,
    {
        r.push(schema::EnvEntry { key: v[i].0.clone(), value: v[i].1.clone() });
        assert(entries(r@) =~= pairs(v@).take(i + 1));
        i = i + 1;
    }
    assert(pairs(v@).take(v.len() as int) =~= pairs(v@));
    r
}

/// The key/value pairs of env entries, in order.
fn entry_pairs(v: &Vec<schema::EnvEntry>) -> (r: Vec<(String, String)>)
    ensures
        pairs(r@) == entries(v@),
{
    let mut r: Vec<(String, String)> = Vec::new();
    let mut i: usize = 0;
    while i < v.len()
        invariant
            i <= v.len(),
            r@.len() == i,
            pairs(r@) == entries(v@).take(i as int),
        decreases v.len() - i,
    {
        r.push((v[i].key.clone(), v[i].value.clone()));
        assert(pairs(r@) =~= entries(v@).take(i + 1));
        i = i + 1;
    }
    assert(entries(v@).take(v.len() as int) =~= entries(v@));
    r
}

/// The environment of a record, each key kept once with its last value.
fn record_env(o: &Option<Vec<schema::EnvEntry>>) -> (r: Option<EnvVars>)
    ensures
        opt_env(r) == match *o {
            Some(e) => Some(env_collect(entries(e@))),
            None => None::<Seq<(Seq<char>, Seq<char>)>>,
        },
{
    match o {
        Some(e) => Some(EnvVars::from_pairs(entry_pairs(e))),
        None => None,
    }
}

impl ToFlatbuffers for TaskConfig {
    type Output = schema::TaskConfig;

    /// The record of this configuration; the environment's keys are
    /// distinct, as in every configuration.
    fn to_flatbuffers(&self) -> (r: schema::TaskConfig)
        ensures
            r@ == config_record(self@),
            self@.env matches Some(e) ==> keys_distinct(e),
    {
        let env = match &self.env {
            Some(e) => Some(env_entries(e.as_pairs())),
            None => None,
        };
        let source = match self.ready_indicator_source {
            Some(s) => s,
            None => StreamSource::Stdout,
        };
        schema::TaskConfig {
            command: self.command.clone(),
            args: clone_opt_strings(&self.args),
            working_dir: clone_opt_string(&self.working_dir),
            env,
            timeout_ms: match self.timeout_ms {
                Some(t) => t,
                None => 0,
            },
            enable_stdin: match self.enable_stdin {
                Some(b) => b,
                None => false,
            },
            ready_indicator: clone_opt_string(&self.ready_indicator),
            ready_indicator_source: schema::StreamSource::from(source),
            use_process_group: match self.use_process_group {
                Some(b) => b,
                None => false,
            },
        }
    }
}

impl TryFrom<schema::TaskConfig> for TaskConfig {
    type Error = ConversionError;

    /// Reads a configuration leniently; this never fails.
    fn try_from(fb_config: schema::TaskConfig) -> (r: Result<TaskConfig, ConversionError>)
        ensures
            r matches Ok(c) && c@ == config_of_record(fb_config@),
    {
        let env = record_env(&fb_config.env);
        let source = match StreamSource::try_from(fb_config.ready_indicator_source) {
            Ok(s) => Some(s),
            Err(_) => None,
        };
        Ok(
            TaskConfig {
                command: fb_config.command,
                args: fb_config.args,
                working_dir: fb_config.working_dir,
                env,
                timeout_ms: if fb_config.timeout_ms == 0 {
                    None
                } else {
                    Some(fb_config.timeout_ms)
                },
                enable_stdin: Some(fb_config.enable_stdin),
                ready_indicator: fb_config.ready_indicator,
                ready_indicator_source: source,
                use_process_group: Some(fb_config.use_process_group),
            },
        )
    }
}

impl TryFromSpecImpl<schema::TaskConfig> for TaskConfig {
    /// The result is stated by the `ensures` of `try_from` over views, not
    /// as a single spec value: the environment it holds is built afresh.
    open spec fn obeys_try_from_spec() -> bool {
        false
    }

    open spec fn try_from_spec(v: schema::TaskConfig) -> Result<TaskConfig, ConversionError> {
        vstd::pervasive::arbitrary()
    }
}

impl FromFlatbuffers<schema::TaskConfig> for TaskConfig {
    /// Reads a configuration strictly: an unknown source code is refused.
    fn from_flatbuffers(fb_config: schema::TaskConfig) -> (r: Result<TaskConfig, ConversionError>)
        ensures
            match stream_source_of_fb(fb_config@.ready_indicator_source) {
                Ok(s) => r matches Ok(c) && c@ == config_of_record_strict(fb_config@, s),
                Err(e) => r == Err::<TaskConfig, ConversionError>(e),
            },
    {
        let ghost f = fb_config@;
        let source = StreamSource::try_from(fb_config.ready_indicator_source)?;
        let env = record_env(&fb_config.env);
        let c = TaskConfig {
            command: fb_config.command,
            args: fb_config.args,
            working_dir: fb_config.working_dir,
            env,
            timeout_ms: if fb_config.timeout_ms == 0 {
                None
            } else {
                Some(fb_config.timeout_ms)
            },
            enable_stdin: if fb_config.enable_stdin {
                Some(true)
            } else {
                None
            },
            ready_indicator: fb_config.ready_indicator,
            ready_indicator_source: Some(source),
            use_process_group: if fb_config.use_process_group {
                Some(true)
            } else {
                None
            },
        };
        assert(c@ == config_of_record_strict(f, source));
        Ok(c)
    }
}

/// Stdout is written as code 0 and stderr as code 1.
pub proof fn stream_source_codes_law()
    ensures
        stream_source_fb(StreamSource::Stdout) == 0,
        stream_source_fb(StreamSource::Stderr) == 1,
{
}

/// Every stream source reads back as itself from its schema code.
pub proof fn stream_source_fb_roundtrip(s: StreamSource)
    ensures
        stream_source_of_fb(stream_source_fb(s)) == Ok::<StreamSource, ConversionError>(s),
{
}

/// Reading back leniently (`try_from`) the record of a configuration gives
/// the configuration, provided both flags and the stream source are set,
/// the timeout is not 0, and the environment's keys are distinct (as they
/// are in every configuration).
pub proof fn config_record_roundtrip(c: TaskConfigView)
    requires
        c.timeout_ms != Some(0u64),
        c.enable_stdin is Some,
        c.use_process_group is Some,
        c.ready_indicator_source is Some,
        c.env matches Some(e) ==> keys_distinct(e),
    ensures
        config_of_record(config_record(c)) == c,
{
    if let Some(e) = c.env {
        lemma_env_collect_identity(e);
    }
    let s = c.ready_indicator_source->0;
    stream_source_fb_roundtrip(s);
    let r = config_of_record(config_record(c));
    assert(r.env == c.env);
    assert(r.timeout_ms == c.timeout_ms);
    assert(r.enable_stdin == c.enable_stdin);
    assert(r.ready_indicator_source == c.ready_indicator_source);
    assert(r.use_process_group == c.use_process_group);
}

/// Reading back strictly (`from_flatbuffers`) the record of a configuration
/// gives the configuration, provided no flag is set to `false`, the stream
/// source is set, the timeout is not 0, and the environment's keys are
/// distinct.
pub proof fn config_record_strict_roundtrip(c: TaskConfigView)
    requires
        c.timeout_ms != Some(0u64),
        c.enable_stdin != Some(false),
        c.use_process_group != Some(false),
        c.ready_indicator_source is Some,
        c.env matches Some(e) ==> keys_distinct(e),
    ensures
        stream_source_of_fb(config_record(c).ready_indicator_source) == Ok::<
            StreamSource,
            ConversionError,
        >(c.ready_indicator_source->0),
        config_of_record_strict(config_record(c), c.ready_indicator_source->0) == c,
{
    if let Some(e) = c.env {
        lemma_env_collect_identity(e);
    }
    stream_source_fb_roundtrip(c.ready_indicator_source->0);
    let r = config_of_record_strict(config_record(c), c.ready_indicator_source->0);
    assert(r.env == c.env);
    assert(r.timeout_ms == c.timeout_ms);
    match c.enable_stdin {
        Some(b) => assert(b),
        None => {},
    }
    match c.use_process_group {
        Some(b) => assert(b),
        None => {},
    }
    assert(r.enable_stdin == c.enable_stdin);
    assert(r.use_process_group == c.use_process_group);
}

} // verus!
