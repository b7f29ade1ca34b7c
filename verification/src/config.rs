//! Benchmark configuration: the accelerator and benchmark selectors, the
//! comma-separated list options, and the validated `BenchmarkConfig`.

use core::num::ParseIntError;
use vstd::prelude::*;

use crate::text::{
    ascii_lower, join_commas, lemma_split_join_commas, chars_eq_ignore_ascii_case, chars_of, debug_str, eq_ignore_ascii_case, is_usize_literal, parse_usize,
    split_comma_bounds, split_commas, str_debug, trim, trim_bounds, usize_literal_value,
};

verus! {

pub const DEFAULT_SIZES: &'static str = "64,256,1024,4096,16384,65536,262144,1048576";

pub const DEFAULT_ITERATIONS: usize = 10_000;

pub const DEFAULT_MAX_CONCURRENCY: usize = 128;

pub const DEFAULT_SUBMIT_THREADS: usize = 1;

pub const DEFAULT_SUBMIT_BURSTS: &'static str = "1,2,4,8,16,32,64,128,256,512";

pub const DEFAULT_SUBMIT_OCCUPANCIES: &'static str =
    "0,32,64,96,112,120,124,126,127,128,129,132,136,144,160";

pub const DEFAULT_MARKER_BURSTS: &'static str = "64,96,128,160,256";

pub const DEFAULT_MARKER_POSITIONS: &'static str = "first,half,last";

pub const DEFAULT_MARKER_POLL_CADENCES: &'static str = "1,4,16,64,never";

pub const DEFAULT_MARKER_POLL_OFFSETS: &'static str = "96";

pub const DEFAULT_TRAFFIC_WINDOWS: &'static str = "1,8,32,64,96,112,120,124,128,160,256";

pub const DEFAULT_TRAFFIC_CLASSES: &'static str =
    "submit-only,noop-completion,memmove64,memmove4k";

pub const DEFAULT_COMPLETION_REUSE_POLICIES: &'static str =
    "packed-scan,padded-round-robin,poll-only,delayed-reset,batch-harvest";

pub const DEFAULT_COMPLETION_REUSE_WINDOW: usize = 128;

/// A selector whose values are written on the command line by name.
pub trait ValueName: Sized + Copy {
    /// Every value, in declaration order.
    spec fn spec_variants() -> Seq<Self>;

    /// The command-line name of a value.
    spec fn spec_value_name(self) -> Seq<char>;

    fn variants() -> (v: Vec<Self>)
        ensures
            v@ == Self::spec_variants(),
    ;

    fn value_name(self) -> (s: &'static str)
        ensures
            s@ == self.spec_value_name(),
    ;
}

/// The first value in `vs` whose name equals `token` up to ASCII case.
pub open spec fn find_variant<T: ValueName>(vs: Seq<T>, token: Seq<char>) -> Option<T>
    decreases vs.len(),
{
    if vs.len() == 0 {
        None
    } else if eq_ignore_ascii_case(token, vs[0].spec_value_name()) {
        Some(vs[0])
    } else {
        find_variant(vs.drop_first(), token)
    }
}

/// The value named by `token`, ignoring ASCII case.
pub open spec fn value_named<T: ValueName>(token: Seq<char>) -> Option<T> {
    find_variant(T::spec_variants(), token)
}

#[derive(Copy, Clone, Debug, PartialEq, Eq, Structural)]
pub enum AccelKind {
    Dsa,
    Iax,
}

impl AccelKind {
    pub open spec fn spec_name(self) -> Seq<char> {
        match self {
            AccelKind::Dsa => "dsa"@,
            AccelKind::Iax => "iax"@,
        }
    }

    pub fn as_str(self) -> (s: &'static str)
        ensures
            s@ == self.spec_name(),
    {
        match self {
            AccelKind::Dsa => "dsa",
            AccelKind::Iax => "iax",
        }
    }
}

#[derive(Copy, Clone, Debug, PartialEq, Eq, Structural)]
pub enum BenchmarkKind {
    All,
    SubmitOnly,
    SubmitAdmission,
    SubmitOccupancy,
    SubmitMarkerOverlap,
    SubmitMarkerMechanism,
    TrafficClassLadder,
    CompletionReusePolicy,
}

impl BenchmarkKind {
    pub open spec fn spec_name(self) -> Seq<char> {
        match self {
            BenchmarkKind::All => "all"@,
            BenchmarkKind::SubmitOnly => "submit-only"@,
            BenchmarkKind::SubmitAdmission => "submit-admission"@,
            BenchmarkKind::SubmitOccupancy => "submit-occupancy"@,
            BenchmarkKind::SubmitMarkerOverlap => "submit-marker-overlap"@,
            BenchmarkKind::SubmitMarkerMechanism => "submit-marker-mechanism"@,
            BenchmarkKind::TrafficClassLadder => "traffic-class-ladder"@,
            BenchmarkKind::CompletionReusePolicy => "completion-reuse-policy"@,
        }
    }

    pub fn as_str(self) -> (s: &'static str)
        ensures
            s@ == self.spec_name(),
    {
        match self {
            BenchmarkKind::All => "all",
            BenchmarkKind::SubmitOnly => "submit-only",
            BenchmarkKind::SubmitAdmission => "submit-admission",
            BenchmarkKind::SubmitOccupancy => "submit-occupancy",
            BenchmarkKind::SubmitMarkerOverlap => "submit-marker-overlap",
            BenchmarkKind::SubmitMarkerMechanism => "submit-marker-mechanism",
            BenchmarkKind::TrafficClassLadder => "traffic-class-ladder",
            BenchmarkKind::CompletionReusePolicy => "completion-reuse-policy",
        }
    }

    /// The submission-bottleneck benchmarks, which only the DSA backend runs.
    pub open spec fn spec_is_dsa_only(self) -> bool {
        !(self is All)
    }

    pub fn is_dsa_only(self) -> (b: bool)
        ensures
            b == self.spec_is_dsa_only(),
    {
        match self {
            BenchmarkKind::All => false,
            _ => true,
        }
    }
}

#[derive(Copy, Clone, Debug, PartialEq, Eq, Structural)]
pub enum SubmitOnlyMode {
    All,
    Unloaded,
    Sustained,
    Mfence,
}

#[derive(Copy, Clone, Debug, PartialEq, Eq, Structural)]
pub enum DsaOperationClass {
    Noop,
    Memmove64,
    Memmove4k,
}

impl DsaOperationClass {
    pub open spec fn spec_name(self) -> Seq<char> {
        match self {
            DsaOperationClass::Noop => "noop"@,
            DsaOperationClass::Memmove64 => "memmove64"@,
            DsaOperationClass::Memmove4k => "memmove4k"@,
        }
    }

    pub fn as_str(self) -> (s: &'static str)
        ensures
            s@ == self.spec_name(),
    {
        match self {
            DsaOperationClass::Noop => "noop",
            DsaOperationClass::Memmove64 => "memmove64",
            DsaOperationClass::Memmove4k => "memmove4k",
        }
    }

    /// The bytes one operation of the class moves.
    pub open spec fn spec_payload_size(self) -> usize {
        match self {
            DsaOperationClass::Noop => 0,
            DsaOperationClass::Memmove64 => 64,
            DsaOperationClass::Memmove4k => 4096,
        }
    }

    pub fn payload_size(self) -> (n: usize)
        ensures
            n == self.spec_payload_size(),
    {
        match self {
            DsaOperationClass::Noop => 0,
            DsaOperationClass::Memmove64 => 64,
            DsaOperationClass::Memmove4k => 4096,
        }
    }
}

#[derive(Copy, Clone, Debug, PartialEq, Eq, Structural)]
pub enum MarkerPosition {
    First,
    Half,
    Last,
}

impl MarkerPosition {
    pub open spec fn spec_name(self) -> Seq<char> {
        match self {
            MarkerPosition::First => "first"@,
            MarkerPosition::Half => "half"@,
            MarkerPosition::Last => "last"@,
        }
    }

    pub fn as_str(self) -> (s: &'static str)
        ensures
            s@ == self.spec_name(),
    {
        match self {
            MarkerPosition::First => "first",
            MarkerPosition::Half => "half",
            MarkerPosition::Last => "last",
        }
    }

    /// The submit index of the marker in a burst of `n`: the first, the
    /// middle (`n / 2`) or the last (`n - 1`, and 0 for an empty burst).
    pub open spec fn spec_index(self, n: usize) -> usize {
        match self {
            MarkerPosition::First => 0,
            MarkerPosition::Half => n / 2,
            MarkerPosition::Last => if n == 0 {
                0
            } else {
                (n - 1) as usize
            },
        }
    }

    pub fn to_index(self, n: usize) -> (i: usize)
        ensures
            i == self.spec_index(n),
            n > 0 ==> i < n,
    {
        match self {
            MarkerPosition::First => 0,
            MarkerPosition::Half => n / 2,
            MarkerPosition::Last => n.saturating_sub(1),
        }
    }
}

#[derive(Copy, Clone, Debug, PartialEq, Eq, Structural)]
pub enum MarkerPollCadence {
    Every(usize),
    Never,
}

#[derive(Copy, Clone, Debug, PartialEq, Eq, Structural)]
pub enum TrafficClass {
    SubmitOnly,
    NoopCompletion,
    Memmove64,
    Memmove4k,
}

impl TrafficClass {
    pub open spec fn spec_name(self) -> Seq<char> {
        match self {
            TrafficClass::SubmitOnly => "submit-only"@,
            TrafficClass::NoopCompletion => "noop-completion"@,
            TrafficClass::Memmove64 => "memmove64"@,
            TrafficClass::Memmove4k => "memmove4k"@,
        }
    }

    pub fn as_str(self) -> (s: &'static str)
        ensures
            s@ == self.spec_name(),
    {
        match self {
            TrafficClass::SubmitOnly => "submit-only",
            TrafficClass::NoopCompletion => "noop-completion",
            TrafficClass::Memmove64 => "memmove64",
            TrafficClass::Memmove4k => "memmove4k",
        }
    }

    /// The operation a traffic class submits: no-ops for the submit-only
    /// and no-op classes, moves of the named size otherwise.
    pub open spec fn spec_operation(self) -> DsaOperationClass {
        match self {
            TrafficClass::SubmitOnly | TrafficClass::NoopCompletion => DsaOperationClass::Noop,
            TrafficClass::Memmove64 => DsaOperationClass::Memmove64,
            TrafficClass::Memmove4k => DsaOperationClass::Memmove4k,
        }
    }

    pub fn operation(self) -> (op: DsaOperationClass)
        ensures
            op == self.spec_operation(),
    {
        match self {
            TrafficClass::SubmitOnly | TrafficClass::NoopCompletion => DsaOperationClass::Noop,
            TrafficClass::Memmove64 => DsaOperationClass::Memmove64,
            TrafficClass::Memmove4k => DsaOperationClass::Memmove4k,
        }
    }

    /// The bytes each operation of the class moves.
    pub fn operation_size(self) -> (n: usize)
        ensures
            n == self.spec_operation().spec_payload_size(),
    {
        self.operation().payload_size()
    }
}

#[derive(Copy, Clone, Debug, PartialEq, Eq, Structural)]
pub enum CompletionReusePolicy {
    PackedScan,
    PaddedRoundRobin,
    PollOnly,
    DelayedReset,
    BatchHarvest,
}

impl CompletionReusePolicy {
    pub open spec fn spec_name(self) -> Seq<char> {
        match self {
            CompletionReusePolicy::PackedScan => "packed-scan"@,
            CompletionReusePolicy::PaddedRoundRobin => "padded-round-robin"@,
            CompletionReusePolicy::PollOnly => "poll-only"@,
            CompletionReusePolicy::DelayedReset => "delayed-reset"@,
            CompletionReusePolicy::BatchHarvest => "batch-harvest"@,
        }
    }

    pub fn as_str(self) -> (s: &'static str)
        ensures
            s@ == self.spec_name(),
    {
        match self {
            CompletionReusePolicy::PackedScan => "packed-scan",
            CompletionReusePolicy::PaddedRoundRobin => "padded-round-robin",
            CompletionReusePolicy::PollOnly => "poll-only",
            CompletionReusePolicy::DelayedReset => "delayed-reset",
            CompletionReusePolicy::BatchHarvest => "batch-harvest",
        }
    }
}

impl ValueName for MarkerPosition {
    open spec fn spec_variants() -> Seq<Self> {
        seq![MarkerPosition::First, MarkerPosition::Half, MarkerPosition::Last]
    }

    open spec fn spec_value_name(self) -> Seq<char> {
        self.spec_name()
    }

    fn variants() -> (v: Vec<Self>) {
        let v = vec![MarkerPosition::First, MarkerPosition::Half, MarkerPosition::Last];
        assert(v@ =~= Self::spec_variants());
        v
    }

    fn value_name(self) -> (s: &'static str) {
        self.as_str()
    }
}

impl ValueName for TrafficClass {
    open spec fn spec_variants() -> Seq<Self> {
        seq![
            TrafficClass::SubmitOnly,
            TrafficClass::NoopCompletion,
            TrafficClass::Memmove64,
            TrafficClass::Memmove4k,
        ]
    }

    open spec fn spec_value_name(self) -> Seq<char> {
        self.spec_name()
    }

    fn variants() -> (v: Vec<Self>) {
        let v = vec![
            TrafficClass::SubmitOnly,
            TrafficClass::NoopCompletion,
            TrafficClass::Memmove64,
            TrafficClass::Memmove4k,
        ];
        assert(v@ =~= Self::spec_variants());
        v
    }

    fn value_name(self) -> (s: &'static str) {
        self.as_str()
    }
}

impl ValueName for CompletionReusePolicy {
    open spec fn spec_variants() -> Seq<Self> {
        seq![
            CompletionReusePolicy::PackedScan,
            CompletionReusePolicy::PaddedRoundRobin,
            CompletionReusePolicy::PollOnly,
            CompletionReusePolicy::DelayedReset,
            CompletionReusePolicy::BatchHarvest,
        ]
    }

    open spec fn spec_value_name(self) -> Seq<char> {
        self.spec_name()
    }

    fn variants() -> (v: Vec<Self>) {
        let v = vec![
            CompletionReusePolicy::PackedScan,
            CompletionReusePolicy::PaddedRoundRobin,
            CompletionReusePolicy::PollOnly,
            CompletionReusePolicy::DelayedReset,
            CompletionReusePolicy::BatchHarvest,
        ];
        assert(v@ =~= Self::spec_variants());
        v
    }

    fn value_name(self) -> (s: &'static str) {
        self.as_str()
    }
}

/// What a configuration error says, without the parse error it carries.
pub ghost enum ConfigFault {
    EmptyList { flag: Seq<char>, raw: Seq<char> },
    EmptyListToken { flag: Seq<char>, raw: Seq<char> },
    InvalidListEntry { flag: Seq<char>, raw: Seq<char>, token: Seq<char> },
    ZeroListEntry { flag: Seq<char>, raw: Seq<char> },
    ZeroThreads,
    UnsupportedBenchmark { benchmark: Seq<char>, accel: Seq<char> },
    InvalidEnumEntry { flag: Seq<char>, raw: Seq<char>, token: Seq<char> },
}

#[derive(Debug)]
pub enum BenchmarkConfigError {
    EmptyList { flag: &'static str, raw: String },
    EmptyListToken { flag: &'static str, raw: String },
    InvalidListEntry { flag: &'static str, raw: String, token: String, source: ParseIntError },
    ZeroListEntry { flag: &'static str, raw: String },
    ZeroThreads,
    UnsupportedBenchmark { benchmark: &'static str, accel: &'static str },
    InvalidEnumEntry { flag: &'static str, raw: String, token: String },
}

impl View for BenchmarkConfigError {
    type V = ConfigFault;

    open spec fn view(&self) -> ConfigFault {
        match self {
            BenchmarkConfigError::EmptyList { flag, raw } => ConfigFault::EmptyList {
                flag: flag@,
                raw: raw@,
            },
            BenchmarkConfigError::EmptyListToken { flag, raw } => ConfigFault::EmptyListToken {
                flag: flag@,
                raw: raw@,
            },
            BenchmarkConfigError::InvalidListEntry {
                flag,
                raw,
                token,
                source,
            } => ConfigFault::InvalidListEntry { flag: flag@, raw: raw@, token: token@ },
            BenchmarkConfigError::ZeroListEntry { flag, raw } => ConfigFault::ZeroListEntry {
                flag: flag@,
                raw: raw@,
            },
            BenchmarkConfigError::ZeroThreads => ConfigFault::ZeroThreads,
            BenchmarkConfigError::UnsupportedBenchmark {
                benchmark,
                accel,
            } => ConfigFault::UnsupportedBenchmark { benchmark: benchmark@, accel: accel@ },
            BenchmarkConfigError::InvalidEnumEntry {
                flag,
                raw,
                token,
            } => ConfigFault::InvalidEnumEntry { flag: flag@, raw: raw@, token: token@ },
        }
    }
}

/// The message each configuration error displays.
pub open spec fn fault_message(f: ConfigFault) -> Seq<char> {
    match f {
        ConfigFault::EmptyList { flag, raw } => flag + " must contain at least one integer (got "@
            + str_debug(raw) + ")"@,
        ConfigFault::EmptyListToken { flag, raw } => flag
            + " must not contain empty entries (got "@ + str_debug(raw) + ")"@,
        ConfigFault::InvalidListEntry { flag, raw, token } => "invalid "@ + flag + " entry "@
            + str_debug(token) + " in "@ + str_debug(raw) + "; expected integers"@,
        ConfigFault::ZeroListEntry { flag, raw } => flag
            + " entries must be positive integers greater than zero (got "@ + str_debug(raw)
            + ")"@,
        ConfigFault::ZeroThreads => "--threads must be greater than zero"@,
        ConfigFault::UnsupportedBenchmark { benchmark, accel } => "--benchmark "@ + benchmark
            + " is not supported for --accel "@ + accel,
        ConfigFault::InvalidEnumEntry { flag, raw, token } => "invalid "@ + flag + " entry "@
            + str_debug(token) + " in "@ + str_debug(raw),
    }
}

impl BenchmarkConfigError {
    /// The text this error displays.
    pub fn message(&self) -> (m: String)
        ensures
            m@ == fault_message(self@),
    {
        let mut m = String::new();
        match self {
            BenchmarkConfigError::EmptyList { flag, raw } => {
                m.append(flag);
                m.append(" must contain at least one integer (got ");
                m.append(debug_str(raw.as_str()).as_str());
                m.append(")");
            },
            BenchmarkConfigError::EmptyListToken { flag, raw } => {
                m.append(flag);
                m.append(" must not contain empty entries (got ");
                m.append(debug_str(raw.as_str()).as_str());
                m.append(")");
            },
            BenchmarkConfigError::InvalidListEntry { flag, raw, token, source } => {
                m.append("invalid ");
                m.append(flag);
                m.append(" entry ");
                m.append(debug_str(token.as_str()).as_str());
                m.append(" in ");
                m.append(debug_str(raw.as_str()).as_str());
                m.append("; expected integers");
            },
            BenchmarkConfigError::ZeroListEntry { flag, raw } => {
                m.append(flag);
                m.append(" entries must be positive integers greater than zero (got ");
                m.append(debug_str(raw.as_str()).as_str());
                m.append(")");
            },
            BenchmarkConfigError::ZeroThreads => {
                m.append("--threads must be greater than zero");
            },
            BenchmarkConfigError::UnsupportedBenchmark { benchmark, accel } => {
                m.append("--benchmark ");
                m.append(benchmark);
                m.append(" is not supported for --accel ");
                m.append(accel);
            },
            BenchmarkConfigError::InvalidEnumEntry { flag, raw, token } => {
                m.append("invalid ");
                m.append(flag);
                m.append(" entry ");
                m.append(debug_str(token.as_str()).as_str());
                m.append(" in ");
                m.append(debug_str(raw.as_str()).as_str());
            },
        }
        assert(m@ =~= fault_message(self@));
        m
    }

    /// The underlying parse error: present exactly for a malformed integer.
    pub fn source(&self) -> (s: Option<&ParseIntError>)
        ensures
            s is Some <==> self@ is InvalidListEntry,
    {
        match self {
            BenchmarkConfigError::InvalidListEntry { source, .. } => Some(source),
            _ => None,
        }
    }
}

/// Folds per-token outcomes into the outcome of the whole list: the values
/// in order, or the first token's error.
pub open spec fn collect_results<T>(items: Seq<Result<T, ConfigFault>>) -> Result<
    Seq<T>,
    ConfigFault,
>
    decreases items.len(),
{
    if items.len() == 0 {
        Ok(Seq::empty())
    } else {
        match items[0] {
            Err(e) => Err(e),
            Ok(v) => match collect_results(items.drop_first()) {
                Ok(vs) => Ok(seq![v] + vs),
                Err(e) => Err(e),
            },
        }
    }
}

/// `prefix` placed before the values of `r`, errors passing through.
pub open spec fn prepend_values<T>(prefix: Seq<T>, r: Result<Seq<T>, ConfigFault>) -> Result<
    Seq<T>,
    ConfigFault,
> {
    match r {
        Ok(vs) => Ok(prefix + vs),
        Err(e) => Err(e),
    }
}

/// An empty list of values is itself an error.
pub open spec fn require_nonempty<T>(
    r: Result<Seq<T>, ConfigFault>,
    flag: Seq<char>,
    raw: Seq<char>,
) -> Result<Seq<T>, ConfigFault> {
    match r {
        Ok(vs) => if vs.len() == 0 {
            Err(ConfigFault::EmptyList { flag, raw })
        } else {
            Ok(vs)
        },
        Err(e) => Err(e),
    }
}

proof fn lemma_collect_start<T>(items: Seq<Result<T, ConfigFault>>)
    ensures
        collect_results(items) == prepend_values(Seq::<T>::empty(), collect_results(
            items.skip(0),
        )),
{
    assert(items.skip(0) =~= items);
    match collect_results(items) {
        Ok(vs) => {
            assert(Seq::<T>::empty() + vs =~= vs);
        },
        Err(e) => {},
    }
}

proof fn lemma_collect_step<T>(items: Seq<Result<T, ConfigFault>>, i: int, done: Seq<T>)
    requires
        0 <= i < items.len(),
        collect_results(items) == prepend_values(done, collect_results(items.skip(i))),
    ensures
        items[i] matches Ok(v) ==> collect_results(items) == prepend_values(
            done.push(v),
            collect_results(items.skip(i + 1)),
        ),
        items[i] matches Err(e) ==> collect_results(items) == Err::<Seq<T>, ConfigFault>(e),
{
    let rest = items.skip(i);
    assert(rest[0] == items[i]);
    assert(rest.drop_first() =~= items.skip(i + 1));
    match items[i] {
        Ok(v) => {
            match collect_results(items.skip(i + 1)) {
                Ok(vs) => {
                    assert(done + (seq![v] + vs) =~= done.push(v) + vs);
                },
                Err(e) => {},
            }
        },
        Err(e) => {},
    }
}

proof fn lemma_collect_end<T>(items: Seq<Result<T, ConfigFault>>, done: Seq<T>)
    requires
        collect_results(items) == prepend_values(done, collect_results(items.skip(items.len() as int))),
    ensures
        collect_results(items) == Ok::<Seq<T>, ConfigFault>(done),
{
    assert(items.skip(items.len() as int) =~= Seq::<Result<T, ConfigFault>>::empty());
    assert(done + Seq::<T>::empty() =~= done);
}

/// The outcome for one piece of an integer list.
pub open spec fn usize_token_outcome(
    piece: Seq<char>,
    flag: Seq<char>,
    raw: Seq<char>,
    require_positive: bool,
) -> Result<usize, ConfigFault> {
    let t = trim(piece);
    if t.len() == 0 {
        Err(ConfigFault::EmptyListToken { flag, raw })
    } else if !is_usize_literal(t) {
        Err(ConfigFault::InvalidListEntry { flag, raw, token: t })
    } else if require_positive && usize_literal_value(t) == 0 {
        Err(ConfigFault::ZeroListEntry { flag, raw })
    } else {
        Ok(usize_literal_value(t) as usize)
    }
}

/// The outcome of parsing `raw` as a comma-separated list of integers.
pub open spec fn spec_usize_list(raw: Seq<char>, flag: Seq<char>, require_positive: bool) -> Result<
    Seq<usize>,
    ConfigFault,
> {
    require_nonempty(
        collect_results(
            split_commas(raw).map_values(
                |piece: Seq<char>| usize_token_outcome(piece, flag, raw, require_positive),
            ),
        ),
        flag,
        raw,
    )
}

/// The outcome for one piece of a poll-cadence list.
pub open spec fn cadence_token_outcome(piece: Seq<char>, flag: Seq<char>, raw: Seq<char>) -> Result<
    MarkerPollCadence,
    ConfigFault,
> {
    let t = trim(piece);
    if t.len() == 0 {
        Err(ConfigFault::EmptyListToken { flag, raw })
    } else if eq_ignore_ascii_case(t, "never"@) {
        Ok(MarkerPollCadence::Never)
    } else if !is_usize_literal(t) {
        Err(ConfigFault::InvalidListEntry { flag, raw, token: t })
    } else if usize_literal_value(t) == 0 {
        Err(ConfigFault::ZeroListEntry { flag, raw })
    } else {
        Ok(MarkerPollCadence::Every(usize_literal_value(t) as usize))
    }
}

/// The outcome for one piece of a list of named values.
pub open spec fn enum_token_outcome<T: ValueName>(
    piece: Seq<char>,
    flag: Seq<char>,
    raw: Seq<char>,
) -> Result<T, ConfigFault> {
    let t = trim(piece);
    if t.len() == 0 {
        Err(ConfigFault::EmptyListToken { flag, raw })
    } else {
        match value_named::<T>(t) {
            Some(v) => Ok(v),
            None => Err(ConfigFault::InvalidEnumEntry { flag, raw, token: t }),
        }
    }
}

/// The outcome of parsing `raw` as a comma-separated list of named values.
pub open spec fn spec_enum_list<T: ValueName>(raw: Seq<char>, flag: Seq<char>) -> Result<
    Seq<T>,
    ConfigFault,
> {
    require_nonempty(
        collect_results(
            split_commas(raw).map_values(
                |piece: Seq<char>| enum_token_outcome::<T>(piece, flag, raw),
            ),
        ),
        flag,
        raw,
    )
}

/// The outcome of parsing `raw` as a comma-separated list of poll cadences.
pub open spec fn spec_cadence_list(raw: Seq<char>) -> Result<Seq<MarkerPollCadence>, ConfigFault> {
    let flag = "--marker-poll-cadences"@;
    require_nonempty(
        collect_results(
            split_commas(raw).map_values(
                |piece: Seq<char>| cadence_token_outcome(piece, flag, raw),
            ),
        ),
        flag,
        raw,
    )
}

/// A list that collects without error holds one value per item, in order.
proof fn lemma_collect_ok<T>(items: Seq<Result<T, ConfigFault>>, vs: Seq<T>)
    requires
        collect_results(items) == Ok::<Seq<T>, ConfigFault>(vs),
    ensures
        vs.len() == items.len(),
        forall|i: int| 0 <= i < items.len() ==> items[i] == Ok::<T, ConfigFault>(#[trigger] vs[i]),
    decreases items.len(),
{
    if items.len() > 0 {
        match items[0] {
            Ok(v) => {
                let rest = collect_results(items.drop_first());
                let tail = rest->Ok_0;
                lemma_collect_ok(items.drop_first(), tail);
                assert(vs == seq![v] + tail);
                assert forall|i: int| 0 <= i < items.len() implies items[i] == Ok::<
                    T,
                    ConfigFault,
                >(#[trigger] vs[i]) by {
                    if i > 0 {
                        assert(items[i] == items.drop_first()[i - 1]);
                    }
                }
            },
            Err(e) => {},
        }
    }
}

/// A list of positive integers that parses is not empty and holds no zero.
pub proof fn law_positive_list_entries(raw: Seq<char>, flag: Seq<char>)
    ensures
        spec_usize_list(raw, flag, true) matches Ok(vs) ==> vs.len() > 0 && forall|i: int|
            0 <= i < vs.len() ==> #[trigger] vs[i] > 0,
{
    let items = split_commas(raw).map_values(
        |piece: Seq<char>| usize_token_outcome(piece, flag, raw, true),
    );
    if let Ok(vs) = collect_results(items) {
        lemma_collect_ok(items, vs);
        assert forall|i: int| 0 <= i < vs.len() implies #[trigger] vs[i] > 0 by {
            let t = trim(split_commas(raw)[i]);
            assert(items[i] == usize_token_outcome(split_commas(raw)[i], flag, raw, true));
            assert(items[i] == Ok::<usize, ConfigFault>(vs[i]));
            assert(is_usize_literal(t));
            assert(usize_literal_value(t) != 0);
        }
    }
}

/// Every marker position, traffic class and reuse policy is read back from
/// its own name: no other value's name matches it, even ignoring case.
#[verifier::spinoff_prover]
pub proof fn law_value_names_read_back(
    position: MarkerPosition,
    class: TrafficClass,
    policy: CompletionReusePolicy,
)
    ensures
        value_named::<MarkerPosition>(position.spec_name()) == Some(position),
        value_named::<TrafficClass>(class.spec_name()) == Some(class),
        value_named::<CompletionReusePolicy>(policy.spec_name()) == Some(policy),
{
    reveal_strlit("first");
    reveal_strlit("half");
    reveal_strlit("last");
    reveal_strlit("submit-only");
    reveal_strlit("noop-completion");
    reveal_strlit("memmove64");
    reveal_strlit("memmove4k");
    reveal_strlit("packed-scan");
    reveal_strlit("padded-round-robin");
    reveal_strlit("poll-only");
    reveal_strlit("delayed-reset");
    reveal_strlit("batch-harvest");
    reveal_with_fuel(find_variant, 6);
    let pn = position.spec_name();
    assert(eq_ignore_ascii_case(pn, pn));
    assert(ascii_lower(pn[0]) == ascii_lower(position.spec_name()[0]));
    let cn = class.spec_name();
    assert(eq_ignore_ascii_case(cn, cn));
    assert(ascii_lower(cn[7]) == ascii_lower(class.spec_name()[7]));
    let rn = policy.spec_name();
    assert(eq_ignore_ascii_case(rn, rn));
    assert(ascii_lower(rn[0]) == ascii_lower(policy.spec_name()[0]));
    assert(ascii_lower(rn[1]) == ascii_lower(policy.spec_name()[1]));
    assert(ascii_lower(rn[2]) == ascii_lower(policy.spec_name()[2]));
}

/// Tokens equal up to ASCII case name the same value.
proof fn lemma_find_variant_ignores_case<T: ValueName>(vs: Seq<T>, a: Seq<char>, b: Seq<char>)
    requires
        eq_ignore_ascii_case(a, b),
    ensures
        find_variant(vs, a) == find_variant(vs, b),
    decreases vs.len(),
{
    if vs.len() > 0 {
        let n = vs[0].spec_value_name();
        assert(eq_ignore_ascii_case(a, n) == eq_ignore_ascii_case(b, n)) by {
            if eq_ignore_ascii_case(a, n) {
                assert forall|i: int| 0 <= i < b.len() implies #[trigger] ascii_lower(b[i])
                    == ascii_lower(n[i]) by {
                    assert(ascii_lower(a[i]) == ascii_lower(b[i]));
                    assert(ascii_lower(a[i]) == ascii_lower(n[i]));
                }
            }
            if eq_ignore_ascii_case(b, n) {
                assert forall|i: int| 0 <= i < a.len() implies #[trigger] ascii_lower(a[i])
                    == ascii_lower(n[i]) by {
                    assert(ascii_lower(a[i]) == ascii_lower(b[i]));
                    assert(ascii_lower(b[i]) == ascii_lower(n[i]));
                }
            }
        }
        lemma_find_variant_ignores_case(vs.drop_first(), a, b);
    }
}

/// Outcomes that are all values collect into those values.
proof fn lemma_collect_all_ok<T>(items: Seq<Result<T, ConfigFault>>, vs: Seq<T>)
    requires
        items.len() == vs.len(),
        forall|k: int| 0 <= k < items.len() ==> #[trigger] items[k] == Ok::<T, ConfigFault>(vs[k]),
    ensures
        collect_results(items) == Ok::<Seq<T>, ConfigFault>(vs),
    decreases items.len(),
{
    if items.len() > 0 {
        let rest = items.drop_first();
        assert forall|k: int| 0 <= k < rest.len() implies #[trigger] rest[k] == Ok::<
            T,
            ConfigFault,
        >(vs.drop_first()[k]) by {
            assert(rest[k] == items[k + 1]);
        }
        lemma_collect_all_ok(rest, vs.drop_first());
        assert(items[0] == Ok::<T, ConfigFault>(vs[0]));
        assert(seq![vs[0]] + vs.drop_first() =~= vs);
        assert(collect_results(items) == Ok::<Seq<T>, ConfigFault>(seq![vs[0]] + vs.drop_first()));
    } else {
        assert(vs =~= Seq::<T>::empty());
    }
}

/// Comma-joined tokens, each naming a value after trimming, parse to those
/// values.
proof fn lemma_enum_list_of_tokens<T: ValueName>(
    tokens: Seq<Seq<char>>,
    values: Seq<T>,
    flag: Seq<char>,
)
    requires
        values.len() > 0,
        tokens.len() == values.len(),
        forall|k: int| 0 <= k < tokens.len() ==> !(#[trigger] tokens[k]).contains(','),
        forall|k: int|
            0 <= k < tokens.len() ==> trim(#[trigger] tokens[k]).len() > 0 && value_named::<T>(
                trim(tokens[k]),
            ) == Some(values[k]),
    ensures
        spec_enum_list::<T>(join_commas(tokens), flag) == Ok::<Seq<T>, ConfigFault>(values),
{
    let raw = join_commas(tokens);
    lemma_split_join_commas(tokens);
    let items = split_commas(raw).map_values(
        |piece: Seq<char>| enum_token_outcome::<T>(piece, flag, raw),
    );
    assert forall|k: int| 0 <= k < items.len() implies #[trigger] items[k] == Ok::<
        T,
        ConfigFault,
    >(values[k]) by {
        assert(split_commas(raw)[k] == tokens[k]);
    }
    lemma_collect_all_ok(items, values);
}

/// Every name of a value is non-empty.
proof fn lemma_names_nonempty(p: MarkerPosition, c: TrafficClass, r: CompletionReusePolicy)
    ensures
        p.spec_name().len() > 0,
        c.spec_name().len() > 0,
        r.spec_name().len() > 0,
{
    reveal_strlit("first");
    reveal_strlit("half");
    reveal_strlit("last");
    reveal_strlit("submit-only");
    reveal_strlit("noop-completion");
    reveal_strlit("memmove64");
    reveal_strlit("memmove4k");
    reveal_strlit("packed-scan");
    reveal_strlit("padded-round-robin");
    reveal_strlit("poll-only");
    reveal_strlit("delayed-reset");
    reveal_strlit("batch-harvest");
}

/// A list of marker positions written by name, joined with commas, each
/// name in any ASCII case and with any white space around it, parses back
/// to those positions.
pub proof fn law_marker_position_lists_read_back(
    values: Seq<MarkerPosition>,
    tokens: Seq<Seq<char>>,
)
    requires
        values.len() > 0,
        tokens.len() == values.len(),
        forall|k: int|
            0 <= k < tokens.len() ==> !(#[trigger] tokens[k]).contains(',') && eq_ignore_ascii_case(
                trim(tokens[k]),
                values[k].spec_name(),
            ),
    ensures
        spec_parse_marker_positions(join_commas(tokens)) == Ok::<Seq<MarkerPosition>, ConfigFault>(
            values,
        ),
{
    assert forall|k: int| 0 <= k < tokens.len() implies trim(#[trigger] tokens[k]).len() > 0
        && value_named::<MarkerPosition>(trim(tokens[k])) == Some(values[k]) by {
        law_value_names_read_back(values[k], TrafficClass::SubmitOnly, CompletionReusePolicy::PollOnly);
        lemma_names_nonempty(values[k], TrafficClass::SubmitOnly, CompletionReusePolicy::PollOnly);
        lemma_find_variant_ignores_case(
            MarkerPosition::spec_variants(),
            trim(tokens[k]),
            values[k].spec_name(),
        );
    }
    lemma_enum_list_of_tokens(tokens, values, "--marker-positions"@);
}

/// A list of traffic classes written by name, joined with commas, each
/// name in any ASCII case and with any white space around it, parses back
/// to those classes.
pub proof fn law_traffic_class_lists_read_back(values: Seq<TrafficClass>, tokens: Seq<Seq<char>>)
    requires
        values.len() > 0,
        tokens.len() == values.len(),
        forall|k: int|
            0 <= k < tokens.len() ==> !(#[trigger] tokens[k]).contains(',') && eq_ignore_ascii_case(
                trim(tokens[k]),
                values[k].spec_name(),
            ),
    ensures
        spec_parse_traffic_classes(join_commas(tokens)) == Ok::<Seq<TrafficClass>, ConfigFault>(
            values,
        ),
{
    assert forall|k: int| 0 <= k < tokens.len() implies trim(#[trigger] tokens[k]).len() > 0
        && value_named::<TrafficClass>(trim(tokens[k])) == Some(values[k]) by {
        law_value_names_read_back(MarkerPosition::First, values[k], CompletionReusePolicy::PollOnly);
        lemma_names_nonempty(MarkerPosition::First, values[k], CompletionReusePolicy::PollOnly);
        lemma_find_variant_ignores_case(
            TrafficClass::spec_variants(),
            trim(tokens[k]),
            values[k].spec_name(),
        );
    }
    lemma_enum_list_of_tokens(tokens, values, "--traffic-classes"@);
}

/// A list of reuse policies written by name, joined with commas, each name
/// in any ASCII case and with any white space around it, parses back to
/// those policies.
pub proof fn law_reuse_policy_lists_read_back(
    values: Seq<CompletionReusePolicy>,
    tokens: Seq<Seq<char>>,
)
    requires
        values.len() > 0,
        tokens.len() == values.len(),
        forall|k: int|
            0 <= k < tokens.len() ==> !(#[trigger] tokens[k]).contains(',') && eq_ignore_ascii_case(
                trim(tokens[k]),
                values[k].spec_name(),
            ),
    ensures
        spec_parse_completion_reuse_policies(join_commas(tokens)) == Ok::<
            Seq<CompletionReusePolicy>,
            ConfigFault,
        >(values),
{
    assert forall|k: int| 0 <= k < tokens.len() implies trim(#[trigger] tokens[k]).len() > 0
        && value_named::<CompletionReusePolicy>(trim(tokens[k])) == Some(values[k]) by {
        law_value_names_read_back(MarkerPosition::First, TrafficClass::SubmitOnly, values[k]);
        lemma_names_nonempty(MarkerPosition::First, TrafficClass::SubmitOnly, values[k]);
        lemma_find_variant_ignores_case(
            CompletionReusePolicy::spec_variants(),
            trim(tokens[k]),
            values[k].spec_name(),
        );
    }
    lemma_enum_list_of_tokens(tokens, values, "--completion-reuse-policies"@);
}

/// Every poll cadence that parses polls at a positive interval, so every
/// parsed cadence can be handed to `should_poll_marker`.
pub proof fn law_cadences_are_positive(raw: Seq<char>)
    ensures
        spec_cadence_list(raw) matches Ok(cs) ==> cs.len() > 0 && forall|i: int|
            0 <= i < cs.len() ==> (#[trigger] cs[i] matches MarkerPollCadence::Every(k) ==> k > 0),
{
    let flag = "--marker-poll-cadences"@;
    let items = split_commas(raw).map_values(
        |piece: Seq<char>| cadence_token_outcome(piece, flag, raw),
    );
    if let Ok(cs) = collect_results(items) {
        lemma_collect_ok(items, cs);
        assert forall|i: int|
            0 <= i < cs.len() implies (#[trigger] cs[i] matches MarkerPollCadence::Every(k) ==> k
            > 0) by {
            let t = trim(split_commas(raw)[i]);
            assert(items[i] == cadence_token_outcome(split_commas(raw)[i], flag, raw));
            assert(items[i] == Ok::<MarkerPollCadence, ConfigFault>(cs[i]));
            assert(usize_literal_value(t) <= usize::MAX ==> (usize_literal_value(t) as usize)
                == usize_literal_value(t));
        }
    }
}

/// A parse result seen through the views of its parts.
pub open spec fn list_view<T>(r: Result<Vec<T>, BenchmarkConfigError>) -> Result<
    Seq<T>,
    ConfigFault,
> {
    match r {
        Ok(v) => Ok(v@),
        Err(e) => Err(e@),
    }
}


/// The value named by `chars[lo..hi]`, ignoring ASCII case.
fn find_value<T: ValueName>(chars: &Vec<char>, lo: usize, hi: usize) -> (r: Option<T>)
    requires
        lo <= hi <= chars@.len(),
    ensures
        r == value_named::<T>(chars@.subrange(lo as int, hi as int)),
{
    let ghost token = chars@.subrange(lo as int, hi as int);
    let vs = T::variants();
    let mut i: usize = 0;
    assert(vs@.skip(0) =~= vs@);
    while i < vs.len()
        invariant
            lo <= hi <= chars@.len(),
            token == chars@.subrange(lo as int, hi as int),
            vs@ == T::spec_variants(),
            i <= vs@.len(),
            find_variant(T::spec_variants(), token) == find_variant(vs@.skip(i as int), token),
        decreases vs@.len() - i,
    {
        let v = vs[i];
        let ghost rest = vs@.skip(i as int);
        assert(rest[0] == v);
        assert(rest.drop_first() =~= vs@.skip(i + 1));
        if chars_eq_ignore_ascii_case(chars, lo, hi, v.value_name()) {
            return Some(v);
        }
        i = i + 1;
    }
    None
}

fn parse_usize_list(s: &str, flag: &'static str, require_positive: bool) -> (r: Result<
    Vec<usize>,
    BenchmarkConfigError,
>)
    ensures
        list_view(r) == spec_usize_list(s@, flag@, require_positive),
{
    let chars = chars_of(s);
    let bounds = split_comma_bounds(&chars);
    let ghost pieces = split_commas(s@);
    let ghost items = pieces.map_values(
        |piece: Seq<char>| usize_token_outcome(piece, flag@, s@, require_positive),
    );
    let mut values: Vec<usize> = Vec::new();
    proof {
        lemma_collect_start(items);
    }
    let mut k: usize = 0;
    while k < bounds.len()
        invariant
            chars@ == s@,
            pieces == split_commas(s@),
            items == pieces.map_values(
                |piece: Seq<char>| usize_token_outcome(piece, flag@, s@, require_positive),
            ),
            bounds@.len() == pieces.len(),
            forall|j: int|
                0 <= j < bounds@.len() ==> {
                    &&& (#[trigger] bounds@[j]).0 <= bounds@[j].1 <= chars@.len()
                    &&& chars@.subrange(bounds@[j].0 as int, bounds@[j].1 as int) == pieces[j]
                },
            k <= bounds@.len(),
            collect_results(items) == prepend_values(values@, collect_results(items.skip(k as int))),
        decreases bounds@.len() - k,
    {
        let (a, b) = bounds[k];
        let (lo, hi) = trim_bounds(&chars, a, b);
        proof {
            assert(items[k as int] == usize_token_outcome(pieces[k as int], flag@, s@, require_positive));
            lemma_collect_step(items, k as int, values@);
        }
        if lo == hi {
            return Err(BenchmarkConfigError::EmptyListToken { flag, raw: s.to_owned() });
        }
        let token = s.substring_char(lo, hi);
        match parse_usize(token) {
            Err(source) => {
                return Err(
                    BenchmarkConfigError::InvalidListEntry {
                        flag,
                        raw: s.to_owned(),
                        token: token.to_owned(),
                        source,
                    },
                );
            },
            Ok(value) => {
                if require_positive && value == 0 {
                    return Err(BenchmarkConfigError::ZeroListEntry { flag, raw: s.to_owned() });
                }
                values.push(value);
            },
        }
        k = k + 1;
    }
    proof {
        lemma_collect_end(items, values@);
    }
    if values.len() == 0 {
        return Err(BenchmarkConfigError::EmptyList { flag, raw: s.to_owned() });
    }
    Ok(values)
}

fn parse_positive_usize_list(s: &str, flag: &'static str) -> (r: Result<
    Vec<usize>,
    BenchmarkConfigError,
>)
    ensures
        list_view(r) == spec_usize_list(s@, flag@, true),
{
    parse_usize_list(s, flag, true)
}

fn parse_value_enum_list<T: ValueName>(s: &str, flag: &'static str) -> (r: Result<
    Vec<T>,
    BenchmarkConfigError,
>)
    ensures
        list_view(r) == spec_enum_list::<T>(s@, flag@),
{
    let chars = chars_of(s);
    let bounds = split_comma_bounds(&chars);
    let ghost pieces = split_commas(s@);
    let ghost items = pieces.map_values(
        |piece: Seq<char>| enum_token_outcome::<T>(piece, flag@, s@),
    );
    let mut values: Vec<T> = Vec::new();
    proof {
        lemma_collect_start(items);
    }
    let mut k: usize = 0;
    while k < bounds.len()
        invariant
            chars@ == s@,
            pieces == split_commas(s@),
            items == pieces.map_values(|piece: Seq<char>| enum_token_outcome::<T>(piece, flag@, s@)),
            bounds@.len() == pieces.len(),
            forall|j: int|
                0 <= j < bounds@.len() ==> {
                    &&& (#[trigger] bounds@[j]).0 <= bounds@[j].1 <= chars@.len()
                    &&& chars@.subrange(bounds@[j].0 as int, bounds@[j].1 as int) == pieces[j]
                },
            k <= bounds@.len(),
            collect_results(items) == prepend_values(values@, collect_results(items.skip(k as int))),
        decreases bounds@.len() - k,
    {
        let (a, b) = bounds[k];
        let (lo, hi) = trim_bounds(&chars, a, b);
        proof {
            assert(items[k as int] == enum_token_outcome::<T>(pieces[k as int], flag@, s@));
            lemma_collect_step(items, k as int, values@);
        }
        if lo == hi {
            return Err(BenchmarkConfigError::EmptyListToken { flag, raw: s.to_owned() });
        }
        match find_value::<T>(&chars, lo, hi) {
            None => {
                let token = s.substring_char(lo, hi);
                return Err(
                    BenchmarkConfigError::InvalidEnumEntry {
                        flag,
                        raw: s.to_owned(),
                        token: token.to_owned(),
                    },
                );
            },
            Some(value) => {
                values.push(value);
            },
        }
        k = k + 1;
    }
    proof {
        lemma_collect_end(items, values@);
    }
    if values.len() == 0 {
        return Err(BenchmarkConfigError::EmptyList { flag, raw: s.to_owned() });
    }
    Ok(values)
}

/// Parses `--marker-poll-cadences`: positive integers or `never` (any ASCII
/// case), comma-separated.
pub fn parse_marker_poll_cadences(s: &str) -> (r: Result<
    Vec<MarkerPollCadence>,
    BenchmarkConfigError,
>)
    ensures
        list_view(r) == spec_cadence_list(s@),
{
    let flag: &'static str = "--marker-poll-cadences";
    let chars = chars_of(s);
    let bounds = split_comma_bounds(&chars);
    let ghost pieces = split_commas(s@);
    let ghost items = pieces.map_values(
        |piece: Seq<char>| cadence_token_outcome(piece, flag@, s@),
    );
    let mut values: Vec<MarkerPollCadence> = Vec::new();
    proof {
        lemma_collect_start(items);
    }
    let mut k: usize = 0;
    while k < bounds.len()
        invariant
            flag@ == "--marker-poll-cadences"@,
            chars@ == s@,
            pieces == split_commas(s@),
            items == pieces.map_values(|piece: Seq<char>| cadence_token_outcome(piece, flag@, s@)),
            bounds@.len() == pieces.len(),
            forall|j: int|
                0 <= j < bounds@.len() ==> {
                    &&& (#[trigger] bounds@[j]).0 <= bounds@[j].1 <= chars@.len()
                    &&& chars@.subrange(bounds@[j].0 as int, bounds@[j].1 as int) == pieces[j]
                },
            k <= bounds@.len(),
            collect_results(items) == prepend_values(values@, collect_results(items.skip(k as int))),
        decreases bounds@.len() - k,
    {
        let (a, b) = bounds[k];
        let (lo, hi) = trim_bounds(&chars, a, b);
        proof {
            assert(items[k as int] == cadence_token_outcome(pieces[k as int], flag@, s@));
            lemma_collect_step(items, k as int, values@);
        }
        if lo == hi {
            return Err(BenchmarkConfigError::EmptyListToken { flag, raw: s.to_owned() });
        }
        if chars_eq_ignore_ascii_case(&chars, lo, hi, "never") {
            values.push(MarkerPollCadence::Never);
        } else {
            let token = s.substring_char(lo, hi);
            match parse_usize(token) {
                Err(source) => {
                    return Err(
                        BenchmarkConfigError::InvalidListEntry {
                            flag,
                            raw: s.to_owned(),
                            token: token.to_owned(),
                            source,
                        },
                    );
                },
                Ok(value) => {
                    if value == 0 {
                        return Err(BenchmarkConfigError::ZeroListEntry { flag, raw: s.to_owned() });
                    }
                    values.push(MarkerPollCadence::Every(value));
                },
            }
        }
        k = k + 1;
    }
    proof {
        lemma_collect_end(items, values@);
    }
    if values.len() == 0 {
        return Err(BenchmarkConfigError::EmptyList { flag, raw: s.to_owned() });
    }
    Ok(values)
}


pub open spec fn spec_parse_sizes(s: Seq<char>) -> Result<Seq<usize>, ConfigFault> {
    spec_usize_list(s, "--sizes"@, true)
}

pub open spec fn spec_parse_submit_bursts(s: Seq<char>) -> Result<Seq<usize>, ConfigFault> {
    spec_usize_list(s, "--submit-bursts"@, true)
}

pub open spec fn spec_parse_submit_occupancies(s: Seq<char>) -> Result<Seq<usize>, ConfigFault> {
    spec_usize_list(s, "--submit-occupancies"@, false)
}

pub open spec fn spec_parse_marker_bursts(s: Seq<char>) -> Result<Seq<usize>, ConfigFault> {
    spec_usize_list(s, "--marker-bursts"@, true)
}

pub open spec fn spec_parse_marker_poll_offsets(s: Seq<char>) -> Result<Seq<usize>, ConfigFault> {
    spec_usize_list(s, "--marker-poll-offsets"@, false)
}

pub open spec fn spec_parse_marker_positions(s: Seq<char>) -> Result<
    Seq<MarkerPosition>,
    ConfigFault,
> {
    spec_enum_list::<MarkerPosition>(s, "--marker-positions"@)
}

pub open spec fn spec_parse_traffic_windows(s: Seq<char>) -> Result<Seq<usize>, ConfigFault> {
    spec_usize_list(s, "--traffic-windows"@, true)
}

pub open spec fn spec_parse_traffic_classes(s: Seq<char>) -> Result<Seq<TrafficClass>, ConfigFault> {
    spec_enum_list::<TrafficClass>(s, "--traffic-classes"@)
}

pub open spec fn spec_parse_completion_reuse_policies(s: Seq<char>) -> Result<
    Seq<CompletionReusePolicy>,
    ConfigFault,
> {
    spec_enum_list::<CompletionReusePolicy>(s, "--completion-reuse-policies"@)
}

/// Parses `--sizes`: positive integers, comma-separated.
pub fn parse_sizes(s: &str) -> (r: Result<Vec<usize>, BenchmarkConfigError>)
    ensures
        list_view(r) == spec_parse_sizes(s@),
{
    parse_positive_usize_list(s, "--sizes")
}

/// Parses `--submit-bursts`: positive integers, comma-separated.
pub fn parse_submit_bursts(s: &str) -> (r: Result<Vec<usize>, BenchmarkConfigError>)
    ensures
        list_view(r) == spec_parse_submit_bursts(s@),
{
    parse_positive_usize_list(s, "--submit-bursts")
}

/// Parses `--submit-occupancies`: integers, zero allowed, comma-separated.
pub fn parse_submit_occupancies(s: &str) -> (r: Result<Vec<usize>, BenchmarkConfigError>)
    ensures
        list_view(r) == spec_parse_submit_occupancies(s@),
{
    parse_usize_list(s, "--submit-occupancies", false)
}

/// Parses `--marker-bursts`: positive integers, comma-separated.
pub fn parse_marker_bursts(s: &str) -> (r: Result<Vec<usize>, BenchmarkConfigError>)
    ensures
        list_view(r) == spec_parse_marker_bursts(s@),
{
    parse_positive_usize_list(s, "--marker-bursts")
}

/// Parses `--marker-poll-offsets`: integers, zero allowed, comma-separated.
pub fn parse_marker_poll_offsets(s: &str) -> (r: Result<Vec<usize>, BenchmarkConfigError>)
    ensures
        list_view(r) == spec_parse_marker_poll_offsets(s@),
{
    parse_usize_list(s, "--marker-poll-offsets", false)
}

/// Parses `--marker-positions`: `first`, `half`, `last`, comma-separated.
pub fn parse_marker_positions(s: &str) -> (r: Result<Vec<MarkerPosition>, BenchmarkConfigError>)
    ensures
        list_view(r) == spec_parse_marker_positions(s@),
{
    parse_value_enum_list::<MarkerPosition>(s, "--marker-positions")
}

/// Parses `--traffic-windows`: positive integers, comma-separated.
pub fn parse_traffic_windows(s: &str) -> (r: Result<Vec<usize>, BenchmarkConfigError>)
    ensures
        list_view(r) == spec_parse_traffic_windows(s@),
{
    parse_positive_usize_list(s, "--traffic-windows")
}

/// Parses `--traffic-classes`, comma-separated.
pub fn parse_traffic_classes(s: &str) -> (r: Result<Vec<TrafficClass>, BenchmarkConfigError>)
    ensures
        list_view(r) == spec_parse_traffic_classes(s@),
{
    parse_value_enum_list::<TrafficClass>(s, "--traffic-classes")
}

/// Parses `--completion-reuse-policies`, comma-separated.
pub fn parse_completion_reuse_policies(s: &str) -> (r: Result<
    Vec<CompletionReusePolicy>,
    BenchmarkConfigError,
>)
    ensures
        list_view(r) == spec_parse_completion_reuse_policies(s@),
{
    parse_value_enum_list::<CompletionReusePolicy>(s, "--completion-reuse-policies")
}

/// The work-queue device each accelerator uses when none is given.
pub open spec fn spec_default_device(accel: AccelKind) -> Seq<char> {
    match accel {
        AccelKind::Dsa => "/dev/dsa/wq0.0"@,
        AccelKind::Iax => "/dev/iax/wq1.0"@,
    }
}

pub fn default_device(accel: AccelKind) -> (d: String)
    ensures
        d@ == spec_default_device(accel),
{
    match accel {
        AccelKind::Dsa => String::from_str("/dev/dsa/wq0.0"),
        AccelKind::Iax => String::from_str("/dev/iax/wq1.0"),
    }
}

#[derive(Debug, Clone, PartialEq, Eq)]
pub struct SubmissionBottleneckConfig {
    pub submit_occupancies: Vec<usize>,
    pub marker_bursts: Vec<usize>,
    pub marker_positions: Vec<MarkerPosition>,
    pub marker_poll_cadences: Vec<MarkerPollCadence>,
    pub marker_poll_offsets: Vec<usize>,
    pub traffic_windows: Vec<usize>,
    pub traffic_classes: Vec<TrafficClass>,
    pub completion_reuse_policies: Vec<CompletionReusePolicy>,
    pub completion_reuse_window: usize,
    pub dsa_operation: DsaOperationClass,
}

#[derive(Debug, Clone, PartialEq, Eq)]
pub struct BenchmarkConfig {
    pub accel: AccelKind,
    pub device: String,
    pub sizes: Vec<usize>,
    pub iterations: usize,
    pub max_concurrency: usize,
    pub threads: usize,
    pub benchmark: BenchmarkKind,
    pub submit_mode: SubmitOnlyMode,
    pub submit_bursts: Vec<usize>,
    pub submission_bottleneck: SubmissionBottleneckConfig,
    pub sw_only: bool,
    pub pin_core: Option<usize>,
    pub cold: bool,
    pub json: bool,
}

/// The error of a failed parse, if any.
pub open spec fn fault_of<T>(r: Result<Seq<T>, ConfigFault>) -> Option<ConfigFault> {
    match r {
        Ok(_) => None,
        Err(e) => Some(e),
    }
}

/// The first of two possible errors.
pub open spec fn first_fault(a: Option<ConfigFault>, b: Option<ConfigFault>) -> Option<
    ConfigFault,
> {
    if a is Some {
        a
    } else {
        b
    }
}

/// The error `from_parts` reports, if any: the lists are checked in
/// parameter order, then the thread count, then whether the benchmark runs
/// on the accelerator.
pub open spec fn spec_config_fault(
    accel: AccelKind,
    sizes: Seq<char>,
    threads: usize,
    benchmark: BenchmarkKind,
    submit_bursts: Seq<char>,
    submit_occupancies: Seq<char>,
    marker_bursts: Seq<char>,
    marker_positions: Seq<char>,
    marker_poll_cadences: Seq<char>,
    marker_poll_offsets: Seq<char>,
    traffic_windows: Seq<char>,
    traffic_classes: Seq<char>,
    completion_reuse_policies: Seq<char>,
) -> Option<ConfigFault> {
    first_fault(
        fault_of(spec_parse_sizes(sizes)),
        first_fault(
            fault_of(spec_parse_submit_bursts(submit_bursts)),
            first_fault(
                fault_of(spec_parse_submit_occupancies(submit_occupancies)),
                first_fault(
                    fault_of(spec_parse_marker_bursts(marker_bursts)),
                    first_fault(
                        fault_of(spec_parse_marker_positions(marker_positions)),
                        first_fault(
                            fault_of(spec_cadence_list(marker_poll_cadences)),
                            first_fault(
                                fault_of(spec_parse_marker_poll_offsets(marker_poll_offsets)),
                                first_fault(
                                    fault_of(spec_parse_traffic_windows(traffic_windows)),
                                    first_fault(
                                        fault_of(spec_parse_traffic_classes(traffic_classes)),
                                        first_fault(
                                            fault_of(
                                                spec_parse_completion_reuse_policies(
                                                    completion_reuse_policies,
                                                ),
                                            ),
                                            if threads == 0 {
                                                Some(ConfigFault::ZeroThreads)
                                            } else if benchmark.spec_is_dsa_only() && accel
                                                != AccelKind::Dsa {
                                                Some(
                                                    ConfigFault::UnsupportedBenchmark {
                                                        benchmark: benchmark.spec_name(),
                                                        accel: accel.spec_name(),
                                                    },
                                                )
                                            } else {
                                                None
                                            },
                                        ),
                                    ),
                                ),
                            ),
                        ),
                    ),
                ),
            ),
        ),
    )
}

/// What `from_parts` returns for the given parts.
pub open spec fn from_parts_outcome(
    r: Result<BenchmarkConfig, BenchmarkConfigError>,
    accel: AccelKind,
    device: Option<Seq<char>>,
    sizes: Seq<char>,
    iterations: usize,
    max_concurrency: usize,
    threads: usize,
    benchmark: BenchmarkKind,
    submit_mode: SubmitOnlyMode,
    submit_bursts: Seq<char>,
    submit_occupancies: Seq<char>,
    marker_bursts: Seq<char>,
    marker_positions: Seq<char>,
    marker_poll_cadences: Seq<char>,
    marker_poll_offsets: Seq<char>,
    traffic_windows: Seq<char>,
    traffic_classes: Seq<char>,
    completion_reuse_policies: Seq<char>,
    completion_reuse_window: usize,
    sw_only: bool,
    dsa_op: DsaOperationClass,
    pin_core: Option<usize>,
    cold: bool,
    json: bool,
) -> bool {
    let fault = spec_config_fault(
        accel,
        sizes,
        threads,
        benchmark,
        submit_bursts,
        submit_occupancies,
        marker_bursts,
        marker_positions,
        marker_poll_cadences,
        marker_poll_offsets,
        traffic_windows,
        traffic_classes,
        completion_reuse_policies,
    );
    match r {
        Err(e) => fault == Some(e@),
        Ok(c) => {
            let b = c.submission_bottleneck;
            &&& fault is None
            &&& c.accel == accel
            &&& c.device@ == (match device {
                Some(d) => d,
                None => spec_default_device(accel),
            })
            &&& Ok::<_, ConfigFault>(c.sizes@) == spec_parse_sizes(sizes)
            &&& c.iterations == iterations
            &&& c.max_concurrency == max_concurrency
            &&& c.threads == threads
            &&& c.benchmark == benchmark
            &&& c.submit_mode == submit_mode
            &&& Ok::<_, ConfigFault>(c.submit_bursts@) == spec_parse_submit_bursts(submit_bursts)
            &&& Ok::<_, ConfigFault>(b.submit_occupancies@) == spec_parse_submit_occupancies(submit_occupancies)
            &&& Ok::<_, ConfigFault>(b.marker_bursts@) == spec_parse_marker_bursts(marker_bursts)
            &&& Ok::<_, ConfigFault>(b.marker_positions@) == spec_parse_marker_positions(marker_positions)
            &&& Ok::<_, ConfigFault>(b.marker_poll_cadences@) == spec_cadence_list(marker_poll_cadences)
            &&& Ok::<_, ConfigFault>(b.marker_poll_offsets@) == spec_parse_marker_poll_offsets(marker_poll_offsets)
            &&& Ok::<_, ConfigFault>(b.traffic_windows@) == spec_parse_traffic_windows(traffic_windows)
            &&& Ok::<_, ConfigFault>(b.traffic_classes@) == spec_parse_traffic_classes(traffic_classes)
            &&& Ok::<_, ConfigFault>(b.completion_reuse_policies@) == spec_parse_completion_reuse_policies(
                completion_reuse_policies,
            )
            &&& b.completion_reuse_window == completion_reuse_window
            &&& b.dsa_operation == dsa_op
            &&& c.sw_only == sw_only
            &&& c.pin_core == pin_core
            &&& c.cold == cold
            &&& c.json == json
        },
    }
}

/// The view of an optional string.
pub open spec fn opt_view(s: Option<String>) -> Option<Seq<char>> {
    match s {
        Some(d) => Some(d@),
        None => None,
    }
}

impl BenchmarkConfig {
    /// Builds the validated benchmark state from already-parsed command-line
    /// values: resolves the default device and parses every list before any
    /// benchmark or queue-open path runs.
    pub fn from_parts(
        accel: AccelKind,
        device: Option<String>,
        sizes: String,
        iterations: usize,
        max_concurrency: usize,
        threads: usize,
        benchmark: BenchmarkKind,
        submit_mode: SubmitOnlyMode,
        submit_bursts: String,
        submit_occupancies: String,
        marker_bursts: String,
        marker_positions: String,
        marker_poll_cadences: String,
        marker_poll_offsets: String,
        traffic_windows: String,
        traffic_classes: String,
        completion_reuse_policies: String,
        completion_reuse_window: usize,
        sw_only: bool,
        dsa_op: DsaOperationClass,
        pin_core: Option<usize>,
        cold: bool,
        json: bool,
    ) -> (r: Result<Self, BenchmarkConfigError>)
        ensures
            from_parts_outcome(
                r,
                accel,
                opt_view(device),
                sizes@,
                iterations,
                max_concurrency,
                threads,
                benchmark,
                submit_mode,
                submit_bursts@,
                submit_occupancies@,
                marker_bursts@,
                marker_positions@,
                marker_poll_cadences@,
                marker_poll_offsets@,
                traffic_windows@,
                traffic_classes@,
                completion_reuse_policies@,
                completion_reuse_window,
                sw_only,
                dsa_op,
                pin_core,
                cold,
                json,
            ),
    {
        let device = match device {
            Some(d) => d,
            None => default_device(accel),
        };
        let sizes = match parse_sizes(sizes.as_str()) {
            Ok(v) => v,
            Err(e) => return Err(e),
        };
        let submit_bursts = match parse_submit_bursts(submit_bursts.as_str()) {
            Ok(v) => v,
            Err(e) => return Err(e),
        };
        let submit_occupancies = match parse_submit_occupancies(submit_occupancies.as_str()) {
            Ok(v) => v,
            Err(e) => return Err(e),
        };
        let marker_bursts = match parse_marker_bursts(marker_bursts.as_str()) {
            Ok(v) => v,
            Err(e) => return Err(e),
        };
        let marker_positions = match parse_marker_positions(marker_positions.as_str()) {
            Ok(v) => v,
            Err(e) => return Err(e),
        };
        let marker_poll_cadences = match parse_marker_poll_cadences(marker_poll_cadences.as_str()) {
            Ok(v) => v,
            Err(e) => return Err(e),
        };
        let marker_poll_offsets = match parse_marker_poll_offsets(marker_poll_offsets.as_str()) {
            Ok(v) => v,
            Err(e) => return Err(e),
        };
        let traffic_windows = match parse_traffic_windows(traffic_windows.as_str()) {
            Ok(v) => v,
            Err(e) => return Err(e),
        };
        let traffic_classes = match parse_traffic_classes(traffic_classes.as_str()) {
            Ok(v) => v,
            Err(e) => return Err(e),
        };
        let completion_reuse_policies = match parse_completion_reuse_policies(
            completion_reuse_policies.as_str(),
        ) {
            Ok(v) => v,
            Err(e) => return Err(e),
        };
        let submission_bottleneck = SubmissionBottleneckConfig {
            submit_occupancies,
            marker_bursts,
            marker_positions,
            marker_poll_cadences,
            marker_poll_offsets,
            traffic_windows,
            traffic_classes,
            completion_reuse_policies,
            completion_reuse_window,
            dsa_operation: dsa_op,
        };
        if threads == 0 {
            return Err(BenchmarkConfigError::ZeroThreads);
        }
        if benchmark.is_dsa_only() && accel != AccelKind::Dsa {
            return Err(
                BenchmarkConfigError::UnsupportedBenchmark {
                    benchmark: benchmark.as_str(),
                    accel: accel.as_str(),
                },
            );
        }
        Ok(
            BenchmarkConfig {
                accel,
                device,
                sizes,
                iterations,
                max_concurrency,
                threads,
                benchmark,
                submit_mode,
                submit_bursts,
                submission_bottleneck,
                sw_only,
                pin_core,
                cold,
                json,
            },
        )
    }
}

/// Named construction of a `BenchmarkConfig`: every part starts at its
/// command-line default and `build` runs `BenchmarkConfig::from_parts`.
pub struct BenchmarkConfigBuilder {
    pub accel: AccelKind,
    pub device: Option<String>,
    pub sizes: String,
    pub iterations: usize,
    pub max_concurrency: usize,
    pub threads: usize,
    pub benchmark: BenchmarkKind,
    pub submit_mode: SubmitOnlyMode,
    pub submit_bursts: String,
    pub submit_occupancies: String,
    pub marker_bursts: String,
    pub marker_positions: String,
    pub marker_poll_cadences: String,
    pub marker_poll_offsets: String,
    pub traffic_windows: String,
    pub traffic_classes: String,
    pub completion_reuse_policies: String,
    pub completion_reuse_window: usize,
    pub sw_only: bool,
    pub dsa_op: DsaOperationClass,
    pub pin_core: Option<usize>,
    pub cold: bool,
    pub json: bool,
}

impl BenchmarkConfig {
    /// A builder holding every default.
    pub fn builder() -> (b: BenchmarkConfigBuilder)
        ensures
            b.accel == AccelKind::Dsa,
            b.device is None,
            b.sizes@ == DEFAULT_SIZES@,
            b.iterations == DEFAULT_ITERATIONS,
            b.max_concurrency == DEFAULT_MAX_CONCURRENCY,
            b.threads == DEFAULT_SUBMIT_THREADS,
            b.benchmark == BenchmarkKind::All,
            b.submit_mode == SubmitOnlyMode::All,
            b.submit_bursts@ == DEFAULT_SUBMIT_BURSTS@,
            b.submit_occupancies@ == DEFAULT_SUBMIT_OCCUPANCIES@,
            b.marker_bursts@ == DEFAULT_MARKER_BURSTS@,
            b.marker_positions@ == DEFAULT_MARKER_POSITIONS@,
            b.marker_poll_cadences@ == DEFAULT_MARKER_POLL_CADENCES@,
            b.marker_poll_offsets@ == DEFAULT_MARKER_POLL_OFFSETS@,
            b.traffic_windows@ == DEFAULT_TRAFFIC_WINDOWS@,
            b.traffic_classes@ == DEFAULT_TRAFFIC_CLASSES@,
            b.completion_reuse_policies@ == DEFAULT_COMPLETION_REUSE_POLICIES@,
            b.completion_reuse_window == DEFAULT_COMPLETION_REUSE_WINDOW,
            b.sw_only == false,
            b.dsa_op == DsaOperationClass::Noop,
            b.pin_core is None,
            b.cold == false,
            b.json == false,
    {
        BenchmarkConfigBuilder {
            accel: AccelKind::Dsa,
            device: None,
            sizes: String::from_str(DEFAULT_SIZES),
            iterations: DEFAULT_ITERATIONS,
            max_concurrency: DEFAULT_MAX_CONCURRENCY,
            threads: DEFAULT_SUBMIT_THREADS,
            benchmark: BenchmarkKind::All,
            submit_mode: SubmitOnlyMode::All,
            submit_bursts: String::from_str(DEFAULT_SUBMIT_BURSTS),
            submit_occupancies: String::from_str(DEFAULT_SUBMIT_OCCUPANCIES),
            marker_bursts: String::from_str(DEFAULT_MARKER_BURSTS),
            marker_positions: String::from_str(DEFAULT_MARKER_POSITIONS),
            marker_poll_cadences: String::from_str(DEFAULT_MARKER_POLL_CADENCES),
            marker_poll_offsets: String::from_str(DEFAULT_MARKER_POLL_OFFSETS),
            traffic_windows: String::from_str(DEFAULT_TRAFFIC_WINDOWS),
            traffic_classes: String::from_str(DEFAULT_TRAFFIC_CLASSES),
            completion_reuse_policies: String::from_str(DEFAULT_COMPLETION_REUSE_POLICIES),
            completion_reuse_window: DEFAULT_COMPLETION_REUSE_WINDOW,
            sw_only: false,
            dsa_op: DsaOperationClass::Noop,
            pin_core: None,
            cold: false,
            json: false,
        }
    }
}

impl BenchmarkConfigBuilder {
    pub fn accel(self, value: AccelKind) -> (b: Self)
        ensures
            b == (Self { accel: value, ..self }),
    {
        Self { accel: value, ..self }
    }

    pub fn device(self, value: String) -> (b: Self)
        ensures
            b == (Self { device: Some(value), ..self }),
    {
        Self { device: Some(value), ..self }
    }

    pub fn maybe_device(self, value: Option<String>) -> (b: Self)
        ensures
            b == (Self { device: value, ..self }),
    {
        Self { device: value, ..self }
    }

    pub fn sizes(self, value: String) -> (b: Self)
        ensures
            b == (Self { sizes: value, ..self }),
    {
        Self { sizes: value, ..self }
    }

    pub fn iterations(self, value: usize) -> (b: Self)
        ensures
            b == (Self { iterations: value, ..self }),
    {
        Self { iterations: value, ..self }
    }

    pub fn max_concurrency(self, value: usize) -> (b: Self)
        ensures
            b == (Self { max_concurrency: value, ..self }),
    {
        Self { max_concurrency: value, ..self }
    }

    pub fn threads(self, value: usize) -> (b: Self)
        ensures
            b == (Self { threads: value, ..self }),
    {
        Self { threads: value, ..self }
    }

    pub fn benchmark(self, value: BenchmarkKind) -> (b: Self)
        ensures
            b == (Self { benchmark: value, ..self }),
    {
        Self { benchmark: value, ..self }
    }

    pub fn submit_mode(self, value: SubmitOnlyMode) -> (b: Self)
        ensures
            b == (Self { submit_mode: value, ..self }),
    {
        Self { submit_mode: value, ..self }
    }

    pub fn submit_bursts(self, value: String) -> (b: Self)
        ensures
            b == (Self { submit_bursts: value, ..self }),
    {
        Self { submit_bursts: value, ..self }
    }

    pub fn submit_occupancies(self, value: String) -> (b: Self)
        ensures
            b == (Self { submit_occupancies: value, ..self }),
    {
        Self { submit_occupancies: value, ..self }
    }

    pub fn marker_bursts(self, value: String) -> (b: Self)
        ensures
            b == (Self { marker_bursts: value, ..self }),
    {
        Self { marker_bursts: value, ..self }
    }

    pub fn marker_positions(self, value: String) -> (b: Self)
        ensures
            b == (Self { marker_positions: value, ..self }),
    {
        Self { marker_positions: value, ..self }
    }

    pub fn marker_poll_cadences(self, value: String) -> (b: Self)
        ensures
            b == (Self { marker_poll_cadences: value, ..self }),
    {
        Self { marker_poll_cadences: value, ..self }
    }

    pub fn marker_poll_offsets(self, value: String) -> (b: Self)
        ensures
            b == (Self { marker_poll_offsets: value, ..self }),
    {
        Self { marker_poll_offsets: value, ..self }
    }

    pub fn traffic_windows(self, value: String) -> (b: Self)
        ensures
            b == (Self { traffic_windows: value, ..self }),
    {
        Self { traffic_windows: value, ..self }
    }

    pub fn traffic_classes(self, value: String) -> (b: Self)
        ensures
            b == (Self { traffic_classes: value, ..self }),
    {
        Self { traffic_classes: value, ..self }
    }

    pub fn completion_reuse_policies(self, value: String) -> (b: Self)
        ensures
            b == (Self { completion_reuse_policies: value, ..self }),
    {
        Self { completion_reuse_policies: value, ..self }
    }

    pub fn completion_reuse_window(self, value: usize) -> (b: Self)
        ensures
            b == (Self { completion_reuse_window: value, ..self }),
    {
        Self { completion_reuse_window: value, ..self }
    }

    pub fn sw_only(self, value: bool) -> (b: Self)
        ensures
            b == (Self { sw_only: value, ..self }),
    {
        Self { sw_only: value, ..self }
    }

    pub fn dsa_op(self, value: DsaOperationClass) -> (b: Self)
        ensures
            b == (Self { dsa_op: value, ..self }),
    {
        Self { dsa_op: value, ..self }
    }

    pub fn pin_core(self, value: usize) -> (b: Self)
        ensures
            b == (Self { pin_core: Some(value), ..self }),
    {
        Self { pin_core: Some(value), ..self }
    }

    pub fn maybe_pin_core(self, value: Option<usize>) -> (b: Self)
        ensures
            b == (Self { pin_core: value, ..self }),
    {
        Self { pin_core: value, ..self }
    }

    pub fn cold(self, value: bool) -> (b: Self)
        ensures
            b == (Self { cold: value, ..self }),
    {
        Self { cold: value, ..self }
    }

    pub fn json(self, value: bool) -> (b: Self)
        ensures
            b == (Self { json: value, ..self }),
    {
        Self { json: value, ..self }
    }

    /// Validates the parts: `BenchmarkConfig::from_parts` on them.
    pub fn build(self) -> (r: Result<BenchmarkConfig, BenchmarkConfigError>)
        ensures
            from_parts_outcome(
                r,
                self.accel,
                opt_view(self.device),
                self.sizes@,
                self.iterations,
                self.max_concurrency,
                self.threads,
                self.benchmark,
                self.submit_mode,
                self.submit_bursts@,
                self.submit_occupancies@,
                self.marker_bursts@,
                self.marker_positions@,
                self.marker_poll_cadences@,
                self.marker_poll_offsets@,
                self.traffic_windows@,
                self.traffic_classes@,
                self.completion_reuse_policies@,
                self.completion_reuse_window,
                self.sw_only,
                self.dsa_op,
                self.pin_core,
                self.cold,
                self.json,
            ),
    {
        BenchmarkConfig::from_parts(
            self.accel,
            self.device,
            self.sizes,
            self.iterations,
            self.max_concurrency,
            self.threads,
            self.benchmark,
            self.submit_mode,
            self.submit_bursts,
            self.submit_occupancies,
            self.marker_bursts,
            self.marker_positions,
            self.marker_poll_cadences,
            self.marker_poll_offsets,
            self.traffic_windows,
            self.traffic_classes,
            self.completion_reuse_policies,
            self.completion_reuse_window,
            self.sw_only,
            self.dsa_op,
            self.pin_core,
            self.cold,
            self.json,
        )
    }
}

} // verus!
