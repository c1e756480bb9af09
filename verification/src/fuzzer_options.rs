//! A simplified configuration of the fuzzer, and the settings it gives.

use vstd::prelude::*;
use crate::text::{concat, decimal, decimal_string, chars_of};

verus! {

/// A simplified configuration for the fuzzer
#[derive(Debug, Clone, PartialEq, Eq)]
pub struct SimpleFuzzerConfig {
    /// Where the solutions found by the fuzzer are written
    pub solutions_dir: String,
    /// Where to print the fuzzer outputs
    pub stdout: String,
    /// Number of cores used to fuzz
    pub nb_of_cores: u16,
    /// Directories containing starting input to start fuzzing
    pub corpus_input: Vec<String>,
    /// Enable code coverage optimization
    pub with_coverage: bool,
    /// Port used by the fuzzer broker
    pub broker_port: u16,
}

/// The path `base` with `part` pushed onto it (`PathBuf::push`, with `/` as separator): an
/// absolute `part` replaces the path; otherwise `part` is appended, after a separator unless
/// the path is empty or already ends with one.
pub open spec fn pushed_path(base: Seq<char>, part: Seq<char>) -> Seq<char> {
    if part.len() > 0 && part[0] == '/' {
        part
    } else if base.len() == 0 {
        part
    } else if base.last() == '/' {
        base + part
    } else {
        base + "/"@ + part
    }
}

/// Push `part` onto the path `base` (see [`pushed_path`])
pub fn push_path(base: &str, part: &str) -> (r: String)
    ensures
        r@ == pushed_path(base@, part@),
{
    let b: Vec<char> = chars_of(base);
    let p: Vec<char> = chars_of(part);
    if p.len() > 0 && p[0] == '/' {
        String::from_str(part)
    } else if b.len() == 0 {
        String::from_str(part)
    } else if b[b.len() - 1] == '/' {
        concat(String::from_str(base), part)
    } else {
        concat(concat(String::from_str(base), "/"), part)
    }
}

/// The directory where the solutions for `command_name` are written, under `fuzz_dir`.
pub open spec fn solutions_dir_of(fuzz_dir: Seq<char>, command_name: Seq<char>) -> Seq<char> {
    pushed_path(pushed_path(fuzz_dir, "fuzz_solutions"@), command_name)
}

/// The settings of the fuzzer that a simplified configuration gives: what the fuzzer's
/// options hold but the path of the harness, which is the running executable.
#[derive(Debug)]
pub struct FuzzerSettings {
    /// Directories containing starting input
    pub input: Vec<String>,
    /// Where to print the fuzzer outputs
    pub stdout: String,
    /// Where the solutions are written
    pub output: String,
    /// The cores to fuzz on
    pub cores: libafl_bolts::core_affinity::Cores,
    /// Port used by the fuzzer broker
    pub broker_port: u16,
    /// Address of a remote broker to connect to, if any
    pub remote_broker_addr: Option<String>,
    /// Libraries to instrument besides the harness
    pub libs_to_instrument: Vec<String>,
    /// Instrument the modules that are excluded by default
    pub disable_excludes: bool,
    /// Code ranges not to instrument: a module and an offset
    pub dont_instrument: Vec<(String, usize)>,
    /// Disable the coverage
    pub disable_coverage: bool,
    /// Enable the comparison logging
    pub cmplog: bool,
    /// The cores on which the comparison logging runs
    pub cmplog_cores: libafl_bolts::core_affinity::Cores,
    /// Enable the coverage recording
    pub drcov: bool,
    /// Enable the memory sanitizer
    pub asan: bool,
    /// The cores on which the memory sanitizer runs
    pub asan_cores: libafl_bolts::core_affinity::Cores,
    /// Detect memory leaks
    pub detect_leaks: bool,
    /// Go on after a memory error
    pub continue_on_error: bool,
    /// Record a backtrace for each allocation
    pub allocation_backtraces: bool,
    /// Largest single allocation, in bytes
    pub max_allocation: u64,
    /// Largest total of allocations, in bytes
    pub max_total_allocation: u64,
    /// Panic when an allocation is larger than allowed
    pub max_allocation_panics: bool,
    /// Number of iterations (0: no limit)
    pub iterations: usize,
    /// Name of the configuration
    pub configuration: String,
    /// Verbose output
    pub verbose: bool,
    /// Timeout of one execution, in seconds (0: none)
    pub timeout_secs: u64,
    /// Name of the harness function
    pub harness_function: String,
    /// Arguments of the harness
    pub harness_args: Vec<String>,
    /// Token files for the mutations
    pub tokens: Vec<String>,
    /// Input to replay, if any
    pub replay: Option<String>,
    /// Number of replays, if any
    pub repeat: Option<usize>,
}

/// The cores `1` to `n`, in the command-line notation.
pub open spec fn cores_text(n: u16) -> Seq<char> {
    "1-"@ + decimal(n as nat)
}

/// The cores `1` to `n`, in the command-line notation
pub fn cores_spec(n: u16) -> (s: String)
    ensures
        s@ == cores_text(n),
{
    let d: String = decimal_string(n as usize);
    concat(String::from_str("1-"), d.as_str())
}

impl SimpleFuzzerConfig {
    /// The configuration read from a file, for the command `command_name` fuzzed in `fuzz_dir`:
    /// its solutions go to `fuzz_dir/fuzz_solutions/command_name`
    pub fn with_solutions_dir(self, fuzz_dir: &str, command_name: &str) -> (c: Self)
        ensures
            c.solutions_dir@ == solutions_dir_of(fuzz_dir@, command_name@),
            c.stdout == self.stdout,
            c.nb_of_cores == self.nb_of_cores,
            c.corpus_input == self.corpus_input,
            c.with_coverage == self.with_coverage,
            c.broker_port == self.broker_port,
    {
        let dir: String = push_path(fuzz_dir, "fuzz_solutions");
        let solutions_dir: String = push_path(dir.as_str(), command_name);
        SimpleFuzzerConfig { solutions_dir, ..self }
    }

    /// The settings of the fuzzer: it fuzzes on cores `1` to `nb_of_cores` (which must not be
    /// 0, see [`fuzzing_cores`]); the coverage options all follow `with_coverage`; there is no
    /// remote broker; the memory sanitizer is off, its settings and the comparison logging on
    /// core 1; everything else keeps its neutral value.
    pub fn into_settings(self) -> (s: FuzzerSettings)
        requires
            self.nb_of_cores >= 1,
        ensures
            s.input == self.corpus_input,
            s.stdout == self.stdout,
            s.output == self.solutions_dir,
            core_ids(s.cores) == cores_up_to(self.nb_of_cores),
            s.broker_port == self.broker_port,
            s.remote_broker_addr is None,
            s.libs_to_instrument@.len() == 0,
            s.disable_excludes,
            s.dont_instrument@.len() == 0,
            s.disable_coverage == !self.with_coverage,
            s.cmplog == self.with_coverage,
            core_ids(s.cmplog_cores) == seq![1usize],
            s.drcov == self.with_coverage,
            !s.asan,
            core_ids(s.asan_cores) == seq![1usize],
            !s.detect_leaks,
            !s.continue_on_error,
            s.allocation_backtraces,
            s.max_allocation == 0x4000_0000,
            s.max_total_allocation == 0x1_0000_0000,
            s.max_allocation_panics,
            s.iterations == 0,
            s.configuration@ == "default configuration"@,
            s.verbose,
            s.timeout_secs == 0,
            s.harness_function@.len() == 0,
            s.harness_args@.len() == 0,
            s.tokens@.len() == 0,
            s.replay is None,
            s.repeat is None,
    {
        let cores = fuzzing_cores(self.nb_of_cores).unwrap();
        FuzzerSettings {
            input: self.corpus_input,
            stdout: self.stdout,
            output: self.solutions_dir,
            cores,
            broker_port: self.broker_port,
            remote_broker_addr: None,
            libs_to_instrument: Vec::new(),
            disable_excludes: true,
            dont_instrument: Vec::new(),
            disable_coverage: !self.with_coverage,
            cmplog: self.with_coverage,
            cmplog_cores: first_core(),
            drcov: self.with_coverage,
            asan: false,
            asan_cores: first_core(),
            detect_leaks: false,
            continue_on_error: false,
            allocation_backtraces: true,
            max_allocation: 0x4000_0000,
            max_total_allocation: 0x1_0000_0000,
            max_allocation_panics: true,
            iterations: 0,
            configuration: String::from_str("default configuration"),
            verbose: true,
            timeout_secs: 0,
            harness_function: String::new(),
            harness_args: Vec::new(),
            tokens: Vec::new(),
            replay: None,
            repeat: None,
        }
    }
}

#[verifier::external_type_specification]
#[verifier::external_body]
pub struct ExCores(libafl_bolts::core_affinity::Cores);

#[verifier::external_type_specification]
#[verifier::external_body]
pub struct ExLibaflError(libafl_bolts::Error);

/// The ids of the cores that a `Cores` holds, in order.
pub uninterp spec fn core_ids(cores: libafl_bolts::core_affinity::Cores) -> Seq<usize>;

/// The core ids that `Cores::from_cmdline` reads from a command line other than `all` (a
/// comma-separated list of ids and ranges), none when it fails.
pub uninterp spec fn parsed_core_ids(cmdline: Seq<char>) -> Option<Seq<usize>>;

/// The ids `1` to `n`, for a number of cores.
pub open spec fn cores_up_to(n: u16) -> Seq<usize> {
    first_cores(n as nat)
}

/// The ids `1` to `n`.
pub open spec fn first_cores(n: nat) -> Seq<usize> {
    Seq::new(n, |i: int| (i + 1) as usize)
}

/// Parses a core list with `libafl_bolts::core_affinity::Cores::from_cmdline`. The contract
/// claims what its source and documentation show: apart from `all` (every core of the machine,
/// which is left unsaid), the outcome depends on the command line alone; `1` gives the core 1;
/// a range `1-n` gives the cores `1` to `n`, and fails when that range is empty.
#[verifier::external_body]
fn parse_cores(cmdline: &str) -> (r: Result<libafl_bolts::core_affinity::Cores, libafl_bolts::Error>)
    ensures
        cmdline@ != "all"@ ==> (r is Ok <==> parsed_core_ids(cmdline@) is Some),
        cmdline@ != "all"@ ==> (r matches Ok(c) ==> core_ids(c) == parsed_core_ids(cmdline@)->0),
        cmdline@ == "1"@ ==> r is Ok,
        cmdline@ == "1"@ ==> (r matches Ok(c) ==> core_ids(c) == seq![1usize]),
        forall|n: u16| #[trigger] cores_text(n) == cmdline@ ==>
            ((r is Ok <==> n >= 1) && (r matches Ok(c) ==> core_ids(c) == first_cores(n as nat))),
{
    libafl_bolts::core_affinity::Cores::from_cmdline(cmdline)
}

/// The cores to fuzz on: `1` to `nb_of_cores`, which must not be 0.
pub fn fuzzing_cores(nb_of_cores: u16) -> (r: Result<libafl_bolts::core_affinity::Cores, libafl_bolts::Error>)
    ensures
        r is Ok <==> nb_of_cores >= 1,
        r matches Ok(c) ==> core_ids(c) == first_cores(nb_of_cores as nat),
{
    let cmdline: String = cores_spec(nb_of_cores);
    parse_cores(cmdline.as_str())
}

/// The single core `1`, on which the comparison logging and the sanitizer would run.
pub fn first_core() -> (r: libafl_bolts::core_affinity::Cores)
    ensures
        core_ids(r) == seq![1usize],
{
    proof {
        reveal_strlit("1");
    }
    parse_cores("1").unwrap()
}

} // verus!
