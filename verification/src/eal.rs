//! EAL (Environment Abstraction Layer) start-up: the typed options, the
//! command line they expand to, and the bookkeeping that keeps the EAL from
//! being initialized twice.

use vstd::prelude::*;
use crate::error::{errno_from_raw, errno_of};
use crate::text::{decimal, decimal_string};

verus! {

/// DPDK process type for multi-process support.
#[derive(Debug, Clone, Copy, PartialEq, Eq, Structural)]
pub enum ProcessType {
    Primary,
    Secondary,
    Auto,
}

impl ProcessType {
    /// The word that `--proc-type=` takes for this process type.
    pub open spec fn name_spec(self) -> Seq<char> {
        match self {
            ProcessType::Primary => "primary"@,
            ProcessType::Secondary => "secondary"@,
            ProcessType::Auto => "auto"@,
        }
    }

    pub fn as_str(&self) -> (s: &'static str)
        ensures
            s@ == self.name_spec(),
    {
        match self {
            ProcessType::Primary => "primary",
            ProcessType::Secondary => "secondary",
            ProcessType::Auto => "auto",
        }
    }
}

/// DPDK log levels.
#[derive(Debug, Clone, Copy, PartialEq, Eq, Structural)]
pub enum LogLevel {
    Emergency,
    Alert,
    Critical,
    Error,
    Warning,
    Notice,
    Info,
    Debug,
    /// Custom numeric level (1-8)
    Level(u8),
}

impl LogLevel {
    /// The numeric level DPDK expects: 1 (emergency) through 8 (debug).
    pub open spec fn number(self) -> nat {
        match self {
            LogLevel::Emergency => 1,
            LogLevel::Alert => 2,
            LogLevel::Critical => 3,
            LogLevel::Error => 4,
            LogLevel::Warning => 5,
            LogLevel::Notice => 6,
            LogLevel::Info => 7,
            LogLevel::Debug => 8,
            LogLevel::Level(n) => n as nat,
        }
    }

    pub fn as_str(&self) -> (s: String)
        ensures
            s@ == decimal(self.number()),
    {
        match self {
            LogLevel::Emergency => decimal_string(1),
            LogLevel::Alert => decimal_string(2),
            LogLevel::Critical => decimal_string(3),
            LogLevel::Error => decimal_string(4),
            LogLevel::Warning => decimal_string(5),
            LogLevel::Notice => decimal_string(6),
            LogLevel::Info => decimal_string(7),
            LogLevel::Debug => decimal_string(8),
            LogLevel::Level(n) => decimal_string(*n as u32),
        }
    }
}

/// A log level's number follows DPDK's `RTE_LOG_*` levels, from 1 for
/// emergencies up to 8 for debug messages: a more severe level has a
/// smaller number, and a custom level is its own number.
pub proof fn lemma_log_level_numbers(n: u8)
    ensures
        LogLevel::Emergency.number() == 1,
        LogLevel::Alert.number() == 2,
        LogLevel::Critical.number() == 3,
        LogLevel::Error.number() == 4,
        LogLevel::Warning.number() == 5,
        LogLevel::Notice.number() == 6,
        LogLevel::Info.number() == 7,
        LogLevel::Debug.number() == 8,
        LogLevel::Level(n).number() == n,
{
}

/// The process types are named as `--proc-type=` expects them, and no two
/// share a name.
pub proof fn lemma_process_type_names(p: ProcessType, q: ProcessType)
    ensures
        ProcessType::Primary.name_spec() == "primary"@,
        ProcessType::Secondary.name_spec() == "secondary"@,
        ProcessType::Auto.name_spec() == "auto"@,
        p.name_spec() == q.name_spec() <==> p == q,
{
    reveal_strlit("primary");
    reveal_strlit("secondary");
    reveal_strlit("auto");
    if p != q {
        assert(p.name_spec()[0] != q.name_spec()[0] || p.name_spec().len() != q.name_spec().len());
    }
}

/// Well-known EAL options as strongly-typed enum variants.
#[derive(Debug, Clone)]
pub enum EalOption {
    /// Program name (required as first argument)
    ProgramName(String),
    /// Don't use hugepages (--no-huge)
    NoHuge,
    /// Don't scan PCI bus (--no-pci)
    NoPci,
    /// Add a virtual device (--vdev=<device>)
    Vdev(String),
    /// Core mask in hex (e.g., "0xf" for cores 0-3)
    CoreMask(String),
    /// Core list (e.g., "0-3" or "0,2,4")
    CoreList(String),
    /// Number of memory channels (-n <num>)
    MemoryChannels(u32),
    /// Process type (--proc-type=<type>)
    ProcessType(ProcessType),
    /// File prefix for multi-process (--file-prefix=<prefix>)
    FilePrefix(String),
    /// Memory per socket in MB (--socket-mem=<amounts>)
    SocketMem(String),
    /// Log level (--log-level=<level>)
    LogLevel(LogLevel),
    /// In-memory mode, no persistent files (--in-memory)
    InMemory,
    /// Base virtual address (--base-virtaddr=<addr>)
    BaseVirtAddr(String),
    /// Allow a PCI device (-a <pci_addr>)
    Allow(String),
    /// Custom argument (pass-through)
    Custom(String),
}

impl EalOption {
    /// The command-line words this option expands to.
    pub open spec fn args_spec(self) -> Seq<Seq<char>> {
        match self {
            EalOption::ProgramName(name) => seq![name@],
            EalOption::NoHuge => seq!["--no-huge"@],
            EalOption::NoPci => seq!["--no-pci"@],
            EalOption::Vdev(dev) => seq!["--vdev="@ + dev@],
            EalOption::CoreMask(mask) => seq!["-c"@, mask@],
            EalOption::CoreList(list) => seq!["-l"@, list@],
            EalOption::MemoryChannels(n) => seq!["-n"@, decimal(n as nat)],
            EalOption::ProcessType(pt) => seq!["--proc-type="@ + pt.name_spec()],
            EalOption::FilePrefix(prefix) => seq!["--file-prefix="@ + prefix@],
            EalOption::SocketMem(mem) => seq!["--socket-mem="@ + mem@],
            EalOption::LogLevel(level) => seq!["--log-level="@ + decimal(level.number())],
            EalOption::InMemory => seq!["--in-memory"@],
            EalOption::BaseVirtAddr(addr) => seq!["--base-virtaddr="@ + addr@],
            EalOption::Allow(pci_addr) => seq!["-a"@, pci_addr@],
            EalOption::Custom(arg) => seq![arg@],
        }
    }

    /// Convert to command-line argument strings.
    pub fn to_args(&self) -> (r: Vec<String>)
        ensures
            r.deep_view() == self.args_spec(),
    {
        let mut r: Vec<String> = Vec::new();
        match self {
            EalOption::ProgramName(name) => {
                r.push(name.clone());
            },
            EalOption::NoHuge => {
                r.push(String::from_str("--no-huge"));
            },
            EalOption::NoPci => {
                r.push(String::from_str("--no-pci"));
            },
            EalOption::Vdev(dev) => {
                r.push(String::from_str("--vdev=").concat(dev.as_str()));
            },
            EalOption::CoreMask(mask) => {
                r.push(String::from_str("-c"));
                r.push(mask.clone());
            },
            EalOption::CoreList(list) => {
                r.push(String::from_str("-l"));
                r.push(list.clone());
            },
            EalOption::MemoryChannels(n) => {
                r.push(String::from_str("-n"));
                r.push(decimal_string(*n));
            },
            EalOption::ProcessType(pt) => {
                r.push(String::from_str("--proc-type=").concat(pt.as_str()));
            },
            EalOption::FilePrefix(prefix) => {
                r.push(String::from_str("--file-prefix=").concat(prefix.as_str()));
            },
            EalOption::SocketMem(mem) => {
                r.push(String::from_str("--socket-mem=").concat(mem.as_str()));
            },
            EalOption::LogLevel(level) => {
                let text = level.as_str();
                r.push(String::from_str("--log-level=").concat(text.as_str()));
            },
            EalOption::InMemory => {
                r.push(String::from_str("--in-memory"));
            },
            EalOption::BaseVirtAddr(addr) => {
                r.push(String::from_str("--base-virtaddr=").concat(addr.as_str()));
            },
            EalOption::Allow(pci_addr) => {
                r.push(String::from_str("-a"));
                r.push(pci_addr.clone());
            },
            EalOption::Custom(arg) => {
                r.push(arg.clone());
            },
        }
        assert(r.deep_view() =~= self.args_spec());
        r
    }
}


/// The command-line words a sequence of options expands to, in order.
pub open spec fn options_args(opts: Seq<EalOption>) -> Seq<Seq<char>>
    decreases opts.len(),
{
    if opts.len() == 0 {
        Seq::empty()
    } else {
        options_args(opts.drop_last()) + opts.last().args_spec()
    }
}

/// The program name used when none was configured and the process name is
/// unknown.
pub open spec fn default_program_name() -> Seq<char> {
    "dpdk-app"@
}

/// Builder for EAL initialization options.
#[derive(Debug, Clone, Default)]
pub struct EalBuilder {
    program_name: Option<String>,
    options: Vec<EalOption>,
}

impl EalBuilder {
    /// The configured program name, if any.
    pub closed spec fn program(&self) -> Option<String> {
        self.program_name
    }

    /// The configured options, in the order they were added.
    pub closed spec fn opts(&self) -> Seq<EalOption> {
        self.options@
    }

    /// The full argument vector: the program name (configured, else the
    /// name the process was invoked as, else `"dpdk-app"`) followed by the
    /// expansion of every option in order.
    pub open spec fn args_spec(&self, invoked_as: Option<Seq<char>>) -> Seq<Seq<char>> {
        let name = match self.program() {
            Some(n) => n@,
            None => match invoked_as {
                Some(s) => s,
                None => default_program_name(),
            },
        };
        seq![name] + options_args(self.opts())
    }

    /// Create a new EAL builder with no program name and no options.
    pub fn new() -> (r: Self)
        ensures
            r.program() is None,
            r.opts() == Seq::<EalOption>::empty(),
    {
        Self { program_name: None, options: Vec::new() }
    }

    /// Set the program name (first argument).
    pub fn program_name(self, name: &str) -> (r: Self)
        ensures
            r.program() matches Some(n) && n@ == name@,
            r.opts() == self.opts(),
    {
        let mut s = self;
        s.program_name = Some(String::from_str(name));
        s
    }

    fn with_option(self, opt: EalOption) -> (r: Self)
        ensures
            r.program() == self.program(),
            r.opts() == self.opts().push(opt),
    {
        let mut s = self;
        s.options.push(opt);
        s
    }

    /// Add --no-huge option (don't use hugepages).
    pub fn no_huge(self) -> (r: Self)
        ensures
            r.program() == self.program(),
            r.opts() == self.opts().push(EalOption::NoHuge),
    {
        self.with_option(EalOption::NoHuge)
    }

    /// Add --no-pci option (don't scan PCI bus).
    pub fn no_pci(self) -> (r: Self)
        ensures
            r.program() == self.program(),
            r.opts() == self.opts().push(EalOption::NoPci),
    {
        self.with_option(EalOption::NoPci)
    }

    /// Add a virtual device (--vdev=<device>).
    pub fn vdev(self, device: &str) -> (r: Self)
        ensures
            r.program() == self.program(),
            r.opts().len() == self.opts().len() + 1,
            r.opts().drop_last() == self.opts(),
            r.opts().last() matches EalOption::Vdev(d) && d@ == device@,
    {
        self.with_option(EalOption::Vdev(String::from_str(device)))
    }

    /// Set core mask in hex (-c <mask>).
    pub fn core_mask(self, mask: &str) -> (r: Self)
        ensures
            r.program() == self.program(),
            r.opts().len() == self.opts().len() + 1,
            r.opts().drop_last() == self.opts(),
            r.opts().last() matches EalOption::CoreMask(m) && m@ == mask@,
    {
        self.with_option(EalOption::CoreMask(String::from_str(mask)))
    }

    /// Set core list (-l <list>).
    pub fn core_list(self, list: &str) -> (r: Self)
        ensures
            r.program() == self.program(),
            r.opts().len() == self.opts().len() + 1,
            r.opts().drop_last() == self.opts(),
            r.opts().last() matches EalOption::CoreList(l) && l@ == list@,
    {
        self.with_option(EalOption::CoreList(String::from_str(list)))
    }

    /// Set number of memory channels (-n <num>).
    pub fn memory_channels(self, n: u32) -> (r: Self)
        ensures
            r.program() == self.program(),
            r.opts() == self.opts().push(EalOption::MemoryChannels(n)),
    {
        self.with_option(EalOption::MemoryChannels(n))
    }

    /// Set process type for multi-process (--proc-type=<type>).
    pub fn process_type(self, pt: ProcessType) -> (r: Self)
        ensures
            r.program() == self.program(),
            r.opts() == self.opts().push(EalOption::ProcessType(pt)),
    {
        self.with_option(EalOption::ProcessType(pt))
    }

    /// Set file prefix for multi-process (--file-prefix=<prefix>).
    pub fn file_prefix(self, prefix: &str) -> (r: Self)
        ensures
            r.program() == self.program(),
            r.opts().len() == self.opts().len() + 1,
            r.opts().drop_last() == self.opts(),
            r.opts().last() matches EalOption::FilePrefix(p) && p@ == prefix@,
    {
        self.with_option(EalOption::FilePrefix(String::from_str(prefix)))
    }

    /// Set memory per socket in MB (--socket-mem=<amounts>).
    pub fn socket_mem(self, mem: &str) -> (r: Self)
        ensures
            r.program() == self.program(),
            r.opts().len() == self.opts().len() + 1,
            r.opts().drop_last() == self.opts(),
            r.opts().last() matches EalOption::SocketMem(m) && m@ == mem@,
    {
        self.with_option(EalOption::SocketMem(String::from_str(mem)))
    }

    /// Set log level (--log-level=<level>).
    pub fn log_level(self, level: LogLevel) -> (r: Self)
        ensures
            r.program() == self.program(),
            r.opts() == self.opts().push(EalOption::LogLevel(level)),
    {
        self.with_option(EalOption::LogLevel(level))
    }

    /// Enable in-memory mode (--in-memory).
    pub fn in_memory(self) -> (r: Self)
        ensures
            r.program() == self.program(),
            r.opts() == self.opts().push(EalOption::InMemory),
    {
        self.with_option(EalOption::InMemory)
    }

    /// Allow a PCI device (-a <pci_addr>).
    pub fn allow(self, pci_addr: &str) -> (r: Self)
        ensures
            r.program() == self.program(),
            r.opts().len() == self.opts().len() + 1,
            r.opts().drop_last() == self.opts(),
            r.opts().last() matches EalOption::Allow(a) && a@ == pci_addr@,
    {
        self.with_option(EalOption::Allow(String::from_str(pci_addr)))
    }

    /// Add a custom option.
    pub fn option(self, opt: EalOption) -> (r: Self)
        ensures
            r.program() == self.program(),
            r.opts() == self.opts().push(opt),
    {
        self.with_option(opt)
    }

    /// Add a custom raw argument.
    pub fn arg(self, arg: &str) -> (r: Self)
        ensures
            r.program() == self.program(),
            r.opts().len() == self.opts().len() + 1,
            r.opts().drop_last() == self.opts(),
            r.opts().last() matches EalOption::Custom(a) && a@ == arg@,
    {
        self.with_option(EalOption::Custom(String::from_str(arg)))
    }

    /// Build the argument list. `invoked_as` is the name the process was
    /// started under (its first command-line word), used when no program
    /// name was configured.
    pub fn build_args(&self, invoked_as: Option<String>) -> (r: Vec<String>)
        ensures
            r.deep_view() == self.args_spec(
                match invoked_as {
                    Some(s) => Some(s@),
                    None => None,
                },
            ),
    {
        let mut args: Vec<String> = Vec::new();
        let name = match &self.program_name {
            Some(n) => n.clone(),
            None => match invoked_as {
                Some(s) => s,
                None => String::from_str("dpdk-app"),
            },
        };
        args.push(name);
        let ghost prefix = args.deep_view();
        let n = self.options.len();
        let mut i: usize = 0;
        while i < n
            invariant
                n == self.options.len(),
                i <= n,
                prefix.len() == 1,
                args.deep_view() == prefix + options_args(self.options@.take(i as int)),
            decreases n - i,
        {
            let mut more = self.options[i].to_args();
            let ghost before = args.deep_view();
            let ghost added = more.deep_view();
            args.append(&mut more);
            assert(args.deep_view() =~= before + added);
            assert(self.options@.take(i + 1).last() == self.options@[i as int]);
            assert(self.options@.take(i + 1).drop_last() =~= self.options@.take(i as int));
            assert(args.deep_view() =~= prefix + options_args(self.options@.take(i + 1)));
            i += 1;
        }
        assert(self.options@.take(n as int) =~= self.options@);
        assert(args.deep_view() =~= self.args_spec(
            match invoked_as {
                Some(s) => Some(s@),
                None => None,
            },
        ));
        args
    }

    /// Claim the EAL for initialization with the configured options.
    ///
    /// Fails with `EALREADY` (leaving `state` unchanged) when the EAL is
    /// already initialized. Otherwise `state` is marked initialized and the
    /// argument vector to hand to `rte_eal_init` is returned; the outcome of
    /// that call must then be reported with [`EalState::finish_init`].
    pub fn init(self, invoked_as: Option<String>, state: &mut EalState) -> (r: Result<
        Vec<String>,
        nix::errno::Errno,
    >)
        ensures
            old(state).is_initialized() ==> r is Err && *final(state) == *old(state),
            !old(state).is_initialized() ==> final(state).history() == old(state).history().push(
                EalEvent::Claimed,
            ),
            final(state).is_initialized() == initialized_after(final(state).history()),
            !old(state).is_initialized() ==> final(state).is_initialized() && (r matches Ok(args)
                && args.deep_view() == self.args_spec(
                match invoked_as {
                    Some(s) => Some(s@),
                    None => None,
                },
            )),
    {
        match state.begin_init() {
            Err(e) => Err(e),
            Ok(()) => Ok(self.build_args(invoked_as)),
        }
    }
}

/// `libc::EALREADY`, the errno number for "operation already in progress".
/// Its value depends on the target (114 on most Linux targets, 149 on
/// MIPS, 37 on SPARC), so nothing is promised of it.
#[verifier::external_body]
fn ealready_code() -> i32 {
    nix::libc::EALREADY
}

/// What has happened to the EAL, in the order the state recorded it.
#[derive(Debug, Clone, Copy, PartialEq, Eq, Structural)]
pub enum EalEvent {
    /// An initialization claimed the EAL (`rte_eal_init` is about to run).
    Claimed,
    /// `rte_eal_init` failed; the claim is released.
    InitFailed,
    /// `rte_eal_init` succeeded (a guard was handed out, or the EAL was
    /// initialized without one).
    InitSucceeded,
    /// The EAL was cleaned up (its guard was released, or it was cleaned up
    /// without one).
    CleanedUp,
}

/// Whether the EAL is initialized after these events: an initialization
/// claimed it or succeeded, and no failure or cleanup came after that.
pub open spec fn initialized_after(events: Seq<EalEvent>) -> bool {
    events.len() > 0 && (events.last() == EalEvent::Claimed || events.last()
        == EalEvent::InitSucceeded)
}

/// Process-wide record of whether the EAL is initialized.
///
/// The EAL can be initialized once at a time: a second initialization is
/// refused until the first one failed or its guard was cleaned up.
pub struct EalState {
    initialized: bool,
    events: Ghost<Seq<EalEvent>>,
}

/// Guard for an initialized EAL; hand it back to [`EalState::cleanup`]
/// after `rte_eal_cleanup` has run.
pub struct Eal {
    _private: (),
}

impl Eal {
    /// Check if EAL has been initialized: exactly when an initialization
    /// claimed it or succeeded and was not undone since by a failure or a
    /// cleanup.
    pub fn is_initialized(state: &EalState) -> (r: bool)
        ensures
            r == state.is_initialized(),
            r == initialized_after(state.history()),
    {
        proof {
            use_type_invariant(state);
        }
        state.initialized
    }
}

impl EalState {
    /// Whether the EAL is currently initialized.
    pub closed spec fn is_initialized(&self) -> bool {
        self.initialized
    }

    /// The events recorded so far (refused initializations leave no trace).
    pub closed spec fn history(&self) -> Seq<EalEvent> {
        self.events@
    }

    #[verifier::type_invariant]
    spec fn tracks_history(&self) -> bool {
        self.initialized == initialized_after(self.events@)
    }

    /// A state in which the EAL has not been initialized.
    pub fn new() -> (r: Self)
        ensures
            !r.is_initialized(),
            r.history() == Seq::<EalEvent>::empty(),
    {
        EalState { initialized: false, events: Ghost(Seq::empty()) }
    }

    /// Mark the EAL as being initialized; refused with `EALREADY` when it
    /// already is.
    pub fn begin_init(&mut self) -> (r: Result<(), nix::errno::Errno>)
        ensures
            old(self).is_initialized() ==> r is Err && *final(self) == *old(self),
            !old(self).is_initialized() ==> r is Ok && final(self).is_initialized()
                && final(self).history() == old(self).history().push(EalEvent::Claimed),
            final(self).is_initialized() == initialized_after(final(self).history()),
    {
        proof {
            use_type_invariant(&*self);
        }
        if self.initialized {
            Err(errno_from_raw(ealready_code()))
        } else {
            let ghost events = self.events@.push(EalEvent::Claimed);
            *self = EalState { initialized: true, events: Ghost(events) };
            Ok(())
        }
    }

    /// Record the return code of `rte_eal_init` (and the `rte_errno` value
    /// read after it). A negative code resets the state so that a retry is
    /// possible and reports the errno; otherwise the EAL guard is returned.
    pub fn finish_init(&mut self, ret: i32, errno: i32) -> (r: Result<Eal, nix::errno::Errno>)
        requires
            old(self).is_initialized(),
        ensures
            ret < 0 ==> !final(self).is_initialized() && r == Err::<Eal, nix::errno::Errno>(
                errno_of(errno),
            ) && final(self).history() == old(self).history().push(EalEvent::InitFailed),
            ret >= 0 ==> final(self).is_initialized() && r is Ok && final(self).history() == old(
                self,
            ).history().push(EalEvent::InitSucceeded),
            final(self).is_initialized() == initialized_after(final(self).history()),
    {
        if ret < 0 {
            let ghost events = self.events@.push(EalEvent::InitFailed);
            *self = EalState { initialized: false, events: Ghost(events) };
            Err(errno_from_raw(errno))
        } else {
            let ghost events = self.events@.push(EalEvent::InitSucceeded);
            *self = EalState { initialized: true, events: Ghost(events) };
            Ok(Eal { _private: () })
        }
    }

    /// Record the return code of a low-level `rte_eal_init` made without a
    /// guard (and the `rte_errno` value read after it). A negative code
    /// leaves the state as it was and reports the errno; otherwise the EAL
    /// is initialized from now on.
    pub fn record_init(&mut self, ret: i32, errno: i32) -> (r: Result<(), nix::errno::Errno>)
        ensures
            ret < 0 ==> r == Err::<(), nix::errno::Errno>(errno_of(errno)) && *final(self)
                == *old(self),
            ret >= 0 ==> r is Ok && final(self).is_initialized() && final(self).history() == old(
                self,
            ).history().push(EalEvent::InitSucceeded),
            final(self).is_initialized() == initialized_after(final(self).history()),
    {
        proof {
            use_type_invariant(&*self);
        }
        if ret < 0 {
            Err(errno_from_raw(errno))
        } else {
            let ghost events = self.events@.push(EalEvent::InitSucceeded);
            *self = EalState { initialized: true, events: Ghost(events) };
            Ok(())
        }
    }

    /// Record the return code of a low-level `rte_eal_cleanup` made without
    /// a guard (and the `rte_errno` value read after it). A negative code
    /// leaves the state as it was and reports the errno; otherwise the EAL
    /// is no longer initialized.
    pub fn record_cleanup(&mut self, ret: i32, errno: i32) -> (r: Result<(), nix::errno::Errno>)
        ensures
            ret < 0 ==> r == Err::<(), nix::errno::Errno>(errno_of(errno)) && *final(self)
                == *old(self),
            ret >= 0 ==> r is Ok && !final(self).is_initialized() && final(self).history() == old(
                self,
            ).history().push(EalEvent::CleanedUp),
            final(self).is_initialized() == initialized_after(final(self).history()),
    {
        proof {
            use_type_invariant(&*self);
        }
        if ret < 0 {
            Err(errno_from_raw(errno))
        } else {
            let ghost events = self.events@.push(EalEvent::CleanedUp);
            *self = EalState { initialized: false, events: Ghost(events) };
            Ok(())
        }
    }

    /// Release the EAL guard once `rte_eal_cleanup` has run; the EAL may
    /// then be initialized again.
    pub fn cleanup(&mut self, eal: Eal)
        ensures
            !final(self).is_initialized(),
            final(self).history() == old(self).history().push(EalEvent::CleanedUp),
            final(self).is_initialized() == initialized_after(final(self).history()),
    {
        let ghost events = self.events@.push(EalEvent::CleanedUp);
        *self = EalState { initialized: false, events: Ghost(events) };
    }
}

} // verus!
