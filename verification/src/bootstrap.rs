//! One-time initialisation of the process: what is done, in which order,
//! and the guard that hands the work out exactly once.

use crate::chain_spec::{ChainSpec, ChainSpecView, PropertyValue};
use vstd::prelude::*;

verus! {

/// The chain-spec property that names the address-encoding format.
pub const SS58_FORMAT_PROPERTY: &'static str = "ss58Format";

/// Where users are sent when the process panics.
pub const SUPPORT_CONTACT: &'static str = "https://discord.gg/vhKF9w3x";

/// The open-file-descriptor limit below which a warning is due.
pub const RECOMMENDED_OPEN_FILE_DESCRIPTOR_LIMIT: u64 = 10_000;

/// Why a chain spec's address format cannot be used.
#[derive(Clone, Copy, Debug, PartialEq, Eq, Structural)]
pub enum AddressFormatError {
    /// The property is there and is not an unsigned number.
    NotUnsigned,
    /// The property is an unsigned number above the 16-bit range.
    OutOfRange(u64),
}

/// The address format that a property value stands for: none where the
/// property is absent, the number where it fits in 16 bits.
pub open spec fn address_format_of(property: Option<PropertyValue>) -> Result<
    Option<u16>,
    AddressFormatError,
> {
    match property {
        None => Ok(None),
        Some(PropertyValue::Other) => Err(AddressFormatError::NotUnsigned),
        Some(PropertyValue::Unsigned(number)) => if number <= u16::MAX {
            Ok(Some(number as u16))
        } else {
            Err(AddressFormatError::OutOfRange(number))
        },
    }
}

impl ChainSpecView {
    /// The default address format that the chain asks for, or the reason
    /// why what it asks for is unusable.
    pub open spec fn address_format(self) -> Result<Option<u16>, AddressFormatError> {
        address_format_of(self.property(SS58_FORMAT_PROPERTY@))
    }
}

/// Reads the chain's default address format and says what is wrong with it
/// where it is unusable.
pub fn address_format(chain_spec: &ChainSpec) -> (format: Result<Option<u16>, AddressFormatError>)
    ensures
        format == chain_spec@.address_format(),
{
    match chain_spec.property(SS58_FORMAT_PROPERTY) {
        None => Ok(None),
        Some(PropertyValue::Other) => Err(AddressFormatError::NotUnsigned),
        Some(PropertyValue::Unsigned(number)) => {
            if number <= 0xffff {
                Ok(Some(number as u16))
            } else {
                Err(AddressFormatError::OutOfRange(number))
            }
        },
    }
}

/// Calls `sp_core::crypto::set_default_ss58_version` with
/// `Ss58AddressFormat::custom(prefix)`, which stores the prefix as the
/// process-wide default address format. It returns nothing, so nothing is
/// claimed of it.
#[verifier::external_body]
fn install_ss58_version(prefix: u16) {
    sp_core::crypto::set_default_ss58_version(sp_core::crypto::Ss58AddressFormat::custom(prefix));
}

/// Makes the address format that the chain names the default of the
/// process, and returns it. Where the chain names none, the default stays
/// as it is. The chain's format must be usable: [`address_format`] tells,
/// and [`try_set_default_ss58_version`] asks before it installs.
pub fn set_default_ss58_version(chain_spec: &ChainSpec) -> (installed: Option<u16>)
    requires
        chain_spec@.address_format() is Ok,
    ensures
        Ok::<Option<u16>, AddressFormatError>(installed) == chain_spec@.address_format(),
{
    match chain_spec.property(SS58_FORMAT_PROPERTY) {
        Some(PropertyValue::Unsigned(number)) => {
            let prefix = number as u16;
            install_ss58_version(prefix);
            Some(prefix)
        },
        _ => None,
    }
}

/// Makes the address format that the chain names the default of the
/// process where that format is usable, and says what is wrong with it
/// where it is not; the default then stays as it is.
pub fn try_set_default_ss58_version(chain_spec: &ChainSpec) -> (installed: Result<
    Option<u16>,
    AddressFormatError,
>)
    ensures
        installed == chain_spec@.address_format(),
{
    match address_format(chain_spec) {
        Ok(_) => Ok(set_default_ss58_version(chain_spec)),
        Err(error) => Err(error),
    }
}

/// What a panic handler carries: where to report the bug, and the version
/// of the build that hit it.
#[derive(Debug)]
pub struct PanicHandlerSettings {
    pub bug_url: String,
    pub version: String,
}

/// The mathematical value of [`PanicHandlerSettings`].
pub struct PanicHandlerSettingsView {
    pub bug_url: Seq<char>,
    pub version: Seq<char>,
}

impl View for PanicHandlerSettings {
    type V = PanicHandlerSettingsView;

    open spec fn view(&self) -> PanicHandlerSettingsView {
        PanicHandlerSettingsView { bug_url: self.bug_url@, version: self.version@ }
    }
}

/// Calls `sp_panic_handler::set`, which installs as the panic hook of the
/// process one that prints the panic together with the URL and the
/// version. It returns nothing, so nothing is claimed of it.
#[verifier::external_body]
fn set_panic_hook(bug_url: &str, version: &str) {
    sp_panic_handler::set(bug_url, version);
}

/// Installs the panic handler of the process, with [`SUPPORT_CONTACT`] and
/// the version string of the build, and returns what it installed.
pub fn install_panic_handler(version: &str) -> (installed: PanicHandlerSettings)
    ensures
        installed@ == (PanicHandlerSettingsView { bug_url: SUPPORT_CONTACT@, version: version@ }),
{
    set_panic_hook(SUPPORT_CONTACT, version);
    PanicHandlerSettings { bug_url: SUPPORT_CONTACT.to_owned(), version: version.to_owned() }
}

/// How much the process-wide logger lets through.
#[derive(Clone, Copy, Debug, PartialEq, Eq, Structural)]
pub enum LogLevel {
    Error,
    Warn,
    Info,
    Debug,
    Trace,
}

/// The text by which the logger is told a verbosity.
pub open spec fn log_directive_of(level: LogLevel) -> Seq<char> {
    match level {
        LogLevel::Error => "error"@,
        LogLevel::Warn => "warn"@,
        LogLevel::Info => "info"@,
        LogLevel::Debug => "debug"@,
        LogLevel::Trace => "trace"@,
    }
}

/// The text by which the logger is told a verbosity.
pub fn log_directive(level: LogLevel) -> (directive: &'static str)
    ensures
        directive@ == log_directive_of(level),
{
    match level {
        LogLevel::Error => "error",
        LogLevel::Warn => "warn",
        LogLevel::Info => "info",
        LogLevel::Debug => "debug",
        LogLevel::Trace => "trace",
    }
}

/// One side effect of process initialisation.
#[derive(Clone, Copy, Debug, PartialEq, Eq, Structural)]
pub enum BootstrapStep {
    /// Load overrides from the local environment file, if there is one.
    LoadEnvironmentFile,
    /// Make the chain's address format the default:
    /// [`set_default_ss58_version`].
    SetDefaultAddressFormat,
    /// Install the panic handler: [`install_panic_handler`].
    InstallPanicHandler,
    /// Start the process-wide logger at this verbosity. It is an error for
    /// the logger to have been started before.
    InitLogger(LogLevel),
    /// Raise the open-file-descriptor limit as far as the system allows,
    /// and warn where [`check_fd_limit`] says so of the new limit.
    RaiseFdLimit,
}

/// The steps of initialisation, in the order in which they are performed.
pub open spec fn bootstrap_steps() -> Seq<BootstrapStep> {
    seq![
        BootstrapStep::LoadEnvironmentFile,
        BootstrapStep::SetDefaultAddressFormat,
        BootstrapStep::InstallPanicHandler,
        BootstrapStep::InitLogger(LogLevel::Info),
        BootstrapStep::RaiseFdLimit,
    ]
}

/// What one call of [`BootstrapGuard::ensure_initialized`] does to the
/// guard: it leaves the guard completed, and it ran the initialisation
/// exactly if the guard was not completed before.
pub open spec fn is_call(before: bool, after: bool, ran: bool) -> bool {
    after && ran == !before
}

/// Guards process initialisation: of all calls, the first is handed the
/// steps and every later one is handed nothing. A call takes the guard by
/// exclusive reference, so callers that race for one guard are put in a
/// sequence by whatever lock they share it through.
#[derive(Debug)]
pub struct BootstrapGuard {
    completed: bool,
}

impl BootstrapGuard {
    /// Whether the steps were handed out already.
    pub closed spec fn completed(&self) -> bool {
        self.completed
    }

    /// A guard for a process in which nothing was initialised yet.
    pub fn new() -> (guard: BootstrapGuard)
        ensures
            !guard.completed(),
    {
        BootstrapGuard { completed: false }
    }

    /// Whether the steps were handed out already.
    pub fn is_completed(&self) -> (completed: bool)
        ensures
            completed == self.completed(),
    {
        self.completed
    }

    /// Hands out the steps of initialisation on the first call and nothing
    /// on every later one. The caller performs the steps before it lets go
    /// of the guard, so that whoever comes next finds the process
    /// initialised.
    pub fn ensure_initialized(&mut self) -> (steps: Option<Vec<BootstrapStep>>)
        ensures
            is_call(old(self).completed(), final(self).completed(), steps is Some),
            steps matches Some(listed) ==> listed@ == bootstrap_steps(),
    {
        if self.completed {
            return None;
        }
        self.completed = true;
        let mut listed: Vec<BootstrapStep> = Vec::new();
        listed.push(BootstrapStep::LoadEnvironmentFile);
        listed.push(BootstrapStep::SetDefaultAddressFormat);
        listed.push(BootstrapStep::InstallPanicHandler);
        listed.push(BootstrapStep::InitLogger(LogLevel::Info));
        listed.push(BootstrapStep::RaiseFdLimit);
        assert(listed@ =~= bootstrap_steps());
        Some(listed)
    }
}

/// Whether `ran` records a run of calls on one guard that was in state
/// `start` before the first of them: `ran[i]` says whether call `i` was
/// handed the steps, `states[i]` is the guard after it.
pub open spec fn is_history(start: bool, states: Seq<bool>, ran: Seq<bool>) -> bool {
    &&& states.len() == ran.len()
    &&& forall|i: int|
        0 <= i < ran.len() ==> is_call(
            if i == 0 {
                start
            } else {
                states[i - 1]
            },
            #[trigger] states[i],
            ran[i],
        )
}

/// How many of the calls were handed the steps.
pub open spec fn count_runs(ran: Seq<bool>) -> nat
    decreases ran.len(),
{
    if ran.len() == 0 {
        0
    } else {
        count_runs(ran.drop_last()) + if ran.last() {
            1nat
        } else {
            0nat
        }
    }
}

/// However many calls are made on a fresh guard, and at least one, the
/// initialisation is handed out exactly once, to the first of them.
pub proof fn lemma_initialized_exactly_once(states: Seq<bool>, ran: Seq<bool>)
    requires
        is_history(false, states, ran),
        ran.len() >= 1,
    ensures
        count_runs(ran) == 1,
        ran[0],
        forall|i: int| 1 <= i < ran.len() ==> !ran[i],
        forall|i: int| 0 <= i < states.len() ==> states[i],
    decreases ran.len(),
{
    assert(states[0]);
    if ran.len() == 1 {
        assert(ran.drop_last().len() == 0);
        assert(count_runs(ran.drop_last()) == 0);
    } else {
        let last = ran.len() - 1;
        assert(states[last - 1]);
        assert(states[last]);
        assert(is_history(false, states.drop_last(), ran.drop_last())) by {
            assert forall|i: int| 0 <= i < ran.drop_last().len() implies is_call(
                if i == 0 {
                    false
                } else {
                    states.drop_last()[i - 1]
                },
                #[trigger] states.drop_last()[i],
                ran.drop_last()[i],
            ) by {
                assert(states[i]);
            }
        }
        lemma_initialized_exactly_once(states.drop_last(), ran.drop_last());
        assert forall|i: int| 1 <= i < ran.len() implies !ran[i] by {
            assert(states[i - 1]);
            assert(states[i]);
        }
    }
}

/// On a guard that has completed, no call is handed the steps again.
pub proof fn lemma_completed_stays_completed(states: Seq<bool>, ran: Seq<bool>)
    requires
        is_history(true, states, ran),
    ensures
        count_runs(ran) == 0,
        forall|i: int| 0 <= i < ran.len() ==> !ran[i],
        forall|i: int| 0 <= i < states.len() ==> states[i],
    decreases ran.len(),
{
    if ran.len() > 0 {
        let last = ran.len() - 1;
        assert(states[last]);
        assert(is_history(true, states.drop_last(), ran.drop_last())) by {
            assert forall|i: int| 0 <= i < ran.drop_last().len() implies is_call(
                if i == 0 {
                    true
                } else {
                    states.drop_last()[i - 1]
                },
                #[trigger] states.drop_last()[i],
                ran.drop_last()[i],
            ) by {
                assert(states[i]);
            }
        }
        lemma_completed_stays_completed(states.drop_last(), ran.drop_last());
        assert forall|i: int| 0 <= i < ran.len() implies !ran[i] by {
            assert(states[i]);
            if i > 0 {
                assert(states[i - 1]);
            }
        }
    }
}

/// A warning that the process may open too few files at once.
#[derive(Clone, Copy, Debug, PartialEq, Eq, Structural)]
pub struct LowFdLimit {
    /// The limit in force.
    pub current: u64,
    /// The limit that is recommended.
    pub recommended: u64,
}

/// The warning that is due for a new limit: one for each limit below
/// [`RECOMMENDED_OPEN_FILE_DESCRIPTOR_LIMIT`], none for an unknown limit.
pub open spec fn fd_limit_warning(new_limit: Option<u64>) -> Option<LowFdLimit> {
    match new_limit {
        Some(limit) if limit < RECOMMENDED_OPEN_FILE_DESCRIPTOR_LIMIT => Some(
            LowFdLimit { current: limit, recommended: RECOMMENDED_OPEN_FILE_DESCRIPTOR_LIMIT },
        ),
        _ => None,
    }
}

/// Decides whether a new open-file-descriptor limit calls for a warning.
pub fn check_fd_limit(new_limit: Option<u64>) -> (warning: Option<LowFdLimit>)
    ensures
        warning == fd_limit_warning(new_limit),
{
    match new_limit {
        Some(limit) => {
            if limit < RECOMMENDED_OPEN_FILE_DESCRIPTOR_LIMIT {
                Some(
                    LowFdLimit {
                        current: limit,
                        recommended: RECOMMENDED_OPEN_FILE_DESCRIPTOR_LIMIT,
                    },
                )
            } else {
                None
            }
        },
        None => None,
    }
}

} // verus!
