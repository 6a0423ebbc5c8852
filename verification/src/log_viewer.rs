//! The record model, the action resolver, the sink transitions, the
//! registry binding and the delivery path.

use vstd::prelude::*;
use vstd::string::StringExecFns;

use anathema::component::{ComponentId, Emitter};
use anathema::widgets::components::ViewMessage;
use flume::SendError;

use crate::log_state::{
    LogFilter, LogFilterState, LogLevel, LogViewerState, StateLogEntry, filter_state_of,
};

verus! {

/// Declares anathema's `Emitter`, the sending half of the runtime's
/// message channel. Opaque here: it is obtained from the embedding
/// application and only ever handed to `Emitter::emit`.
#[verifier::external_type_specification]
#[verifier::external_body]
pub struct ExEmitter(Emitter);

/// Declares anathema's `ComponentId`, the opaque handle the channel
/// resolves to a recipient. Only carried through.
#[verifier::external_type_specification]
#[verifier::external_body]
#[verifier::reject_recursive_types(T)]
pub struct ExComponentId<T>(ComponentId<T>);

/// Declares anathema's `ViewMessage`, the envelope the channel carries;
/// it only occurs here inside the channel's error.
#[verifier::external_type_specification]
#[verifier::external_body]
pub struct ExViewMessage(ViewMessage);

/// Declares flume's `SendError`, the error of a failed channel send; it
/// hands the undelivered message back.
#[verifier::external_type_specification]
#[verifier::external_body]
#[verifier::reject_recursive_types(T)]
pub struct ExSendError<T>(SendError<T>);

/// Declares anathema's runtime error, returned when the hosting runtime
/// fails to register a component.
#[verifier::external_type_specification]
#[verifier::external_body]
pub struct ExRuntimeError(anathema::runtime::Error);

/// Relies on anathema's `Emitter::emit`: queues one message for the
/// component behind the id on the runtime's unbounded channel and fails
/// exactly when the receiving half is gone. Whether that half is still
/// alive depends on the hosting runtime, so nothing is promised of the
/// result.
pub assume_specification<T: 'static + Send + Sync>[ Emitter::emit ](
    emitter: &Emitter,
    component_id: ComponentId<T>,
    value: T,
) -> Result<(), SendError<ViewMessage>>;

/// A structured log record as a producer hands it over: severity, message
/// text and the producer's label. Once delivered it is converted into a
/// [`StateLogEntry`] and owned by the sink.
#[derive(Debug)]
pub struct LogEntry {
    /// Severity of the record.
    pub level: LogLevel,
    /// The log message.
    pub msg: String,
    /// Label of the producer.
    pub sender: &'static str,
}

impl LogEntry {
    /// The stored form of the record.
    pub open spec fn stored(self) -> StateLogEntry {
        StateLogEntry { level: self.level, msg: self.msg, sender: self.sender }
    }
}

impl From<LogEntry> for StateLogEntry {
    fn from(entry: LogEntry) -> (r: Self) {
        StateLogEntry { level: entry.level, msg: entry.msg, sender: entry.sender }
    }
}

impl vstd::std_specs::convert::FromSpecImpl<LogEntry> for StateLogEntry {
    open spec fn obeys_from_spec() -> bool {
        true
    }

    open spec fn from_spec(entry: LogEntry) -> Self {
        entry.stored()
    }
}

/// One of the closed set of sink actions that a boundary input token can
/// resolve to.
#[derive(Debug, Clone, Copy, PartialEq, Eq, Structural)]
pub enum LogViewerAction {
    /// Open (`true`) or close (`false`) the log view.
    OpenState(bool),
    /// Replace the filtering policy.
    SetFilter(LogFilter),
}

/// Relies on `str`'s `PartialEq`: two string slices are equal exactly when
/// they hold the same characters.
#[verifier::external_body]
fn str_eq(a: &str, b: &str) -> (r: bool)
    ensures
        r == (a@ == b@),
{
    a == b
}

/// The closed vocabulary of boundary input tokens: what each one resolves
/// to, and that everything else resolves to no action at all.
pub open spec fn resolve_spec(token: Seq<char>) -> Option<LogViewerAction> {
    if token == "open_log"@ {
        Some(LogViewerAction::OpenState(true))
    } else if token == "close"@ {
        Some(LogViewerAction::OpenState(false))
    } else if token == "filter-level-set-warn"@ {
        Some(LogViewerAction::SetFilter(LogFilter::Level(LogLevel::Warn)))
    } else if token == "filter-level-set-err"@ {
        Some(LogViewerAction::SetFilter(LogFilter::Level(LogLevel::Error)))
    } else if token == "filter-level-set-info"@ {
        Some(LogViewerAction::SetFilter(LogFilter::Level(LogLevel::Info)))
    } else if token == "filter-reset"@ {
        Some(LogViewerAction::SetFilter(LogFilter::NoFilter))
    } else {
        None
    }
}

impl LogViewerAction {
    /// Resolves a boundary input token to an action. Total and pure: the
    /// result is a function of the token's characters alone, and an unknown
    /// token resolves to `None` rather than an error.
    pub fn from_str(token: &str) -> (r: Option<Self>)
        ensures
            r == resolve_spec(token@),
    {
        if str_eq(token, "open_log") {
            Some(LogViewerAction::OpenState(true))
        } else if str_eq(token, "close") {
            Some(LogViewerAction::OpenState(false))
        } else if str_eq(token, "filter-level-set-warn") {
            Some(LogViewerAction::SetFilter(LogFilter::Level(LogLevel::Warn)))
        } else if str_eq(token, "filter-level-set-err") {
            Some(LogViewerAction::SetFilter(LogFilter::Level(LogLevel::Error)))
        } else if str_eq(token, "filter-level-set-info") {
            Some(LogViewerAction::SetFilter(LogFilter::Level(LogLevel::Info)))
        } else if str_eq(token, "filter-reset") {
            Some(LogViewerAction::SetFilter(LogFilter::NoFilter))
        } else {
            None
        }
    }
}

/// How an action transforms the sink state: an open/close action touches
/// only the open flag, a set-filter action touches only the filter, and
/// neither touches the entries or the count.
pub open spec fn applies(
    pre: LogViewerState,
    action: LogViewerAction,
    post: LogViewerState,
) -> bool {
    &&& post.log_entries@ == pre.log_entries@
    &&& post.length == pre.length
    &&& match action {
        LogViewerAction::OpenState(open) => post.is_open == open && post.filter == pre.filter,
        LogViewerAction::SetFilter(filter) => post.filter == filter_state_of(filter)
            && post.is_open == pre.is_open,
    }
}

impl LogViewerState {
    /// Handles one delivered record: converts it, appends it to the entry
    /// list and recomputes the count. The only way entries are ever added,
    /// and nothing ever removes one.
    pub fn handle_message(&mut self, message: LogEntry)
        ensures
            final(self).log_entries@ == old(self).log_entries@.push(message.stored()),
            final(self).length == old(self).log_entries@.len() + 1,
            final(self).is_open == old(self).is_open,
            final(self).filter == old(self).filter,
            final(self).wf(),
    {
        self.log_entries.push(StateLogEntry::from(message));
        self.length = self.log_entries.len();
    }

    /// Applies one resolved action to the state.
    pub fn apply_action(&mut self, action: LogViewerAction)
        ensures
            applies(*old(self), action, *final(self)),
            old(self).wf() ==> final(self).wf(),
    {
        match action {
            LogViewerAction::OpenState(open) => self.is_open = open,
            LogViewerAction::SetFilter(filter) => self.filter = LogFilterState::from(filter),
        }
    }

    /// Handles one boundary input: resolves the token, if any, and applies
    /// the resolved action. An absent or unknown token leaves the state
    /// exactly as it was.
    pub fn handle_input_token(&mut self, token: Option<&str>)
        ensures
            match token {
                Option::Some(t) => match resolve_spec(t@) {
                    Option::Some(action) => applies(*old(self), action, *final(self)),
                    Option::None => *final(self) == *old(self),
                },
                Option::None => *final(self) == *old(self),
            },
            old(self).wf() ==> final(self).wf(),
    {
        match token {
            Option::None => (),
            Option::Some(t) => {
                match LogViewerAction::from_str(t) {
                    Option::None => (),
                    Option::Some(action) => self.apply_action(action),
                }
            },
        }
    }
}

/// The entry list after a sequence of records has been delivered, one by
/// one, to a sink whose list started as `entries`.
pub open spec fn entries_after_deliveries(
    entries: Seq<StateLogEntry>,
    messages: Seq<LogEntry>,
) -> Seq<StateLogEntry>
    decreases messages.len(),
{
    if messages.len() == 0 {
        entries
    } else {
        entries_after_deliveries(entries, messages.drop_last()).push(messages.last().stored())
    }
}

/// Delivery order is kept: after any sequence of deliveries the entry list
/// is the old list followed by the delivered records' stored forms, in
/// exactly the order they were delivered.
pub proof fn lemma_deliveries_keep_order(entries: Seq<StateLogEntry>, messages: Seq<LogEntry>)
    ensures
        entries_after_deliveries(entries, messages) == entries + messages.map_values(
            |m: LogEntry| m.stored(),
        ),
    decreases messages.len(),
{
    let stored = messages.map_values(|m: LogEntry| m.stored());
    if messages.len() == 0 {
        assert(entries_after_deliveries(entries, messages) =~= entries + stored);
    } else {
        lemma_deliveries_keep_order(entries, messages.drop_last());
        assert(messages.drop_last().map_values(|m: LogEntry| m.stored()) =~= stored.drop_last());
        assert((entries + stored.drop_last()).push(stored.last()) =~= entries + stored);
    }
}

/// The sink identity together with the wire shape chosen at registration
/// time: a structured sink receives whole records, a rendered sink
/// receives one pre-formatted text line per record.
pub enum SinkId {
    /// The sink accepts structured records.
    Structured(ComponentId<LogEntry>),
    /// The sink accepts pre-rendered text lines.
    Rendered(ComponentId<String>),
}

/// The registry's record of which sink receives records and in which wire
/// shape, together with the delivery channel.
pub struct Binding {
    /// The sink's identity and wire shape.
    pub sink: SinkId,
    /// The sending half of the delivery channel.
    pub emitter: Emitter,
}

/// The per-execution-context registry: at most one binding, set once and
/// never updated or torn down afterwards. The embedding application owns
/// one per context and passes it to the producer-facing calls.
pub struct Registry {
    binding: Option<Binding>,
}

impl View for Registry {
    type V = Option<Binding>;

    closed spec fn view(&self) -> Option<Binding> {
        self.binding
    }
}

impl Registry {
    /// A registry with no binding yet: log delivery is a no-op.
    pub fn new() -> (r: Self)
        ensures
            r@ is None,
    {
        Registry { binding: None }
    }

    /// The current binding, if any. Never blocks and never allocates;
    /// absence is a normal state, not an error.
    pub fn current_binding(&self) -> (r: Option<&Binding>)
        ensures
            r is Some <==> self@ is Some,
            r matches Some(binding) ==> *binding == self@->Some_0,
    {
        self.binding.as_ref()
    }
}

/// Why a registration attempt failed.
#[derive(Debug)]
pub enum LoggerRegistrationError {
    /// The hosting runtime failed to register the sink component; carries
    /// the runtime's own error.
    Anathema(anathema::runtime::Result<()>),
    /// A sink was already registered in this context; the first binding is
    /// untouched.
    DoubleRegistrationError,
}

/// Binds a structured sink: the given component receives every record as a
/// [`LogEntry`]. Succeeds exactly when no sink is bound yet; a second
/// attempt fails and leaves the first binding unchanged.
pub fn register_custom_logger(
    component_id: ComponentId<LogEntry>,
    emitter: Emitter,
    registry: &mut Registry,
) -> (r: Result<(), LoggerRegistrationError>)
    ensures
        old(registry)@ is None ==> r is Ok && final(registry)@ == Some(
            (Binding { sink: SinkId::Structured(component_id), emitter }),
        ),
        old(registry)@ is Some ==> (r matches Err(
            LoggerRegistrationError::DoubleRegistrationError,
        )) && final(registry)@ == old(registry)@,
{
    if registry.binding.is_some() {
        Err(LoggerRegistrationError::DoubleRegistrationError)
    } else {
        registry.binding = Some(Binding { sink: SinkId::Structured(component_id), emitter });
        Ok(())
    }
}

/// Binds a rendered sink: the given component receives every record as one
/// pre-formatted text line. Succeeds exactly when no sink is bound yet; a
/// second attempt fails and leaves the first binding unchanged.
pub fn register_custom_logger_simple(
    component_id: ComponentId<String>,
    emitter: Emitter,
    registry: &mut Registry,
) -> (r: Result<(), LoggerRegistrationError>)
    ensures
        old(registry)@ is None ==> r is Ok && final(registry)@ == Some(
            (Binding { sink: SinkId::Rendered(component_id), emitter }),
        ),
        old(registry)@ is Some ==> (r matches Err(
            LoggerRegistrationError::DoubleRegistrationError,
        )) && final(registry)@ == old(registry)@,
{
    if registry.binding.is_some() {
        Err(LoggerRegistrationError::DoubleRegistrationError)
    } else {
        registry.binding = Some(Binding { sink: SinkId::Rendered(component_id), emitter });
        Ok(())
    }
}

/// The one pre-formatted line a record is rendered into for a rendered
/// sink: `[LEVEL] sender: message`, with the level's canonical display
/// name.
pub open spec fn rendered_line(level: LogLevel, sender: Seq<char>, message: Seq<char>) -> Seq<
    char,
> {
    "["@ + level.display_name() + "] "@ + sender + ": "@ + message
}

/// Renders a record's fields into the single text line a rendered sink
/// receives.
pub fn render_line(level: LogLevel, sender: &str, message: &str) -> (r: String)
    ensures
        r@ == rendered_line(level, sender@, message@),
{
    let mut line = String::from_str("[");
    line.append(level.to_string());
    line.append("] ");
    line.append(sender);
    line.append(": ");
    line.append(message);
    line
}

/// Maps the channel's outcome to the producer-facing result: a failed send
/// collapses to the unit delivery error, which the producer is expected to
/// ignore or downgrade, never to escalate.
pub(crate) fn delivery_outcome(outcome: Result<(), SendError<ViewMessage>>) -> (r: Result<
    (),
    (),
>)
    ensures
        r is Ok <==> outcome is Ok,
{
    match outcome {
        Ok(_) => Ok(()),
        Err(_) => Err(()),
    }
}

/// Delivers one record: with no binding present this is a successful no-op
/// (logging is optional instrumentation); with a binding, the record is
/// built in the bound wire shape and sent over the channel, and only a
/// failed send reports an error.
pub fn send(
    registry: &Registry,
    level: LogLevel,
    sender: &'static str,
    message: String,
) -> (r: Result<(), ()>)
    ensures
        registry@ is None ==> r is Ok,
{
    match registry.current_binding() {
        Option::None => Ok(()),
        Option::Some(binding) => match &binding.sink {
            SinkId::Structured(component_id) => {
                let record = LogEntry { level, msg: message, sender };
                delivery_outcome(binding.emitter.emit(*component_id, record))
            },
            SinkId::Rendered(component_id) => {
                let line = render_line(level, sender, message.as_str());
                delivery_outcome(binding.emitter.emit(*component_id, line))
            },
        },
    }
}

/// Delivers one record at the `Info` level.
pub fn info(registry: &Registry, sender: &'static str, message: String) -> (r: Result<(), ()>)
    ensures
        registry@ is None ==> r is Ok,
{
    send(registry, LogLevel::Info, sender, message)
}

/// Delivers one record at the `Warn` level.
pub fn warn(registry: &Registry, sender: &'static str, message: String) -> (r: Result<(), ()>)
    ensures
        registry@ is None ==> r is Ok,
{
    send(registry, LogLevel::Warn, sender, message)
}

/// Delivers one record at the `Error` level.
pub fn error(registry: &Registry, sender: &'static str, message: String) -> (r: Result<(), ()>)
    ensures
        registry@ is None ==> r is Ok,
{
    send(registry, LogLevel::Error, sender, message)
}

/// A producer-facing handle over the delivery functions.
#[derive(Debug, Clone, Copy)]
pub struct Logger;

impl Logger {
    /// Delivers one record at the given level.
    pub fn send(
        &self,
        registry: &Registry,
        level: LogLevel,
        sender: &'static str,
        message: String,
    ) -> (r: Result<(), ()>)
        ensures
            registry@ is None ==> r is Ok,
    {
        send(registry, level, sender, message)
    }

    /// Delivers one record at the `Info` level.
    pub fn info(&self, registry: &Registry, sender: &'static str, message: String) -> (r: Result<
        (),
        (),
    >)
        ensures
            registry@ is None ==> r is Ok,
    {
        info(registry, sender, message)
    }

    /// Delivers one record at the `Warn` level.
    pub fn warn(&self, registry: &Registry, sender: &'static str, message: String) -> (r: Result<
        (),
        (),
    >)
        ensures
            registry@ is None ==> r is Ok,
    {
        warn(registry, sender, message)
    }

    /// Delivers one record at the `Error` level.
    pub fn error(&self, registry: &Registry, sender: &'static str, message: String) -> (r: Result<
        (),
        (),
    >)
        ensures
            registry@ is None ==> r is Ok,
    {
        error(registry, sender, message)
    }
}

/// The count invariant holds after every delivery: however many records
/// have been delivered, the mirrored count equals the number of entries.
pub proof fn lemma_deliveries_keep_count(state: LogViewerState, messages: Seq<LogEntry>)
    requires
        state.wf(),
    ensures
        entries_after_deliveries(state.log_entries@, messages).len() == state.length
            + messages.len(),
    decreases messages.len(),
{
    if messages.len() > 0 {
        lemma_deliveries_keep_count(state, messages.drop_last());
    }
}

} // verus!
