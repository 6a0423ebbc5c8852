//! The level model, the filter model and the sink-side state.
//!
//! Everything here is plain data: the reactive wrappers that a UI runtime
//! puts around these values belong to the embedding application, not to
//! this library.

use vstd::prelude::*;

verus! {

/// Severity of a log record. The declaration order is the severity order:
/// `Info` is the lowest, `Error` the highest.
#[derive(Debug, Clone, Copy, PartialEq, Eq, Structural)]
pub enum LogLevel {
    Info,
    Warn,
    Error,
}

impl LogLevel {
    /// Position of the level in the severity order; the sole basis for
    /// level-based filtering.
    pub open spec fn ordinal(self) -> int {
        match self {
            LogLevel::Info => 0,
            LogLevel::Warn => 1,
            LogLevel::Error => 2,
        }
    }

    /// Executable counterpart of [`LogLevel::ordinal`].
    pub fn severity(&self) -> (r: u8)
        ensures
            r as int == self.ordinal(),
    {
        match self {
            LogLevel::Info => 0,
            LogLevel::Warn => 1,
            LogLevel::Error => 2,
        }
    }

    /// The canonical upper-case display name of the level.
    pub open spec fn display_name(self) -> Seq<char> {
        match self {
            LogLevel::Info => "INFO"@,
            LogLevel::Warn => "WARN"@,
            LogLevel::Error => "ERR"@,
        }
    }

    /// Returns the canonical display name: `"INFO"`, `"WARN"` or `"ERR"`.
    pub fn to_string(&self) -> (r: &'static str)
        ensures
            r@ == self.display_name(),
    {
        match self {
            LogLevel::Info => "INFO",
            LogLevel::Warn => "WARN",
            LogLevel::Error => "ERR",
        }
    }

}

/// Filtering policy chosen through the UI: either no filter at all or a
/// minimum severity.
#[derive(Debug, Clone, Copy, PartialEq, Eq, Structural)]
pub enum LogFilter {
    /// The identity filter: every entry is visible.
    NoFilter,
    /// Only entries whose level is at least the given one are visible.
    Level(LogLevel),
}

/// The filter as the sink state stores it. It mirrors [`LogFilter`]
/// one-for-one; the embedding application may wrap this variant's payload
/// in its own reactive cells, this library keeps it plain.
#[derive(Debug, Clone, Copy, PartialEq, Eq, Structural)]
pub enum LogFilterState {
    /// The identity filter: every entry is visible.
    NoFilter,
    /// Only entries whose level is at least the given one are visible.
    Level(LogLevel),
}

/// What a stored filter corresponds to as a policy value.
pub open spec fn filter_state_of(filter: LogFilter) -> LogFilterState {
    match filter {
        LogFilter::NoFilter => LogFilterState::NoFilter,
        LogFilter::Level(level) => LogFilterState::Level(level),
    }
}

impl From<LogFilter> for LogFilterState {
    fn from(filter: LogFilter) -> (r: Self) {
        match filter {
            LogFilter::NoFilter => LogFilterState::NoFilter,
            LogFilter::Level(level) => LogFilterState::Level(level),
        }
    }
}

impl vstd::std_specs::convert::FromSpecImpl<LogFilter> for LogFilterState {
    open spec fn obeys_from_spec() -> bool {
        true
    }

    open spec fn from_spec(filter: LogFilter) -> Self {
        filter_state_of(filter)
    }
}

impl LogFilterState {
    /// Whether the filter admits an entry of the given level: the identity
    /// filter admits everything, a minimum level admits exactly the levels
    /// whose ordinal is at least its own.
    pub open spec fn spec_admits(self, level: LogLevel) -> bool {
        match self {
            LogFilterState::NoFilter => true,
            LogFilterState::Level(min) => level.ordinal() >= min.ordinal(),
        }
    }

    /// Evaluates an entry level against the filter.
    pub fn admits(&self, level: LogLevel) -> (r: bool)
        ensures
            r == self.spec_admits(level),
    {
        match self {
            LogFilterState::NoFilter => true,
            LogFilterState::Level(min) => level.severity() >= min.severity(),
        }
    }

    /// True exactly when some filtering is in effect.
    pub fn to_bool(&self) -> (r: bool)
        ensures
            r == !(*self matches LogFilterState::NoFilter),
    {
        !matches!(self, LogFilterState::NoFilter)
    }
}

/// An entry as the sink keeps it: the converted form of a delivered record,
/// immutable once stored.
#[derive(Debug)]
pub struct StateLogEntry {
    /// Severity the record was emitted with.
    pub level: LogLevel,
    /// The log message.
    pub msg: String,
    /// Label of the producer that emitted the record.
    pub sender: &'static str,
}

impl Clone for StateLogEntry {
    fn clone(&self) -> (r: Self)
        ensures
            r == *self,
    {
        StateLogEntry { level: self.level, msg: self.msg.clone(), sender: self.sender }
    }
}

/// The order-preserving subsequence of `entries` that `filter` admits.
pub open spec fn visible_spec(entries: Seq<StateLogEntry>, filter: LogFilterState) -> Seq<
    StateLogEntry,
>
    decreases entries.len(),
{
    if entries.len() == 0 {
        Seq::empty()
    } else {
        let rest = visible_spec(entries.drop_last(), filter);
        if filter.spec_admits(entries.last().level) {
            rest.push(entries.last())
        } else {
            rest
        }
    }
}

/// The state owned by the sink: the open flag, the accumulated entries in
/// delivery order, the mirrored entry count and the current filter.
pub struct LogViewerState {
    /// Whether the log view is currently open.
    pub is_open: bool,
    /// Every entry delivered so far, oldest first; append-only.
    pub log_entries: Vec<StateLogEntry>,
    /// Mirrors the number of entries after every mutation.
    pub length: usize,
    /// The filtering policy currently in effect.
    pub filter: LogFilterState,
}

/// Appending one entry extends the visible subsequence by that entry
/// exactly when the filter admits it.
pub proof fn lemma_visible_spec_push(
    entries: Seq<StateLogEntry>,
    filter: LogFilterState,
    e: StateLogEntry,
)
    ensures
        visible_spec(entries.push(e), filter) == (if filter.spec_admits(e.level) {
            visible_spec(entries, filter).push(e)
        } else {
            visible_spec(entries, filter)
        }),
{
    assert(entries.push(e).drop_last() =~= entries);
}

/// The identity filter hides nothing: with no filter in effect, the visible
/// projection is the entry list itself, in the same order.
pub proof fn lemma_visible_no_filter_identity(entries: Seq<StateLogEntry>)
    ensures
        visible_spec(entries, LogFilterState::NoFilter) == entries,
    decreases entries.len(),
{
    if entries.len() == 0 {
        assert(visible_spec(entries, LogFilterState::NoFilter) =~= entries);
    } else {
        lemma_visible_no_filter_identity(entries.drop_last());
        assert(entries.drop_last().push(entries.last()) =~= entries);
    }
}

/// Filter correctness: an entry appears in the visible projection exactly
/// when it is among the entries and the filter admits its level. With a
/// minimum level, that is: its level's ordinal is at least the minimum's.
pub proof fn lemma_visible_filter_correct(
    entries: Seq<StateLogEntry>,
    filter: LogFilterState,
    e: StateLogEntry,
)
    ensures
        visible_spec(entries, filter).contains(e) <==> (entries.contains(e)
            && filter.spec_admits(e.level)),
    decreases entries.len(),
{
    if entries.len() > 0 {
        lemma_visible_filter_correct(entries.drop_last(), filter, e);
        assert(entries.contains(e) <==> (entries.drop_last().contains(e) || entries.last() == e))
            by {
            if entries.contains(e) {
                let i = choose|i: int| 0 <= i < entries.len() && entries[i] == e;
                if i < entries.len() - 1 {
                    assert(entries.drop_last()[i] == e);
                }
            }
            if entries.drop_last().contains(e) {
                let i = choose|i: int|
                    0 <= i < entries.drop_last().len() && entries.drop_last()[i] == e;
                assert(entries[i] == e);
            }
        }
        let rest = visible_spec(entries.drop_last(), filter);
        if filter.spec_admits(entries.last().level) {
            assert(visible_spec(entries, filter) == rest.push(entries.last()));
            assert(rest.push(entries.last()).contains(e) <==> (rest.contains(e) || entries.last()
                == e)) by {
                if rest.contains(e) {
                    let i = choose|i: int| 0 <= i < rest.len() && rest[i] == e;
                    assert(rest.push(entries.last())[i] == e);
                }
                assert(rest.push(entries.last()).last() == entries.last());
            }
        }
    }
}

impl LogViewerState {
    /// The state's invariant: the stored count equals the number of entries.
    pub open spec fn wf(&self) -> bool {
        self.length == self.log_entries@.len()
    }

    /// The filtered, order-preserving view over the accumulated entries.
    /// A pure projection: it can be re-derived at any time and never
    /// mutates the entry list.
    pub fn visible(&self) -> (r: Vec<StateLogEntry>)
        ensures
            r@ == visible_spec(self.log_entries@, self.filter),
    {
        let mut result: Vec<StateLogEntry> = Vec::new();
        let n = self.log_entries.len();
        let mut i: usize = 0;
        while i < n
            invariant
                i <= n,
                n == self.log_entries@.len(),
                result@ == visible_spec(self.log_entries@.subrange(0, i as int), self.filter),
            decreases n - i,
        {
            proof {
                assert(self.log_entries@.subrange(0, i as int + 1) =~= self.log_entries@.subrange(
                    0,
                    i as int,
                ).push(self.log_entries@[i as int]));
                lemma_visible_spec_push(
                    self.log_entries@.subrange(0, i as int),
                    self.filter,
                    self.log_entries@[i as int],
                );
            }
            let entry = &self.log_entries[i];
            if self.filter.admits(entry.level) {
                result.push(entry.clone());
            }
            i += 1;
        }
        proof {
            assert(self.log_entries@.subrange(0, n as int) =~= self.log_entries@);
        }
        result
    }
}

impl Default for LogViewerState {
    /// The initial sink state: closed, no entries, no filter.
    fn default() -> (r: Self)
        ensures
            r.is_open == false,
            r.log_entries@ == Seq::<StateLogEntry>::empty(),
            r.length == 0,
            r.filter == LogFilterState::NoFilter,
            r.wf(),
    {
        LogViewerState {
            is_open: false,
            log_entries: Vec::new(),
            length: 0,
            filter: LogFilterState::NoFilter,
        }
    }
}

} // verus!
