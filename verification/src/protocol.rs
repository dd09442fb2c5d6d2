//! The command/outcome protocol spoken between the orchestrator and the
//! backend symbol engine, and the pure logic that interprets each outcome.

use vstd::prelude::*;

verus! {

/// The single backend working-set slot this orchestrator uses. One slot
/// holds one loaded PDB; serializing every call through a fixed slot is
/// what keeps commands against that slot mutually exclusive.
pub const PDB_SLOT: usize = 0;

/// Backend-assigned numeric key of one type definition within a loaded
/// PDB. Stable for the lifetime of the load, not persisted.
pub type TypeId = u32;

/// Rendering convention for primitive type names in reconstructed
/// declarations.
#[derive(Debug, Clone, Copy, PartialEq, Eq)]
pub enum ReconstructionFlavor {
    Portable,
    Microsoft,
    Raw,
}

/// A command for the backend. Commands are issued in strict sequence:
/// no command is sent before the previous one's outcome was observed.
#[derive(Debug, PartialEq, Eq)]
pub enum Command {
    LoadPdb {
        slot: usize,
        path: String,
    },
    UpdateTypeFilter {
        slot: usize,
        search: String,
        case_sensitive: bool,
        use_regex: bool,
    },
    ReconstructTypeByIndex {
        slot: usize,
        type_id: TypeId,
        flavor: ReconstructionFlavor,
        print_header: bool,
        reconstruct_dependencies: bool,
        print_access_specifiers: bool,
    },
}

/// An outcome notification from the backend, mirroring `Command`. The
/// backend answers each command with exactly one outcome, in order.
#[derive(Debug, PartialEq, Eq)]
pub enum Outcome {
    /// Answer to `LoadPdb`: the slot now holding the PDB, or the backend's
    /// diagnostic text.
    LoadPdbResult(Result<usize, String>),
    /// Answer to `UpdateTypeFilter`: every matching (display name, type id)
    /// pair, in backend enumeration order.
    FilteredTypes(Vec<(String, TypeId)>),
    /// Answer to `ReconstructTypeByIndex`: the full textual declaration, or
    /// the backend's diagnostic text for this one type.
    ReconstructTypeResult(Result<String, String>),
}

/// A fatal extraction failure. Per-type reconstruction errors are not
/// here: they are absorbed by dropping the one entry from the result.
#[derive(Debug, PartialEq, Eq)]
pub enum ExtractError {
    /// The backend answered with an outcome of the wrong shape for the
    /// pending command, or the outcome channel closed unexpectedly.
    /// Positional correlation is lost, so this always aborts the call.
    ProtocolViolation,
    /// The backend could not load the PDB; carries its diagnostic text.
    PdbLoadError(String),
    /// A message could not be forwarded because a channel link is broken;
    /// carries the transport's description of the underlying cause.
    ChannelError(String),
}

/// One protocol event as observed at the orchestrator's end of the
/// channels: a command it sent, or an outcome it received.
pub enum Event {
    Sent(Command),
    Received(Outcome),
}

/// How the outcome answering `LoadPdb` is interpreted: success, a fatal
/// load error carrying the backend's text, or a fatal shape violation.
pub open spec fn spec_interpret_load(o: Outcome) -> Result<(), ExtractError> {
    match o {
        Outcome::LoadPdbResult(res) => match res {
            Ok(_) => Ok(()),
            Err(m) => Err(ExtractError::PdbLoadError(m)),
        },
        _ => Err(ExtractError::ProtocolViolation),
    }
}

/// Interprets the outcome that answers a `LoadPdb` command.
pub fn interpret_load(o: Outcome) -> (r: Result<(), ExtractError>)
    ensures
        r == spec_interpret_load(o),
{
    match o {
        Outcome::LoadPdbResult(Ok(_)) => Ok(()),
        Outcome::LoadPdbResult(Err(m)) => Err(ExtractError::PdbLoadError(m)),
        _ => Err(ExtractError::ProtocolViolation),
    }
}

/// How the outcome answering `UpdateTypeFilter` is interpreted: the work
/// list for the reconstruction phase, or a fatal shape violation.
pub open spec fn spec_interpret_filter(o: Outcome) -> Result<Vec<(String, TypeId)>, ExtractError> {
    match o {
        Outcome::FilteredTypes(entries) => Ok(entries),
        _ => Err(ExtractError::ProtocolViolation),
    }
}

/// Interprets the outcome that answers an `UpdateTypeFilter` command.
pub fn interpret_filter(o: Outcome) -> (r: Result<Vec<(String, TypeId)>, ExtractError>)
    ensures
        r == spec_interpret_filter(o),
{
    match o {
        Outcome::FilteredTypes(entries) => Ok(entries),
        _ => Err(ExtractError::ProtocolViolation),
    }
}

/// Whether an outcome has the shape that answers `ReconstructTypeByIndex`.
pub open spec fn reconstruct_shape_ok(o: Outcome) -> bool {
    o is ReconstructTypeResult
}

/// The per-type payload of a reconstruction outcome: the declaration text
/// on success, `None` when the backend failed on this one type.
pub open spec fn reconstruct_value(o: Outcome) -> Option<String>
    recommends
        reconstruct_shape_ok(o),
{
    match o {
        Outcome::ReconstructTypeResult(res) => match res {
            Ok(decl) => Some(decl),
            Err(_) => None,
        },
        _ => arbitrary(),
    }
}

/// How the outcome answering `ReconstructTypeByIndex` is interpreted:
/// `Ok(Some)` keeps the entry, `Ok(None)` drops it without failing the
/// batch, and a wrong shape is a fatal protocol violation.
pub open spec fn spec_interpret_reconstruct(o: Outcome) -> Result<Option<String>, ExtractError> {
    if reconstruct_shape_ok(o) {
        Ok(reconstruct_value(o))
    } else {
        Err(ExtractError::ProtocolViolation)
    }
}

/// Interprets the outcome that answers a `ReconstructTypeByIndex` command.
pub fn interpret_reconstruct(o: Outcome) -> (r: Result<Option<String>, ExtractError>)
    ensures
        r == spec_interpret_reconstruct(o),
{
    match o {
        Outcome::ReconstructTypeResult(Ok(decl)) => Ok(Some(decl)),
        Outcome::ReconstructTypeResult(Err(_)) => Ok(None),
        _ => Err(ExtractError::ProtocolViolation),
    }
}

/// The result sequence assembled from the enumerated entries and the
/// per-entry reconstruction payloads: entry `k` survives exactly when
/// `outs[k]` is `Some`, keeping its display name, its declaration text,
/// and its position relative to the other survivors.
pub open spec fn collect_spec(
    entries: Seq<(String, TypeId)>,
    outs: Seq<Option<String>>,
) -> Seq<(String, String)>
    recommends
        outs.len() == entries.len(),
    decreases entries.len(),
{
    if entries.len() == 0 {
        Seq::empty()
    } else {
        let prefix = collect_spec(entries.drop_last(), outs.drop_last());
        match outs[entries.len() - 1] {
            Some(decl) => prefix.push((entries.last().0, decl)),
            None => prefix,
        }
    }
}

/// The indices of the entries that survive reconstruction, in increasing
/// order.
pub open spec fn survivors(outs: Seq<Option<String>>) -> Seq<int>
    decreases outs.len(),
{
    if outs.len() == 0 {
        Seq::empty()
    } else if outs.last() is Some {
        survivors(outs.drop_last()).push(outs.len() - 1)
    } else {
        survivors(outs.drop_last())
    }
}

/// The outcome carried by a received event.
pub open spec fn event_outcome(e: Event) -> Outcome
    recommends
        e is Received,
{
    match e {
        Event::Received(o) => o,
        Event::Sent(_) => arbitrary(),
    }
}

/// How many events of a transcript are sent commands.
pub open spec fn num_sent(t: Seq<Event>) -> int
    decreases t.len(),
{
    if t.len() == 0 {
        0
    } else {
        num_sent(t.drop_last()) + if t.last() is Sent {
            1int
        } else {
            0int
        }
    }
}

/// How many events of a transcript are received outcomes.
pub open spec fn num_received(t: Seq<Event>) -> int
    decreases t.len(),
{
    if t.len() == 0 {
        0
    } else {
        num_received(t.drop_last()) + if t.last() is Received {
            1int
        } else {
            0int
        }
    }
}

/// A transcript alternates strictly between a sent command and the
/// received outcome that answers it, starting with a command.
pub open spec fn alternating(t: Seq<Event>) -> bool {
    forall|i: int| 0 <= i < t.len() ==> ((t[i] is Sent) <==> (i % 2 == 0))
}

/// At most one command is outstanding at every point of a transcript:
/// in every prefix, the commands sent exceed the outcomes received by at
/// most one, and never lag behind them.
pub open spec fn one_in_flight(t: Seq<Event>) -> bool {
    forall|i: int|
        0 <= i <= t.len() ==> {
            let p = #[trigger] t.take(i);
            num_received(p) <= num_sent(p) <= num_received(p) + 1
        }
}

} // verus!
