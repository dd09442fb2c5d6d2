//! The PDB type-extraction orchestrator: drives the backend through the
//! strict load, enumerate, reconstruct command sequence for one PDB,
//! collecting one (name, declaration) pair per successfully reconstructed
//! type. Every call returns a ghost transcript of the protocol events it
//! performed, and the contract pins the result down as a function of the
//! outcomes that transcript records.

use vstd::prelude::*;

use crate::frontend::ResymFrontendController;
use crate::protocol::{
    alternating, collect_spec, event_outcome, one_in_flight, reconstruct_shape_ok,
    reconstruct_value, spec_interpret_filter, spec_interpret_load, spec_interpret_reconstruct,
    Command, Event, ExtractError, Outcome, ReconstructionFlavor, TypeId, PDB_SLOT,
};
use crate::protocol::{interpret_filter, interpret_load, interpret_reconstruct};

verus! {

broadcast use crate::properties::lemma_alternating_one_in_flight;

/// The command that opens a run: load the given PDB into the fixed slot.
pub open spec fn load_command(path: String) -> Command {
    Command::LoadPdb { slot: PDB_SLOT, path }
}

/// Whether a command is the unfiltered enumeration query: an empty search
/// text matches every type in the loaded PDB.
pub open spec fn is_unfiltered_query(c: Command) -> bool {
    c matches Command::UpdateTypeFilter { slot, search, case_sensitive, use_regex }
        && slot == PDB_SLOT && search@.len() == 0 && !case_sensitive && !use_regex
}

/// Whether a command asks for the reconstruction of the type with key
/// `id`, in the vendor-default flavor with minimal display options.
pub open spec fn is_reconstruct_command(c: Command, id: TypeId) -> bool {
    c == (Command::ReconstructTypeByIndex {
        slot: PDB_SLOT,
        type_id: id,
        flavor: ReconstructionFlavor::Microsoft,
        print_header: false,
        reconstruct_dependencies: false,
        print_access_specifiers: false,
    })
}

/// The work list recorded at event 3 of a transcript: the entries the
/// enumeration phase reported.
pub open spec fn recorded_entries(t: Seq<Event>) -> Seq<(String, TypeId)>
    recommends
        t.len() >= 4,
{
    match event_outcome(t[3]) {
        Outcome::FilteredTypes(entries) => entries@,
        _ => arbitrary(),
    }
}

/// Every sent event of a transcript is the command the protocol fixes for
/// its position: the load command at event 0, the unfiltered query at
/// event 2, and at each event 4 + 2k the reconstruct command for entry k
/// of the work list recorded at event 3. Commands are never retried or
/// reordered, whatever the backend answers.
pub open spec fn commands_follow_protocol(path: String, t: Seq<Event>) -> bool {
    &&& (t.len() >= 1 ==> t[0] == Event::Sent(load_command(path)))
    &&& (t.len() >= 3 ==> (t[2] matches Event::Sent(c) && is_unfiltered_query(c)))
    &&& (forall|k: int|
        0 <= k && 4 + 2 * k < t.len() ==> ((#[trigger] t[4 + 2 * k]) matches Event::Sent(c)
            && is_reconstruct_command(c, recorded_entries(t)[k].1)))
}

/// Every received event other than the transcript's last answers its
/// command with the protocol-correct shape: the load answered with
/// success at event 1, the work list at event 3, a reconstruction-shaped
/// outcome at each event 5 + 2k. The call stops at the first anomaly, so
/// only the last received event can be anything else.
pub open spec fn received_good_before_last(t: Seq<Event>) -> bool {
    &&& (t.len() >= 3 ==> (t[1] matches Event::Received(o) && spec_interpret_load(o) is Ok))
    &&& (t.len() >= 5 ==> (t[3] matches Event::Received(o) && spec_interpret_filter(o) is Ok))
    &&& (forall|k: int|
        0 <= k && 5 + 2 * k < t.len() - 1 ==> ((#[trigger] t[5 + 2 * k]) matches Event::Received(
            o,
        ) && reconstruct_shape_ok(o)))
}

/// A complete, well-shaped transcript of `n` reconstruction rounds: the
/// load answered with success, the enumeration with a work list, and all
/// `n` reconstruction answers of the right shape.
pub open spec fn complete_well_shaped(t: Seq<Event>, n: int) -> bool {
    &&& n >= 0
    &&& t.len() == 4 + 2 * n
    &&& (t[1] matches Event::Received(o) && spec_interpret_load(o) is Ok)
    &&& (t[3] matches Event::Received(o) && spec_interpret_filter(o) is Ok)
    &&& (forall|k: int|
        0 <= k < n ==> ((#[trigger] t[5 + 2 * k]) matches Event::Received(o)
            && reconstruct_shape_ok(o)))
}

/// Classification of every error result by its transcript: a broken send
/// or receive (the transcript ends on an unanswered command), a load
/// answered with failure or the wrong shape (two events), a wrongly
/// shaped enumeration answer (four events), or a wrongly shaped
/// reconstruction answer (the even-positioned last event). No other error
/// exists, so a complete, well-shaped transcript forces success
/// (`lemma_success_owed`).
pub open spec fn error_classified(
    res: Result<Vec<(String, String)>, ExtractError>,
    t: Seq<Event>,
) -> bool {
    res matches Err(e) ==> {
        ||| (t.len() % 2 == 1 && (e is ChannelError || e == ExtractError::ProtocolViolation))
        ||| (t.len() == 2 && spec_interpret_load(event_outcome(t[1])) == Err::<(), ExtractError>(e))
        ||| (t.len() == 4 && (spec_interpret_filter(event_outcome(t[3])) matches Err(f) && f == e))
        ||| (t.len() >= 6 && t.len() % 2 == 0 && !reconstruct_shape_ok(
            event_outcome(t[t.len() - 1]),
        ) && e == ExtractError::ProtocolViolation)
    }
}

/// The per-entry reconstruction payloads a transcript records: element `k`
/// is the payload of the outcome answering the `k`-th reconstruct command.
pub open spec fn reconstruction_payloads(t: Seq<Event>, n: int) -> Seq<Option<String>> {
    Seq::new(n as nat, |k: int| reconstruct_value(event_outcome(t[5 + 2 * k])))
}

/// A transcript of a complete, successful run over the work list
/// `entries`: the load was answered with success, the unfiltered query
/// with `entries`, each entry's reconstruct command with an outcome of the
/// right shape, in order, with nothing else sent or received — and the
/// result `v` collects exactly the surviving entries.
pub open spec fn successful_run_with(
    t: Seq<Event>,
    v: Seq<(String, String)>,
    entries: Vec<(String, TypeId)>,
) -> bool {
    &&& t.len() == 4 + 2 * entries@.len()
    &&& (t[1] matches Event::Received(o) && spec_interpret_load(o) is Ok)
    &&& (t[2] matches Event::Sent(c) && is_unfiltered_query(c))
    &&& t[3] == Event::Received(Outcome::FilteredTypes(entries))
    &&& (forall|k: int|
        0 <= k < entries@.len() ==> ((#[trigger] t[4 + 2 * k]) matches Event::Sent(c)
            && is_reconstruct_command(c, entries@[k].1)))
    &&& (forall|k: int|
        0 <= k < entries@.len() ==> ((#[trigger] t[5 + 2 * k]) matches Event::Received(o)
            && reconstruct_shape_ok(o)))
    &&& v == collect_spec(entries@, reconstruction_payloads(t, entries@.len() as int))
}

/// A transcript of a complete, successful run that produced the result
/// `v`, for some work list the enumeration phase reported.
pub open spec fn successful_run(t: Seq<Event>, v: Seq<(String, String)>) -> bool {
    exists|entries: Vec<(String, TypeId)>| successful_run_with(t, v, entries)
}

/// The extraction application: the command link to the backend, and the
/// controller through which the backend's outcome notifications return.
pub struct WinDiffApp {
    /// The outcome endpoint shared with the backend: the backend delivers
    /// through it, `list_types` blocks on its receiving half.
    pub frontend_controller: ResymFrontendController,
    backend_tx: crossbeam_channel::Sender<Command>,
}

impl WinDiffApp {
    /// Creates the application together with the backend's end of the
    /// command channel: a backend consumes commands from the returned
    /// receiver and answers each through `frontend_controller`.
    pub fn new() -> (r: (Self, crossbeam_channel::Receiver<Command>)) {
        let (backend_tx, backend_rx) = crossbeam_channel::unbounded::<Command>();
        let (tx_ui, rx_ui) = crossbeam_channel::unbounded::<Outcome>();
        let frontend_controller = ResymFrontendController::new(tx_ui, rx_ui);
        (
            WinDiffApp {
                frontend_controller,
                backend_tx,
            },
            backend_rx,
        )
    }

    /// Extracts every reconstructable type of one PDB: issues the load,
    /// the unfiltered enumeration, then one reconstruct command per
    /// enumerated entry — never more than one command in flight — and
    /// returns the (display name, declaration) pairs of the entries whose
    /// reconstruction succeeded, in enumeration order. A load failure, a
    /// wrongly shaped outcome or a broken channel aborts the whole call;
    /// a per-type reconstruction failure only drops that one entry.
    pub fn list_types(&self, pdb_path: String) -> (r: (
        Result<Vec<(String, String)>, ExtractError>,
        Ghost<Seq<Event>>,
    ))
        ensures
            alternating(r.1@),
            one_in_flight(r.1@),
            r.1@.len() >= 1 && r.1@[0] == Event::Sent(load_command(pdb_path)),
            (r.0 matches Ok(v) ==> successful_run(r.1@, v@)),
            r.1@.len() >= 2 ==> (spec_interpret_load(event_outcome(r.1@[1])) matches Err(e)
                ==> r.1@.len() == 2 && r.0 == Err::<Vec<(String, String)>, ExtractError>(e)),
            r.1@.len() >= 4 ==> (spec_interpret_filter(event_outcome(r.1@[3])) matches Err(e)
                ==> r.1@.len() == 4 && r.0 == Err::<Vec<(String, String)>, ExtractError>(e)),
            (r.0 matches Err(ExtractError::PdbLoadError(m)) ==> r.1@.len() == 2 && event_outcome(
                r.1@[1],
            ) == Outcome::LoadPdbResult(Err::<usize, String>(m))),
            (r.0 matches Err(ExtractError::ChannelError(m)) ==> r.1@.len() % 2 == 1),
            (r.1@.len() >= 6 && r.1@.len() % 2 == 0 && !reconstruct_shape_ok(
                event_outcome(r.1@[r.1@.len() - 1]),
            )) ==> r.0 == Err::<Vec<(String, String)>, ExtractError>(
                ExtractError::ProtocolViolation,
            ),
            commands_follow_protocol(pdb_path, r.1@),
            received_good_before_last(r.1@),
            error_classified(r.0, r.1@),
    {
        let ghost path0: String = pdb_path;
        let ghost mut t: Seq<Event> = Seq::empty();

        // Load phase: no types can be produced without a loaded PDB, so
        // any failure here is fatal.
        let load_cmd = Command::LoadPdb { slot: PDB_SLOT, path: pdb_path };
        proof {
            t = t.push(Event::Sent(load_cmd));
        }
        if let Err(e) = self.backend_tx.send(load_cmd) {
            return (Err(ExtractError::ChannelError(e.to_string())), Ghost(t));
        }
        let out0 = match self.frontend_controller.rx_ui.recv() {
            Ok(o) => o,
            Err(_) => {
                return (Err(ExtractError::ProtocolViolation), Ghost(t));
            },
        };
        proof {
            t = t.push(Event::Received(out0));
        }
        if let Err(e) = interpret_load(out0) {
            return (Err(e), Ghost(t));
        }

        // Enumeration phase: the unfiltered query returns every type in
        // the PDB; its answer is the complete work list for phase three.
        let filter_cmd = Command::UpdateTypeFilter {
            slot: PDB_SLOT,
            search: String::new(),
            case_sensitive: false,
            use_regex: false,
        };
        proof {
            t = t.push(Event::Sent(filter_cmd));
        }
        if let Err(e) = self.backend_tx.send(filter_cmd) {
            return (Err(ExtractError::ChannelError(e.to_string())), Ghost(t));
        }
        let out1 = match self.frontend_controller.rx_ui.recv() {
            Ok(o) => o,
            Err(_) => {
                return (Err(ExtractError::ProtocolViolation), Ghost(t));
            },
        };
        proof {
            t = t.push(Event::Received(out1));
        }
        let entries = match interpret_filter(out1) {
            Ok(v) => v,
            Err(e) => {
                return (Err(e), Ghost(t));
            },
        };

        // Reconstruction phase: one command per entry, in enumeration
        // order, each answered before the next is issued. An entry whose
        // reconstruction fails is dropped; a shape violation is fatal.
        let ghost entries_snap: Vec<(String, TypeId)> = entries;
        let ghost entries_seq: Seq<(String, TypeId)> = entries@;
        let ghost mut outs: Seq<Option<String>> = Seq::empty();
        let mut remaining = entries;
        let mut results: Vec<(String, String)> = Vec::new();
        let n = remaining.len();
        let mut i: usize = 0;
        while i < n
            invariant
                n == entries_seq.len(),
                i <= n,
                remaining@ == entries_seq.subrange(i as int, n as int),
                outs.len() == i as int,
                t.len() == 4 + 2 * (i as int),
                alternating(t),
                t[0] == Event::Sent(load_command(path0)),
                (t[1] matches Event::Received(o) && spec_interpret_load(o) is Ok),
                (t[2] matches Event::Sent(c) && is_unfiltered_query(c)),
                t[3] == Event::Received(Outcome::FilteredTypes(entries_snap)),
                entries_snap@ == entries_seq,
                path0 == pdb_path,
                forall|k: int|
                    0 <= k < i ==> ((#[trigger] t[4 + 2 * k]) matches Event::Sent(c)
                        && is_reconstruct_command(c, entries_seq[k].1)),
                forall|k: int|
                    0 <= k < i ==> ((#[trigger] t[5 + 2 * k]) matches Event::Received(o)
                        && reconstruct_shape_ok(o)),
                forall|k: int|
                    0 <= k < i ==> outs[k] == reconstruct_value(event_outcome(t[5 + 2 * k])),
                results@ == collect_spec(entries_seq.take(i as int), outs),
            decreases n - i,
        {
            let ghost outs_head = outs;
            let ghost results_head = results@;
            proof {
                assert(entries_seq.subrange(i as int, n as int).len() == n - i);
            }
            let (name, id) = remaining.remove(0);
            proof {
                assert(entries_seq.subrange(i as int, n as int)[0] == entries_seq[i as int]);
                assert(remaining@ =~= entries_seq.subrange(i as int + 1, n as int));
            }
            let recon_cmd = Command::ReconstructTypeByIndex {
                slot: PDB_SLOT,
                type_id: id,
                flavor: ReconstructionFlavor::Microsoft,
                print_header: false,
                reconstruct_dependencies: false,
                print_access_specifiers: false,
            };
            proof {
                t = t.push(Event::Sent(recon_cmd));
            }
            if let Err(e) = self.backend_tx.send(recon_cmd) {
                return (Err(ExtractError::ChannelError(e.to_string())), Ghost(t));
            }
            let out = match self.frontend_controller.rx_ui.recv() {
                Ok(o) => o,
                Err(_) => {
                    return (Err(ExtractError::ProtocolViolation), Ghost(t));
                },
            };
            proof {
                t = t.push(Event::Received(out));
            }
            match interpret_reconstruct(out) {
                Err(e) => {
                    return (Err(e), Ghost(t));
                },
                Ok(opt) => {
                    proof {
                        outs = outs.push(opt);
                    }
                    match opt {
                        Some(decl) => {
                            results.push((name, decl));
                        },
                        None => {},
                    }
                },
            }
            proof {
                assert(outs =~= outs_head.push(outs[i as int]));
                assert(entries_seq.take(i as int + 1).drop_last() =~= entries_seq.take(i as int));
                assert(outs.drop_last() =~= outs_head);
                assert(entries_seq.take(i as int + 1).last() == entries_seq[i as int]);
                assert(collect_spec(entries_seq.take(i as int + 1), outs) == match outs[i as int] {
                    Some(decl) => results_head.push((entries_seq[i as int].0, decl)),
                    None => results_head,
                });
                assert(results@ == collect_spec(entries_seq.take(i as int + 1), outs));
            }
            i = i + 1;
        }
        proof {
            assert(entries_seq.take(n as int) =~= entries_seq);
            assert(reconstruction_payloads(t, n as int) =~= outs);
            assert(successful_run_with(t, results@, entries_snap));
            if n > 0 {
                assert(reconstruct_shape_ok(event_outcome(t[5 + 2 * (n as int - 1)])));
            }
        }
        (Ok(results), Ghost(t))
    }
}

} // verus!
