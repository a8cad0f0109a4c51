use crate::address::{AddressView, ContentAddress};
use crate::dispatch::{inferred, named};
use crate::error::ErrorKind;
use crate::loader::{next, Action, Event, Load, Outcome, Phase};
use crate::model::ModelDescriptor;
use vstd::prelude::*;

verus! {

/// One step that some load takes on the table.
pub struct Step<H> {
    pub load: Load,
    pub event: Event<H>,
}

/// The table after the steps of `steps`, taken in their order. The steps
/// may belong to any loads, of any addresses, in any interleaving.
pub open spec fn after<H>(table: Map<AddressView, H>, steps: Seq<Step<H>>) -> Map<AddressView, H>
    decreases steps.len(),
{
    if steps.len() == 0 {
        table
    } else {
        next(after(table, steps.drop_last()), steps.last().load, steps.last().event).table
    }
}

/// The first step of a new load of `address`.
pub open spec fn lookup<H>(table: Map<AddressView, H>, address: ContentAddress) -> Outcome<H> {
    next(table, Load { address, phase: Phase::Lookup }, Event::Locked)
}

/// What the last of `steps` tells its load to do.
pub open spec fn last_action<H>(table: Map<AddressView, H>, steps: Seq<Step<H>>) -> Action
    recommends
        steps.len() > 0,
{
    next(after(table, steps.drop_last()), steps.last().load, steps.last().event).action
}

/// How far a phase is from the start of a load.
pub open spec fn rank(phase: Phase) -> nat {
    match phase {
        Phase::Lookup => 0,
        Phase::Prefix => 1,
        Phase::Payload => 2,
        Phase::Build => 3,
        Phase::Ready => 4,
        Phase::Failed => 4,
    }
}

/// A load only moves forward: every step that is not turned away takes it
/// to a later phase. A stream is asked for in the first phase only and a
/// build in the third only, so one load asks for each at most once.
pub proof fn lemma_load_moves_forward<H>(table: Map<AddressView, H>, load: Load, event: Event<H>)
    ensures
        next(table, load, event).load.address == load.address,
        next(table, load, event).action != Action::Rejected ==> rank(
            next(table, load, event).load.phase,
        ) > rank(load.phase),
        next(table, load, event).action == Action::OpenStream ==> load.phase == Phase::Lookup
            && !table.dom().contains(load.address@),
        next(table, load, event).action matches Action::Build(_) ==> load.phase
            == Phase::Payload,
{
}

/// No step removes a session or puts another in its place.
pub proof fn lemma_step_keeps_sessions<H>(
    table: Map<AddressView, H>,
    load: Load,
    event: Event<H>,
    key: AddressView,
)
    requires
        table.dom().contains(key),
    ensures
        next(table, load, event).table.dom().contains(key),
        next(table, load, event).table[key] == table[key],
{
}

/// The table changes in one way only: a load that waits for the engine
/// stores the session that was built, under its own address, where there
/// was none.
pub proof fn lemma_only_built_sessions_are_stored<H>(
    table: Map<AddressView, H>,
    load: Load,
    event: Event<H>,
)
    requires
        next(table, load, event).table != table,
    ensures
        load.phase == Phase::Build,
        !table.dom().contains(load.address@),
        event matches Event::Built(handle) && next(table, load, event).table == table.insert(
            load.address@,
            handle,
        ),
{
}

/// A session stays in the table, unchanged, through any number of steps.
pub proof fn lemma_sessions_persist<H>(
    table: Map<AddressView, H>,
    steps: Seq<Step<H>>,
    key: AddressView,
)
    requires
        table.dom().contains(key),
    ensures
        after(table, steps).dom().contains(key),
        after(table, steps)[key] == table[key],
    decreases steps.len(),
{
    if steps.len() > 0 {
        lemma_sessions_persist(table, steps.drop_last(), key);
        lemma_step_keeps_sessions(
            after(table, steps.drop_last()),
            steps.last().load,
            steps.last().event,
            key,
        );
    }
}

/// A load is told to deliver only when its address has a session.
pub proof fn lemma_delivered_is_stored<H>(table: Map<AddressView, H>, load: Load, event: Event<H>)
    requires
        next(table, load, event).action == Action::Deliver,
    ensures
        next(table, load, event).load.phase == Phase::Ready,
        next(table, load, event).table.dom().contains(load.address@),
{
}

/// A new load of an address that has a session is told to deliver at once:
/// it asks for no stream and no build, and leaves the table as it is.
pub proof fn lemma_hit_delivers<H>(table: Map<AddressView, H>, address: ContentAddress)
    requires
        table.dom().contains(address@),
    ensures
        lookup(table, address).action == Action::Deliver,
        lookup(table, address).load == (Load { address, phase: Phase::Ready }),
        lookup(table, address).table == table,
{
}

/// A new load of an address that has no session asks for the stream.
pub proof fn lemma_miss_opens_stream<H>(table: Map<AddressView, H>, address: ContentAddress)
    requires
        !table.dom().contains(address@),
    ensures
        lookup(table, address).action == Action::OpenStream,
        lookup(table, address).load == (Load { address, phase: Phase::Prefix }),
        lookup(table, address).table == table,
{
}

/// Once an address has a session, no step of any load of that address asks
/// for its stream again, whatever steps were taken before it.
pub proof fn lemma_no_fetch_once_stored<H>(table: Map<AddressView, H>, steps: Seq<Step<H>>)
    requires
        steps.len() > 0,
        table.dom().contains(steps.last().load.address@),
    ensures
        last_action(table, steps) != Action::OpenStream,
{
    lemma_sessions_persist(table, steps.drop_last(), steps.last().load.address@);
}

/// A session is built once for an address. After a load has been told to
/// deliver, and whatever steps are taken afterwards, every new load of the
/// same address is told to deliver at once, finds the very session that the
/// first one found, and changes nothing.
pub proof fn lemma_build_once<H>(
    table: Map<AddressView, H>,
    load: Load,
    event: Event<H>,
    steps: Seq<Step<H>>,
)
    requires
        next(table, load, event).action == Action::Deliver,
    ensures
        ({
            let stored = next(table, load, event).table;
            let later = after(stored, steps);
            let again = lookup(later, load.address);
            &&& again.action == Action::Deliver
            &&& again.table == later
            &&& later[load.address@] == stored[load.address@]
        }),
{
    lemma_delivered_is_stored(table, load, event);
    let stored = next(table, load, event).table;
    lemma_sessions_persist(stored, steps, load.address@);
    lemma_hit_delivers(after(stored, steps), load.address);
}

/// A step that fails, or that turns its event away, leaves the table as it
/// was; a step that fails ends the load.
pub proof fn lemma_failure_leaves_table<H>(table: Map<AddressView, H>, load: Load, event: Event<H>)
    requires
        next(table, load, event).action matches Action::Fail(_) || next(
            table,
            load,
            event,
        ).action == Action::Rejected,
    ensures
        next(table, load, event).table == table,
        next(table, load, event).action matches Action::Fail(_) ==> next(
            table,
            load,
            event,
        ).load.phase == Phase::Failed,
        next(table, load, event).action == Action::Rejected ==> next(table, load, event).load
            == load,
{
}

/// A length prefix other than the length that the address declares ends
/// the load with an integrity error, and the table stays as it was, so that
/// a new load of the address starts from the beginning.
pub proof fn lemma_wrong_prefix_is_refused<H>(
    table: Map<AddressView, H>,
    address: ContentAddress,
    prefix: u64,
)
    requires
        prefix != address.len,
    ensures
        ({
            let waiting = Load { address, phase: Phase::Prefix };
            let refused = next(table, waiting, Event::Prefix(prefix));
            &&& refused.action == Action::Fail(ErrorKind::Integrity)
            &&& refused.load.phase == Phase::Failed
            &&& refused.table == table
            &&& lookup(refused.table, address) == lookup(table, address)
        }),
{
}

/// The engine is only ever given bytes of the length that the address
/// declares.
pub proof fn lemma_built_bytes_have_declared_length<H>(
    table: Map<AddressView, H>,
    load: Load,
    event: Event<H>,
)
    ensures
        next(table, load, event).action matches Action::Build(bytes) ==> bytes@.len()
            == load.address.len,
{
}

/// The outputs of an inference carry the names of the model's outputs, in
/// the model's order, and the payloads in the engine's order.
pub proof fn lemma_outputs_keep_order<D>(model: ModelDescriptor, raw: Vec<D>)
    requires
        raw@.len() == model.outputs@.len(),
    ensures
        inferred(model, Some(raw)) matches Ok(tensors) && tensors.len() == model.outputs@.len()
            && forall|i: int|
            0 <= i < tensors.len() ==> (#[trigger] tensors[i]).name == model.outputs@[i].name
                && tensors[i].data == raw@[i],
{
    assert(inferred(model, Some(raw)) == Ok::<Seq<crate::model::Tensor<D>>, ErrorKind>(
        named(model.outputs@, raw@),
    ));
}

/// Outputs in another number than the model declares are an error: none
/// of them is returned.
pub proof fn lemma_count_mismatch_is_refused<D>(model: ModelDescriptor, raw: Vec<D>)
    requires
        raw@.len() != model.outputs@.len(),
    ensures
        inferred(model, Some(raw)) == Err::<Seq<crate::model::Tensor<D>>, ErrorKind>(
            ErrorKind::ShapeCountMismatch,
        ),
{
}

/// A run that failed costs the inference and nothing else: the model's
/// session is still delivered to the next load, after any steps, and a run
/// that then gives as many outputs as the model declares ends well.
pub proof fn lemma_failed_run_keeps_session<H, D>(
    table: Map<AddressView, H>,
    model: ModelDescriptor,
    steps: Seq<Step<H>>,
    raw: Vec<D>,
)
    requires
        table.dom().contains(model.address@),
        raw@.len() == model.outputs@.len(),
    ensures
        inferred::<D>(model, None) == Err::<Seq<crate::model::Tensor<D>>, ErrorKind>(
            ErrorKind::EngineRun,
        ),
        lookup(after(table, steps), model.address).action == Action::Deliver,
        after(table, steps)[model.address@] == table[model.address@],
        inferred(model, Some(raw)) is Ok,
{
    lemma_sessions_persist(table, steps, model.address@);
}

} // verus!
