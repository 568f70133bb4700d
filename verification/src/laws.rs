//! What holds of the library as a whole: properties that relate several
//! operations, proved over the mathematical models of the table and the
//! session.

use vstd::prelude::*;
use crate::error::KernelError;
use crate::kernel::{DispatchModel, KernelState, Phase, SessionModel};
use crate::params::{
    formal_names, formal_params, name_issued, table_after, ParamData, ParamKind, Registration,
};
use crate::text::{lemma_param_name_injective, param_name};
use crate::graph::{grid_col_token, grid_row_token};

verus! {

/// The table after a sequence of registration calls, made in order.
pub open spec fn table_after_all(table: Seq<ParamData>, calls: Seq<Registration>) -> Seq<
    ParamData,
>
    decreases calls.len(),
{
    if calls.len() == 0 {
        table
    } else {
        table_after_all(table_after(table, calls[0]), calls.skip(1))
    }
}

/// The names that a sequence of registration calls returns, one for each
/// call that succeeds, in the order of the calls.
pub open spec fn names_issued(table: Seq<ParamData>, calls: Seq<Registration>) -> Seq<Seq<char>>
    decreases calls.len(),
{
    if calls.len() == 0 {
        Seq::empty()
    } else {
        let rest = names_issued(table_after(table, calls[0]), calls.skip(1));
        match name_issued(table, calls[0]) {
            Some(name) => seq![name] + rest,
            None => rest,
        }
    }
}

/// The names of a table are the names it had, followed by the names that
/// the successful registration calls returned, in the order of the calls.
pub proof fn lemma_names_extend_in_call_order(table: Seq<ParamData>, calls: Seq<Registration>)
    ensures
        formal_names(table_after_all(table, calls)) == formal_names(table) + names_issued(
            table,
            calls,
        ),
    decreases calls.len(),
{
    if calls.len() == 0 {
        assert(formal_names(table) + Seq::<Seq<char>>::empty() =~= formal_names(table));
    } else {
        let next = table_after(table, calls[0]);
        lemma_names_extend_in_call_order(next, calls.skip(1));
        let rest = names_issued(next, calls.skip(1));
        if calls[0].accepted() {
            assert(formal_names(next) =~= formal_names(table) + seq![param_name(table.len())]);
            assert(formal_names(next) + rest =~= formal_names(table) + (seq![
                param_name(table.len()),
            ] + rest));
        }
    }
}

/// The formal parameter list of a table that was filled from empty names
/// exactly the successful registration calls, in the order in which they were
/// made.
pub proof fn lemma_finalize_follows_registration_order(calls: Seq<Registration>)
    ensures
        formal_params(table_after_all(Seq::empty(), calls)).map_values(
            |p: (Seq<char>, ParamKind)| p.0,
        ) == names_issued(Seq::empty(), calls),
{
    let table = table_after_all(Seq::empty(), calls);
    lemma_names_extend_in_call_order(Seq::empty(), calls);
    assert(formal_names(Seq::empty()) =~= Seq::<Seq<char>>::empty());
    assert(Seq::<Seq<char>>::empty() + names_issued(Seq::empty(), calls) =~= names_issued(
        Seq::empty(),
        calls,
    ));
    assert(formal_params(table).map_values(|p: (Seq<char>, ParamKind)| p.0) =~= formal_names(
        table,
    ));
}

/// Calls made one batch after another are the calls of the two batches in
/// one sequence.
pub proof fn lemma_calls_compose(
    table: Seq<ParamData>,
    first: Seq<Registration>,
    second: Seq<Registration>,
)
    ensures
        table_after_all(table, first + second) == table_after_all(
            table_after_all(table, first),
            second,
        ),
        names_issued(table, first + second) == names_issued(table, first) + names_issued(
            table_after_all(table, first),
            second,
        ),
    decreases first.len(),
{
    if first.len() == 0 {
        assert(first + second =~= second);
        assert(Seq::<Seq<char>>::empty() + names_issued(table, second) =~= names_issued(
            table,
            second,
        ));
    } else {
        let next = table_after(table, first[0]);
        assert((first + second).skip(1) =~= first.skip(1) + second);
        assert((first + second)[0] == first[0]);
        lemma_calls_compose(next, first.skip(1), second);
        let tail = names_issued(table_after_all(table, first), second);
        if first[0].accepted() {
            assert(seq![param_name(table.len())] + (names_issued(next, first.skip(1)) + tail)
                =~= (seq![param_name(table.len())] + names_issued(next, first.skip(1))) + tail);
        }
    }
}

/// A registration call that fails leaves no trace: the table and the names
/// of the calls around it are what they are without it.
pub proof fn lemma_failed_registration_leaves_no_trace(
    table: Seq<ParamData>,
    before: Seq<Registration>,
    failed: Registration,
    after: Seq<Registration>,
)
    requires
        !failed.accepted(),
    ensures
        table_after_all(table, before.push(failed) + after) == table_after_all(
            table,
            before + after,
        ),
        names_issued(table, before.push(failed) + after) == names_issued(table, before + after),
{
    let mid = table_after_all(table, before);
    lemma_calls_compose(table, before, seq![failed]);
    assert(before + seq![failed] =~= before.push(failed));
    let alone = seq![failed];
    assert(alone.skip(1).len() == 0);
    assert(table_after_all(table_after(mid, alone[0]), alone.skip(1)) == mid);
    assert(names_issued(table_after(mid, alone[0]), alone.skip(1)) =~= Seq::<Seq<char>>::empty());
    assert(table_after_all(mid, alone) == mid);
    assert(names_issued(mid, alone) =~= Seq::<Seq<char>>::empty());
    assert(names_issued(table, before) + Seq::<Seq<char>>::empty() =~= names_issued(
        table,
        before,
    ));
    lemma_calls_compose(table, before.push(failed), after);
    lemma_calls_compose(table, before, after);
}

/// No two entries of a table have the same name.
pub proof fn lemma_names_unique(table: Seq<ParamData>, i: int, j: int)
    requires
        0 <= i < table.len(),
        0 <= j < table.len(),
        formal_names(table)[i] == formal_names(table)[j],
    ensures
        i == j,
{
    lemma_param_name_injective(i as nat, j as nat);
}

/// No generated parameter name is one of the two grid coordinate tokens.
pub proof fn lemma_names_are_not_coordinates(position: nat)
    ensures
        param_name(position) != grid_row_token(),
        param_name(position) != grid_col_token(),
{
    reveal_strlit("var");
    reveal_strlit("this.thread.x");
    reveal_strlit("this.thread.y");
    assert(param_name(position)[0] == 'v');
    assert(grid_row_token()[0] == 't');
    assert(grid_col_token()[0] == 't');
}

/// What can happen to a session.
pub enum SessionEvent<K> {
    /// A registration call.
    Register(Registration),
    /// A call of `set_compute_graph`.
    SetGraph,
    /// The backend's answer to a compile request.
    Compiled(Result<K, String>),
}

/// The session after one event.
pub open spec fn session_after<K>(session: SessionModel<K>, event: SessionEvent<K>) -> SessionModel<
    K,
> {
    match event {
        SessionEvent::Register(call) => session.register(call),
        SessionEvent::SetGraph => session.set_graph(),
        SessionEvent::Compiled(outcome) => session.compiled(outcome),
    }
}

/// The session after a sequence of events, in order.
pub open spec fn session_after_all<K>(
    session: SessionModel<K>,
    events: Seq<SessionEvent<K>>,
) -> SessionModel<K>
    decreases events.len(),
{
    if events.len() == 0 {
        session
    } else {
        session_after_all(session_after(session, events[0]), events.skip(1))
    }
}

/// Every event keeps a session well formed.
pub proof fn lemma_event_keeps_well_formed<K>(session: SessionModel<K>, event: SessionEvent<K>)
    requires
        session.well_formed(),
    ensures
        session_after(session, event).well_formed(),
{
}

/// Whatever happens to a new session, it stays well formed: a kernel that
/// is present was compiled for the table as it is.
pub proof fn lemma_session_stays_well_formed<K>(
    session: SessionModel<K>,
    events: Seq<SessionEvent<K>>,
)
    requires
        session.well_formed(),
    ensures
        session_after_all(session, events).well_formed(),
    decreases events.len(),
{
    if events.len() > 0 {
        lemma_event_keeps_well_formed(session, events[0]);
        lemma_session_stays_well_formed(session_after(session, events[0]), events.skip(1));
    }
}

/// Until `set_compute_graph` is called, no kernel is present or awaited,
/// whatever else happens to the session.
pub proof fn lemma_no_kernel_before_graph<K>(
    session: SessionModel<K>,
    events: Seq<SessionEvent<K>>,
)
    requires
        session.phase() == Phase::Uninitialized,
        forall|i: int| 0 <= i < events.len() ==> !(#[trigger] events[i] is SetGraph),
    ensures
        session_after_all(session, events).phase() == Phase::Uninitialized,
    decreases events.len(),
{
    if events.len() > 0 {
        assert(!(events[0] is SetGraph));
        assert forall|i: int| 0 <= i < events.skip(1).len() implies !(
        #[trigger] events.skip(1)[i] is SetGraph) by {
            assert(events.skip(1)[i] == events[i + 1]);
        }
        lemma_no_kernel_before_graph(session_after(session, events[0]), events.skip(1));
    }
}

/// A dispatch that is asked of a new session before any call of
/// `set_compute_graph` is refused with `KernelNotConfigured`, for every
/// width and height.
pub proof fn lemma_dispatch_before_graph_is_refused<K>(
    events: Seq<SessionEvent<K>>,
    width: u32,
    height: u32,
)
    requires
        forall|i: int| 0 <= i < events.len() ==> !(#[trigger] events[i] is SetGraph),
    ensures
        session_after_all(SessionModel::<K>::initial(), events).dispatch(width, height) == Err::<
            DispatchModel<K>,
            KernelError,
        >(KernelError::KernelNotConfigured),
{
    lemma_no_kernel_before_graph(SessionModel::<K>::initial(), events);
}

/// A new graph replaces the kernel. From the call of `set_compute_graph` on
/// the kernel that was present is not dispatched any more: until the backend
/// answers, a dispatch is refused; with a new kernel, exactly that kernel is
/// run; after a failure, a dispatch is refused.
pub proof fn lemma_new_graph_replaces_kernel<K>(
    session: SessionModel<K>,
    outcome: Result<K, String>,
    width: u32,
    height: u32,
)
    ensures
        session.set_graph().handle() is None,
        session.set_graph().dispatch(width, height) == Err::<DispatchModel<K>, KernelError>(
            KernelError::KernelNotConfigured,
        ),
        match outcome {
            Ok(kernel) => session.set_graph().compiled(outcome).dispatch(width, height) == Ok::<
                DispatchModel<K>,
                KernelError,
            >(DispatchModel { kernel, width, height, args: session.table }),
            Err(_) => session.set_graph().compiled(outcome).dispatch(width, height) == Err::<
                DispatchModel<K>,
                KernelError,
            >(KernelError::KernelNotConfigured),
        },
{
}

/// One answer is taken for one compile request: a second answer changes
/// nothing.
pub proof fn lemma_one_answer_per_request<K>(
    session: SessionModel<K>,
    first: Result<K, String>,
    second: Result<K, String>,
)
    ensures
        session.set_graph().compiled(first).compiled(second) == session.set_graph().compiled(
            first,
        ),
        session.set_graph().compiled(first).compile_report(second) == Err::<(), KernelError>(
            KernelError::KernelNotConfigured,
        ),
{
}

/// The arguments of a dispatch agree with the formal parameters of the
/// kernel that is run, element for element: the kernel was compiled for the
/// table whose values are passed, so the argument at each position is the
/// value registered under the formal parameter at that position.
pub proof fn lemma_arguments_agree_with_formal_params<K>(
    session: SessionModel<K>,
    width: u32,
    height: u32,
)
    requires
        session.well_formed(),
        session.phase() == Phase::Ready,
    ensures
        session.dispatch(width, height) matches Ok(request) && {
            &&& session.state matches KernelState::Ready { kernel, compiled_for }
            &&& request.kernel == kernel
            &&& request.args == compiled_for
            &&& formal_names(request.args) == formal_names(compiled_for)
            &&& forall|i: int|
                0 <= i < request.args.len() ==> (#[trigger] formal_params(compiled_for)[i]) == (
                    param_name(i as nat),
                    request.args[i].kind(),
                )
        },
{
}

} // verus!
