use vstd::prelude::*;
use crate::message::{CloseFrameView, MessageView, WireCloseView, WireView};
use crate::pump::{
    event_of, is_terminal, phase_after, reaction, registry_after, steps, ActionView, EventView,
    InboundView, Phase,
};

verus! {

/// The phase of a connection after all of a sequence was read, first to last.
pub open spec fn phase_after_all(phase: Phase, inbounds: Seq<InboundView>) -> Phase
    decreases inbounds.len(),
{
    if inbounds.len() == 0 {
        phase
    } else {
        phase_after_all(phase_after(phase, inbounds[0]), inbounds.drop_first())
    }
}

/// Every step that a connection takes while a sequence is read, first to last.
pub open spec fn steps_over(phase: Phase, inbounds: Seq<InboundView>) -> Seq<ActionView>
    decreases inbounds.len(),
{
    if inbounds.len() == 0 {
        Seq::empty()
    } else {
        steps(phase, inbounds[0]) + steps_over(
            phase_after(phase, inbounds[0]),
            inbounds.drop_first(),
        )
    }
}

/// The events that a list of steps delivers, in the order of the steps.
pub open spec fn deliveries(actions: Seq<ActionView>) -> Seq<EventView>
    decreases actions.len(),
{
    if actions.len() == 0 {
        Seq::empty()
    } else {
        match actions[0] {
            ActionView::Deliver(event) => seq![event] + deliveries(actions.drop_first()),
            _ => deliveries(actions.drop_first()),
        }
    }
}

/// The registry after a list of steps of the connection under a handle.
pub open spec fn registry_after_all<W>(
    registry: Map<u32, W>,
    handle: u32,
    actions: Seq<ActionView>,
) -> Map<u32, W>
    decreases actions.len(),
{
    if actions.len() == 0 {
        registry
    } else {
        registry_after_all(
            registry_after(registry, handle, actions[0]),
            handle,
            actions.drop_first(),
        )
    }
}

/// What is read while the connection lives: everything up to the first item that ends
/// it, that item included.
pub open spec fn lived(inbounds: Seq<InboundView>) -> Seq<InboundView>
    decreases inbounds.len(),
{
    if inbounds.len() == 0 {
        Seq::empty()
    } else if is_terminal(inbounds[0]) {
        seq![inbounds[0]]
    } else {
        seq![inbounds[0]] + lived(inbounds.drop_first())
    }
}

/// Whether nothing in a sequence ends the connection.
pub open spec fn all_ongoing(inbounds: Seq<InboundView>) -> bool {
    forall|i: int| 0 <= i < inbounds.len() ==> !is_terminal(#[trigger] inbounds[i])
}

/// The events for a sequence of things read, one for one.
pub open spec fn events_of(inbounds: Seq<InboundView>) -> Seq<EventView> {
    Seq::new(inbounds.len(), |i: int| event_of(inbounds[i]))
}

proof fn lemma_deliveries_concat(first: Seq<ActionView>, second: Seq<ActionView>)
    ensures
        deliveries(first + second) == deliveries(first) + deliveries(second),
    decreases first.len(),
{
    if first.len() == 0 {
        assert(first + second =~= second);
        assert(deliveries(first) + deliveries(second) =~= deliveries(second));
    } else {
        lemma_deliveries_concat(first.drop_first(), second);
        assert((first + second).drop_first() =~= first.drop_first() + second);
        assert((first + second)[0] == first[0]);
        match first[0] {
            ActionView::Deliver(event) => {
                assert(seq![event] + (deliveries(first.drop_first()) + deliveries(second))
                    =~= (seq![event] + deliveries(first.drop_first())) + deliveries(second));
            },
            _ => {},
        }
    }
}

proof fn lemma_registry_concat<W>(
    registry: Map<u32, W>,
    handle: u32,
    first: Seq<ActionView>,
    second: Seq<ActionView>,
)
    ensures
        registry_after_all(registry, handle, first + second) == registry_after_all(
            registry_after_all(registry, handle, first),
            handle,
            second,
        ),
    decreases first.len(),
{
    if first.len() == 0 {
        assert(first + second =~= second);
    } else {
        assert((first + second).drop_first() =~= first.drop_first() + second);
        assert((first + second)[0] == first[0]);
        lemma_registry_concat(
            registry_after(registry, handle, first[0]),
            handle,
            first.drop_first(),
            second,
        );
    }
}

proof fn lemma_deliveries_unit(action: ActionView)
    ensures
        deliveries(seq![action]) == match action {
            ActionView::Deliver(event) => seq![event],
            _ => Seq::<EventView>::empty(),
        },
{
    reveal_with_fuel(deliveries, 2);
    let actions = seq![action];
    assert(actions.drop_first().len() == 0);
    match action {
        ActionView::Deliver(event) => {
            assert(seq![event] + Seq::<EventView>::empty() =~= seq![event]);
        },
        _ => {},
    }
}

proof fn lemma_registry_unit<W>(registry: Map<u32, W>, handle: u32, action: ActionView)
    ensures
        registry_after_all(registry, handle, seq![action]) == registry_after(
            registry,
            handle,
            action,
        ),
{
    reveal_with_fuel(registry_after_all, 2);
    let actions = seq![action];
    assert(actions.drop_first().len() == 0);
}

proof fn lemma_reaction_split(inbound: InboundView)
    ensures
        is_terminal(inbound) ==> reaction(inbound) == seq![ActionView::Deregister] + (seq![
            ActionView::Deliver(event_of(inbound)),
        ] + seq![ActionView::Finish]),
        !is_terminal(inbound) ==> reaction(inbound) == seq![
            ActionView::Deliver(event_of(inbound)),
        ],
{
    if is_terminal(inbound) {
        assert(reaction(inbound) =~= seq![ActionView::Deregister] + (seq![
            ActionView::Deliver(event_of(inbound)),
        ] + seq![ActionView::Finish]));
    }
}

proof fn lemma_reaction_delivers(inbound: InboundView)
    ensures
        deliveries(reaction(inbound)) == seq![event_of(inbound)],
{
    let event = event_of(inbound);
    lemma_reaction_split(inbound);
    lemma_deliveries_unit(ActionView::Deregister);
    lemma_deliveries_unit(ActionView::Deliver(event));
    lemma_deliveries_unit(ActionView::Finish);
    if is_terminal(inbound) {
        let middle = seq![ActionView::Deliver(event)];
        let last = seq![ActionView::Finish];
        lemma_deliveries_concat(middle, last);
        lemma_deliveries_concat(seq![ActionView::Deregister], middle + last);
        assert(Seq::<EventView>::empty() + (seq![event] + Seq::<EventView>::empty()) =~= seq![
            event,
        ]);
    }
}

proof fn lemma_reaction_registry<W>(registry: Map<u32, W>, handle: u32, inbound: InboundView)
    ensures
        registry_after_all(registry, handle, reaction(inbound)) == if is_terminal(inbound) {
            registry.remove(handle)
        } else {
            registry
        },
{
    let event = event_of(inbound);
    lemma_reaction_split(inbound);
    if is_terminal(inbound) {
        let middle = seq![ActionView::Deliver(event)];
        let last = seq![ActionView::Finish];
        let gone = registry.remove(handle);
        lemma_registry_unit(registry, handle, ActionView::Deregister);
        lemma_registry_unit(gone, handle, ActionView::Deliver(event));
        lemma_registry_unit(gone, handle, ActionView::Finish);
        lemma_registry_concat(gone, handle, middle, last);
        lemma_registry_concat(registry, handle, seq![ActionView::Deregister], middle + last);
    } else {
        lemma_registry_unit(registry, handle, ActionView::Deliver(event));
    }
}

/// A connection that is not open takes no step, whatever is read, and stays as it is.
pub proof fn law_only_open_reacts(phase: Phase, inbounds: Seq<InboundView>)
    requires
        phase != Phase::Open,
    ensures
        steps_over(phase, inbounds) == Seq::<ActionView>::empty(),
        phase_after_all(phase, inbounds) == phase,
    decreases inbounds.len(),
{
    if inbounds.len() > 0 {
        law_only_open_reacts(phase, inbounds.drop_first());
        assert(steps(phase, inbounds[0]) + Seq::<ActionView>::empty() =~= Seq::<
            ActionView,
        >::empty());
    }
}

/// The callback of an open connection is handed one event for each thing read while the
/// connection lives, in the order in which the things were read, and none after.
pub proof fn law_delivery_order(inbounds: Seq<InboundView>)
    ensures
        deliveries(steps_over(Phase::Open, inbounds)) == events_of(lived(inbounds)),
    decreases inbounds.len(),
{
    if inbounds.len() == 0 {
        assert(events_of(lived(inbounds)) =~= Seq::<EventView>::empty());
    } else {
        let head = inbounds[0];
        let rest = inbounds.drop_first();
        let next = phase_after(Phase::Open, head);
        lemma_deliveries_concat(steps(Phase::Open, head), steps_over(next, rest));
        lemma_reaction_delivers(head);
        if is_terminal(head) {
            law_only_open_reacts(next, rest);
            assert(deliveries(Seq::<ActionView>::empty()) =~= Seq::<EventView>::empty());
            assert(seq![event_of(head)] + Seq::<EventView>::empty() =~= events_of(
                lived(inbounds),
            ));
        } else {
            law_delivery_order(rest);
            assert(seq![event_of(head)] + events_of(lived(rest)) =~= events_of(lived(inbounds)));
        }
    }
}

/// While nothing that is read ends the connection, every item read is delivered, in
/// order, the connection stays open, and the registry stays as it was: the handle goes on
/// standing for the connection, so that sending on it finds it.
pub proof fn law_open_while_ongoing<W>(
    registry: Map<u32, W>,
    handle: u32,
    inbounds: Seq<InboundView>,
)
    requires
        all_ongoing(inbounds),
    ensures
        phase_after_all(Phase::Open, inbounds) == Phase::Open,
        deliveries(steps_over(Phase::Open, inbounds)) == events_of(inbounds),
        registry_after_all(registry, handle, steps_over(Phase::Open, inbounds)) == registry,
    decreases inbounds.len(),
{
    law_delivery_order(inbounds);
    if inbounds.len() == 0 {
        assert(events_of(inbounds) =~= Seq::<EventView>::empty());
    } else {
        let head = inbounds[0];
        let rest = inbounds.drop_first();
        assert(all_ongoing(rest)) by {
            assert forall|i: int| 0 <= i < rest.len() implies !is_terminal(#[trigger] rest[i]) by {
                assert(rest[i] == inbounds[i + 1]);
            }
        }
        law_open_while_ongoing(registry, handle, rest);
        law_delivery_order(rest);
        lemma_deliveries_concat(steps(Phase::Open, head), steps_over(Phase::Open, rest));
        lemma_reaction_delivers(head);
        assert(seq![event_of(head)] + events_of(rest) =~= events_of(inbounds));
        lemma_registry_concat(
            registry,
            handle,
            steps(Phase::Open, head),
            steps_over(Phase::Open, rest),
        );
        lemma_reaction_registry(registry, handle, head);
    }
}

/// Once a connection has been filed under a handle that stood for none, the handle
/// stands for it, and for it alone, for as long as nothing that is read ends the
/// connection; and every handle that stood for a connection before goes on standing for
/// that connection.
pub proof fn law_registered_while_ongoing<W>(
    registry: Map<u32, W>,
    handle: u32,
    writer: W,
    inbounds: Seq<InboundView>,
)
    requires
        all_ongoing(inbounds),
        !registry.contains_key(handle),
    ensures
        registry_after_all(
            registry.insert(handle, writer),
            handle,
            steps_over(Phase::Open, inbounds),
        ).contains_key(handle),
        registry_after_all(
            registry.insert(handle, writer),
            handle,
            steps_over(Phase::Open, inbounds),
        )[handle] == writer,
        forall|other: u32| #[trigger]
            registry.contains_key(other) ==> registry_after_all(
                registry.insert(handle, writer),
                handle,
                steps_over(Phase::Open, inbounds),
            ).contains_key(other) && registry_after_all(
                registry.insert(handle, writer),
                handle,
                steps_over(Phase::Open, inbounds),
            )[other] == registry[other],
{
    law_open_while_ongoing(registry.insert(handle, writer), handle, inbounds);
}

/// When an open connection reads what ends it, a close frame or a failure, its handle
/// leaves the registry before the callback hears of it: the steps are to deregister, to
/// deliver, to finish, in this order. From the moment of the delivery on the handle
/// stands for nothing, so that sending on it finds no connection; every other handle
/// stands for what it stood for; and the connection is closed.
pub proof fn law_closing_deregisters_first<W>(
    registry: Map<u32, W>,
    handle: u32,
    inbound: InboundView,
)
    requires
        is_terminal(inbound),
    ensures
        steps(Phase::Open, inbound) == seq![
            ActionView::Deregister,
            ActionView::Deliver(event_of(inbound)),
            ActionView::Finish,
        ],
        phase_after(Phase::Open, inbound) == Phase::Closed,
        !registry_after_all(registry, handle, steps(Phase::Open, inbound).take(1)).contains_key(
            handle,
        ),
        registry_after_all(registry, handle, steps(Phase::Open, inbound)) == registry.remove(
            handle,
        ),
        forall|other: u32|
            other != handle ==> (#[trigger] registry_after_all(
                registry,
                handle,
                steps(Phase::Open, inbound),
            ).contains_key(other) <==> registry.contains_key(other)),
{
    let actions = steps(Phase::Open, inbound);
    assert(actions.take(1) =~= seq![ActionView::Deregister]);
    lemma_registry_unit(registry, handle, ActionView::Deregister);
    lemma_reaction_registry(registry, handle, inbound);
}

/// A connection that has closed stays closed: nothing that is read afterwards is
/// delivered, and nothing brings its handle back.
pub proof fn law_closed_is_final<W>(
    registry: Map<u32, W>,
    handle: u32,
    inbounds: Seq<InboundView>,
)
    ensures
        phase_after_all(Phase::Closed, inbounds) == Phase::Closed,
        deliveries(steps_over(Phase::Closed, inbounds)) == Seq::<EventView>::empty(),
        registry_after_all(registry, handle, steps_over(Phase::Closed, inbounds)) == registry,
{
    law_only_open_reacts(Phase::Closed, inbounds);
}

/// A close frame is delivered as a close message with the code and the reason that the
/// frame carries.
pub proof fn law_close_event(frame: Option<WireCloseView>)
    ensures
        event_of(InboundView::Message(WireView::Close(frame))) == EventView::Message(
            MessageView::Close(
                match frame {
                    Some(frame) => Some(CloseFrameView { code: frame.code, reason: frame.reason }),
                    None => None,
                },
            ),
        ),
{
}

} // verus!
