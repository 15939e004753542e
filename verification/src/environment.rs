//! Load-state machine for the gallery environment.
//!
//! The environment scene is requested from the asset loader at startup
//! and the machine stays in `Loading` until the loader reports the
//! asset finalized (a `Created` notification). Only that notification
//! kind matters: `Modified` and `Removed` are ignored, and once the
//! machine is `Ready` it stays `Ready` forever. Systems that need the
//! loaded scene (lookup, painting assembly) are gated on `Ready`.

use vstd::prelude::*;

verus! {

/// Lifecycle stage of the tracked environment asset.
#[derive(Debug, Clone, Copy, PartialEq, Eq, Hash, Structural)]
pub enum EnvState {
    Loading,
    Ready,
}

/// Notification kinds reported by the asset-loader collaborator.
/// Only `Created` (asset finalized) is meaningful to this machine.
#[derive(Debug, Clone, Copy, PartialEq, Eq, Hash, Structural)]
pub enum AssetEvent {
    Created,
    Modified,
    Removed,
}

/// Next state after one notification: `Created` finalizes the
/// environment, every other kind leaves the state alone. Since the
/// only states are `Loading` and `Ready`, this makes `Ready` terminal.
pub open spec fn spec_step(state: EnvState, event: AssetEvent) -> EnvState {
    if event is Created {
        EnvState::Ready
    } else {
        state
    }
}

/// State after a whole batch of notifications, applied in order.
pub open spec fn spec_run(state: EnvState, events: Seq<AssetEvent>) -> EnvState
    decreases events.len(),
{
    if events.len() == 0 {
        state
    } else {
        spec_run(spec_step(state, events[0]), events.subrange(1, events.len() as int))
    }
}

/// Appending one notification to a batch is the same as running the
/// batch and then stepping once.
pub proof fn lemma_run_snoc(state: EnvState, events: Seq<AssetEvent>, event: AssetEvent)
    ensures
        spec_run(state, events.push(event)) == spec_step(spec_run(state, events), event),
    decreases events.len(),
{
    if events.len() == 0 {
        assert(events.push(event).subrange(1, 1) =~= Seq::<AssetEvent>::empty());
        assert(events.push(event)[0] == event);
        assert(spec_run(state, events) == state);
        assert(spec_run(spec_step(state, event), Seq::<AssetEvent>::empty()) == spec_step(
            state,
            event,
        ));
        assert(spec_run(state, events.push(event)) == spec_step(state, event));
    } else {
        assert(events.push(event).subrange(1, events.len() as int + 1)
            =~= events.subrange(1, events.len() as int).push(event));
        assert(events.push(event)[0] == events[0]);
        lemma_run_snoc(spec_step(state, events[0]), events.subrange(1, events.len() as int), event);
        assert(spec_run(state, events.push(event)) == spec_run(
            spec_step(state, events[0]),
            events.subrange(1, events.len() as int).push(event),
        ));
    }
}

/// A batch that contains no `Created` notification leaves the state
/// exactly where it was; in particular a machine still `Loading`
/// remains `Loading` for every such batch.
pub proof fn lemma_no_created_no_change(state: EnvState, events: Seq<AssetEvent>)
    requires
        forall|i: int| 0 <= i < events.len() ==> events[i] !is Created,
    ensures
        spec_run(state, events) == state,
    decreases events.len(),
{
    if events.len() > 0 {
        assert(events[0] !is Created);
        lemma_no_created_no_change(state, events.subrange(1, events.len() as int));
    }
}

/// `Ready` is terminal: whatever notifications follow, the state stays
/// `Ready`.
pub proof fn lemma_ready_is_terminal(events: Seq<AssetEvent>)
    ensures
        spec_run(EnvState::Ready, events) == EnvState::Ready,
    decreases events.len(),
{
    if events.len() > 0 {
        lemma_ready_is_terminal(events.subrange(1, events.len() as int));
    }
}

/// Once any `Created` notification is delivered, the final state is
/// `Ready`, no matter what state the machine started in and no matter
/// what notifications follow the `Created` one.
pub proof fn lemma_created_finalizes(state: EnvState, events: Seq<AssetEvent>, i: int)
    requires
        0 <= i < events.len(),
        events[i] is Created,
    ensures
        spec_run(state, events) == EnvState::Ready,
    decreases events.len(),
{
    if i == 0 {
        lemma_ready_is_terminal(events.subrange(1, events.len() as int));
    } else {
        lemma_created_finalizes(
            spec_step(state, events[0]),
            events.subrange(1, events.len() as int),
            i - 1,
        );
    }
}

/// Asset path of the gallery environment scene the viewer requests at
/// startup.
pub fn environment_scene_path() -> (r: String)
    ensures
        r@ == "models/shaderHall/shaderHall.gltf#Scene0"@,
{
    String::from_str("models/shaderHall/shaderHall.gltf#Scene0")
}

/// The environment asset and the machine that tracks its lifecycle:
/// the owning handle the loader returned for the scene, and the load
/// state that gates every dependent system.
pub struct LoadStateMachine {
    pub handle: u64,
    pub state: EnvState,
}

impl LoadStateMachine {
    /// A freshly constructed machine tracks the handle the loader
    /// returned and is `Loading`: the load request has been issued but
    /// nothing has finalized yet.
    pub fn new(handle: u64) -> (machine: Self)
        ensures
            machine.handle == handle,
            machine.state == EnvState::Loading,
    {
        LoadStateMachine { handle, state: EnvState::Loading }
    }

    /// Deliver one notification. Returns true exactly when this call
    /// performed the one-time `Loading` -> `Ready` transition: the
    /// moment the on-enter-`Ready` hooks (lookup, painting assembly)
    /// must run. Repeated `Created` notifications after `Ready` return
    /// false, so the hooks never fire twice.
    pub fn on_event(&mut self, event: AssetEvent) -> (fired: bool)
        ensures
            final(self).handle == old(self).handle,
            final(self).state == spec_step(old(self).state, event),
            fired <==> (old(self).state is Loading && event is Created),
    {
        let fired = self.state == EnvState::Loading && event == AssetEvent::Created;
        if event == AssetEvent::Created {
            self.state = EnvState::Ready;
        }
        fired
    }

    /// Deliver one frame's batch of notifications in order. Returns
    /// true exactly when the `Ready` transition happened inside this
    /// batch.
    pub fn wait_for_load(&mut self, events: &Vec<AssetEvent>) -> (fired: bool)
        ensures
            final(self).handle == old(self).handle,
            final(self).state == spec_run(old(self).state, events@),
            fired <==> (old(self).state is Loading && final(self).state is Ready),
    {
        let ghost start: EnvState = self.state;
        let mut any_fired = false;
        let mut i: usize = 0;
        while i < events.len()
            invariant
                0 <= i <= events.len(),
                self.handle == old(self).handle,
                self.state == spec_run(start, events@.subrange(0, i as int)),
                start is Ready ==> self.state is Ready,
                any_fired <==> (start is Loading && self.state is Ready),
            decreases events.len() - i,
        {
            proof {
                lemma_run_snoc(start, events@.subrange(0, i as int), events@[i as int]);
                assert(events@.subrange(0, i as int).push(events@[i as int])
                    =~= events@.subrange(0, i + 1));
            }
            let fired = self.on_event(events[i]);
            any_fired = any_fired || fired;
            i += 1;
        }
        proof {
            assert(events@.subrange(0, events@.len() as int) =~= events@);
        }
        any_fired
    }
}

} // verus!
