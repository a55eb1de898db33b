use crate::error::DlssError;
use crate::settings::FeatureHandle;
use vstd::prelude::*;

verus! {

/// Why a context could not be destroyed. There is no way to go on from
/// either: a native feature that is still there cannot be left alone safely.
#[derive(Clone, Copy, Debug, PartialEq, Eq, Structural)]
pub enum TeardownFailure {
    /// The device did not reach the idle state; the code is the graphics
    /// API's.
    DeviceIdle(i32),
    /// The runtime did not release the feature.
    ReleaseFeature(DlssError),
}

/// How far the destruction of a context has come.
#[derive(Clone, Copy, Debug, PartialEq, Eq, Structural)]
pub enum TeardownState {
    /// The context is alive and holds its feature.
    Alive,
    /// The device has been asked to become idle.
    WaitingForIdle,
    /// The device is idle and the runtime has been asked to release the
    /// feature.
    Releasing,
    /// The feature is released.
    Released,
    /// The destruction has failed.
    Failed(TeardownFailure),
}

/// What the host reports to a context that is being destroyed.
#[derive(Clone, Copy, Debug, PartialEq, Eq)]
pub enum TeardownEvent {
    /// The context is to be destroyed.
    Destroy,
    /// The wait for the device to become idle has ended.
    DeviceIdle(Result<(), i32>),
    /// The runtime's call to release the feature has returned.
    FeatureReleased(Result<(), DlssError>),
}

/// What the host has to do next for a context that is being destroyed.
#[derive(Clone, Copy, Debug, PartialEq, Eq, Structural)]
pub enum TeardownAction {
    /// Nothing: the event came out of turn, or the destruction is over.
    Nothing,
    /// Block until the device is idle.
    WaitForDeviceIdle,
    /// Have the runtime release the feature.
    ReleaseFeature(FeatureHandle),
    /// Give up for good.
    Fail(TeardownFailure),
}

/// The destruction of a context, step by step: first the device has to become
/// idle, so that no evaluation that refers to the feature is still in flight,
/// and only then is the feature released.
#[derive(Clone, Copy, Debug, PartialEq, Eq, Structural)]
pub struct Teardown {
    pub feature: FeatureHandle,
    pub state: TeardownState,
}

/// The state that follows `state` on `event`, and what the host has to do
/// then. An event that comes out of turn changes nothing.
pub open spec fn teardown_step(state: TeardownState, feature: FeatureHandle, event: TeardownEvent) -> (
    TeardownState,
    TeardownAction,
) {
    match (state, event) {
        (TeardownState::Alive, TeardownEvent::Destroy) => (
            TeardownState::WaitingForIdle,
            TeardownAction::WaitForDeviceIdle,
        ),
        (TeardownState::WaitingForIdle, TeardownEvent::DeviceIdle(Ok(_))) => (
            TeardownState::Releasing,
            TeardownAction::ReleaseFeature(feature),
        ),
        (TeardownState::WaitingForIdle, TeardownEvent::DeviceIdle(Err(code))) => (
            TeardownState::Failed(TeardownFailure::DeviceIdle(code)),
            TeardownAction::Fail(TeardownFailure::DeviceIdle(code)),
        ),
        (TeardownState::Releasing, TeardownEvent::FeatureReleased(Ok(_))) => (
            TeardownState::Released,
            TeardownAction::Nothing,
        ),
        (TeardownState::Releasing, TeardownEvent::FeatureReleased(Err(error))) => (
            TeardownState::Failed(TeardownFailure::ReleaseFeature(error)),
            TeardownAction::Fail(TeardownFailure::ReleaseFeature(error)),
        ),
        _ => (state, TeardownAction::Nothing),
    }
}

/// The state that is reached from `state` by a run of events.
pub open spec fn teardown_state_after(
    state: TeardownState,
    feature: FeatureHandle,
    events: Seq<TeardownEvent>,
) -> TeardownState
    decreases events.len(),
{
    if events.len() == 0 {
        state
    } else {
        teardown_step(teardown_state_after(state, feature, events.drop_last()), feature, events.last()).0
    }
}

/// What the host is told to do on the last of a run of events that begins in
/// `state`.
pub open spec fn teardown_action_on_last(
    state: TeardownState,
    feature: FeatureHandle,
    events: Seq<TeardownEvent>,
) -> TeardownAction
    recommends
        events.len() > 0,
{
    teardown_step(teardown_state_after(state, feature, events.drop_last()), feature, events.last()).1
}

impl Teardown {
    /// The destruction of a context that is still alive.
    pub fn new(feature: FeatureHandle) -> (teardown: Self)
        ensures
            teardown == (Teardown { feature, state: TeardownState::Alive }),
    {
        Teardown { feature, state: TeardownState::Alive }
    }

    /// Takes one event and says what the host has to do next.
    pub fn step(&mut self, event: TeardownEvent) -> (action: TeardownAction)
        ensures
            final(self).feature == old(self).feature,
            (final(self).state, action) == teardown_step(
                old(self).state,
                old(self).feature,
                event,
            ),
    {
        let feature = self.feature;
        let (state, action) = match (self.state, event) {
            (TeardownState::Alive, TeardownEvent::Destroy) => (
                TeardownState::WaitingForIdle,
                TeardownAction::WaitForDeviceIdle,
            ),
            (TeardownState::WaitingForIdle, TeardownEvent::DeviceIdle(Ok(_))) => (
                TeardownState::Releasing,
                TeardownAction::ReleaseFeature(feature),
            ),
            (TeardownState::WaitingForIdle, TeardownEvent::DeviceIdle(Err(code))) => (
                TeardownState::Failed(TeardownFailure::DeviceIdle(code)),
                TeardownAction::Fail(TeardownFailure::DeviceIdle(code)),
            ),
            (TeardownState::Releasing, TeardownEvent::FeatureReleased(Ok(_))) => (
                TeardownState::Released,
                TeardownAction::Nothing,
            ),
            (TeardownState::Releasing, TeardownEvent::FeatureReleased(Err(error))) => (
                TeardownState::Failed(TeardownFailure::ReleaseFeature(error)),
                TeardownAction::Fail(TeardownFailure::ReleaseFeature(error)),
            ),
            (state, _) => (state, TeardownAction::Nothing),
        };
        self.state = state;
        action
    }

    /// Whether the destruction is over, for better or worse.
    pub fn is_finished(&self) -> (finished: bool)
        ensures
            finished == (self.state == TeardownState::Released || self.state is Failed),
    {
        match self.state {
            TeardownState::Released => true,
            TeardownState::Failed(_) => true,
            _ => false,
        }
    }
}

/// Whatever the host reports and in whatever order, the release of a
/// context's feature is asked for only when the device has just been found
/// idle, and the wait for that was asked for at an earlier event. The feature
/// to release is the context's own.
pub proof fn lemma_release_follows_device_idle(
    feature: FeatureHandle,
    events: Seq<TeardownEvent>,
    at: int,
)
    requires
        0 <= at < events.len(),
        teardown_action_on_last(TeardownState::Alive, feature, events.take(at + 1))
            is ReleaseFeature,
    ensures
        teardown_action_on_last(TeardownState::Alive, feature, events.take(at + 1))
            == TeardownAction::ReleaseFeature(feature),
        events[at] is DeviceIdle && events[at]->DeviceIdle_0 is Ok,
        exists|earlier: int|
            0 <= earlier < at && #[trigger] teardown_action_on_last(
                TeardownState::Alive,
                feature,
                events.take(earlier + 1),
            ) == TeardownAction::WaitForDeviceIdle,
{
    let run = events.take(at + 1);
    assert(run.last() == events[at]);
    assert(run.drop_last() =~= events.take(at));
    let before = teardown_state_after(TeardownState::Alive, feature, events.take(at));
    assert(before == TeardownState::WaitingForIdle);
    lemma_waiting_was_asked_for(feature, events.take(at));
    let earlier = choose|earlier: int|
        0 <= earlier < at && #[trigger] teardown_action_on_last(
            TeardownState::Alive,
            feature,
            events.take(at).take(earlier + 1),
        ) == TeardownAction::WaitForDeviceIdle;
    assert(events.take(at).take(earlier + 1) =~= events.take(earlier + 1));
}

/// A context that waits for the device to become idle was told to at one of
/// the events so far.
proof fn lemma_waiting_was_asked_for(feature: FeatureHandle, events: Seq<TeardownEvent>)
    requires
        teardown_state_after(TeardownState::Alive, feature, events)
            == TeardownState::WaitingForIdle,
    ensures
        exists|earlier: int|
            0 <= earlier < events.len() && #[trigger] teardown_action_on_last(
                TeardownState::Alive,
                feature,
                events.take(earlier + 1),
            ) == TeardownAction::WaitForDeviceIdle,
    decreases events.len(),
{
    if events.len() == 0 {
    } else {
        let before = teardown_state_after(TeardownState::Alive, feature, events.drop_last());
        let last = events.len() - 1;
        if before == TeardownState::Alive {
            assert(events.last() == TeardownEvent::Destroy);
            assert(events.take(last + 1) =~= events);
            assert(teardown_action_on_last(TeardownState::Alive, feature, events.take(last + 1))
                == TeardownAction::WaitForDeviceIdle);
        } else {
            assert(before == TeardownState::WaitingForIdle);
            lemma_waiting_was_asked_for(feature, events.drop_last());
            let earlier = choose|earlier: int|
                0 <= earlier < events.drop_last().len() && #[trigger] teardown_action_on_last(
                    TeardownState::Alive,
                    feature,
                    events.drop_last().take(earlier + 1),
                ) == TeardownAction::WaitForDeviceIdle;
            assert(events.drop_last().take(earlier + 1) =~= events.take(earlier + 1));
        }
    }
}

} // verus!
