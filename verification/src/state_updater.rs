//! The reducer: it owns the snapshot that the user interface reads and
//! folds what the bus delivers into it.
//!
//! The program that embeds the library waits for the next delivery, hands it
//! to [`StateUpdater::handle`] and does what the answer says: ask for a
//! redraw, go on waiting, or stop.

use crate::actions::DispatchActions;
use crate::app::{ClippitGptAppShared, SnapshotView};
use crate::bus::{subscribe, Received, ReceivedView};
use vstd::prelude::*;

verus! {

/// What the reducer loop does after a delivery.
#[derive(Clone, Copy, Debug, PartialEq, Eq, Structural)]
pub enum Refresh {
    /// An event was folded in: ask the render surface for a redraw.
    Repaint,
    /// Nothing was folded in: go on waiting. Events that were missed are
    /// not asked for again.
    Resume,
    /// The bus is closed: end the loop.
    Stop,
}

impl SnapshotView {
    /// The snapshot after a delivery, and what the loop does next.
    ///
    /// Every event is folded in and followed by a redraw. A lag and an
    /// empty bus change nothing. A closed bus ends the loop.
    pub open spec fn receive(self, received: ReceivedView) -> (SnapshotView, Refresh) {
        match received {
            ReceivedView::Event(event) => (self.reduce(event), Refresh::Repaint),
            ReceivedView::Empty => (self, Refresh::Resume),
            ReceivedView::Lagged(_) => (self, Refresh::Resume),
            ReceivedView::Closed => (self, Refresh::Stop),
        }
    }
}

/// The reducer.
pub struct StateUpdater {
    app_state: ClippitGptAppShared,
    sender: tokio::sync::broadcast::Sender<DispatchActions>,
}

impl StateUpdater {
    /// The snapshot that the reducer owns.
    pub closed spec fn view(&self) -> SnapshotView {
        self.app_state@
    }

    /// The end of the bus that the reducer was given and subscribes
    /// through.
    pub closed spec fn bus(&self) -> tokio::sync::broadcast::Sender<DispatchActions> {
        self.sender
    }

    /// Makes the reducer of `app_state`, fed by the bus that `sender`
    /// publishes on.
    pub fn new(
        app_state: ClippitGptAppShared,
        sender: tokio::sync::broadcast::Sender<DispatchActions>,
    ) -> (updater: Self)
        ensures
            updater@ == app_state@,
            updater.bus() == sender,
    {
        StateUpdater { app_state, sender }
    }

    /// Subscribes the reducer to the bus. The caller spawns the loop that
    /// waits on the subscription.
    pub fn start(&self) -> tokio::sync::broadcast::Receiver<DispatchActions> {
        subscribe(&self.sender)
    }

    /// Folds one delivery into the snapshot and says what the loop does
    /// next.
    pub fn handle(&mut self, received: Received) -> (next: Refresh)
        ensures
            (final(self)@, next) == old(self)@.receive(received@),
            final(self).bus() == old(self).bus(),
    {
        match received {
            Received::Event(event) => {
                self.app_state.apply(event);
                Refresh::Repaint
            },
            Received::Empty => Refresh::Resume,
            Received::Lagged(_) => Refresh::Resume,
            Received::Closed => Refresh::Stop,
        }
    }

    /// The snapshot, to be read in place.
    pub fn state(&self) -> (state: &ClippitGptAppShared)
        ensures
            state@ == self@,
    {
        &self.app_state
    }

    /// A copy of the snapshot for the render path.
    pub fn snapshot(&self) -> (copy: ClippitGptAppShared)
        ensures
            copy@ == self@,
    {
        self.app_state.clone()
    }
}

} // verus!
