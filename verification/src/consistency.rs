//! What the scheduler and the reducer agree on.
//!
//! Both follow the same bus, each through a subscription of its own. They
//! never share state, yet they derive the mode of the character from the
//! same events by the same rule, so they cannot drift apart.

use crate::animation::models::{AnimationServiceMode, CatalogView};
use crate::animation::laws::PassInput;
use crate::animation::service::PlaybackView;
use crate::app::SnapshotView;
use crate::bus::ReceivedView;
use vstd::prelude::*;

verus! {

/// One pass of the scheduler as the bus drives it: what the poll delivered
/// and what was drawn.
pub struct Delivery {
    pub received: ReceivedView,
    pub draw: nat,
}

/// What the passes are given when the bus drives them: the mode that each
/// delivery forces, and its draw.
pub open spec fn pass_inputs(deliveries: Seq<Delivery>) -> Seq<PassInput> {
    deliveries.map_values(
        |delivery: Delivery|
            PassInput { forced: delivery.received.forced_mode(), draw: delivery.draw },
    )
}

/// The playback state after one pass for each delivery, in order.
pub open spec fn played(start: PlaybackView, catalog: CatalogView, deliveries: Seq<Delivery>)
    -> PlaybackView {
    start.run(catalog, pass_inputs(deliveries))
}

/// The snapshot after each delivery was handed to the reducer, in order.
pub open spec fn reduced(start: SnapshotView, deliveries: Seq<Delivery>) -> SnapshotView
    decreases deliveries.len(),
{
    if deliveries.len() == 0 {
        start
    } else {
        reduced(start, deliveries.drop_last()).receive(deliveries.last().received).0
    }
}

/// A scheduler and a reducer that start in the same mode and are delivered
/// the same events end in the same mode, whatever else the deliveries hold,
/// whatever is drawn and whatever the catalog is.
pub proof fn lemma_scheduler_and_reducer_agree_on_mode(
    playback: PlaybackView,
    snapshot: SnapshotView,
    catalog: CatalogView,
    deliveries: Seq<Delivery>,
)
    requires
        playback.mode == snapshot.mode,
    ensures
        played(playback, catalog, deliveries).mode == reduced(snapshot, deliveries).mode,
    decreases deliveries.len(),
{
    if deliveries.len() > 0 {
        lemma_scheduler_and_reducer_agree_on_mode(
            playback,
            snapshot,
            catalog,
            deliveries.drop_last(),
        );
        assert(pass_inputs(deliveries).drop_last() =~= pass_inputs(deliveries.drop_last()));
    }
}

/// After the same deliveries the scheduler picks its clips from the active
/// pool exactly when the user interface shows the character as active.
pub proof fn lemma_pool_matches_what_is_shown(catalog: CatalogView, deliveries: Seq<Delivery>)
    ensures
        played(PlaybackView::initial(), catalog, deliveries).mode == AnimationServiceMode::Active
            <==> !reduced(SnapshotView::initial(), deliveries).accepts_input(),
{
    lemma_scheduler_and_reducer_agree_on_mode(
        PlaybackView::initial(),
        SnapshotView::initial(),
        catalog,
        deliveries,
    );
}

} // verus!
