//! What holds of the scheduler, whatever the bus delivers and whatever is
//! drawn.

use crate::actions::EventView;
use crate::animation::models::{
    lemma_tiling_cells_make_up_the_side, AnimationServiceMode, CatalogView,
};
use crate::animation::service::{
    lemma_cell_lies_in_grid, lemma_pick_is_in_pool, PlaybackView, ServiceView, TickView,
};
use crate::bus::ReceivedView;
use vstd::prelude::*;

verus! {

/// What one pass is given: the mode that the bus forced, if any, and the
/// random draw.
pub struct PassInput {
    pub forced: Option<AnimationServiceMode>,
    pub draw: nat,
}

impl PlaybackView {
    /// The state after a run of passes, one for each input in order.
    pub open spec fn run(self, catalog: CatalogView, inputs: Seq<PassInput>) -> PlaybackView
        decreases inputs.len(),
    {
        if inputs.len() == 0 {
            self
        } else {
            self.run(catalog, inputs.drop_last()).step(
                catalog,
                inputs.last().forced,
                inputs.last().draw,
            ).0
        }
    }

    /// The state is in step and, if a clip plays, the clip is one of the
    /// pool of the current mode and at least one of its frames was shown.
    pub open spec fn settled(self, catalog: CatalogView) -> bool {
        &&& self.in_step()
        &&& self.current_clip matches Some(clip) ==> {
            &&& catalog.pool(self.mode).contains(clip)
            &&& 1 <= self.frame_index <= clip.frames.len()
        }
    }
}

impl ServiceView {
    /// How many loops `calls` calls of `start` in a row ask for.
    pub open spec fn loops_spawned(self, calls: nat) -> nat
        decreases calls,
    {
        if calls == 0 {
            0
        } else {
            let (started, spawn) = self.start();
            started.loops_spawned((calls - 1) as nat) + if spawn {
                1nat
            } else {
                0nat
            }
        }
    }
}

/// A pass keeps a playable catalog's playback state settled: the position
/// never passes the end of the clip by more than one, and a frame is only
/// ever read at a position inside the clip.
pub proof fn lemma_pass_keeps_settled(
    state: PlaybackView,
    catalog: CatalogView,
    forced: Option<AnimationServiceMode>,
    draw: nat,
)
    requires
        catalog.playable(),
        state.settled(catalog) || state == PlaybackView::initial(),
    ensures
        state.step(catalog, forced, draw).0.settled(catalog),
        state.step(catalog, forced, draw).1 is Frame ==> {
            let shown = state.step(catalog, forced, draw).0;
            &&& shown.current_clip is Some
            &&& shown.frame_index - 1 < shown.current_clip.unwrap().frames.len()
            &&& shown.current_frame == Some(
                shown.current_clip.unwrap().frames[shown.frame_index - 1],
            )
        },
{
    if forced is None && state.current_clip is None {
        lemma_pick_is_in_pool(state, catalog, draw);
    }
}

/// Every state that the scheduler can reach from its initial state with a
/// playable catalog is settled, whatever the bus delivered and whatever was
/// drawn: a clip that plays holds a frame, and the position either is that
/// of a frame of the clip or stands one past the last frame. It stands
/// there from the pass that showed the last frame until the next pass,
/// which drops the clip before it reads anything.
pub proof fn lemma_reachable_states_are_settled(catalog: CatalogView, inputs: Seq<PassInput>)
    requires
        catalog.playable(),
    ensures
        inputs.len() > 0 ==> PlaybackView::initial().run(catalog, inputs).settled(catalog),
        PlaybackView::initial().run(catalog, inputs).in_step(),
        ({
            let state = PlaybackView::initial().run(catalog, inputs);
            state.current_clip matches Some(clip) ==> state.frame_index < clip.frames.len()
                || state.exhausted() && state.frame_index == clip.frames.len()
        }),
    decreases inputs.len(),
{
    if inputs.len() > 0 {
        let before = inputs.drop_last();
        lemma_reachable_states_are_settled(catalog, before);
        let state = PlaybackView::initial().run(catalog, before);
        if before.len() == 0 {
            assert(state == PlaybackView::initial());
        }
        lemma_pass_keeps_settled(state, catalog, inputs.last().forced, inputs.last().draw);
    }
}

/// Without a forced mode the loop never spins: a pass either shows a frame,
/// after which the loop sleeps, or finds the clip used up, and then the
/// pass that follows picks a clip and shows its first frame.
pub proof fn lemma_frame_within_two_passes(
    state: PlaybackView,
    catalog: CatalogView,
    first_draw: nat,
    second_draw: nat,
)
    requires
        catalog.playable(),
    ensures
        ({
            let (after, tick) = state.step(catalog, None, first_draw);
            let (then, next) = after.step(catalog, None, second_draw);
            ||| tick is Frame
            ||| {
                &&& tick is ClipFinished
                &&& next matches TickView::Frame { started, .. }
                &&& started == Some(after.pick(catalog, second_draw).name)
                &&& then.frame_index == 1
            }
        }),
{
    let after = state.step(catalog, None, first_draw).0;
    lemma_pick_is_in_pool(state, catalog, first_draw);
    lemma_pick_is_in_pool(after, catalog, second_draw);
}

/// A clip whose frames were all shown is dropped by the next pass before
/// any frame is read, unless the bus forces a mode, which drops it too.
pub proof fn lemma_used_up_clip_is_dropped(
    state: PlaybackView,
    catalog: CatalogView,
    forced: Option<AnimationServiceMode>,
    draw: nat,
)
    requires
        state.exhausted(),
    ensures
        state.step(catalog, forced, draw).0.current_clip is None,
        !(state.step(catalog, forced, draw).1 is Frame),
{
}

/// A forced mode makes the very next pass drop the clip, however many of
/// its frames remain; no frame is shown and no clip is picked in that pass.
pub proof fn lemma_forced_mode_preempts_clip(
    state: PlaybackView,
    catalog: CatalogView,
    mode: AnimationServiceMode,
    draw: nat,
)
    ensures
        state.step(catalog, Some(mode), draw).0.current_clip is None,
        state.step(catalog, Some(mode), draw).0.mode == mode,
        state.step(catalog, Some(mode), draw).1 == TickView::ModeChanged(mode),
{
}

/// A question on the bus makes the very next pass of the scheduler drop the
/// clip and turn active; an answer makes it drop the clip and turn idle.
pub proof fn lemma_question_and_answer_preempt_clip(
    service: ServiceView,
    event: EventView,
    draw: nat,
)
    requires
        event is AskQuestion || event is RespondToQuestion,
    ensures
        ({
            let after = service.pass(ReceivedView::Event(event).forced_mode(), draw).0;
            &&& after.playback.current_clip is None
            &&& after.playback.mode == if event is AskQuestion {
                AnimationServiceMode::Active
            } else {
                AnimationServiceMode::Idle
            }
        }),
{
}

/// Every clip of a pool can be picked: the draw that equals its position
/// picks it, and so does every draw that leaves its position as remainder.
pub proof fn lemma_every_clip_can_be_picked(
    state: PlaybackView,
    catalog: CatalogView,
    at: nat,
    rounds: nat,
)
    requires
        at < catalog.pool(state.mode).len(),
    ensures
        state.pick(catalog, rounds * catalog.pool(state.mode).len() + at) == catalog.pool(
            state.mode,
        )[at as int],
{
    let size = catalog.pool(state.mode).len();
    assert((rounds * size + at) % size == at) by (nonlinear_arith)
        requires
            at < size,
    ;
}

/// The number of values that a draw can take.
pub open spec fn draw_range() -> nat {
    0x1_0000_0000
}

/// How many of the values of a draw pick the clip at `at` of a pool of
/// `size` clips: those that leave `at` as remainder.
pub open spec fn draws_picking(size: nat, at: nat) -> nat {
    if at < draw_range() {
        ((draw_range() - 1 - at) / size as int + 1) as nat
    } else {
        0
    }
}

/// The remainder rule shares the values of a draw evenly among the clips of
/// a pool: the values that pick the clip at `at` are `at`, `size + at`,
/// `2 * size + at` and so on, `draws_picking(size, at)` of them, and these
/// counts differ by at most one between any two clips.
pub proof fn lemma_draws_are_shared_evenly(size: nat, at: nat, other: nat, round: nat, draw: nat)
    requires
        size > 0,
        at < size,
        other < size,
    ensures
        round < draws_picking(size, at) ==> round * size + at < draw_range() && (round * size
            + at) % size == at,
        draw < draw_range() ==> draw / size < draws_picking(size, draw % size) && draw == (draw
            / size) * size + draw % size,
        draws_picking(size, at) <= draws_picking(size, other) + 1,
{
    let range = draw_range() as int;
    let size = size as int;
    if at < range {
        let most = (range - 1 - at) / size;
        assert(most * size <= range - 1 - at < most * size + size) by (nonlinear_arith)
            requires
                size > 0,
                most == (range - 1 - at) / size,
                range - 1 - at >= 0,
        ;
        if round <= most {
            assert(round * size + at < range) by (nonlinear_arith)
                requires
                    0 <= round <= most,
                    most * size <= range - 1 - at,
                    size > 0,
            ;
        }
        if other < range {
            let fewest = (range - 1 - other) / size;
            assert(fewest * size <= range - 1 - other < fewest * size + size) by (nonlinear_arith)
                requires
                    size > 0,
                    fewest == (range - 1 - other) / size,
                    range - 1 - other >= 0,
            ;
            assert(most <= fewest + 1) by (nonlinear_arith)
                requires
                    most * size <= range - 1 - at,
                    range - 1 - other < fewest * size + size,
                    0 <= at < size,
                    0 <= other < size,
            ;
        } else {
            assert(most <= 0) by (nonlinear_arith)
                requires
                    most * size <= range - 1 - at,
                    range - 1 - at < size,
                    size > 0,
            ;
        }
    }
    assert((round * size + at) % size == at) by (nonlinear_arith)
        requires
            size > 0,
            0 <= at < size,
            round >= 0,
    ;
    if draw < range {
        let rounds = draw as int / size;
        let rest = draw as int % size;
        assert(draw == rounds * size + rest && 0 <= rest < size && rounds >= 0)
            by (nonlinear_arith)
            requires
                size > 0,
                draw >= 0,
                rounds == draw as int / size,
                rest == draw as int % size,
        ;
        let most = (range - 1 - rest) / size;
        assert(rounds <= most) by (nonlinear_arith)
            requires
                size > 0,
                rounds * size <= range - 1 - rest,
                most == (range - 1 - rest) / size,
        ;
    }
}

/// A cell inside the grid lies on the sheet: with cells of
/// `texture / cells` pixels, the cell at `at` ends no later than the sheet
/// does, and the last cell of a grid that tiles the sheet ends where the
/// sheet does.
pub proof fn lemma_cell_lies_on_sheet(texture: nat, cells: nat, at: nat)
    requires
        at < cells,
    ensures
        at * (texture / cells) + texture / cells <= texture,
        texture % cells == 0 && at == cells - 1 ==> at * (texture / cells) + texture / cells
            == texture,
{
    let size = texture / cells;
    assert(cells * size <= texture) by (nonlinear_arith)
        requires
            cells > 0,
            size == texture / cells,
    ;
    lemma_cell_lies_in_grid(cells, size, at);
    if texture % cells == 0 && at == cells - 1 {
        lemma_tiling_cells_make_up_the_side(texture, cells);
        assert(at * size + size == cells * size) by (nonlinear_arith)
            requires
                at == cells - 1,
        ;
    }
}

/// Only the first of any number of calls of `start` asks for a loop: two
/// calls spawn as many loops as one, and the second changes nothing.
pub proof fn lemma_start_is_idempotent(service: ServiceView, calls: nat)
    requires
        calls >= 1,
    ensures
        service.loops_spawned(calls) == service.loops_spawned(1),
        service.loops_spawned(1) == (if service.running {
            0nat
        } else {
            1nat
        }),
        service.start().0.start() == (service.start().0, false),
    decreases calls,
{
    let started = service.start().0;
    assert(started.loops_spawned(0) == 0);
    if calls > 1 {
        lemma_start_is_idempotent(started, (calls - 1) as nat);
        assert(started.loops_spawned(1) == 0);
    }
    assert(service.loops_spawned(1) == started.loops_spawned(0) + if service.start().1 {
        1nat
    } else {
        0nat
    });
}

} // verus!
