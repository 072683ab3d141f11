//! The scheduler: the playback state and the rules that move it.
//!
//! One pass of the scheduler looks at what the bus delivered, then either
//! follows a forced change of mode, or picks a clip if none plays, and then
//! either finds the clip used up or makes its next frame current. The
//! program that embeds the library repeats the pass for ever; after a pass
//! that made a frame current it announces the frame and sleeps for the
//! frame's duration.

use crate::actions::{DispatchActions, EventView};
use crate::animation::models::{
    lemma_tiling_cells_make_up_the_side, AnimationConfig, AnimationFrame, AnimationInfo,
    AnimationServiceMode, AnimationSets, CatalogView, ClipView, ConfigError, ConfigView,
    FrameInfo,
};
use crate::bus::{poll, publish, subscribe, Received};
use vstd::prelude::*;

verus! {

/// What the scheduler currently plays.
#[derive(Debug, PartialEq, Eq)]
pub struct AnimationState {
    current_animation: Option<AnimationInfo>,
    current_frame_index: usize,
    current_frame_info: Option<AnimationFrame>,
    mode: AnimationServiceMode,
}

/// What a playback state is.
pub struct PlaybackView {
    /// The pool that clips are picked from.
    pub mode: AnimationServiceMode,
    /// The clip that plays, if one has been picked.
    pub current_clip: Option<ClipView>,
    /// The position in the clip of the frame that comes next.
    pub frame_index: nat,
    /// The frame that was made current last.
    pub current_frame: Option<AnimationFrame>,
}

/// What one pass of the scheduler came to.
#[derive(Debug, PartialEq, Eq)]
pub enum Tick {
    /// The bus forced this mode. The clip was dropped; the next pass follows
    /// at once.
    ModeChanged(AnimationServiceMode),
    /// The clip was used up and dropped; the next pass follows at once.
    ClipFinished,
    /// A frame became current, to be announced and shown for `duration`
    /// milliseconds. `started` names the clip if this pass picked it.
    Frame { started: Option<String>, duration: usize },
}

/// What a pass outcome is.
pub enum TickView {
    ModeChanged(AnimationServiceMode),
    ClipFinished,
    Frame { started: Option<Seq<char>>, duration: usize },
}

impl View for Tick {
    type V = TickView;

    open spec fn view(&self) -> TickView {
        match self {
            Tick::ModeChanged(mode) => TickView::ModeChanged(*mode),
            Tick::ClipFinished => TickView::ClipFinished,
            Tick::Frame { started, duration } => TickView::Frame {
                started: match started {
                    Some(name) => Some(name@),
                    None => None,
                },
                duration: *duration,
            },
        }
    }
}

impl TickView {
    /// What the loop does after the pass, once it has let go of the
    /// scheduler: after a frame became current it announces the frame and
    /// sleeps for the frame's duration, in milliseconds; after any other
    /// pass it goes on at once.
    pub open spec fn follow_up(self) -> Option<(EventView, u64)> {
        match self {
            TickView::Frame { duration, .. } => Some(
                (EventView::NewFrameToRender, duration as u64),
            ),
            _ => None,
        }
    }
}

impl TickView {
    /// The event that the pass hands to the bus: the start of the clip that
    /// it picked, if it picked one.
    pub open spec fn announcement(self) -> Option<EventView> {
        match self {
            TickView::Frame { started: Some(name), .. } => Some(
                EventView::NewAnimationStarted(name),
            ),
            _ => None,
        }
    }
}

impl Tick {
    /// The event that the pass hands to the bus.
    pub fn announcement(&self) -> (event: Option<DispatchActions>)
        ensures
            match event {
                Some(event) => self@.announcement() == Some(event@),
                None => self@.announcement() is None,
            },
    {
        match self {
            Tick::Frame { started: Some(name), .. } => Some(
                DispatchActions::NewAnimationStarted(name.clone()),
            ),
            _ => None,
        }
    }

    /// What the loop does after the pass: the event to publish and the
    /// milliseconds to sleep, or nothing if the next pass follows at once.
    pub fn follow_up(&self) -> (next: Option<(DispatchActions, u64)>)
        ensures
            match next {
                Some((event, millis)) => self@.follow_up() == Some((event@, millis)),
                None => self@.follow_up() is None,
            },
    {
        match self {
            Tick::Frame { duration, .. } => Some(
                (DispatchActions::NewFrameToRender, *duration as u64),
            ),
            _ => None,
        }
    }
}

impl PlaybackView {
    /// The state before the first pass: idle, with nothing picked or shown.
    pub open spec fn initial() -> PlaybackView {
        PlaybackView {
            mode: AnimationServiceMode::Idle,
            current_clip: None,
            frame_index: 0,
            current_frame: None,
        }
    }

    /// The state is in step: a clip that plays has a frame, and the position
    /// is at most one past its last frame.
    pub open spec fn in_step(self) -> bool {
        self.current_clip matches Some(clip) ==> clip.frames.len() > 0 && self.frame_index
            <= clip.frames.len()
    }

    /// The state after a forced change of mode: the clip is dropped, however
    /// many of its frames remain.
    pub open spec fn force(self, mode: AnimationServiceMode) -> PlaybackView {
        PlaybackView { mode, current_clip: None, ..self }
    }

    /// The clip that `draw` picks from the pool of the current mode.
    pub open spec fn pick(self, catalog: CatalogView, draw: nat) -> ClipView {
        let pool = catalog.pool(self.mode);
        pool[(draw % pool.len()) as int]
    }

    /// The state after `draw` picked a clip: the clip plays from its start.
    pub open spec fn select(self, catalog: CatalogView, draw: nat) -> PlaybackView {
        PlaybackView { current_clip: Some(self.pick(catalog, draw)), frame_index: 0, ..self }
    }

    /// Why no clip can be picked for the current mode with `draw`: the pool
    /// holds no clip, or the clip that the draw picks holds no frame.
    pub open spec fn selection_fault(self, catalog: CatalogView, draw: nat) -> Option<
        ConfigError,
    > {
        let pool = catalog.pool(self.mode);
        if pool.len() == 0 {
            Some(
                match self.mode {
                    AnimationServiceMode::Idle => ConfigError::NoIdleClips,
                    AnimationServiceMode::Active => ConfigError::NoActiveClips,
                },
            )
        } else if self.pick(catalog, draw).frames.len() == 0 {
            let at = (draw % pool.len()) as usize;
            Some(
                match self.mode {
                    AnimationServiceMode::Idle => ConfigError::EmptyIdleClip(at),
                    AnimationServiceMode::Active => ConfigError::EmptyActiveClip(at),
                },
            )
        } else {
            None
        }
    }

    /// Why a pass cannot be made: it would have to pick a clip, and none
    /// can be picked.
    pub open spec fn fault(
        self,
        catalog: CatalogView,
        forced: Option<AnimationServiceMode>,
        draw: nat,
    ) -> Option<ConfigError> {
        if forced is None && self.current_clip is None {
            self.selection_fault(catalog, draw)
        } else {
            None
        }
    }

    /// Whether the position has run past the last frame of the clip.
    pub open spec fn exhausted(self) -> bool {
        self.current_clip matches Some(clip) && self.frame_index >= clip.frames.len()
    }

    /// The frame that comes next.
    pub open spec fn next_frame(self) -> AnimationFrame {
        self.current_clip.unwrap().frames[self.frame_index as int]
    }

    /// The state after the clip was found used up: it is dropped.
    pub open spec fn finish(self) -> PlaybackView {
        PlaybackView { current_clip: None, ..self }
    }

    /// The state after the next frame became current.
    pub open spec fn show(self) -> PlaybackView {
        PlaybackView {
            current_frame: Some(self.next_frame()),
            frame_index: self.frame_index + 1,
            ..self
        }
    }

    /// One pass of the scheduler: the state after it, and what it came to.
    ///
    /// A forced mode is followed first and ends the pass. Otherwise a clip
    /// is picked if none plays; then the clip is either found used up and
    /// dropped, or its next frame becomes current.
    pub open spec fn step(
        self,
        catalog: CatalogView,
        forced: Option<AnimationServiceMode>,
        draw: nat,
    ) -> (PlaybackView, TickView) {
        match forced {
            Some(mode) => (self.force(mode), TickView::ModeChanged(mode)),
            None => {
                let picked = self.current_clip is None;
                let playing = if picked {
                    self.select(catalog, draw)
                } else {
                    self
                };
                if playing.exhausted() {
                    (playing.finish(), TickView::ClipFinished)
                } else {
                    (
                        playing.show(),
                        TickView::Frame {
                            started: if picked {
                                Some(playing.current_clip.unwrap().name)
                            } else {
                                None
                            },
                            duration: playing.next_frame().duration,
                        },
                    )
                }
            },
        }
    }
}

/// The clip that a draw picks is one of the pool of the current mode, and
/// it holds a frame.
pub proof fn lemma_pick_is_in_pool(state: PlaybackView, catalog: CatalogView, draw: nat)
    requires
        catalog.playable(),
    ensures
        catalog.pool(state.mode).contains(state.pick(catalog, draw)),
        state.pick(catalog, draw).frames.len() > 0,
{
    let pool = catalog.pool(state.mode);
    let at = (draw % pool.len()) as int;
    assert(0 <= at < pool.len()) by (nonlinear_arith)
        requires
            pool.len() > 0,
            at == (draw % pool.len()) as int,
    ;
    assert(pool[at] == state.pick(catalog, draw));
}

/// With a playable catalog every pass can be made.
pub proof fn lemma_playable_catalog_has_no_fault(
    state: PlaybackView,
    catalog: CatalogView,
    forced: Option<AnimationServiceMode>,
    draw: nat,
)
    requires
        catalog.playable(),
    ensures
        state.fault(catalog, forced, draw) is None,
{
    lemma_pick_is_in_pool(state, catalog, draw);
}

impl AnimationState {
    /// The playback state as a plain value.
    pub closed spec fn view(&self) -> PlaybackView {
        PlaybackView {
            mode: self.mode,
            current_clip: match self.current_animation {
                Some(clip) => Some(clip@),
                None => None,
            },
            frame_index: self.current_frame_index as nat,
            current_frame: self.current_frame_info,
        }
    }

    /// The state before the first pass.
    pub fn new() -> (state: Self)
        ensures
            state@ == PlaybackView::initial(),
    {
        AnimationState {
            current_animation: None,
            mode: AnimationServiceMode::Idle,
            current_frame_index: 0,
            current_frame_info: None,
        }
    }

    /// The pool that clips are picked from.
    pub fn mode(&self) -> (mode: AnimationServiceMode)
        ensures
            mode == self@.mode,
    {
        self.mode
    }

    /// The position in the clip of the frame that comes next.
    pub fn frame_index(&self) -> (index: usize)
        ensures
            index == self@.frame_index,
    {
        self.current_frame_index
    }

    /// The frame that was made current last.
    pub fn current_frame(&self) -> (frame: Option<AnimationFrame>)
        ensures
            frame == self@.current_frame,
    {
        self.current_frame_info
    }

    /// The clip that plays, if one has been picked.
    pub fn current_clip(&self) -> (clip: Option<&AnimationInfo>)
        ensures
            match clip {
                Some(clip) => self@.current_clip == Some(clip@),
                None => self@.current_clip is None,
            },
    {
        self.current_animation.as_ref()
    }

    /// Follows a forced change of mode.
    pub fn force_mode(&mut self, mode: AnimationServiceMode)
        ensures
            final(self)@ == old(self)@.force(mode),
    {
        self.mode = mode;
        self.current_animation = None;
    }

    /// Picks the clip that `draw` selects from the pool of the current mode
    /// and returns its name. Nothing is picked from an empty pool, nor is a
    /// clip without frames.
    fn select_clip(&mut self, catalog: &AnimationSets, draw: u32) -> (picked: Result<
        String,
        ConfigError,
    >)
        ensures
            match picked {
                Ok(name) => {
                    &&& old(self)@.selection_fault(catalog@, draw as nat) is None
                    &&& final(self)@ == old(self)@.select(catalog@, draw as nat)
                    &&& name@ == old(self)@.pick(catalog@, draw as nat).name
                },
                Err(error) => {
                    &&& old(self)@.selection_fault(catalog@, draw as nat) == Some(error)
                    &&& final(self)@ == old(self)@
                },
            },
    {
        let pool = match self.mode {
            AnimationServiceMode::Idle => &catalog.idle,
            AnimationServiceMode::Active => &catalog.action,
        };
        if pool.len() == 0 {
            return Err(
                match self.mode {
                    AnimationServiceMode::Idle => ConfigError::NoIdleClips,
                    AnimationServiceMode::Active => ConfigError::NoActiveClips,
                },
            );
        }
        let at: usize = (draw as usize) % pool.len();
        if pool[at].frames.len() == 0 {
            return Err(
                match self.mode {
                    AnimationServiceMode::Idle => ConfigError::EmptyIdleClip(at),
                    AnimationServiceMode::Active => ConfigError::EmptyActiveClip(at),
                },
            );
        }
        let clip = pool[at].clone();
        let name = clip.name.clone();
        self.current_animation = Some(clip);
        self.current_frame_index = 0;
        Ok(name)
    }

    /// Makes the next frame of the clip current and returns its duration,
    /// or drops the clip and returns nothing if it is used up.
    fn advance(&mut self) -> (duration: Option<usize>)
        requires
            old(self)@.current_clip is Some,
        ensures
            match duration {
                Some(duration) => !old(self)@.exhausted() && final(self)@ == old(self)@.show()
                    && duration == old(self)@.next_frame().duration,
                None => old(self)@.exhausted() && final(self)@ == old(self)@.finish(),
            },
    {
        let frame = match &self.current_animation {
            Some(clip) => if self.current_frame_index < clip.frames.len() {
                Some(clip.frames[self.current_frame_index])
            } else {
                None
            },
            None => None,
        };
        match frame {
            Some(frame) => {
                self.current_frame_info = Some(frame);
                self.current_frame_index = self.current_frame_index + 1;
                Some(frame.duration)
            },
            None => {
                self.current_animation = None;
                None
            },
        }
    }

    /// One pass of the scheduler over the playback state. A pass that would
    /// have to pick a clip where none can be picked changes nothing and
    /// reports why.
    pub fn step(
        &mut self,
        catalog: &AnimationSets,
        forced: Option<AnimationServiceMode>,
        draw: u32,
    ) -> (made: Result<Tick, ConfigError>)
        ensures
            match made {
                Ok(tick) => {
                    &&& old(self)@.fault(catalog@, forced, draw as nat) is None
                    &&& (final(self)@, tick@) == old(self)@.step(catalog@, forced, draw as nat)
                    &&& final(self)@.in_step()
                },
                Err(error) => {
                    &&& old(self)@.fault(catalog@, forced, draw as nat) == Some(error)
                    &&& final(self)@ == old(self)@
                },
            },
    {
        if let Some(mode) = forced {
            self.force_mode(mode);
            return Ok(Tick::ModeChanged(mode));
        }
        let started = if self.current_animation.is_none() {
            match self.select_clip(catalog, draw) {
                Ok(name) => Some(name),
                Err(error) => {
                    return Err(error);
                },
            }
        } else {
            None
        };
        match self.advance() {
            Some(duration) => Ok(Tick::Frame { started, duration }),
            None => Ok(Tick::ClipFinished),
        }
    }
}

/// The scheduler of one animated character.
pub struct AnimationService {
    animation_config: AnimationConfig,
    sndr: tokio::sync::broadcast::Sender<DispatchActions>,
    state: AnimationState,
    sprite_height: usize,
    sprite_width: usize,
    should_run: bool,
}

/// What a scheduler is, apart from its end of the bus.
pub struct ServiceView {
    /// The configuration it was made with.
    pub config: ConfigView,
    /// What it currently plays.
    pub playback: PlaybackView,
    /// The width of one cell of the sprite sheet, in pixels.
    pub sprite_width: usize,
    /// The height of one cell of the sprite sheet, in pixels.
    pub sprite_height: usize,
    /// Whether its loop has been started.
    pub running: bool,
}

impl ServiceView {
    /// The grid of cells fits a sheet: the columns side by side and the
    /// rows on top of each other stay within `usize`.
    pub open spec fn on_sheet(self) -> bool {
        &&& self.config.sprite_sheet_info.columns * self.sprite_width <= usize::MAX
        &&& self.config.sprite_sheet_info.rows * self.sprite_height <= usize::MAX
    }

    /// The configuration can be played, the grid fits a sheet and the
    /// playback state is in step.
    pub open spec fn wf(self) -> bool {
        self.config.valid() && self.on_sheet() && self.playback.in_step()
    }

    /// Whether the cell on show is one of the grid.
    pub open spec fn cell_in_grid(self) -> bool {
        &&& self.cell().column < self.config.sprite_sheet_info.columns
        &&& self.cell().row < self.config.sprite_sheet_info.rows
    }

    /// The scheduler after a call of `start`, and whether the call asks for
    /// a loop to be spawned: only the first one does.
    pub open spec fn start(self) -> (ServiceView, bool) {
        (ServiceView { running: true, ..self }, !self.running)
    }

    /// The scheduler after a pass that saw `forced` on the bus and drew
    /// `draw`, and what the pass came to.
    pub open spec fn pass(self, forced: Option<AnimationServiceMode>, draw: nat) -> (
        ServiceView,
        TickView,
    ) {
        let (playback, tick) = self.playback.step(self.config.animations, forced, draw);
        (ServiceView { playback, ..self }, tick)
    }

    /// The cell of the sprite sheet that is on show: that of the current
    /// frame, and the first cell before any frame became current.
    pub open spec fn cell(self) -> FrameInfo {
        match self.playback.current_frame {
            Some(frame) => frame.info,
            None => FrameInfo { column: 0, row: 0 },
        }
    }
}

/// The part of the sprite sheet that shows one cell, in pixels from the top
/// left corner of the sheet.
#[derive(Clone, Copy, Debug, PartialEq, Eq, Structural)]
pub struct SpriteRect {
    pub x: usize,
    pub y: usize,
    pub width: usize,
    pub height: usize,
}

/// The margin, in pixels, that the window on a cell leaves off its width
/// and its height.
pub const WINDOW_MARGIN: usize = 5;

impl SpriteRect {
    /// The width and height of the window through which the cell is shown:
    /// those of the cell less the margin. A cell that is smaller than the
    /// margin has no window.
    pub fn window(&self) -> (size: Option<(usize, usize)>)
        ensures
            match size {
                Some((width, height)) => width == self.width - WINDOW_MARGIN && height
                    == self.height - WINDOW_MARGIN,
                None => self.width < WINDOW_MARGIN || self.height < WINDOW_MARGIN,
            },
    {
        if self.width < WINDOW_MARGIN || self.height < WINDOW_MARGIN {
            None
        } else {
            Some((self.width - WINDOW_MARGIN, self.height - WINDOW_MARGIN))
        }
    }
}

/// The cell at `at` of `cells` cells of `size` pixels each ends no later
/// than the last of them does.
pub proof fn lemma_cell_lies_in_grid(cells: nat, size: nat, at: nat)
    requires
        at < cells,
    ensures
        at * size + size <= cells * size,
{
    assert(at * size + size <= cells * size) by (nonlinear_arith)
        requires
            at < cells,
    ;
}

/// Calls `rand::thread_rng` and draws one `u32` from it with
/// `rand::Rng::gen`. Every value may come back. The generator is seeded by
/// the operating system when a thread first uses it and again from time to
/// time, and the call does not return if the operating system gives it no
/// seed.
#[verifier::external_body]
fn draw_u32() -> u32 {
    rand::Rng::gen::<u32>(&mut rand::thread_rng())
}

impl AnimationService {
    /// A scheduler only ever holds a configuration that can be played and
    /// cells whose grid fits a sheet.
    #[verifier::type_invariant]
    spec fn playable(&self) -> bool {
        &&& self.animation_config@.valid()
        &&& self.animation_config.sprite_sheet_info.columns * self.sprite_width <= usize::MAX
        &&& self.animation_config.sprite_sheet_info.rows * self.sprite_height <= usize::MAX
    }

    /// The scheduler as a plain value.
    pub closed spec fn view(&self) -> ServiceView {
        ServiceView {
            config: self.animation_config@,
            playback: self.state@,
            sprite_width: self.sprite_width,
            sprite_height: self.sprite_height,
            running: self.should_run,
        }
    }

    /// The end of the bus that the scheduler was given, subscribes through
    /// and publishes on.
    pub closed spec fn bus(&self) -> tokio::sync::broadcast::Sender<DispatchActions> {
        self.sndr
    }

    /// Makes the scheduler of a character whose sprite sheet measures
    /// `texture_width` by `texture_height` pixels. A configuration that
    /// cannot be played, or whose grid does not tile the sheet, is refused
    /// with its first fault.
    pub fn new(
        config: AnimationConfig,
        texture_width: usize,
        texture_height: usize,
        sndr: tokio::sync::broadcast::Sender<DispatchActions>,
    ) -> (made: Result<Self, ConfigError>)
        ensures
            match made {
                Ok(service) => {
                    &&& config@.tiles(texture_width as nat, texture_height as nat)
                    &&& service@ == (ServiceView {
                        config: config@,
                        playback: PlaybackView::initial(),
                        sprite_width: (texture_width / config.sprite_sheet_info.columns) as usize,
                        sprite_height: (texture_height / config.sprite_sheet_info.rows) as usize,
                        running: false,
                    })
                    &&& config.sprite_sheet_info.columns * service@.sprite_width == texture_width
                    &&& config.sprite_sheet_info.rows * service@.sprite_height == texture_height
                    &&& service@.wf()
                    &&& service.bus() == sndr
                },
                Err(error) => {
                    &&& config@.faulty_on(texture_width as nat, texture_height as nat, error)
                    &&& !config@.tiles(texture_width as nat, texture_height as nat)
                },
            },
    {
        match config.validate_on(texture_width, texture_height) {
            Ok(_) => {},
            Err(error) => {
                return Err(error);
            },
        }
        let width: usize = texture_width / config.sprite_sheet_info.columns;
        let height: usize = texture_height / config.sprite_sheet_info.rows;
        proof {
            lemma_tiling_cells_make_up_the_side(
                texture_width as nat,
                config.sprite_sheet_info.columns as nat,
            );
            lemma_tiling_cells_make_up_the_side(
                texture_height as nat,
                config.sprite_sheet_info.rows as nat,
            );
        }
        Ok(
            AnimationService {
                animation_config: config,
                sndr,
                sprite_width: width,
                sprite_height: height,
                should_run: false,
                state: AnimationState::new(),
            },
        )
    }

    /// Marks the loop as started. The first call subscribes to the bus and
    /// hands the subscription to the caller, who spawns the loop with it.
    /// Every later call does nothing and hands out nothing.
    pub fn start(
        &mut self,
    ) -> (subscription: Option<tokio::sync::broadcast::Receiver<DispatchActions>>)
        ensures
            final(self)@ == old(self)@.start().0,
            final(self).bus() == old(self).bus(),
            subscription is Some == old(self)@.start().1,
    {
        if self.should_run {
            return None;
        }
        proof {
            use_type_invariant(&*self);
        }
        self.should_run = true;
        Some(subscribe(&self.sndr))
    }

    /// Whether the loop has been started.
    pub fn is_running(&self) -> (running: bool)
        ensures
            running == self@.running,
    {
        self.should_run
    }

    /// What the scheduler currently plays.
    pub fn state(&self) -> (state: &AnimationState)
        ensures
            state@ == self@.playback,
    {
        &self.state
    }

    /// The configuration the scheduler was made with. It can be played.
    pub fn config(&self) -> (config: &AnimationConfig)
        ensures
            config@ == self@.config,
            config@.valid(),
    {
        proof {
            use_type_invariant(self);
        }
        &self.animation_config
    }

    /// The width of one cell of the sprite sheet, in pixels.
    pub fn sprite_width(&self) -> (width: usize)
        ensures
            width == self@.sprite_width,
    {
        self.sprite_width
    }

    /// The height of one cell of the sprite sheet, in pixels.
    pub fn sprite_height(&self) -> (height: usize)
        ensures
            height == self@.sprite_height,
    {
        self.sprite_height
    }

    /// One pass of the scheduler, given what the bus delivered and a random
    /// draw. A clip that the pass picked is announced on the bus.
    pub fn react(&mut self, received: &Received, draw: u32) -> (tick: Tick)
        ensures
            final(self)@.wf(),
            final(self).bus() == old(self).bus(),
            (final(self)@, tick@) == old(self)@.pass(received@.forced_mode(), draw as nat),
    {
        proof {
            use_type_invariant(&*self);
        }
        let forced = received.forced_mode();
        let mut state = AnimationState::new();
        core::mem::swap(&mut self.state, &mut state);
        let tick = match state.step(&self.animation_config.animations, forced, draw) {
            Ok(tick) => tick,
            Err(_) => {
                proof {
                    lemma_playable_catalog_has_no_fault(
                        state@,
                        self.animation_config@.animations,
                        forced,
                        draw as nat,
                    );
                }
                unreached()
            },
        };
        self.state = state;
        match tick.announcement() {
            Some(event) => {
                let _ = publish(&self.sndr, event);
            },
            None => {},
        }
        tick
    }

    /// One pass of the scheduler: polls the subscription for at most one
    /// event, draws a random number if a clip has to be picked, and reacts.
    /// Returns what the poll delivered and what the pass came to.
    pub fn tick(
        &mut self,
        receiver: &mut tokio::sync::broadcast::Receiver<DispatchActions>,
    ) -> (polled: (Received, Tick))
        ensures
            final(self)@.wf(),
            final(self).bus() == old(self).bus(),
            exists|draw: u32|
                (final(self)@, polled.1@) == #[trigger] old(self)@.pass(
                    polled.0@.forced_mode(),
                    draw as nat,
                ),
            polled.0 matches Received::Lagged(missed) ==> missed > 0,
    {
        let received = poll(receiver);
        let picks = received.forced_mode().is_none() && self.state.current_clip().is_none();
        let draw: u32 = if picks {
            draw_u32()
        } else {
            0
        };
        let tick = self.react(&received, draw);
        (received, tick)
    }

    /// Where on the sprite sheet the cell on show lies: the column and row
    /// of the current frame, or of the first cell before any frame became
    /// current, scaled by the size of a cell. A cell of the grid always has
    /// its place, and the place lies on the sheet. A cell beyond the grid
    /// has none if its place cannot be expressed in `usize`.
    pub fn render_animation(&self) -> (rect: Option<SpriteRect>)
        ensures
            self@.on_sheet(),
            match rect {
                Some(rect) => {
                    &&& rect.x == self@.cell().column * self@.sprite_width
                    &&& rect.y == self@.cell().row * self@.sprite_height
                    &&& rect.width == self@.sprite_width
                    &&& rect.height == self@.sprite_height
                },
                None => self@.cell().column * self@.sprite_width > usize::MAX || self@.cell().row
                    * self@.sprite_height > usize::MAX,
            },
            self@.cell_in_grid() ==> {
                &&& rect is Some
                &&& rect.unwrap().x + rect.unwrap().width
                    <= self@.config.sprite_sheet_info.columns * self@.sprite_width
                &&& rect.unwrap().y + rect.unwrap().height
                    <= self@.config.sprite_sheet_info.rows * self@.sprite_height
            },
    {
        proof {
            use_type_invariant(self);
        }
        let cell = match self.state.current_frame() {
            Some(frame) => frame.info,
            None => FrameInfo::default(),
        };
        proof {
            let grid = self.animation_config.sprite_sheet_info;
            if cell.column < grid.columns {
                lemma_cell_lies_in_grid(
                    grid.columns as nat,
                    self.sprite_width as nat,
                    cell.column as nat,
                );
            }
            if cell.row < grid.rows {
                lemma_cell_lies_in_grid(
                    grid.rows as nat,
                    self.sprite_height as nat,
                    cell.row as nat,
                );
            }
        }
        let x: usize = match cell.column.checked_mul(self.sprite_width) {
            Some(x) => x,
            None => {
                return None;
            },
        };
        let y: usize = match cell.row.checked_mul(self.sprite_height) {
            Some(y) => y,
            None => {
                return None;
            },
        };
        Some(SpriteRect { x, y, width: self.sprite_width, height: self.sprite_height })
    }
}

} // verus!
