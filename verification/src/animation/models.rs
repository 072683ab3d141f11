//! The animation catalog: frames, clips, pools and sprite sheet geometry.

use vstd::prelude::*;

verus! {

/// The cell of the sprite sheet that a frame shows.
#[derive(Clone, Copy, Debug, PartialEq, Eq, Structural)]
pub struct FrameInfo {
    pub column: usize,
    pub row: usize,
}

impl Default for FrameInfo {
    fn default() -> (frame: Self)
        ensures
            frame == (FrameInfo { column: 0, row: 0 }),
    {
        FrameInfo { column: 0, row: 0 }
    }
}

/// One sprite sheet cell together with the time, in milliseconds, for which
/// it stays on screen.
#[derive(Clone, Copy, Debug, PartialEq, Eq, Structural)]
pub struct AnimationFrame {
    pub duration: usize,
    pub info: FrameInfo,
}

impl Default for AnimationFrame {
    fn default() -> (frame: Self)
        ensures
            frame == (AnimationFrame { duration: 0, info: FrameInfo { column: 0, row: 0 } }),
    {
        AnimationFrame { duration: 0, info: FrameInfo { column: 0, row: 0 } }
    }
}

/// Which pool of clips the character currently plays from.
#[derive(Clone, Copy, Debug, PartialEq, Eq, Structural)]
pub enum AnimationServiceMode {
    Idle,
    Active,
}

impl Default for AnimationServiceMode {
    fn default() -> (mode: Self)
        ensures
            mode == AnimationServiceMode::Idle,
    {
        AnimationServiceMode::Idle
    }
}

/// A named clip: the frames of one animation, in playing order.
#[derive(Debug, PartialEq, Eq)]
pub struct AnimationInfo {
    pub name: String,
    pub frames: Vec<AnimationFrame>,
}

/// What a clip is: its name and its frames.
pub struct ClipView {
    pub name: Seq<char>,
    pub frames: Seq<AnimationFrame>,
}

impl View for AnimationInfo {
    type V = ClipView;

    open spec fn view(&self) -> ClipView {
        ClipView { name: self.name@, frames: self.frames@ }
    }
}

impl Clone for AnimationInfo {
    fn clone(&self) -> (copy: Self)
        ensures
            copy@ == self@,
    {
        AnimationInfo { name: self.name.clone(), frames: self.frames.clone() }
    }
}

/// The clips of a pool, each by its view.
pub open spec fn pool_view(pool: Seq<AnimationInfo>) -> Seq<ClipView> {
    pool.map_values(|clip: AnimationInfo| clip@)
}

/// `at` is the first clip of `pool` without a frame.
pub open spec fn first_empty_clip(pool: Seq<ClipView>, at: int) -> bool {
    &&& 0 <= at < pool.len()
    &&& pool[at].frames.len() == 0
    &&& forall|j: int| 0 <= j < at ==> (#[trigger] pool[j]).frames.len() > 0
}

/// No clip of `pool` is without a frame.
pub open spec fn no_empty_clip(pool: Seq<ClipView>) -> bool {
    forall|j: int| 0 <= j < pool.len() ==> (#[trigger] pool[j]).frames.len() > 0
}

/// The two pools of clips: one played at rest, one while a question is in
/// flight.
#[derive(Debug, PartialEq, Eq)]
pub struct AnimationSets {
    pub idle: Vec<AnimationInfo>,
    pub action: Vec<AnimationInfo>,
}

/// What a catalog is: its two pools.
pub struct CatalogView {
    pub idle: Seq<ClipView>,
    pub action: Seq<ClipView>,
}

impl CatalogView {
    /// The pool that is played in `mode`.
    pub open spec fn pool(self, mode: AnimationServiceMode) -> Seq<ClipView> {
        match mode {
            AnimationServiceMode::Idle => self.idle,
            AnimationServiceMode::Active => self.action,
        }
    }

    /// Both pools hold a clip, and every clip holds a frame.
    pub open spec fn playable(self) -> bool {
        &&& self.idle.len() > 0
        &&& self.action.len() > 0
        &&& no_empty_clip(self.idle)
        &&& no_empty_clip(self.action)
    }
}

impl View for AnimationSets {
    type V = CatalogView;

    open spec fn view(&self) -> CatalogView {
        CatalogView { idle: pool_view(self.idle@), action: pool_view(self.action@) }
    }
}

impl Clone for AnimationSets {
    fn clone(&self) -> (copy: Self)
        ensures
            copy@ == self@,
    {
        let copy = AnimationSets { idle: clone_pool(&self.idle), action: clone_pool(&self.action) };
        copy
    }
}

/// Copies a pool clip by clip.
fn clone_pool(pool: &Vec<AnimationInfo>) -> (copy: Vec<AnimationInfo>)
    ensures
        pool_view(copy@) == pool_view(pool@),
{
    let mut copy: Vec<AnimationInfo> = Vec::new();
    let mut i: usize = 0;
    while i < pool.len()
        invariant
            i <= pool.len(),
            copy.len() == i,
            forall|j: int| 0 <= j < i ==> (#[trigger] copy[j])@ == pool[j]@,
        decreases pool.len() - i,
    {
        copy.push(pool[i].clone());
        i += 1;
    }
    assert(pool_view(copy@) =~= pool_view(pool@));
    copy
}

/// The grid of equally sized cells that the sprite sheet is cut into.
#[derive(Clone, Copy, Debug, PartialEq, Eq, Structural)]
pub struct SpriteSheetInfo {
    pub columns: usize,
    pub rows: usize,
}

/// Everything the scheduler is configured with.
#[derive(Debug, PartialEq, Eq)]
pub struct AnimationConfig {
    pub animations: AnimationSets,
    pub sprite_sheet_info: SpriteSheetInfo,
}

/// What a configuration is: the catalog and the grid.
pub struct ConfigView {
    pub animations: CatalogView,
    pub sprite_sheet_info: SpriteSheetInfo,
}

impl ConfigView {
    /// The catalog can be played and the grid has cells.
    pub open spec fn valid(self) -> bool {
        &&& self.animations.playable()
        &&& self.sprite_sheet_info.columns > 0
        &&& self.sprite_sheet_info.rows > 0
    }
}

impl View for AnimationConfig {
    type V = ConfigView;

    open spec fn view(&self) -> ConfigView {
        ConfigView { animations: self.animations@, sprite_sheet_info: self.sprite_sheet_info }
    }
}

impl Clone for AnimationConfig {
    fn clone(&self) -> (copy: Self)
        ensures
            copy@ == self@,
    {
        AnimationConfig {
            animations: self.animations.clone(),
            sprite_sheet_info: self.sprite_sheet_info,
        }
    }
}

/// Why a configuration cannot be played or does not fit its sprite sheet.
#[derive(Clone, Copy, Debug, PartialEq, Eq, Structural)]
pub enum ConfigError {
    /// The idle pool holds no clip.
    NoIdleClips,
    /// The active pool holds no clip.
    NoActiveClips,
    /// The idle clip at this position holds no frame.
    EmptyIdleClip(usize),
    /// The active clip at this position holds no frame.
    EmptyActiveClip(usize),
    /// The sprite sheet has no columns.
    NoColumns,
    /// The sprite sheet has no rows.
    NoRows,
    /// The columns do not tile the sheet: its width is no multiple of their
    /// number.
    UnevenColumns,
    /// The rows do not tile the sheet: its height is no multiple of their
    /// number.
    UnevenRows,
}

impl ConfigView {
    /// `error` is the first fault of the configuration by itself. The faults
    /// are looked for in the order in which `ConfigError` lists them, so a
    /// configuration has at most one first fault. Whether the grid tiles a
    /// sheet is no fault of the configuration by itself.
    pub open spec fn faulty(self, error: ConfigError) -> bool {
        let idle = self.animations.idle;
        let action = self.animations.action;
        let pools = idle.len() > 0 && action.len() > 0;
        let clips = pools && no_empty_clip(idle) && no_empty_clip(action);
        match error {
            ConfigError::NoIdleClips => idle.len() == 0,
            ConfigError::NoActiveClips => idle.len() > 0 && action.len() == 0,
            ConfigError::EmptyIdleClip(at) => pools && first_empty_clip(idle, at as int),
            ConfigError::EmptyActiveClip(at) => pools && no_empty_clip(idle) && first_empty_clip(
                action,
                at as int,
            ),
            ConfigError::NoColumns => clips && self.sprite_sheet_info.columns == 0,
            ConfigError::NoRows => clips && self.sprite_sheet_info.columns > 0
                && self.sprite_sheet_info.rows == 0,
            ConfigError::UnevenColumns => false,
            ConfigError::UnevenRows => false,
        }
    }

    /// The configuration can be played and its grid tiles a sheet of `width`
    /// by `height` pixels: the sheet is cut into whole cells with nothing
    /// left over.
    pub open spec fn tiles(self, width: nat, height: nat) -> bool {
        &&& self.valid()
        &&& width % self.sprite_sheet_info.columns as nat == 0
        &&& height % self.sprite_sheet_info.rows as nat == 0
    }

    /// `error` is the first fault of the configuration on a sheet of `width`
    /// by `height` pixels: its first fault by itself, or else the first
    /// side of the sheet that its grid does not tile.
    pub open spec fn faulty_on(self, width: nat, height: nat, error: ConfigError) -> bool {
        match error {
            ConfigError::UnevenColumns => self.valid() && width
                % self.sprite_sheet_info.columns as nat != 0,
            ConfigError::UnevenRows => self.valid() && width % self.sprite_sheet_info.columns as nat
                == 0 && height % self.sprite_sheet_info.rows as nat != 0,
            _ => self.faulty(error),
        }
    }
}

/// Finds the first clip of a pool that holds no frame.
fn find_empty_clip(pool: &Vec<AnimationInfo>) -> (found: Option<usize>)
    ensures
        match found {
            Some(at) => first_empty_clip(pool_view(pool@), at as int),
            None => no_empty_clip(pool_view(pool@)),
        },
{
    let mut i: usize = 0;
    while i < pool.len()
        invariant
            i <= pool.len(),
            forall|j: int| 0 <= j < i ==> (#[trigger] pool_view(pool@)[j]).frames.len() > 0,
        decreases pool.len() - i,
    {
        if pool[i].frames.len() == 0 {
            return Some(i);
        }
        i += 1;
    }
    None
}

impl AnimationConfig {
    /// Checks that the configuration can be played: both pools hold a clip,
    /// every clip holds a frame and the sprite sheet grid has cells.
    /// Otherwise the first fault is reported.
    pub fn validate(&self) -> (checked: Result<(), ConfigError>)
        ensures
            match checked {
                Ok(_) => self@.valid(),
                Err(error) => self@.faulty(error) && !self@.valid(),
            },
    {
        if self.animations.idle.len() == 0 {
            return Err(ConfigError::NoIdleClips);
        }
        if self.animations.action.len() == 0 {
            return Err(ConfigError::NoActiveClips);
        }
        if let Some(at) = find_empty_clip(&self.animations.idle) {
            return Err(ConfigError::EmptyIdleClip(at));
        }
        if let Some(at) = find_empty_clip(&self.animations.action) {
            return Err(ConfigError::EmptyActiveClip(at));
        }
        if self.sprite_sheet_info.columns == 0 {
            return Err(ConfigError::NoColumns);
        }
        if self.sprite_sheet_info.rows == 0 {
            return Err(ConfigError::NoRows);
        }
        Ok(())
    }

    /// Checks that the configuration can be played and that its grid tiles
    /// a sprite sheet of `width` by `height` pixels. Otherwise the first
    /// fault is reported.
    pub fn validate_on(&self, width: usize, height: usize) -> (checked: Result<(), ConfigError>)
        ensures
            match checked {
                Ok(_) => self@.tiles(width as nat, height as nat),
                Err(error) => self@.faulty_on(width as nat, height as nat, error) && !self@.tiles(
                    width as nat,
                    height as nat,
                ),
            },
    {
        match self.validate() {
            Ok(_) => {},
            Err(error) => {
                return Err(error);
            },
        }
        if width % self.sprite_sheet_info.columns != 0 {
            return Err(ConfigError::UnevenColumns);
        }
        if height % self.sprite_sheet_info.rows != 0 {
            return Err(ConfigError::UnevenRows);
        }
        Ok(())
    }
}

/// A configuration has at most one first fault, and a valid one has none.
pub proof fn lemma_fault_is_unique(config: ConfigView, first: ConfigError, second: ConfigError)
    requires
        config.faulty(first),
        config.faulty(second),
    ensures
        first == second,
        !config.valid(),
{
}

/// On a given sheet a configuration has at most one first fault, and one
/// whose grid tiles the sheet has none.
pub proof fn lemma_fault_on_sheet_is_unique(
    config: ConfigView,
    width: nat,
    height: nat,
    first: ConfigError,
    second: ConfigError,
)
    requires
        config.faulty_on(width, height, first),
        config.faulty_on(width, height, second),
    ensures
        first == second,
        !config.tiles(width, height),
{
}

/// A grid that tiles a side of the sheet cuts it into cells of equal size
/// that together make up the side exactly.
pub proof fn lemma_tiling_cells_make_up_the_side(side: nat, cells: nat)
    requires
        cells > 0,
        side % cells == 0,
    ensures
        cells * (side / cells) == side,
{
    assert(cells * (side / cells) == side) by (nonlinear_arith)
        requires
            cells > 0,
            side % cells == 0,
    ;
}

} // verus!
