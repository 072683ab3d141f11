use clippit_gpt::animation::models::{
    AnimationConfig, AnimationFrame, AnimationInfo, AnimationServiceMode, AnimationSets,
    ConfigError, FrameInfo, SpriteSheetInfo,
};
use clippit_gpt::models::{AppConfig, QuestionResponse};

fn frame(duration: usize, row: usize, column: usize) -> AnimationFrame {
    AnimationFrame { duration, info: FrameInfo { column, row } }
}

fn clip(name: &str, frames: Vec<AnimationFrame>) -> AnimationInfo {
    AnimationInfo { name: name.to_string(), frames }
}

fn config(
    idle: Vec<AnimationInfo>,
    action: Vec<AnimationInfo>,
    columns: usize,
    rows: usize,
) -> AnimationConfig {
    AnimationConfig {
        animations: AnimationSets { idle, action },
        sprite_sheet_info: SpriteSheetInfo { columns, rows },
    }
}

#[test]
fn default_mode_is_idle() {
    assert_eq!(AnimationServiceMode::default(), AnimationServiceMode::Idle);
}

#[test]
fn default_frame_is_the_first_cell_with_no_duration() {
    assert_eq!(FrameInfo::default(), FrameInfo { column: 0, row: 0 });
    assert_eq!(AnimationFrame::default(), frame(0, 0, 0));
}

#[test]
fn default_credentials_are_empty() {
    let credentials = AppConfig::default();
    assert_eq!(credentials.open_ai_api_key, "");
    assert_eq!(credentials.assistant_id, "");
}

#[test]
fn playable_configuration_is_accepted() {
    let config = config(
        vec![clip("A", vec![frame(100, 0, 0), frame(100, 0, 1)])],
        vec![clip("B", vec![frame(50, 1, 0)])],
        2,
        2,
    );
    assert_eq!(config.validate(), Ok(()));
}

#[test]
fn empty_idle_pool_is_refused() {
    let config = config(vec![], vec![clip("B", vec![frame(50, 1, 0)])], 2, 2);
    assert_eq!(config.validate(), Err(ConfigError::NoIdleClips));
}

#[test]
fn empty_idle_pool_is_reported_before_any_other_fault() {
    let config = config(vec![], vec![], 0, 0);
    assert_eq!(config.validate(), Err(ConfigError::NoIdleClips));
}

#[test]
fn empty_active_pool_is_refused() {
    let config = config(vec![clip("A", vec![frame(100, 0, 0)])], vec![], 2, 2);
    assert_eq!(config.validate(), Err(ConfigError::NoActiveClips));
}

#[test]
fn first_idle_clip_without_frames_is_reported() {
    let config = config(
        vec![clip("A", vec![frame(100, 0, 0)]), clip("empty", vec![]), clip("too", vec![])],
        vec![clip("B", vec![])],
        2,
        2,
    );
    assert_eq!(config.validate(), Err(ConfigError::EmptyIdleClip(1)));
}

#[test]
fn first_active_clip_without_frames_is_reported() {
    let config = config(
        vec![clip("A", vec![frame(100, 0, 0)])],
        vec![clip("empty", vec![]), clip("B", vec![frame(50, 1, 0)])],
        0,
        2,
    );
    assert_eq!(config.validate(), Err(ConfigError::EmptyActiveClip(0)));
}

#[test]
fn grid_without_columns_is_refused() {
    let config = config(
        vec![clip("A", vec![frame(100, 0, 0)])],
        vec![clip("B", vec![frame(50, 1, 0)])],
        0,
        0,
    );
    assert_eq!(config.validate(), Err(ConfigError::NoColumns));
}

#[test]
fn grid_without_rows_is_refused() {
    let config = config(
        vec![clip("A", vec![frame(100, 0, 0)])],
        vec![clip("B", vec![frame(50, 1, 0)])],
        3,
        0,
    );
    assert_eq!(config.validate(), Err(ConfigError::NoRows));
}

#[test]
fn clone_of_a_configuration_equals_it() {
    let config = config(
        vec![clip("A", vec![frame(100, 0, 0), frame(100, 0, 1)]), clip("C", vec![frame(7, 2, 3)])],
        vec![clip("B", vec![frame(50, 1, 0)])],
        4,
        3,
    );
    let copy = config.clone();
    assert_eq!(copy, config);
    assert_eq!(copy.animations.idle[1].name, "C");
    assert_eq!(copy.animations.idle[1].frames, vec![frame(7, 2, 3)]);
    assert_eq!(copy.sprite_sheet_info, SpriteSheetInfo { columns: 4, rows: 3 });
}

#[test]
fn clone_of_an_exchange_equals_it() {
    let exchange = QuestionResponse { question: "why".to_string(), answer: "because".to_string() };
    let copy = exchange.clone();
    assert_eq!(copy.question, "why");
    assert_eq!(copy.answer, "because");
}

#[test]
fn clone_of_credentials_equals_them() {
    let credentials =
        AppConfig { open_ai_api_key: "key".to_string(), assistant_id: "asst".to_string() };
    assert_eq!(credentials.clone(), credentials);
}

#[test]
fn grid_that_tiles_the_sheet_is_accepted() {
    let config = config(
        vec![clip("A", vec![frame(100, 0, 0)])],
        vec![clip("B", vec![frame(50, 1, 0)])],
        4,
        3,
    );
    assert_eq!(config.validate_on(400, 300), Ok(()));
    assert_eq!(config.validate_on(4, 3), Ok(()));
    assert_eq!(config.validate_on(0, 0), Ok(()));
}

#[test]
fn grid_that_does_not_tile_the_sheet_is_refused() {
    let config = config(
        vec![clip("A", vec![frame(100, 0, 0)])],
        vec![clip("B", vec![frame(50, 1, 0)])],
        4,
        3,
    );
    assert_eq!(config.validate(), Ok(()));
    assert_eq!(config.validate_on(401, 300), Err(ConfigError::UnevenColumns));
    assert_eq!(config.validate_on(401, 301), Err(ConfigError::UnevenColumns));
    assert_eq!(config.validate_on(400, 301), Err(ConfigError::UnevenRows));
    assert_eq!(config.validate_on(usize::MAX, 300), Err(ConfigError::UnevenColumns));
}

#[test]
fn fault_of_the_configuration_is_reported_before_that_of_the_sheet() {
    let config = config(vec![clip("A", vec![])], vec![clip("B", vec![frame(50, 1, 0)])], 4, 3);
    assert_eq!(config.validate_on(401, 301), Err(ConfigError::EmptyIdleClip(0)));
    let config = config_without_columns();
    assert_eq!(config.validate_on(401, 301), Err(ConfigError::NoColumns));
}

fn config_without_columns() -> AnimationConfig {
    config(
        vec![clip("A", vec![frame(100, 0, 0)])],
        vec![clip("B", vec![frame(50, 1, 0)])],
        0,
        3,
    )
}
