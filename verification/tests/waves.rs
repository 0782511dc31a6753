use arachnophobic::components::Position;
use arachnophobic::enemy::types::EnemyType;
use arachnophobic::stage::waves::{
    is_spawn, is_supported, Condition, Delay, EnemySpawn, Wave, WaveAction, WaveBuilder,
};

fn spawn(enemy: EnemyType, x: i32, y: i32) -> WaveAction {
    WaveAction::Spawn(EnemySpawn::At { enemy, position: Position { x, y } })
}

#[test]
fn a_new_builder_builds_an_empty_wave() {
    let mut wave = WaveBuilder::new().build();
    assert!(wave.is_empty());
    assert_eq!(wave.len(), 0);
    assert_eq!(wave.next_action(), None);
    assert_eq!(wave.next_action(), None);
}

#[test]
fn the_wave_yields_the_actions_in_call_order_and_then_none() {
    let mut builder = WaveBuilder::new();
    builder.spawn_at(EnemyType::TinySpider, Position { x: -3, y: 7 });
    builder.wait_for(Condition::PreviousWaveHasDied);
    builder.wait_sec(1_500_000_000);
    builder.wait_ticks(42);
    builder.spawn_at(EnemyType::MediumSpider, Position { x: 8, y: -9 });
    let mut wave = builder.build();
    assert_eq!(wave.len(), 5);
    assert_eq!(wave.next_action(), Some(spawn(EnemyType::TinySpider, -3, 7)));
    assert_eq!(wave.next_action(), Some(WaveAction::Condition(Condition::PreviousWaveHasDied)));
    assert_eq!(wave.next_action(), Some(WaveAction::Delay(Delay::Seconds(1_500_000_000))));
    assert_eq!(wave.next_action(), Some(WaveAction::Delay(Delay::Ticks(42))));
    assert_eq!(wave.len(), 1);
    assert_eq!(wave.next_action(), Some(spawn(EnemyType::MediumSpider, 8, -9)));
    assert!(wave.is_empty());
    assert_eq!(wave.next_action(), None);
    assert_eq!(wave.next_action(), None);
}

#[test]
fn each_builder_call_returns_the_builder_with_the_action_appended() {
    let mut builder = WaveBuilder::new();
    builder.wait_ticks(1);
    builder.wait_ticks(2);
    let wave = builder.build();
    assert_eq!(
        wave.into_actions(),
        vec![WaveAction::Delay(Delay::Ticks(1)), WaveAction::Delay(Delay::Ticks(2))]
    );
}

#[test]
fn the_builder_takes_composite_conditions_and_degenerate_delays_as_they_are() {
    let mut builder = WaveBuilder::new();
    builder.wait_for(Condition::And(vec![
        Condition::PreviousWaveHasDied,
        Condition::Or(vec![Condition::PreviousWaveHasDied]),
    ]));
    builder.wait_sec(-5);
    builder.wait_ticks(-1);
    builder.wait_ticks(i32::MIN);
    let mut wave = builder.build();
    assert_eq!(
        wave.next_action(),
        Some(WaveAction::Condition(Condition::And(vec![
            Condition::PreviousWaveHasDied,
            Condition::Or(vec![Condition::PreviousWaveHasDied]),
        ])))
    );
    assert_eq!(wave.next_action(), Some(WaveAction::Delay(Delay::Seconds(-5))));
    assert_eq!(wave.next_action(), Some(WaveAction::Delay(Delay::Ticks(-1))));
    assert_eq!(wave.next_action(), Some(WaveAction::Delay(Delay::Ticks(i32::MIN))));
    assert_eq!(wave.next_action(), None);
}

#[test]
fn a_wave_made_from_a_vector_plays_it_first_to_last() {
    let mut wave = Wave::from(vec![
        WaveAction::Delay(Delay::Ticks(1)),
        WaveAction::Spawn(EnemySpawn::Inside),
        spawn(EnemyType::SmallSpider, 1, 2),
    ]);
    assert_eq!(wave.len(), 3);
    assert_eq!(wave.next_action(), Some(WaveAction::Delay(Delay::Ticks(1))));
    assert_eq!(wave.next_action(), Some(WaveAction::Spawn(EnemySpawn::Inside)));
    assert_eq!(wave.next_action(), Some(spawn(EnemyType::SmallSpider, 1, 2)));
    assert_eq!(wave.next_action(), None);
}

#[test]
fn a_wave_made_from_an_empty_vector_is_empty() {
    let mut wave = Wave::from(Vec::new());
    assert!(wave.is_empty());
    assert_eq!(wave.next_action(), None);
}

#[test]
fn into_actions_gives_what_is_left_in_order() {
    let mut wave = Wave::from(vec![
        spawn(EnemyType::TinySpider, 0, 0),
        WaveAction::Delay(Delay::Ticks(3)),
        WaveAction::Condition(Condition::PreviousWaveHasDied),
    ]);
    assert_eq!(wave.next_action(), Some(spawn(EnemyType::TinySpider, 0, 0)));
    assert_eq!(
        wave.into_actions(),
        vec![
            WaveAction::Delay(Delay::Ticks(3)),
            WaveAction::Condition(Condition::PreviousWaveHasDied),
        ]
    );
}

#[test]
fn leading_spawns_stop_at_the_first_action_that_is_no_spawn_at_a_position() {
    let wave = Wave::from(vec![
        spawn(EnemyType::TinySpider, 0, 0),
        spawn(EnemyType::TinySpider, 1, 0),
        spawn(EnemyType::TinySpider, 2, 0),
        WaveAction::Delay(Delay::Ticks(3)),
        spawn(EnemyType::TinySpider, 3, 0),
    ]);
    assert_eq!(wave.leading_spawns(), 3);
    let inside = Wave::from(vec![
        spawn(EnemyType::TinySpider, 0, 0),
        WaveAction::Spawn(EnemySpawn::Inside),
        spawn(EnemyType::TinySpider, 3, 0),
    ]);
    assert_eq!(inside.leading_spawns(), 1);
    let all =
        Wave::from(vec![spawn(EnemyType::TinySpider, 0, 0), spawn(EnemyType::SmallSpider, 0, 0)]);
    assert_eq!(all.leading_spawns(), 2);
    assert_eq!(Wave::from(Vec::new()).leading_spawns(), 0);
    assert_eq!(Wave::from(vec![WaveAction::Delay(Delay::Seconds(0))]).leading_spawns(), 0);
}

#[test]
fn only_a_spawn_at_a_position_counts_as_a_spawn() {
    assert!(is_spawn(&spawn(EnemyType::MediumSpider, 5, 5)));
    assert!(!is_spawn(&WaveAction::Spawn(EnemySpawn::Inside)));
    assert!(!is_spawn(&WaveAction::Delay(Delay::Ticks(0))));
    assert!(!is_spawn(&WaveAction::Delay(Delay::Seconds(0))));
    assert!(!is_spawn(&WaveAction::Condition(Condition::PreviousWaveHasDied)));
    assert!(!is_spawn(&WaveAction::Condition(Condition::Or(Vec::new()))));
}

#[test]
fn a_spawn_inside_a_region_and_composite_conditions_are_not_supported() {
    assert!(is_supported(&spawn(EnemyType::TinySpider, 0, 0)));
    assert!(is_supported(&WaveAction::Delay(Delay::Seconds(-1))));
    assert!(is_supported(&WaveAction::Delay(Delay::Ticks(0))));
    assert!(is_supported(&WaveAction::Condition(Condition::PreviousWaveHasDied)));
    assert!(!is_supported(&WaveAction::Spawn(EnemySpawn::Inside)));
    assert!(!is_supported(&WaveAction::Condition(Condition::And(Vec::new()))));
    assert!(!is_supported(&WaveAction::Condition(Condition::Or(vec![
        Condition::PreviousWaveHasDied
    ]))));
}

#[test]
fn a_wave_is_supported_if_every_action_is() {
    assert!(Wave::from(Vec::new()).is_supported());
    assert!(Wave::from(vec![
        spawn(EnemyType::TinySpider, 0, 0),
        WaveAction::Condition(Condition::PreviousWaveHasDied),
        WaveAction::Delay(Delay::Seconds(5)),
        WaveAction::Delay(Delay::Ticks(5)),
    ])
    .is_supported());
    assert!(!Wave::from(vec![
        spawn(EnemyType::TinySpider, 0, 0),
        WaveAction::Delay(Delay::Ticks(5)),
        WaveAction::Spawn(EnemySpawn::Inside),
    ])
    .is_supported());
    assert!(!Wave::from(vec![
        WaveAction::Condition(Condition::And(vec![Condition::PreviousWaveHasDied])),
        spawn(EnemyType::TinySpider, 0, 0),
    ])
    .is_supported());
}
