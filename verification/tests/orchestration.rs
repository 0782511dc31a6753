use std::time::Duration;

use arachnophobic::components::Position;
use arachnophobic::enemy::types::EnemyType;
use arachnophobic::enemy::SpawnEnemyEvent;
use arachnophobic::health::OnDeathEvent;
use arachnophobic::stage::model::{OrchestrationError, Progress};
use arachnophobic::stage::orchestration::{
    on_enemy_death, stage_orchestration, OrchestrationState, TickReport,
};
use arachnophobic::stage::waves::{Condition, Delay, EnemySpawn, Wave, WaveAction, WaveBuilder};

const FRAME: u64 = 16_666_667;

fn at(x: i32, y: i32) -> Position {
    Position { x, y }
}

fn request(enemy_type: EnemyType, x: i32, y: i32) -> SpawnEnemyEvent {
    SpawnEnemyEvent { position: at(x, y), enemy_type }
}

fn nanos(seconds: f32) -> u64 {
    Duration::from_secs_f32(seconds).as_nanos() as u64
}

fn started(wave: Wave) -> OrchestrationState {
    let mut state = OrchestrationState::new();
    state.start(wave);
    state
}

fn quiet(outcome: Result<Progress, OrchestrationError>) -> TickReport {
    TickReport { spawns: Vec::new(), outcome }
}

#[test]
fn a_new_stage_is_idle_and_empty() {
    let state = OrchestrationState::new();
    assert!(!state.is_started());
    assert_eq!(state.alive_enemies(), 0);
    assert_eq!(state.current_action(), None);
    assert_eq!(state.remaining_actions(), None);
    assert_eq!(state.pending_spawns(), 0);
    assert_eq!(state.timer(), 0);
    assert_eq!(state.ticks(), 0);
    assert!(!state.is_exhausted());
    let by_default = OrchestrationState::default();
    assert!(!by_default.is_started());
    assert_eq!(by_default.remaining_actions(), None);
}

#[test]
fn a_stage_that_was_not_started_does_nothing() {
    let mut builder = WaveBuilder::new();
    builder.spawn_at(EnemyType::TinySpider, at(0, 0));
    let mut state = OrchestrationState::new();
    state.assign(builder.build());
    assert_eq!(stage_orchestration(&mut state, FRAME), quiet(Ok(Progress::Idle)));
    assert_eq!(state.remaining_actions(), Some(1));
    assert_eq!(state.alive_enemies(), 0);
    state.begin();
    let report = stage_orchestration(&mut state, FRAME);
    assert_eq!(report.spawns, vec![request(EnemyType::TinySpider, 0, 0)]);
}

#[test]
fn a_started_stage_without_a_wave_reports_the_missing_wave() {
    let mut state = OrchestrationState::new();
    state.begin();
    assert!(state.is_started());
    assert_eq!(
        stage_orchestration(&mut state, FRAME),
        quiet(Err(OrchestrationError::MissingWave))
    );
    assert_eq!(
        stage_orchestration(&mut state, FRAME),
        quiet(Err(OrchestrationError::MissingWave))
    );
    assert_eq!(state.alive_enemies(), 0);
    assert_eq!(state.remaining_actions(), None);
}

#[test]
fn condition_holds_the_third_spawn_until_both_enemies_died() {
    let mut builder = WaveBuilder::new();
    builder.spawn_at(EnemyType::TinySpider, at(0, 0));
    builder.spawn_at(EnemyType::SmallSpider, at(10, 0));
    builder.wait_for(Condition::PreviousWaveHasDied);
    builder.spawn_at(EnemyType::MediumSpider, at(0, 10));
    let mut state = started(builder.build());
    assert_eq!(state.alive_enemies(), 0);
    assert_eq!(state.pending_spawns(), 2);

    let first = stage_orchestration(&mut state, FRAME);
    assert_eq!(
        first.spawns,
        vec![request(EnemyType::TinySpider, 0, 0), request(EnemyType::SmallSpider, 10, 0)]
    );
    assert_eq!(first.outcome, Ok(Progress::Waiting));
    assert_eq!(state.alive_enemies(), 2);
    assert_eq!(
        state.current_action(),
        Some(&WaveAction::Condition(Condition::PreviousWaveHasDied))
    );
    assert_eq!(state.remaining_actions(), Some(1));

    state.notify_death();
    state.notify_death();
    assert_eq!(state.alive_enemies(), 0);

    let second = stage_orchestration(&mut state, FRAME);
    assert_eq!(second.spawns, vec![request(EnemyType::MediumSpider, 0, 10)]);
    assert_eq!(second.outcome, Ok(Progress::Exhausted));
    assert_eq!(state.alive_enemies(), 1);
    assert_eq!(state.current_action(), None);
    assert!(state.is_exhausted());
}

#[test]
fn two_second_delay_releases_the_spawn_on_the_fourth_tick() {
    let mut builder = WaveBuilder::new();
    builder.wait_sec(nanos(2.0) as i64);
    builder.spawn_at(EnemyType::TinySpider, at(0, 0));
    let mut state = started(builder.build());

    assert_eq!(stage_orchestration(&mut state, 0), quiet(Ok(Progress::Waiting)));
    assert_eq!(state.timer(), 0);

    let mut spawned_on = Vec::new();
    for (tick, delta) in [0.5f32, 0.5, 0.5, 0.6].into_iter().enumerate() {
        let report = stage_orchestration(&mut state, nanos(delta));
        if !report.spawns.is_empty() {
            assert_eq!(report.spawns, vec![request(EnemyType::TinySpider, 0, 0)]);
            spawned_on.push(tick + 1);
        } else {
            assert_eq!(report.outcome, Ok(Progress::Blocked));
        }
    }
    assert_eq!(spawned_on, vec![4]);
    assert_eq!(state.alive_enemies(), 1);
}

#[test]
fn the_timer_adds_up_the_ticks_and_stops_at_the_duration() {
    let mut builder = WaveBuilder::new();
    builder.wait_sec(2_000_000_000);
    builder.wait_sec(10);
    let mut state = started(builder.build());
    stage_orchestration(&mut state, FRAME);
    assert_eq!(state.timer(), 0);
    assert_eq!(stage_orchestration(&mut state, 500_000_000), quiet(Ok(Progress::Blocked)));
    assert_eq!(state.timer(), 500_000_000);
    assert_eq!(stage_orchestration(&mut state, 1_499_999_999), quiet(Ok(Progress::Blocked)));
    assert_eq!(state.timer(), 1_999_999_999);
    assert_eq!(stage_orchestration(&mut state, 5_000_000_000), quiet(Ok(Progress::Waiting)));
    assert_eq!(state.timer(), 0);
    assert_eq!(state.current_action(), Some(&WaveAction::Delay(Delay::Seconds(10))));
    assert_eq!(stage_orchestration(&mut state, 9), quiet(Ok(Progress::Blocked)));
    assert_eq!(state.timer(), 9);
    assert_eq!(stage_orchestration(&mut state, u64::MAX), quiet(Ok(Progress::Exhausted)));
    assert_eq!(state.timer(), 10);
}

#[test]
fn a_delay_clears_on_the_tick_that_reaches_it_exactly() {
    let mut builder = WaveBuilder::new();
    builder.wait_sec(1_000);
    let mut state = started(builder.build());
    stage_orchestration(&mut state, FRAME);
    assert_eq!(stage_orchestration(&mut state, 999), quiet(Ok(Progress::Blocked)));
    assert_eq!(stage_orchestration(&mut state, 1), quiet(Ok(Progress::Exhausted)));
}

#[test]
fn a_delay_of_no_or_negative_duration_clears_on_the_next_tick() {
    for degenerate in [0i64, -1, -2_000_000_000, i64::MIN] {
        let mut builder = WaveBuilder::new();
        builder.wait_sec(degenerate);
        builder.spawn_at(EnemyType::TinySpider, at(1, 1));
        let mut state = started(builder.build());
        assert_eq!(stage_orchestration(&mut state, FRAME), quiet(Ok(Progress::Waiting)));
        let next = stage_orchestration(&mut state, 0);
        assert_eq!(next.spawns, vec![request(EnemyType::TinySpider, 1, 1)]);
        assert_eq!(next.outcome, Ok(Progress::Exhausted));
        assert_eq!(state.timer(), 0);
    }
}

#[test]
fn a_tick_delay_clears_after_exactly_that_many_ticks() {
    for count in [1i32, 2, 3, 7] {
        let mut builder = WaveBuilder::new();
        builder.wait_ticks(count);
        builder.spawn_at(EnemyType::SmallSpider, at(2, 3));
        let mut state = started(builder.build());
        assert_eq!(stage_orchestration(&mut state, FRAME), quiet(Ok(Progress::Waiting)));
        assert_eq!(state.ticks(), count);
        for left in (1..count).rev() {
            assert_eq!(stage_orchestration(&mut state, FRAME), quiet(Ok(Progress::Blocked)));
            assert_eq!(state.ticks(), left);
        }
        let last = stage_orchestration(&mut state, FRAME);
        assert_eq!(last.spawns, vec![request(EnemyType::SmallSpider, 2, 3)]);
        assert_eq!(state.ticks(), 0);
    }
}

#[test]
fn a_tick_delay_of_no_or_negative_count_clears_on_the_next_tick() {
    for (count, after) in [(0i32, -1i32), (-1, -2), (-100, -101), (i32::MIN, i32::MIN)] {
        let mut builder = WaveBuilder::new();
        builder.wait_ticks(count);
        let mut state = started(builder.build());
        assert_eq!(stage_orchestration(&mut state, FRAME), quiet(Ok(Progress::Waiting)));
        assert_eq!(state.ticks(), count);
        assert_eq!(stage_orchestration(&mut state, FRAME), quiet(Ok(Progress::Exhausted)));
        assert_eq!(state.ticks(), after);
    }
}

#[test]
fn a_condition_is_never_met_on_the_tick_that_installs_it() {
    let mut builder = WaveBuilder::new();
    builder.wait_for(Condition::PreviousWaveHasDied);
    builder.spawn_at(EnemyType::TinySpider, at(0, 0));
    let mut state = started(builder.build());
    assert_eq!(state.alive_enemies(), 0);
    assert_eq!(stage_orchestration(&mut state, FRAME), quiet(Ok(Progress::Waiting)));
    let next = stage_orchestration(&mut state, FRAME);
    assert_eq!(next.spawns, vec![request(EnemyType::TinySpider, 0, 0)]);
}

#[test]
fn the_wait_for_the_dead_holds_while_one_enemy_is_alive() {
    let mut builder = WaveBuilder::new();
    builder.spawn_at(EnemyType::TinySpider, at(0, 0));
    builder.spawn_at(EnemyType::TinySpider, at(1, 0));
    builder.spawn_at(EnemyType::TinySpider, at(2, 0));
    builder.wait_for(Condition::PreviousWaveHasDied);
    builder.spawn_at(EnemyType::MediumSpider, at(9, 9));
    let mut state = started(builder.build());
    stage_orchestration(&mut state, FRAME);
    assert_eq!(state.alive_enemies(), 3);
    for alive in [2, 1] {
        assert_eq!(stage_orchestration(&mut state, FRAME), quiet(Ok(Progress::Blocked)));
        state.notify_death();
        assert_eq!(state.alive_enemies(), alive);
        assert_eq!(stage_orchestration(&mut state, FRAME), quiet(Ok(Progress::Blocked)));
        assert_eq!(state.remaining_actions(), Some(1));
    }
    state.notify_death();
    let released = stage_orchestration(&mut state, FRAME);
    assert_eq!(released.spawns, vec![request(EnemyType::MediumSpider, 9, 9)]);
    assert_eq!(state.alive_enemies(), 1);
}

#[test]
fn the_wait_for_the_dead_clears_when_more_died_than_were_spawned() {
    let mut builder = WaveBuilder::new();
    builder.spawn_at(EnemyType::TinySpider, at(0, 0));
    builder.wait_for(Condition::PreviousWaveHasDied);
    let mut state = started(builder.build());
    stage_orchestration(&mut state, FRAME);
    state.notify_death();
    state.notify_death();
    state.notify_death();
    assert_eq!(state.alive_enemies(), -2);
    assert_eq!(stage_orchestration(&mut state, FRAME), quiet(Ok(Progress::Exhausted)));
    assert_eq!(state.alive_enemies(), -2);
}

#[test]
fn every_spawn_adds_one_to_the_enemies_alive_and_emits_one_request() {
    let mut builder = WaveBuilder::new();
    let kinds = [EnemyType::TinySpider, EnemyType::SmallSpider, EnemyType::MediumSpider];
    let mut expected = Vec::new();
    for i in 0..30 {
        let kind = kinds[i % 3];
        builder.spawn_at(kind, at(i as i32 * 3 - 40, 100 - i as i32));
        expected.push(request(kind, i as i32 * 3 - 40, 100 - i as i32));
    }
    let mut state = started(builder.build());
    state.notify_death();
    assert_eq!(state.alive_enemies(), -1);
    assert_eq!(state.pending_spawns(), 30);
    let report = stage_orchestration(&mut state, FRAME);
    assert_eq!(report.spawns, expected);
    assert_eq!(report.outcome, Ok(Progress::Exhausted));
    assert_eq!(state.alive_enemies(), 29);
    assert_eq!(state.pending_spawns(), 0);
}

#[test]
fn alive_is_spawns_less_deaths_through_a_whole_wave() {
    let mut builder = WaveBuilder::new();
    builder.spawn_at(EnemyType::TinySpider, at(0, 0));
    builder.spawn_at(EnemyType::TinySpider, at(1, 0));
    builder.wait_ticks(2);
    builder.spawn_at(EnemyType::SmallSpider, at(2, 0));
    builder.wait_sec(1_000);
    builder.spawn_at(EnemyType::SmallSpider, at(3, 0));
    builder.spawn_at(EnemyType::SmallSpider, at(4, 0));
    builder.spawn_at(EnemyType::SmallSpider, at(5, 0));
    let mut state = started(builder.build());
    let mut spawns = 0i32;
    let mut deaths = 0i32;
    for tick in 0..12 {
        spawns += stage_orchestration(&mut state, 400).spawns.len() as i32;
        assert_eq!(state.alive_enemies(), spawns - deaths);
        if tick % 3 == 1 {
            state.notify_death();
            deaths += 1;
            assert_eq!(state.alive_enemies(), spawns - deaths);
        }
    }
    assert_eq!(spawns, 6);
    assert_eq!(deaths, 4);
    assert_eq!(state.alive_enemies(), 2);
}

#[test]
fn a_batch_of_deaths_takes_one_off_for_each() {
    let mut builder = WaveBuilder::new();
    for i in 0..5 {
        builder.spawn_at(EnemyType::TinySpider, at(i, 0));
    }
    let mut state = started(builder.build());
    stage_orchestration(&mut state, FRAME);
    assert_eq!(state.alive_enemies(), 5);
    on_enemy_death(&mut state, &Vec::new());
    assert_eq!(state.alive_enemies(), 5);
    on_enemy_death(
        &mut state,
        &vec![OnDeathEvent { entity: 7 }, OnDeathEvent { entity: 7 }, OnDeathEvent { entity: 1 }],
    );
    assert_eq!(state.alive_enemies(), 2);
    assert!(state.is_started());
    assert_eq!(state.remaining_actions(), Some(0));
}

#[test]
fn an_exhausted_wave_stays_exhausted_until_a_new_wave_is_assigned() {
    let mut builder = WaveBuilder::new();
    builder.spawn_at(EnemyType::TinySpider, at(0, 0));
    let mut state = started(builder.build());
    assert!(!state.is_exhausted());
    let report = stage_orchestration(&mut state, FRAME);
    assert_eq!(report.spawns.len(), 1);
    assert_eq!(report.outcome, Ok(Progress::Exhausted));
    for _ in 0..3 {
        assert_eq!(stage_orchestration(&mut state, FRAME), quiet(Ok(Progress::Exhausted)));
        assert!(state.is_exhausted());
    }
    assert_eq!(state.alive_enemies(), 1);

    let mut next = WaveBuilder::new();
    next.spawn_at(EnemyType::MediumSpider, at(5, 5));
    state.assign(next.build());
    assert!(!state.is_exhausted());
    assert_eq!(state.alive_enemies(), 1);
    let report = stage_orchestration(&mut state, FRAME);
    assert_eq!(report.spawns, vec![request(EnemyType::MediumSpider, 5, 5)]);
    assert_eq!(state.alive_enemies(), 2);
}

#[test]
fn a_wave_that_ends_on_a_delay_is_exhausted_only_once_the_delay_cleared() {
    let mut builder = WaveBuilder::new();
    builder.wait_ticks(1);
    let mut state = started(builder.build());
    assert_eq!(stage_orchestration(&mut state, FRAME), quiet(Ok(Progress::Waiting)));
    assert_eq!(state.remaining_actions(), Some(0));
    assert!(!state.is_exhausted());
    assert_eq!(stage_orchestration(&mut state, FRAME), quiet(Ok(Progress::Exhausted)));
    assert!(state.is_exhausted());
}

#[test]
fn assigning_a_wave_drops_the_hold_of_the_wave_before() {
    let mut builder = WaveBuilder::new();
    builder.wait_sec(5_000);
    builder.wait_ticks(50);
    let mut state = started(builder.build());
    stage_orchestration(&mut state, FRAME);
    stage_orchestration(&mut state, 100);
    assert_eq!(state.timer(), 100);
    assert!(state.current_action().is_some());
    let mut next = WaveBuilder::new();
    next.spawn_at(EnemyType::TinySpider, at(0, 0));
    state.start(next.build());
    assert_eq!(state.current_action(), None);
    assert_eq!(state.timer(), 0);
    assert_eq!(state.ticks(), 0);
    assert_eq!(stage_orchestration(&mut state, FRAME).spawns.len(), 1);
}

#[test]
fn a_spawn_inside_a_region_faults_and_holds_the_wave_for_good() {
    let mut state = started(Wave::from(vec![
        WaveAction::Spawn(EnemySpawn::At { enemy: EnemyType::TinySpider, position: at(4, 4) }),
        WaveAction::Spawn(EnemySpawn::Inside),
        WaveAction::Spawn(EnemySpawn::At { enemy: EnemyType::TinySpider, position: at(5, 5) }),
    ]));
    assert_eq!(state.pending_spawns(), 1);
    let first = stage_orchestration(&mut state, FRAME);
    assert_eq!(first.spawns, vec![request(EnemyType::TinySpider, 4, 4)]);
    assert_eq!(first.outcome, Err(OrchestrationError::UnsupportedSpawn));
    assert_eq!(state.alive_enemies(), 1);
    assert_eq!(state.current_action(), Some(&WaveAction::Spawn(EnemySpawn::Inside)));
    for _ in 0..3 {
        assert_eq!(
            stage_orchestration(&mut state, FRAME),
            quiet(Err(OrchestrationError::UnsupportedSpawn))
        );
        assert_eq!(state.remaining_actions(), Some(1));
        assert_eq!(state.alive_enemies(), 1);
    }
    assert!(!state.is_exhausted());
}

#[test]
fn a_composite_condition_faults_when_it_is_tried() {
    let composites = [
        Condition::And(vec![Condition::PreviousWaveHasDied]),
        Condition::Or(vec![Condition::PreviousWaveHasDied, Condition::PreviousWaveHasDied]),
        Condition::And(Vec::new()),
        Condition::Or(Vec::new()),
    ];
    for composite in composites {
        let mut builder = WaveBuilder::new();
        builder.wait_for(composite);
        builder.spawn_at(EnemyType::TinySpider, at(0, 0));
        let mut state = started(builder.build());
        assert_eq!(stage_orchestration(&mut state, FRAME), quiet(Ok(Progress::Waiting)));
        for _ in 0..3 {
            assert_eq!(
                stage_orchestration(&mut state, FRAME),
                quiet(Err(OrchestrationError::UnsupportedCondition))
            );
        }
        assert_eq!(state.remaining_actions(), Some(1));
        assert_eq!(state.alive_enemies(), 0);
    }
}

#[test]
fn deaths_during_a_delay_do_not_shorten_it() {
    let mut builder = WaveBuilder::new();
    builder.spawn_at(EnemyType::TinySpider, at(0, 0));
    builder.wait_ticks(3);
    builder.spawn_at(EnemyType::TinySpider, at(1, 0));
    let mut state = started(builder.build());
    stage_orchestration(&mut state, FRAME);
    state.notify_death();
    assert_eq!(stage_orchestration(&mut state, FRAME), quiet(Ok(Progress::Blocked)));
    assert_eq!(stage_orchestration(&mut state, FRAME), quiet(Ok(Progress::Blocked)));
    assert_eq!(stage_orchestration(&mut state, FRAME).spawns.len(), 1);
}

#[test]
fn the_tick_that_installs_a_delay_does_not_count_towards_it() {
    let mut builder = WaveBuilder::new();
    builder.wait_sec(1_000);
    builder.spawn_at(EnemyType::TinySpider, at(0, 0));
    let mut state = started(builder.build());
    assert_eq!(stage_orchestration(&mut state, 5_000), quiet(Ok(Progress::Waiting)));
    assert_eq!(state.timer(), 0);
    assert_eq!(stage_orchestration(&mut state, 999), quiet(Ok(Progress::Blocked)));
    assert_eq!(stage_orchestration(&mut state, 1).spawns.len(), 1);

    let mut builder = WaveBuilder::new();
    builder.wait_ticks(1);
    builder.spawn_at(EnemyType::TinySpider, at(0, 0));
    let mut state = started(builder.build());
    assert_eq!(stage_orchestration(&mut state, FRAME), quiet(Ok(Progress::Waiting)));
    assert_eq!(state.ticks(), 1);
    assert_eq!(stage_orchestration(&mut state, FRAME).spawns.len(), 1);
}
