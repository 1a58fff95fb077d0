use ferret_engine::application::{step, LoopAction, LoopEvent, Phase};
use ferret_engine::ecs::{Schedule, System};

struct Log(&'static str);

impl System<Vec<String>, u32> for Log {
    fn effect(&self, mut world: Vec<String>, mut resources: u32) -> (Vec<String>, u32) {
        self.run(&mut world, &mut resources);
        (world, resources)
    }

    fn run(&self, world: &mut Vec<String>, resources: &mut u32) {
        world.push(self.0.to_string());
        *resources += 1;
    }
}

#[test]
fn startup_runs_once_then_updates_every_pass() {
    let mut schedule = Schedule::new();
    schedule.add_update_system(Log("u1"));
    schedule.add_startup_system(Log("s1"));
    schedule.add_update_system(Log("u2"));
    schedule.add_startup_system(Log("s2"));
    let mut world = Vec::new();
    let mut runs = 0u32;
    schedule.execute(&mut world, &mut runs);
    schedule.execute(&mut world, &mut runs);
    assert_eq!(world, vec!["s1", "s2", "u1", "u2", "u1", "u2"]);
    assert_eq!(runs, 6);
}

#[test]
fn loop_ignores_window_events_until_started() {
    assert_eq!(step(Phase::Initializing, LoopEvent::RedrawRequested), (Phase::Initializing, LoopAction::Nothing));
    assert_eq!(step(Phase::Initializing, LoopEvent::Resumed), (Phase::Starting, LoopAction::StartInitialization));
    assert_eq!(step(Phase::Starting, LoopEvent::Resumed), (Phase::Starting, LoopAction::Nothing));
    assert_eq!(step(Phase::Starting, LoopEvent::Initialized), (Phase::Running, LoopAction::ResizeToWindowAndRedraw));
}

#[test]
fn running_loop_responds_to_window_events() {
    assert_eq!(step(Phase::Running, LoopEvent::RedrawRequested), (Phase::Running, LoopAction::UpdateAndRender));
    assert_eq!(
        step(Phase::Running, LoopEvent::Resized { width: 800, height: 0 }),
        (Phase::Running, LoopAction::Resize { width: 800, height: 0 })
    );
    assert_eq!(step(Phase::Running, LoopEvent::CloseRequested), (Phase::Exiting, LoopAction::Exit));
    assert_eq!(step(Phase::Running, LoopEvent::Other), (Phase::Running, LoopAction::Nothing));
}

#[test]
fn startup_can_run_ahead_of_the_first_pass() {
    let mut schedule = Schedule::new();
    schedule.add_startup_system(Log("s1"));
    schedule.add_update_system(Log("u1"));
    let mut world = Vec::new();
    let mut runs = 0u32;
    schedule.run_startup(&mut world, &mut runs);
    assert_eq!(world, vec!["s1"]);
    schedule.execute(&mut world, &mut runs);
    assert_eq!(world, vec!["s1", "u1"]);
    assert_eq!(runs, 2);
}
