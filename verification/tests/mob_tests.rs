use mob_behavior::agent::{AgentState, AnimationRequest};
use mob_behavior::interpreter::{ActionEffects, Effect, Event, Interpreter};
use mob_behavior::mob::{BlackBoardData, EnemyNPC, Mob, MAX_ACTION_POINTS};
use mob_behavior::node::Node;
use mob_behavior::status::Status;
use vstd::prelude::View;

const FRAME: Event = Event { dt: 16_667 };

/// An agent that keeps a list of the actions it was asked for.
struct Watched {
    agent: AgentState,
    calls: Vec<EnemyNPC>,
}

impl Watched {
    fn new(agent: AgentState) -> Watched {
        Watched { agent, calls: Vec::new() }
    }
}

impl View for Watched {
    type V = ();

    fn view(&self) {}
}

impl ActionEffects<EnemyNPC, BlackBoardData> for Watched {
    fn effect(_agent: (), _action: EnemyNPC, _blackboard: BlackBoardData, _event: Event) -> Effect<(), BlackBoardData> {
        unreachable!()
    }

    fn dispatch(&mut self, action: &EnemyNPC, blackboard: &mut BlackBoardData, event: &Event) -> (Status, u64) {
        self.calls.push(*action);
        self.agent.dispatch(action, blackboard, event)
    }
}

fn dispatch(agent: &mut AgentState, blackboard: &mut BlackBoardData, action: EnemyNPC) -> Status {
    agent.dispatch(&action, blackboard, &FRAME).0
}

fn drained(points_left: usize) -> (AgentState, BlackBoardData) {
    let mut agent = AgentState::new(MAX_ACTION_POINTS);
    let mut blackboard = BlackBoardData::new();
    while agent.action_points() > points_left {
        dispatch(&mut agent, &mut blackboard, EnemyNPC::Run);
    }
    (agent, blackboard)
}

#[test]
fn new_mob_starts_with_three_points_alive_and_ready() {
    let mut mob = Mob::init();
    assert_eq!(MAX_ACTION_POINTS, 3);
    assert_eq!(mob.agent.action_points(), 3);
    assert_eq!(mob.agent.max_action_points(), 3);
    assert!(mob.agent.is_alive());
    assert!(mob.agent.animation_ready());
    assert_eq!(mob.bt.blackboard.times_shot, 0);
    assert!(mob.agent.take_requests().is_empty());
}

#[test]
fn new_mob_holds_the_whole_policy() {
    let mob = Mob::init();
    let expected = Node::GuardedRepeatSequence(
        Box::new(Node::Action(EnemyNPC::IsDead)),
        vec![
            Node::GuardedRepeatSequence(
                Box::new(Node::Action(EnemyNPC::HasActionPointsLeft)),
                vec![Node::Action(EnemyNPC::Run), Node::Action(EnemyNPC::Shoot)],
            ),
            Node::Action(EnemyNPC::Rest),
            Node::Action(EnemyNPC::Die),
        ],
    );
    assert_eq!(format!("{:?}", mob.bt.tree), format!("{:?}", expected));
    assert_eq!(format!("{:?}", Mob::top_ai()), format!("{:?}", expected));
}

#[test]
fn budget_probe_waits_while_the_budget_is_empty() {
    let (mut agent, mut blackboard) = drained(0);
    assert_eq!(dispatch(&mut agent, &mut blackboard, EnemyNPC::HasActionPointsLeft), Status::Running);
    let (mut agent, mut blackboard) = drained(1);
    assert_eq!(dispatch(&mut agent, &mut blackboard, EnemyNPC::HasActionPointsLeft), Status::Success);
    assert_eq!(agent.action_points(), 1);
}

#[test]
fn run_and_shoot_without_points_succeed_at_no_cost() {
    let (mut agent, mut blackboard) = drained(0);
    assert_eq!(dispatch(&mut agent, &mut blackboard, EnemyNPC::Run), Status::Success);
    assert_eq!(agent.action_points(), 0);
    assert_eq!(dispatch(&mut agent, &mut blackboard, EnemyNPC::Shoot), Status::Success);
    assert_eq!(agent.action_points(), 0);
    assert!(agent.is_alive());
    assert!(agent.animation_ready());
    assert!(agent.take_requests().is_empty());
}

#[test]
fn run_and_shoot_cost_one_point_each() {
    let mut agent = AgentState::new(3);
    let mut blackboard = BlackBoardData::new();
    assert_eq!(dispatch(&mut agent, &mut blackboard, EnemyNPC::Run), Status::Success);
    assert_eq!(agent.action_points(), 2);
    assert_eq!(blackboard.times_shot, 0);
    assert_eq!(dispatch(&mut agent, &mut blackboard, EnemyNPC::Shoot), Status::Success);
    assert_eq!(agent.action_points(), 1);
    assert_eq!(blackboard.times_shot, 1);
}

#[test]
fn every_shot_is_noted_even_one_that_was_skipped() {
    let (mut agent, mut blackboard) = drained(0);
    dispatch(&mut agent, &mut blackboard, EnemyNPC::Shoot);
    dispatch(&mut agent, &mut blackboard, EnemyNPC::Shoot);
    assert_eq!(blackboard.times_shot, 2);
}

#[test]
fn shot_count_stays_at_the_largest_number() {
    let mut agent = AgentState::new(1);
    let mut blackboard = BlackBoardData { times_shot: usize::MAX - 1 };
    dispatch(&mut agent, &mut blackboard, EnemyNPC::Shoot);
    assert_eq!(blackboard.times_shot, usize::MAX);
    dispatch(&mut agent, &mut blackboard, EnemyNPC::Shoot);
    assert_eq!(blackboard.times_shot, usize::MAX);
}

#[test]
fn death_probe_waits_while_the_mob_is_alive() {
    let mut agent = AgentState::new(3);
    let mut blackboard = BlackBoardData::new();
    assert_eq!(dispatch(&mut agent, &mut blackboard, EnemyNPC::IsDead), Status::Running);
    assert!(agent.is_alive());
    assert_eq!(dispatch(&mut agent, &mut blackboard, EnemyNPC::Die), Status::Success);
    assert_eq!(dispatch(&mut agent, &mut blackboard, EnemyNPC::IsDead), Status::Success);
}

#[test]
fn rest_of_a_rested_mob_succeeds() {
    let mut agent = AgentState::new(3);
    let mut blackboard = BlackBoardData::new();
    assert_eq!(dispatch(&mut agent, &mut blackboard, EnemyNPC::Rest), Status::Success);
    assert!(agent.take_requests().is_empty());
}

#[test]
fn dispatch_yields_the_elapsed_time_unchanged() {
    let mut agent = AgentState::new(3);
    let mut blackboard = BlackBoardData::new();
    for action in [
        EnemyNPC::Run,
        EnemyNPC::Shoot,
        EnemyNPC::HasActionPointsLeft,
        EnemyNPC::Rest,
        EnemyNPC::IsDead,
        EnemyNPC::Die,
    ] {
        for dt in [0, 1, 16_667, u64::MAX] {
            assert_eq!(agent.dispatch(&action, &mut blackboard, &Event { dt }).1, dt);
        }
    }
}

#[test]
fn scenario_fresh_agent_acting_part_first_tick() {
    let mut agent = AgentState::new(3);
    let mut bt = Interpreter::new(Mob::run_and_shoot_ai(), BlackBoardData::new());
    let status = bt.tick(&FRAME, &mut agent);
    assert_eq!(status, Status::Running);
    assert_eq!(agent.action_points(), 1);
    assert_eq!(bt.blackboard.times_shot, 1);
    assert!(agent.is_alive());
}

#[test]
fn acting_part_dispatches_probe_run_and_shoot_in_order() {
    let mut watched = Watched::new(AgentState::new(3));
    let mut bt = Interpreter::new(Mob::run_and_shoot_ai(), BlackBoardData::new());
    assert_eq!(bt.tick(&FRAME, &mut watched), Status::Running);
    assert_eq!(
        watched.calls,
        vec![EnemyNPC::HasActionPointsLeft, EnemyNPC::Run, EnemyNPC::Shoot]
    );
    assert_eq!(watched.agent.action_points(), 1);
    assert_eq!(bt.tick(&FRAME, &mut watched), Status::Running);
    assert_eq!(bt.tick(&FRAME, &mut watched), Status::Running);
    assert_eq!(
        watched.calls,
        vec![
            EnemyNPC::HasActionPointsLeft,
            EnemyNPC::Run,
            EnemyNPC::Shoot,
            EnemyNPC::HasActionPointsLeft,
            EnemyNPC::Run,
            EnemyNPC::Shoot,
            EnemyNPC::HasActionPointsLeft,
        ]
    );
    assert_eq!(watched.agent.action_points(), 0);
}

#[test]
fn whole_policy_dispatches_only_the_death_probe_while_the_mob_lives() {
    let mut watched = Watched::new(AgentState::new(3));
    let mut bt = Interpreter::new(Mob::top_ai(), BlackBoardData::new());
    assert_eq!(bt.tick(&FRAME, &mut watched), Status::Running);
    assert_eq!(bt.tick(&FRAME, &mut watched), Status::Running);
    assert_eq!(watched.calls, vec![EnemyNPC::IsDead, EnemyNPC::IsDead]);
    assert_eq!(watched.agent.action_points(), 3);
}

#[test]
fn whole_policy_of_a_dead_mob_ends_with_the_acting_part() {
    let mut agent = AgentState::new(3);
    agent.die();
    let mut watched = Watched::new(agent);
    let mut bt = Interpreter::new(Mob::top_ai(), BlackBoardData::new());
    assert_eq!(bt.tick(&FRAME, &mut watched), Status::Running);
    assert_eq!(
        watched.calls,
        vec![
            EnemyNPC::IsDead,
            EnemyNPC::HasActionPointsLeft,
            EnemyNPC::Run,
            EnemyNPC::Shoot
        ]
    );
}

#[test]
fn scenario_fresh_mob_first_tick() {
    let mut mob = Mob::init();
    let status = mob.game_tick(16_667);
    assert_eq!(status, Status::Running);
    assert!(mob.agent.is_alive());
    assert_eq!(mob.agent.action_points(), 3);
    assert_eq!(mob.bt.blackboard.times_shot, 0);
    assert!(mob.agent.take_requests().is_empty());
}

#[test]
fn living_mob_keeps_waiting_behind_the_death_probe() {
    let mut mob = Mob::init();
    for dt in [0, 1, 16_667, 1_000_000, u64::MAX] {
        assert_eq!(mob.game_tick(dt), Status::Running);
    }
    assert_eq!(mob.agent.action_points(), 3);
    assert_eq!(mob.bt.blackboard.times_shot, 0);
    assert!(mob.agent.is_alive());
}

#[test]
fn acting_part_runs_again_on_every_tick_until_the_budget_is_empty() {
    let mut agent = AgentState::new(3);
    let mut bt = Interpreter::new(Mob::run_and_shoot_ai(), BlackBoardData::new());
    assert_eq!(bt.tick(&FRAME, &mut agent), Status::Running);
    assert_eq!((agent.action_points(), bt.blackboard.times_shot), (1, 1));
    assert_eq!(bt.tick(&FRAME, &mut agent), Status::Running);
    assert_eq!((agent.action_points(), bt.blackboard.times_shot), (0, 2));
    assert_eq!(bt.tick(&FRAME, &mut agent), Status::Running);
    assert_eq!((agent.action_points(), bt.blackboard.times_shot), (0, 2));
}

#[test]
fn scenario_rest_with_empty_budget_asks_for_the_clip() {
    let (mut agent, blackboard) = drained(0);
    assert!(agent.animation_ready());
    let mut bt = Interpreter::new(Node::Action(EnemyNPC::Rest), blackboard);
    let status = bt.tick(&FRAME, &mut agent);
    assert_eq!(status, Status::Running);
    assert_eq!(agent.take_requests(), vec![AnimationRequest::Sleep]);
    assert!(!agent.animation_ready());
    assert_eq!(agent.action_points(), 0);
    assert_eq!(bt.tick(&FRAME, &mut agent), Status::Running);
    assert!(agent.take_requests().is_empty());
    assert_eq!(agent.action_points(), 0);
}

#[test]
fn scenario_rest_after_the_completion_notice_earns_a_point() {
    let (mut agent, blackboard) = drained(2);
    let mut bt = Interpreter::new(Node::Action(EnemyNPC::Rest), blackboard);
    assert_eq!(bt.tick(&FRAME, &mut agent), Status::Running);
    agent.animation_completed();
    assert!(agent.animation_ready());
    assert_eq!(agent.action_points(), 2);
    assert_eq!(agent.max_action_points(), 3);
    assert_eq!(bt.tick(&FRAME, &mut agent), Status::Running);
    assert_eq!(agent.action_points(), 3);
    assert_eq!(bt.tick(&FRAME, &mut agent), Status::Success);
    assert_eq!(agent.action_points(), 3);
}

#[test]
fn scenario_die_dispatched_twice() {
    let mut agent = AgentState::new(3);
    let mut blackboard = BlackBoardData::new();
    assert_eq!(dispatch(&mut agent, &mut blackboard, EnemyNPC::Die), Status::Success);
    assert!(!agent.is_alive());
    assert_eq!(dispatch(&mut agent, &mut blackboard, EnemyNPC::Die), Status::Success);
    assert!(!agent.is_alive());
    assert_eq!(agent.take_requests(), vec![AnimationRequest::Die]);
    assert_eq!(agent.action_points(), 3);
}

#[test]
fn dead_mob_acts_and_stops_short_of_rest_and_death() {
    let mut mob = Mob::init();
    mob.agent.die();
    mob.agent.take_requests();
    assert_eq!(mob.game_tick(16_667), Status::Running);
    assert_eq!(mob.agent.action_points(), 1);
    assert_eq!(mob.bt.blackboard.times_shot, 1);
    assert_eq!(mob.game_tick(16_667), Status::Running);
    assert_eq!(mob.agent.action_points(), 0);
    for _ in 0..4 {
        assert_eq!(mob.game_tick(16_667), Status::Running);
    }
    assert_eq!(mob.agent.action_points(), 0);
    assert_eq!(mob.bt.blackboard.times_shot, 2);
    assert!(mob.agent.take_requests().is_empty());
}

#[test]
fn no_tick_revives_a_dead_mob() {
    let mut mob = Mob::init();
    mob.agent.die();
    for tick in 0..50u64 {
        mob.game_tick(tick);
        if tick % 7 == 0 {
            mob.agent.animation_completed();
        }
        assert!(!mob.agent.is_alive());
    }
}

#[test]
fn no_tree_takes_the_budget_out_of_its_bounds() {
    let tree = Node::GuardedRepeatSequence(
        Box::new(Node::Action(EnemyNPC::Rest)),
        vec![
            Node::Action(EnemyNPC::Run),
            Node::Action(EnemyNPC::Shoot),
            Node::Action(EnemyNPC::Run),
            Node::Action(EnemyNPC::Shoot),
            Node::Action(EnemyNPC::Rest),
        ],
    );
    let mut agent = AgentState::new(3);
    let mut bt = Interpreter::new(tree, BlackBoardData::new());
    for tick in 0..200u64 {
        let status = bt.tick(&Event { dt: tick }, &mut agent);
        assert_eq!(status, Status::Running);
        if tick % 3 == 0 {
            agent.animation_completed();
        }
        assert!(agent.action_points() <= 3);
        assert_eq!(agent.max_action_points(), 3);
    }
}

#[test]
fn policy_can_be_replaced() {
    let mut mob = Mob::init();
    mob.bt = Interpreter::new(Mob::run_and_shoot_ai(), BlackBoardData::new());
    assert_eq!(mob.game_tick(1), Status::Running);
    assert_eq!(mob.agent.action_points(), 1);
    assert_eq!(mob.game_tick(1), Status::Running);
    assert_eq!(mob.agent.action_points(), 0);
    assert_eq!(mob.bt.blackboard.times_shot, 2);
}

#[test]
fn cloned_interpreter_starts_from_the_same_blackboard() {
    let mut agent = AgentState::new(3);
    let mut bt = Interpreter::new(Mob::run_and_shoot_ai(), BlackBoardData::new());
    bt.tick(&FRAME, &mut agent);
    let mut copy = bt.clone();
    assert_eq!(copy.blackboard, bt.blackboard);
    assert_eq!(format!("{:?}", copy.tree), format!("{:?}", bt.tree));
    copy.tick(&FRAME, &mut agent);
    assert_eq!(copy.blackboard.times_shot, 2);
    assert_eq!(bt.blackboard.times_shot, 1);
}

#[test]
fn no_action_of_a_mob_fails() {
    let mut agent = AgentState::new(2);
    let mut blackboard = BlackBoardData::new();
    let actions = [
        EnemyNPC::HasActionPointsLeft,
        EnemyNPC::Run,
        EnemyNPC::Shoot,
        EnemyNPC::Rest,
        EnemyNPC::IsDead,
        EnemyNPC::Run,
        EnemyNPC::Rest,
        EnemyNPC::Die,
        EnemyNPC::IsDead,
        EnemyNPC::Rest,
        EnemyNPC::Shoot,
        EnemyNPC::Die,
    ];
    for round in 0..20 {
        for action in actions {
            assert_ne!(dispatch(&mut agent, &mut blackboard, action), Status::Failure);
        }
        if round % 2 == 0 {
            agent.animation_completed();
        }
    }
}
