use eval_shell::ports::get_eval_engine_server_port;
use eval_shell::relay::LogSink;
use eval_shell::relay::OutputEvent;
use eval_shell::shell::init_shell;
use eval_shell::shell::Shell;
use eval_shell::supervisor::ExitDecision;
use eval_shell::supervisor::SupervisorState;
use eval_shell::StartupError;

const RANGE_LEN: usize = 65535 - 40000;

fn started_shell(occupied: &Vec<bool>) -> Shell {
    let mut shell = init_shell(
        String::from("node/node"),
        String::from("evaluation-engine/build/index.js"),
        occupied,
    )
    .expect("a free port exists");
    shell.supervisor.begin_launch();
    shell.supervisor.confirm_spawn(true).expect("spawn succeeds");
    shell
}

#[test]
fn startup_aborts_when_every_port_is_occupied() {
    // Every port of the range is pre-occupied: startup fails before any
    // child exists, so nothing is ever spawned.
    let occupied = vec![true; RANGE_LEN];
    let result = init_shell(String::from("node/node"), String::from("index.js"), &occupied);
    assert!(matches!(result, Err(StartupError::NoPortAvailable)));
}

#[test]
fn startup_allocates_first_free_port_and_answers_queries() {
    let mut occupied = vec![false; RANGE_LEN];
    occupied[0] = true;
    let shell = init_shell(String::from("node/node"), String::from("index.js"), &occupied)
        .expect("40001 is free");
    assert_eq!(shell.supervisor.port, 40001);
    assert_eq!(get_eval_engine_server_port(&shell.port_cell), 40001);
    assert_eq!(shell.supervisor.launches, 0);
    assert!(!shell.flag.is_shutdown_requested());
}

#[test]
fn ready_then_crash_restarts_with_same_port() {
    // The child spawns, writes "ready" to its output, then exits while the
    // shutdown flag is false: the line reaches the sink, and the supervisor
    // relaunches with the identical port.
    let occupied = vec![false; RANGE_LEN];
    let mut shell = started_shell(&occupied);
    let port = get_eval_engine_server_port(&shell.port_cell);

    let mut sink = LogSink::new();
    let events = vec![OutputEvent::Stdout(String::from("ready"))];
    sink.relay_all(&events);
    assert_eq!(sink.lines, vec![String::from("ready")]);

    let decision = shell.on_child_stream_closed();
    assert_eq!(decision, ExitDecision::Relaunch);
    let plan = shell.supervisor.launch_plan();
    assert_eq!(plan.port, port);
    shell.supervisor.confirm_spawn(true).expect("respawn succeeds");
    assert_eq!(shell.supervisor.launches, 2);
    assert_eq!(get_eval_engine_server_port(&shell.port_cell), port);
}

#[test]
fn window_close_then_exit_spawns_nothing_further() {
    // The window-close event fires, then the child exits: the supervisor
    // stops for good and performs no further spawn.
    let occupied = vec![false; RANGE_LEN];
    let mut shell = started_shell(&occupied);
    shell.flag.request_shutdown();

    let decision = shell.on_child_stream_closed();
    assert_eq!(decision, ExitDecision::Stop);
    assert_eq!(shell.supervisor.state, SupervisorState::Terminal);
    assert_eq!(shell.supervisor.launches, 1);
}

#[test]
fn allocated_port_is_stable_across_many_restarts() {
    let occupied = vec![false; RANGE_LEN];
    let mut shell = started_shell(&occupied);
    let port = get_eval_engine_server_port(&shell.port_cell);
    for _ in 0..5 {
        assert_eq!(shell.on_child_stream_closed(), ExitDecision::Relaunch);
        assert_eq!(shell.supervisor.launch_plan().port, port);
        shell.supervisor.confirm_spawn(true).expect("respawn succeeds");
    }
    assert_eq!(shell.supervisor.launches, 6);
    assert_eq!(get_eval_engine_server_port(&shell.port_cell), port);
}
