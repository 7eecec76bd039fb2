use eval_shell::relay::LogSink;
use eval_shell::relay::OutputEvent;

#[test]
fn relay_forwards_lines_in_arrival_order() {
    let mut sink = LogSink::new();
    let events = vec![
        OutputEvent::Stdout(String::from("starting")),
        OutputEvent::Stderr(String::from("warning: low memory")),
        OutputEvent::Other,
        OutputEvent::Stdout(String::from("listening")),
    ];
    sink.relay_all(&events);
    assert_eq!(
        sink.lines,
        vec![
            String::from("starting"),
            String::from("warning: low memory"),
            String::from("listening"),
        ]
    );
}

#[test]
fn relay_event_returns_text_for_output_events_only() {
    let mut sink = LogSink::new();
    let out = OutputEvent::Stdout(String::from("ready"));
    assert_eq!(sink.relay_event(&out), Some(&String::from("ready")));
    let err = OutputEvent::Stderr(String::from("oops"));
    assert_eq!(sink.relay_event(&err), Some(&String::from("oops")));
    assert_eq!(sink.relay_event(&OutputEvent::Other), None);
    assert_eq!(sink.lines, vec![String::from("ready"), String::from("oops")]);
}

#[test]
fn relay_keeps_per_stream_order() {
    let mut sink = LogSink::new();
    let events = vec![
        OutputEvent::Stdout(String::from("out 1")),
        OutputEvent::Stderr(String::from("err 1")),
        OutputEvent::Stdout(String::from("out 2")),
        OutputEvent::Stderr(String::from("err 2")),
    ];
    sink.relay_all(&events);
    let outs: Vec<&String> = sink.lines.iter().filter(|l| l.starts_with("out")).collect();
    let errs: Vec<&String> = sink.lines.iter().filter(|l| l.starts_with("err")).collect();
    assert_eq!(outs, vec!["out 1", "out 2"]);
    assert_eq!(errs, vec!["err 1", "err 2"]);
}
