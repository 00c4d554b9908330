use dispatch::action::{Action, ActionResult};
use dispatch::dispatch::{Event, Phase, BACKOFF_MS};
use dispatch::queue::Work;

fn done(action: Action) -> ActionResult {
    ActionResult::New(action, Ok("done".to_string()))
}

#[test]
fn one_action_is_delivered_once_then_loop_polls_until_receiver_drops() {
    let mut work = Work::Begin();
    work.Assign(Action::Read { Path: "/tmp/x".to_string() });
    let mut delivered: Vec<ActionResult> = Vec::new();
    let mut receiver_alive = true;
    let mut phase = Phase::Begin();
    let mut idle_polls: usize = 0;
    let mut steps: usize = 0;
    while !phase.IsStopped() {
        steps += 1;
        assert!(steps < 100);
        let event = match &phase {
            Phase::Polling => {
                let taken = work.Execute();
                if taken.is_none() {
                    idle_polls += 1;
                    if idle_polls == 3 {
                        receiver_alive = false;
                    }
                }
                Event::Taken(taken)
            }
            Phase::Waiting => Event::Slept,
            Phase::Working(action) => Event::Received(done(action.clone())),
            Phase::Delivering(result) => {
                if receiver_alive {
                    delivered.push(result.clone());
                    Event::Sent(true)
                } else {
                    Event::Sent(false)
                }
            }
            Phase::Stopped => unreachable!(),
        };
        phase = phase.Next(event);
        if idle_polls == 3 && matches!(phase, Phase::Polling) {
            // Nothing left to deliver: the loop can only stop on a failed send.
            work.Assign(Action::Read { Path: "/tmp/y".to_string() });
        }
    }
    assert_eq!(delivered.len(), 1);
    match &delivered[0].Action {
        Action::Read { Path } => assert_eq!(Path, "/tmp/x"),
        other => panic!("unexpected {:?}", other),
    }
    assert_eq!(delivered[0].Result, Ok("done".to_string()));
}

#[test]
fn idle_loop_polls_between_two_and_four_times_in_250_ms() {
    let mut work = Work::Begin();
    let mut phase = Phase::Begin();
    let mut clock_ms: u64 = 0;
    let mut polls: u64 = 0;
    while clock_ms < 250 {
        let event = match &phase {
            Phase::Polling => {
                polls += 1;
                Event::Taken(work.Execute())
            }
            Phase::Waiting => {
                clock_ms += BACKOFF_MS;
                Event::Slept
            }
            _ => panic!("an empty queue never gives work"),
        };
        phase = phase.Next(event);
    }
    assert_eq!(polls, 3);
    assert!(polls >= 2 && polls <= 4);
}

#[test]
fn worker_failure_is_delivered_and_does_not_stop_the_loop() {
    let action = Action::Write { Path: "/ro".to_string(), Content: "x".to_string() };
    let phase = Phase::Begin().Next(Event::Taken(Some(action.clone())));
    assert!(matches!(phase, Phase::Working(_)));
    let phase = phase.Next(Event::Received(ActionResult::New(action, Err("read-only".to_string()))));
    match &phase {
        Phase::Delivering(r) => assert_eq!(r.Result, Err("read-only".to_string())),
        _ => panic!("a result must be delivered"),
    }
    let phase = phase.Next(Event::Sent(true));
    assert!(matches!(phase, Phase::Polling));
    assert!(!phase.IsStopped());
}

#[test]
fn empty_queue_leads_to_backoff_then_polling() {
    let phase = Phase::Begin().Next(Event::Taken(None));
    assert!(matches!(phase, Phase::Waiting));
    assert_eq!(BACKOFF_MS, 100);
    let phase = phase.Next(Event::Slept);
    assert!(matches!(phase, Phase::Polling));
}

#[test]
fn failed_send_stops_for_good() {
    let result = done(Action::Read { Path: "/a".to_string() });
    let phase = Phase::Delivering(result).Next(Event::Sent(false));
    assert!(phase.IsStopped());
    let phase = phase.Next(Event::Taken(None));
    assert!(phase.IsStopped());
    let phase = phase.Next(Event::Sent(true));
    assert!(phase.IsStopped());
}

#[test]
fn unexpected_event_leaves_phase_unchanged() {
    let phase = Phase::Begin().Next(Event::Slept);
    assert!(matches!(phase, Phase::Polling));
    let phase = Phase::Waiting.Next(Event::Sent(false));
    assert!(matches!(phase, Phase::Waiting));
}
