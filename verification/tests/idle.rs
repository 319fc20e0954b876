use mail_reader::idle::{KeepAlive, KeepAliveStep, KEEP_ALIVE_INTERVAL_MILLIS};

#[test]
fn the_interval_is_one_second() {
    assert_eq!(KEEP_ALIVE_INTERVAL_MILLIS, 1000);
}

#[test]
fn the_loop_alternates_no_op_and_sleep() {
    let mut idle = KeepAlive::idlize("session".to_string());
    let mut trace = Vec::new();
    for _ in 0..3 {
        idle = match idle.step(false) {
            KeepAliveStep::SendNoop(next) => {
                trace.push("noop".to_string());
                next
            }
            KeepAliveStep::Sleep(next, millis) => {
                trace.push(format!("sleep {millis}"));
                next
            }
            KeepAliveStep::HandBack(_) => panic!("not told to stop"),
        };
        idle = match idle.step(false) {
            KeepAliveStep::SendNoop(next) => {
                trace.push("noop".to_string());
                next
            }
            KeepAliveStep::Sleep(next, millis) => {
                trace.push(format!("sleep {millis}"));
                next
            }
            KeepAliveStep::HandBack(_) => panic!("not told to stop"),
        };
    }
    assert_eq!(trace, vec!["noop", "sleep 1000", "noop", "sleep 1000", "noop", "sleep 1000"]);
}

#[test]
fn a_stop_before_the_no_op_hands_the_session_back() {
    let idle = KeepAlive::idlize(7_u32);
    assert!(matches!(idle.step(true), KeepAliveStep::HandBack(7)));
}

#[test]
fn a_stop_before_the_sleep_hands_the_session_back() {
    let idle = KeepAlive::idlize(7_u32);
    let KeepAliveStep::SendNoop(idle) = idle.step(false) else { panic!("a no-op comes first") };
    assert!(matches!(idle.step(true), KeepAliveStep::HandBack(7)));
}

#[test]
fn the_no_op_works_on_the_suspended_session() {
    let idle = KeepAlive::idlize(Vec::<&str>::new());
    let KeepAliveStep::SendNoop(mut idle) = idle.step(false) else { panic!("a no-op comes first") };
    idle.session_mut().push("NOOP");
    let KeepAliveStep::Sleep(idle, _) = idle.step(false) else { panic!("a sleep comes second") };
    let KeepAliveStep::SendNoop(mut idle) = idle.step(false) else { panic!("a no-op comes third") };
    idle.session_mut().push("NOOP");
    assert_eq!(idle.done(), vec!["NOOP", "NOOP"]);
}
