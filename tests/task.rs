use std::sync::{Arc, Mutex};

use localghost::animation::AnimationLoop;
use localghost::channel::{ResultChannel, Slot};
use localghost::dom::{is_loaded_state, HostDocument, HostWindow, SetupFault};
use localghost::host::{HostLoop, JoinHandle, Work};
use localghost::Priority;

fn run_until_ready<T>(host: &mut HostLoop<T>, h: &JoinHandle, max_steps: usize) -> bool {
    for _ in 0..max_steps {
        if host.is_ready(h) {
            return true;
        }
        if !host.run_microtask() {
            break;
        }
    }
    host.is_ready(h)
}

#[test]
fn animation_loop() {
    let count = Arc::new(Mutex::new(0_u8));
    let mut animator = AnimationLoop::new(|count: Arc<Mutex<u8>>| {
        *count.lock().unwrap() += 1;
    });

    animator.render(count.clone());
    assert_eq!(*count.lock().unwrap(), 1);

    animator.render(count.clone());
    assert_eq!(*count.lock().unwrap(), 2);
}

#[test]
fn spawn_local() {
    let mut host: HostLoop<u8> = HostLoop::new();
    let handle = host.spawn_local(Work { suspensions: 0, output: 12_u8 });
    assert!(run_until_ready(&mut host, &handle, 10));
    assert!(matches!(host.poll(&handle), Slot::Ready(12)));
}

#[test]
fn two_tasks_resolve_to_their_own_values() {
    let mut host: HostLoop<&'static str> = HostLoop::new();
    let a = host.spawn_local(Work { suspensions: 0, output: "a" });
    let b = host.spawn_local(Work { suspensions: 1, output: "b" });
    assert!(run_until_ready(&mut host, &a, 10));
    assert!(run_until_ready(&mut host, &b, 10));
    assert!(matches!(host.poll(&a), Slot::Ready("a")));
    assert!(matches!(host.poll(&b), Slot::Ready("b")));
}

#[test]
fn suspending_task_finishes_after_ready_one() {
    let mut host: HostLoop<&'static str> = HostLoop::new();
    let b = host.spawn_local(Work { suspensions: 1, output: "b" });
    let a = host.spawn_local(Work { suspensions: 0, output: "a" });
    assert!(host.run_microtask());
    assert!(!host.is_ready(&b));
    assert!(host.run_microtask());
    assert!(host.is_ready(&a));
    assert!(!host.is_ready(&b));
    assert!(host.run_microtask());
    assert!(host.is_ready(&b));
    assert!(!host.run_microtask());
}

#[test]
fn idle_work_never_resolves_without_idle_phase() {
    let mut host: HostLoop<u32> = HostLoop::new();
    let h = host.spawn_idle(7);
    assert!(!run_until_ready(&mut host, &h, 100));
    assert!(matches!(host.poll(&h), Slot::Pending));
    assert!(host.run_idle());
    assert!(matches!(host.poll(&h), Slot::Ready(7)));
}

#[test]
fn idle_submitted_first_may_finish_last() {
    let mut host: HostLoop<u32> = HostLoop::new();
    let idle = host.spawn_idle(1);
    let micro = host.spawn_local(Work { suspensions: 0, output: 2 });
    assert!(host.run_microtask());
    assert!(host.is_ready(&micro));
    assert!(!host.is_ready(&idle));
    assert!(host.run_idle());
    assert!(matches!(host.poll(&idle), Slot::Ready(1)));
    assert!(matches!(host.poll(&micro), Slot::Ready(2)));
}

#[test]
fn spawn_never_runs_inline() {
    let mut host: HostLoop<u8> = HostLoop::new();
    let h = host.spawn_local(Work { suspensions: 0, output: 5 });
    assert!(!host.is_ready(&h));
    assert!(matches!(host.poll(&h), Slot::Pending));
    assert!(host.run_microtask());
    assert!(matches!(host.poll(&h), Slot::Ready(5)));
}

#[test]
fn handle_resolves_exactly_once() {
    let mut host: HostLoop<u8> = HostLoop::new();
    let h = host.spawn_local(Work { suspensions: 2, output: 9 });
    assert!(run_until_ready(&mut host, &h, 10));
    assert!(matches!(host.poll(&h), Slot::Ready(9)));
    assert!(matches!(host.poll(&h), Slot::Consumed));
    assert!(matches!(host.poll(&h), Slot::Consumed));
}

#[test]
fn completing_one_task_leaves_other_pending() {
    let mut host: HostLoop<u8> = HostLoop::new();
    let first = host.spawn_local(Work { suspensions: 0, output: 1 });
    let second = host.spawn_local(Work { suspensions: 3, output: 2 });
    assert!(host.run_microtask());
    assert!(host.is_ready(&first));
    assert!(!host.is_ready(&second));
    assert!(matches!(host.poll(&first), Slot::Ready(1)));
    assert!(matches!(host.poll(&second), Slot::Pending));
}

#[test]
fn priority_picks_the_phase() {
    let mut host: HostLoop<u8> = HostLoop::new();
    let high = host.spawn(Priority::High, 3);
    let low = host.spawn(Priority::Low, 4);
    assert!(host.run_microtask());
    assert!(!host.run_microtask());
    assert!(host.is_ready(&high));
    assert!(!host.is_ready(&low));
    assert!(host.run_idle());
    assert!(!host.run_idle());
    assert!(matches!(host.poll(&low), Slot::Ready(4)));
}

#[test]
fn empty_loop_runs_nothing() {
    let mut host: HostLoop<u8> = HostLoop::new();
    assert!(!host.run_microtask());
    assert!(!host.run_idle());
}

#[test]
fn render_twice_pairs_outputs_with_inputs() {
    let mut driver = AnimationLoop::new(|x: u32| x * 10 + 1);
    assert_eq!(driver.render(4), 41);
    assert_eq!(driver.render(7), 71);
}

#[test]
fn channel_keeps_first_write() {
    let mut ch: ResultChannel<u8> = ResultChannel::new();
    assert!(!ch.is_ready());
    assert!(ch.send(1));
    assert!(!ch.send(2));
    assert!(ch.is_ready());
    assert!(matches!(ch.take(), Slot::Ready(1)));
    assert!(!ch.send(3));
    assert!(matches!(ch.take(), Slot::Consumed));
}

#[test]
fn channel_read_before_write_is_pending() {
    let mut ch: ResultChannel<u8> = ResultChannel::new();
    assert!(matches!(ch.take(), Slot::Pending));
    assert!(ch.send(6));
    assert!(matches!(ch.take(), Slot::Ready(6)));
}

#[test]
fn loaded_states() {
    assert!(is_loaded_state(&"complete".to_string()));
    assert!(is_loaded_state(&"interactive".to_string()));
    assert!(!is_loaded_state(&"loading".to_string()));
    assert!(!is_loaded_state(&"".to_string()));
}

#[test]
fn missing_host_capabilities_are_reported() {
    assert_eq!(HostWindow::from_host(None).err(), Some(SetupFault::MissingWindow));
    assert_eq!(HostDocument::from_host(None).err(), Some(SetupFault::MissingDocument));
}
