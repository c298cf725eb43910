use cargo_blinc::blinc::{exit_code, transition, Blinc, Step};
use cargo_blinc::colors::Led;
use cargo_blinc::config::Config;
use cargo_blinc::task::Task;
use cargo_blinc::transition::{
    settle_offer, Action, Frame, Msg, Phase, Transition, TransitionError, FADE_MS,
};
use cargo_blinc::Offer;

fn frame(led: Led) -> Frame {
    Frame { led, fade_ms: FADE_MS }
}

fn blue_blank() -> Transition {
    Transition::new(&[Led::Blue, Led::Blank])
        .unwrap()
        .on_success(&Led::Green)
        .on_failure(&Led::Red)
}

#[test]
fn outcome_settles_the_light_within_one_frame() {
    let mut t = blue_blank();
    let (mut tx, mut worker) = t.start().unwrap();
    let mut device: Vec<Led> = Vec::new();
    // 0 ms, 500 ms, 1000 ms: three animation frames.
    for _ in 0..3 {
        match worker.poll() {
            Action::Show(f) => {
                assert_eq!(f.fade_ms, 500);
                device.push(f.led);
                worker.sent(true);
            }
            other => panic!("unexpected {:?}", other),
        }
    }
    assert_eq!(device, vec![Led::Blue, Led::Blank, Led::Blue]);
    // 1200 ms: success is reported; the poll at 1500 ms resolves.
    tx.notify_success().unwrap();
    assert_eq!(worker.poll(), Action::Resolve(frame(Led::Green)));
    worker.sent(true);
    assert_eq!(worker.phase(), Phase::Terminated(None));
    for _ in 0..3 {
        assert_eq!(worker.poll(), Action::Stop);
    }
    assert!(worker.is_terminated());
    assert_eq!(worker.error(), None);
}

#[test]
fn failure_settles_on_the_failure_color() {
    let mut t = blue_blank();
    let (mut tx, mut worker) = t.start().unwrap();
    tx.notify_failure().unwrap();
    assert_eq!(worker.poll(), Action::Resolve(frame(Led::Red)));
    assert_eq!(worker.phase(), Phase::Resolving(Msg::Failure));
}

#[test]
fn first_outcome_wins_and_second_is_a_no_op() {
    let mut t = blue_blank();
    let (mut tx, mut worker) = t.start().unwrap();
    assert_eq!(tx.accepted(), None);
    assert_eq!(tx.notify_success(), Ok(()));
    assert_eq!(tx.accepted(), Some(Msg::Success));
    assert_eq!(tx.notify_failure(), Ok(()));
    assert_eq!(tx.accepted(), Some(Msg::Success));
    assert_eq!(worker.poll(), Action::Resolve(frame(Led::Green)));
    worker.sent(true);
    assert_eq!(tx.notify_failure(), Ok(()));
    assert_eq!(worker.poll(), Action::Stop);
}

#[test]
fn second_start_is_refused() {
    let mut t = blue_blank();
    assert!(!t.is_started());
    let (mut tx, mut worker) = t.start().unwrap();
    assert!(t.is_started());
    assert_eq!(t.start().err(), Some(TransitionError::AlreadyStarted));
    assert!(t.is_started());
    assert_eq!(worker.poll(), Action::Show(frame(Led::Blue)));
    tx.notify_success().unwrap();
    assert_eq!(worker.poll(), Action::Resolve(frame(Led::Green)));
}

#[test]
fn transient_frame_failures_do_not_stop_the_worker() {
    let mut t = blue_blank();
    let (mut tx, mut worker) = t.start().unwrap();
    assert_eq!(worker.poll(), Action::Show(frame(Led::Blue)));
    worker.sent(false);
    assert_eq!(worker.poll(), Action::Show(frame(Led::Blank)));
    worker.sent(false);
    assert_eq!(worker.poll(), Action::Show(frame(Led::Blue)));
    worker.sent(true);
    assert_eq!(worker.phase(), Phase::Animating);
    tx.notify_success().unwrap();
    assert_eq!(worker.poll(), Action::Resolve(frame(Led::Green)));
    worker.sent(true);
    assert_eq!(worker.phase(), Phase::Terminated(None));
}

#[test]
fn final_frame_failure_is_recorded() {
    let mut t = blue_blank();
    let (mut tx, mut worker) = t.start().unwrap();
    assert_eq!(worker.poll(), Action::Show(frame(Led::Blue)));
    worker.sent(true);
    tx.notify_success().unwrap();
    assert_eq!(worker.poll(), Action::Resolve(frame(Led::Green)));
    worker.sent(false);
    assert!(worker.is_terminated());
    assert_eq!(worker.error(), Some(TransitionError::FinalFrameSend));
    assert_eq!(worker.poll(), Action::Stop);
    assert_eq!(worker.poll(), Action::Stop);
}

#[test]
fn decide_walks_the_animation_with_wraparound() {
    let mut t = Transition::new(&[Led::Red, Led::White, Led::Blank]).unwrap();
    let (_tx, mut worker) = t.start().unwrap();
    let mut shown: Vec<Led> = Vec::new();
    for _ in 0..7 {
        match worker.decide(None) {
            Action::Show(f) => shown.push(f.led),
            other => panic!("unexpected {:?}", other),
        }
    }
    assert_eq!(
        shown,
        vec![Led::Red, Led::White, Led::Blank, Led::Red, Led::White, Led::Blank, Led::Red]
    );
    // Default final colors: green and red.
    assert_eq!(worker.decide(Some(Msg::Success)), Action::Resolve(frame(Led::Green)));
    assert_eq!(worker.decide(Some(Msg::Failure)), Action::Stop);
}

#[test]
fn empty_animation_is_refused() {
    assert_eq!(Transition::new(&[]).err(), Some(TransitionError::EmptyAnimation));
}

#[test]
fn gone_worker_is_reported() {
    let mut t = blue_blank();
    let (mut tx, worker) = t.start().unwrap();
    drop(worker);
    assert_eq!(tx.notify_success(), Err(TransitionError::WorkerGone));
    assert_eq!(tx.accepted(), None);
    assert_eq!(settle_offer(Offer::Full), Ok(()));
    assert_eq!(settle_offer(Offer::Accepted), Ok(()));
    assert_eq!(settle_offer(Offer::Disconnected), Err(TransitionError::WorkerGone));
}

#[test]
fn palette_names_resolve() {
    assert_eq!(Led::resolve("red"), Ok(Led::Red));
    assert_eq!(Led::resolve("green"), Ok(Led::Green));
    assert_eq!(Led::resolve("blue"), Ok(Led::Blue));
    assert_eq!(Led::resolve("white"), Ok(Led::White));
    assert_eq!(Led::resolve("blank"), Ok(Led::Blank));
    assert_eq!(Led::resolve("scarlet").unwrap_err().name, "scarlet");
    assert!(Led::resolve("Red").is_err());
    assert!(Led::resolve("").is_err());
    assert_eq!(Led::Blank.name(), "blank");
    assert_eq!(Led::resolve(Led::White.name()), Ok(Led::White));
    assert_eq!(Led::Red.rgb(), (255, 0, 0));
    assert_eq!(Led::White.rgb(), (255, 255, 255));
    assert_eq!(Led::Blank.rgb(), (0, 0, 0));
}

#[test]
fn controller_from_configuration() {
    let c = Config::from_names(
        vec![Task::new("echo", &["hi"])],
        vec!["white".to_string(), "blue".to_string()],
        "blank".to_string(),
        "green".to_string(),
        None,
    )
    .unwrap();
    let mut t = transition(&c).unwrap();
    let (mut tx, mut worker) = t.start().unwrap();
    assert_eq!(worker.poll(), Action::Show(frame(Led::White)));
    tx.notify_failure().unwrap();
    assert_eq!(worker.poll(), Action::Resolve(frame(Led::Blank)));
}

#[test]
fn task_loop_stops_at_first_failure() {
    let c = Config::from_names(
        vec![Task::new("a", &[]), Task::new("b", &["x", "y"]), Task::new("c", &[])],
        vec!["blue".to_string()],
        "red".to_string(),
        "green".to_string(),
        None,
    )
    .unwrap();
    let b = Blinc::new(c);
    assert_eq!(b.config().tasks()[1].args(), vec!["x", "y"]);
    assert_eq!(b.first_step(), Step::Run(0));
    assert_eq!(b.after_task(0, true), Step::Run(1));
    assert_eq!(b.after_task(1, false), Step::Finish(Msg::Failure));
    assert_eq!(b.after_task(2, true), Step::Finish(Msg::Success));
    assert_eq!(exit_code(Msg::Success), 0);
    assert_eq!(exit_code(Msg::Failure), 1);
}

#[test]
fn no_tasks_is_success() {
    let c = Config::from_names(Vec::new(), vec!["blue".to_string()], "red".to_string(), "green".to_string(), None)
        .unwrap();
    assert_eq!(Blinc::new(c).first_step(), Step::Finish(Msg::Success));
}

#[test]
fn task_without_args_has_empty_list() {
    let t = Task::from_parts("ls".to_string(), None);
    assert_eq!(t.command(), "ls");
    assert_eq!(t.args(), Vec::<String>::new());
}

#[test]
fn failure_first_wins_over_later_success() {
    let mut t = blue_blank();
    let (mut tx, mut worker) = t.start().unwrap();
    assert_eq!(tx.notify_failure(), Ok(()));
    assert_eq!(tx.notify_success(), Ok(()));
    assert_eq!(tx.accepted(), Some(Msg::Failure));
    assert_eq!(worker.poll(), Action::Resolve(frame(Led::Red)));
    worker.sent(true);
    assert_eq!(worker.poll(), Action::Stop);
}
