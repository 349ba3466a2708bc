use carousel::{Action, Carousel, Config, Event, Timer};

/// A platform timer on a clock that only moves when told to.
struct Bench {
    scheduler: Carousel<&'static str>,
    now: u64,
    armed: Option<(Timer, u64)>,
    armed_in_all: usize,
    cancelled_in_all: usize,
}

fn bench(window: usize, min_images: usize, interval_ms: u32) -> Bench {
    Bench {
        scheduler: Carousel::new(Config { window, min_images, interval_ms }),
        now: 0,
        armed: None,
        armed_in_all: 0,
        cancelled_in_all: 0,
    }
}

fn perform(b: &mut Bench, action: Action) {
    match action {
        Action::Keep => {}
        Action::Cancel => {
            if b.armed.take().is_some() {
                b.cancelled_in_all += 1;
            }
        }
        Action::Arm(timer) => {
            if b.armed.take().is_some() {
                b.cancelled_in_all += 1;
            }
            b.armed = Some((timer, b.now + timer.delay_ms as u64));
            b.armed_in_all += 1;
        }
    }
    assert_eq!(b.armed.map(|(t, _)| t), b.scheduler.pending_timer());
}

fn send(b: &mut Bench, event: Event<&'static str>) {
    assert!(b.scheduler.has_headroom());
    let action = b.scheduler.handle(event);
    perform(b, action);
}

/// Moves the clock on by `ms` and reports the times at which a tick came.
fn advance(b: &mut Bench, ms: u64) -> Vec<u64> {
    let until = b.now + ms;
    let mut ticks = Vec::new();
    loop {
        match b.armed {
            Some((timer, due)) if due <= until => {
                b.now = due;
                b.armed = None;
                let before = b.scheduler.position();
                assert!(b.scheduler.has_headroom());
                let action = b.scheduler.handle(Event::TimerFired(timer.token));
                assert_eq!(b.scheduler.position(), before + 1);
                ticks.push(due);
                perform(b, action);
            }
            _ => break,
        }
    }
    b.now = until;
    ticks
}

fn five() -> Vec<&'static str> {
    vec!["A", "B", "C", "D", "E"]
}

#[test]
fn toggle_run_on_five_images_then_one_tick() {
    let mut c: Carousel<&'static str> =
        Carousel::new(Config { window: 5, min_images: 1, interval_ms: 500 });
    c.set_images(five());
    assert_eq!(c.position(), 0);
    assert!(!c.is_running());

    let action = c.toggle_run();
    assert_eq!(c.position(), 1);
    assert!(c.is_running());
    assert_eq!(action, Action::Arm(Timer { token: 0, delay_ms: 500 }));
    assert_eq!(c.pending_timer(), Some(Timer { token: 0, delay_ms: c.interval_ms() }));
    assert_eq!(c.render_window(), Some(vec![&"B", &"C", &"D", &"E", &"A"]));

    c.timer_fired(0);
    assert_eq!(c.position(), 2);
    assert_eq!(c.render_window(), Some(vec![&"C", &"D", &"E", &"A", &"B"]));
}

#[test]
fn run_click_on_five_images_then_one_tick() {
    let mut b = bench(5, 1, 500);
    send(&mut b, Event::ImagesSelected(five()));
    assert_eq!(b.scheduler.position(), 0);
    assert!(!b.scheduler.is_running());

    send(&mut b, Event::RunClicked);
    assert_eq!(b.scheduler.position(), 1);
    assert!(b.scheduler.is_running());
    assert_eq!(b.armed, Some((Timer { token: 0, delay_ms: 500 }, 500)));
    assert_eq!(b.scheduler.render_window(), Some(vec![&"B", &"C", &"D", &"E", &"A"]));

    assert_eq!(advance(&mut b, 500), vec![500]);
    assert_eq!(b.scheduler.position(), 2);
    assert_eq!(b.scheduler.render_window(), Some(vec![&"C", &"D", &"E", &"A", &"B"]));
}

#[test]
fn run_click_without_images_arms_no_timer() {
    let mut b = bench(5, 1, 500);
    assert!(b.scheduler.images().is_empty());
    send(&mut b, Event::RunClicked);
    assert!(b.scheduler.is_running());
    assert_eq!(b.scheduler.position(), 1);
    assert_eq!(b.scheduler.pending_timer(), None);
    assert_eq!(b.armed, None);
    assert_eq!(b.armed_in_all, 0);
    assert_eq!(b.scheduler.render_window(), None);
    assert_eq!(advance(&mut b, 10_000), Vec::<u64>::new());
    assert_eq!(b.scheduler.position(), 1);
}

#[test]
fn toggle_run_without_images_arms_no_timer() {
    let mut c: Carousel<&'static str> = Carousel::new(Config { window: 5, min_images: 1, interval_ms: 500 });
    let action = c.toggle_run();
    assert!(c.is_running());
    assert_eq!(c.position(), 1);
    assert_eq!(action, Action::Cancel);
    assert_eq!(c.pending_timer(), None);
}

#[test]
fn speed_change_while_running_ticks_at_the_new_spacing() {
    let mut b = bench(4, 5, 1000);
    send(&mut b, Event::ImagesSelected(five()));
    send(&mut b, Event::RunClicked);
    assert_eq!(b.armed, Some((Timer { token: 0, delay_ms: 1000 }, 1000)));

    let action = b.scheduler.set_interval(300);
    perform(&mut b, action);
    assert_eq!(b.scheduler.interval_ms(), 300);
    assert_eq!(b.armed, Some((Timer { token: 1, delay_ms: 300 }, 300)));
    let before = b.scheduler.position();

    assert_eq!(advance(&mut b, 1000), vec![300, 600, 900]);
    assert_eq!(b.scheduler.position(), before + 3);
    assert_eq!(b.armed.map(|(_, due)| due), Some(1200));
}

#[test]
fn speed_change_does_not_let_the_old_timer_tick() {
    let mut b = bench(4, 5, 1000);
    send(&mut b, Event::ImagesSelected(five()));
    send(&mut b, Event::RunClicked);
    advance(&mut b, 900);
    // 100 ms before the first timer is due, playback is slowed down.
    send(&mut b, Event::SpeedChanged(2000));
    let before = b.scheduler.position();
    assert_eq!(advance(&mut b, 1999), Vec::<u64>::new());
    assert_eq!(b.scheduler.position(), before);
    // A platform that reports the cancelled timer all the same is not believed.
    send(&mut b, Event::TimerFired(0));
    assert_eq!(b.scheduler.position(), before);
    assert_eq!(advance(&mut b, 1), vec![2900]);
    assert_eq!(b.scheduler.position(), before + 1);
}

#[test]
fn ticks_come_one_interval_apart() {
    let mut b = bench(4, 5, 250);
    send(&mut b, Event::ImagesSelected(five()));
    send(&mut b, Event::RunClicked);
    assert_eq!(advance(&mut b, 1000), vec![250, 500, 750, 1000]);
    assert_eq!(b.scheduler.position(), 5);
}

#[test]
fn stopping_ends_the_ticks() {
    let mut b = bench(4, 5, 250);
    send(&mut b, Event::ImagesSelected(five()));
    send(&mut b, Event::RunClicked);
    advance(&mut b, 600);
    send(&mut b, Event::RunClicked);
    assert_eq!(b.armed, None);
    let at = b.scheduler.position();
    assert_eq!(advance(&mut b, 5000), Vec::<u64>::new());
    assert_eq!(b.scheduler.position(), at);
}

#[test]
fn rapid_toggling_leaves_one_timer_at_most() {
    let mut b = bench(4, 5, 500);
    send(&mut b, Event::ImagesSelected(five()));
    for _ in 0..25 {
        send(&mut b, Event::RunClicked);
    }
    // 13 starts, 12 stops: every timer but the last was cancelled.
    assert!(b.scheduler.is_running());
    assert_eq!(b.armed_in_all, 13);
    assert_eq!(b.cancelled_in_all, 12);
    assert_eq!(b.scheduler.position(), 13);
    assert_eq!(advance(&mut b, 499), Vec::<u64>::new());
    assert_eq!(advance(&mut b, 1), vec![500]);
}

#[test]
fn new_images_restart_the_pending_delay() {
    let mut b = bench(4, 5, 1000);
    send(&mut b, Event::ImagesSelected(five()));
    send(&mut b, Event::RunClicked);
    advance(&mut b, 700);
    send(&mut b, Event::ImagesSelected(vec!["X", "Y", "Z"]));
    assert_eq!(b.armed, Some((Timer { token: 1, delay_ms: 1000 }, 1700)));
    assert_eq!(advance(&mut b, 1000), vec![1700]);
}

#[test]
fn images_arriving_during_playback_start_the_ticks() {
    let mut b = bench(4, 5, 400);
    send(&mut b, Event::RunClicked);
    assert_eq!(advance(&mut b, 1000), Vec::<u64>::new());
    send(&mut b, Event::ImagesSelected(five()));
    assert_eq!(advance(&mut b, 1000), vec![1400, 1800]);
}
