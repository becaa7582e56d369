use lilac::clock::Clock;
use lilac::queue::Queue;
use lilac::session::{Command, Event, Key, Refusal, Session, RESTART_AFTER};
use lilac::state::{VolumeState, MAX_VOLUME, VOLUME_STEP};
use lilac::track::Lilac;

const SECOND: u128 = 1_000_000_000;

fn track(title: &str, millis: usize) -> Lilac {
    let mut l = Lilac::new(1, 1000, 16, vec![0; millis]);
    l.title = Some(title.to_string());
    l
}

fn queue(lengths: &[usize]) -> Queue {
    let mut loads = Vec::new();
    for (i, millis) in lengths.iter().enumerate() {
        loads.push((Some(track(&format!("t{}", i), *millis)), format!("t{}.lilac", i)));
    }
    Queue::new(loads)
}

fn press(s: &mut Session, key: Key, now: u128) -> Command {
    s.apply(Event::Input(key), now)
}

#[test]
fn session_begins_held_at_full_volume() {
    let s = Session::new(queue(&[3000, 1000]), 7);
    let c = s.controls();
    assert!(!c.playback.playing);
    assert_eq!(c.playback.played, 0);
    assert_eq!(c.playback.duration, 3 * SECOND);
    assert_eq!(c.volume, VolumeState(100));
    assert_eq!(s.queue().current().idx, 0);
}

#[test]
fn open_refuses_an_empty_queue() {
    match Session::open(Queue::new(vec![]), 0) {
        Err(Refusal::Empty) => {}
        _ => panic!("an empty queue begins no session"),
    }
    match Session::open(Queue::new(vec![(None, "gone.lilac".to_string())]), 0) {
        Err(Refusal::Empty) => {}
        _ => panic!("a queue of failed loads begins no session"),
    }
}

#[test]
fn open_refuses_a_track_without_a_stream() {
    let q = Queue::new(vec![
        (Some(track("fine", 10)), "a.lilac".to_string()),
        (Some(Lilac::new(2, 500, 16, vec![0; 10])), "b.lilac".to_string()),
    ]);
    match Session::open(q, 0) {
        Err(Refusal::Unplayable) => {}
        _ => panic!("a track below a kilohertz has no stream"),
    }
}

#[test]
fn open_begins_on_a_good_queue() {
    let s = Session::open(queue(&[1500]), 3).ok().expect("a session");
    assert_eq!(s.controls().playback.duration, 1_500_000_000);
    assert!(!s.controls().playback.playing);
}

#[test]
fn space_toggles_play_and_pause() {
    let mut s = Session::new(queue(&[10_000]), 0);
    assert_eq!(press(&mut s, Key::Space, SECOND), Command::Play);
    assert!(s.controls().playback.playing);
    assert_eq!(press(&mut s, Key::Space, 3 * SECOND), Command::Pause);
    assert!(!s.controls().playback.playing);
    assert_eq!(s.apply(Event::Tick, 8 * SECOND), Command::Nothing);
    assert_eq!(s.controls().playback.played, 2 * SECOND);
}

#[test]
fn toggle_twice_is_a_round_trip() {
    let mut s = Session::new(queue(&[10_000, 10_000]), 0);
    press(&mut s, Key::Space, 0);
    s.apply(Event::Tick, 4 * SECOND);
    let before = s.controls();
    // playing: pause and play again; the time between is not counted
    press(&mut s, Key::Space, 5 * SECOND);
    press(&mut s, Key::Space, 7 * SECOND);
    assert_eq!(s.controls(), before);
    assert_eq!(s.queue().current().idx, 0);
    s.apply(Event::Tick, 7 * SECOND);
    assert_eq!(s.controls().playback.played, 5 * SECOND);

    // held: play and pause at once gathers nothing
    press(&mut s, Key::Space, 8 * SECOND);
    s.apply(Event::Tick, 20 * SECOND);
    let held = s.controls();
    assert!(!held.playback.playing);
    press(&mut s, Key::Space, 21 * SECOND);
    press(&mut s, Key::Space, 21 * SECOND);
    s.apply(Event::Tick, 30 * SECOND);
    assert_eq!(s.controls(), held);
}

#[test]
fn auto_advance_through_two_tracks_then_hold_at_the_first() {
    let mut s = Session::new(queue(&[1000, 2000]), 0);
    assert_eq!(press(&mut s, Key::Space, 0), Command::Play);

    assert_eq!(s.apply(Event::Tick, SECOND / 2), Command::Nothing);
    assert_eq!(s.controls().playback.played, SECOND / 2);
    assert_eq!(s.queue().current().idx, 0);

    // the first track ends
    assert_eq!(s.apply(Event::Tick, SECOND), Command::Reload);
    assert_eq!(s.queue().current().idx, 1);
    assert_eq!(s.controls().playback.played, 0);
    assert_eq!(s.controls().playback.duration, 2 * SECOND);
    assert!(s.controls().playback.playing);

    assert_eq!(s.apply(Event::Tick, 2 * SECOND), Command::Nothing);
    assert_eq!(s.controls().playback.played, SECOND);
    assert_eq!(s.queue().current().idx, 1);

    // the second and last track ends
    assert_eq!(s.apply(Event::Tick, 3 * SECOND), Command::Reload);
    assert_eq!(s.queue().current().idx, 0);
    assert_eq!(s.controls().playback.played, 0);
    assert_eq!(s.controls().playback.duration, SECOND);
    assert!(!s.controls().playback.playing);

    // held: the clock stands
    assert_eq!(s.apply(Event::Tick, 60 * SECOND), Command::Nothing);
    assert_eq!(s.controls().playback.played, 0);
    assert_eq!(s.queue().current().idx, 0);
}

#[test]
fn held_session_does_not_advance() {
    let mut s = Session::new(queue(&[1000, 1000]), 0);
    press(&mut s, Key::Space, 0);
    press(&mut s, Key::Space, 2 * SECOND);
    assert_eq!(s.apply(Event::Tick, 3 * SECOND), Command::Nothing);
    assert_eq!(s.queue().current().idx, 0);
    assert_eq!(s.controls().playback.played, 2 * SECOND);
}

#[test]
fn back_early_goes_to_the_track_before() {
    let mut s = Session::new(queue(&[10_000, 10_000, 10_000]), 0);
    assert_eq!(press(&mut s, Key::Right, 0), Command::Reload);
    press(&mut s, Key::Space, 0);
    assert_eq!(s.queue().current().idx, 1);
    s.apply(Event::Tick, SECOND);
    assert_eq!(s.controls().playback.played, SECOND);
    assert_eq!(press(&mut s, Key::Left, SECOND), Command::Reload);
    assert_eq!(s.queue().current().idx, 0);
    assert_eq!(s.controls().playback.played, 0);
    assert!(s.controls().playback.playing);
}

#[test]
fn back_late_restarts_the_track() {
    let mut s = Session::new(queue(&[10_000, 10_000, 10_000]), 0);
    press(&mut s, Key::Right, 0);
    press(&mut s, Key::Space, 0);
    s.apply(Event::Tick, 5 * SECOND);
    assert_eq!(s.controls().playback.played, 5 * SECOND);
    assert_eq!(press(&mut s, Key::Left, 5 * SECOND), Command::Reload);
    assert_eq!(s.queue().current().idx, 1);
    assert_eq!(s.controls().playback.played, 0);
    s.apply(Event::Tick, 6 * SECOND);
    assert_eq!(s.controls().playback.played, SECOND);
}

#[test]
fn back_threshold_is_two_seconds() {
    assert_eq!(RESTART_AFTER, 2 * SECOND);
    let mut s = Session::new(queue(&[10_000, 10_000]), 0);
    press(&mut s, Key::Right, 0);
    press(&mut s, Key::Space, 0);
    press(&mut s, Key::Left, 2 * SECOND);
    assert_eq!(s.queue().current().idx, 1);
    press(&mut s, Key::Left, 2 * SECOND + 2 * SECOND - 1);
    assert_eq!(s.queue().current().idx, 0);
}

#[test]
fn back_on_the_first_track_restarts_it() {
    let mut s = Session::new(queue(&[10_000, 10_000]), 0);
    press(&mut s, Key::Space, 0);
    s.apply(Event::Tick, SECOND);
    assert_eq!(press(&mut s, Key::Left, SECOND), Command::Reload);
    assert_eq!(s.queue().current().idx, 0);
    assert_eq!(s.controls().playback.played, 0);
}

#[test]
fn forward_on_the_last_track_is_ignored() {
    let mut s = Session::new(queue(&[10_000, 4_000]), 0);
    press(&mut s, Key::Space, 0);
    assert_eq!(press(&mut s, Key::Right, SECOND), Command::Reload);
    assert_eq!(s.queue().current().idx, 1);
    assert_eq!(s.controls().playback.duration, 4 * SECOND);
    s.apply(Event::Tick, 2 * SECOND);
    let before = s.controls();
    assert_eq!(press(&mut s, Key::Right, 3 * SECOND), Command::Nothing);
    assert_eq!(s.queue().current().idx, 1);
    assert_eq!(s.controls(), before);
    s.apply(Event::Tick, 3 * SECOND);
    assert_eq!(s.controls().playback.played, 2 * SECOND);
}

#[test]
fn skip_keeps_playing_flag_and_volume() {
    let mut s = Session::new(queue(&[10_000, 10_000]), 0);
    press(&mut s, Key::Down, 0);
    press(&mut s, Key::Right, 0);
    assert!(!s.controls().playback.playing);
    assert_eq!(s.controls().volume, VolumeState(99));
    press(&mut s, Key::Space, 0);
    press(&mut s, Key::Left, 0);
    assert!(s.controls().playback.playing);
    assert_eq!(s.controls().volume, VolumeState(99));
}

#[test]
fn volume_keys_step_and_clamp() {
    assert_eq!(VOLUME_STEP, 1);
    assert_eq!(MAX_VOLUME, 100);
    let mut s = Session::new(queue(&[10_000]), 0);
    assert_eq!(press(&mut s, Key::Up, 0), Command::Volume(100));
    assert_eq!(s.controls().volume, VolumeState(100));
    assert_eq!(press(&mut s, Key::Down, 0), Command::Volume(99));
    assert_eq!(press(&mut s, Key::Down, 0), Command::Volume(98));
    assert_eq!(press(&mut s, Key::Up, 0), Command::Volume(99));
    for _ in 0..200 {
        press(&mut s, Key::Down, 0);
    }
    assert_eq!(s.controls().volume, VolumeState(0));
    assert_eq!(press(&mut s, Key::Down, 0), Command::Volume(0));
    for _ in 0..200 {
        press(&mut s, Key::Up, 0);
    }
    assert_eq!(s.controls().volume, VolumeState(100));
    assert!(!s.controls().playback.playing);
    assert_eq!(s.controls().playback.played, 0);
}

#[test]
fn volume_up_from_98_in_steps_of_5_stays_at_100() {
    let mut v = VolumeState(98);
    v.raise(5);
    assert_eq!(v, VolumeState(100));
    for _ in 0..10 {
        v.raise(5);
        assert!(v.0 <= 100);
    }
    assert_eq!(v, VolumeState(100));
    let mut w = VolumeState(90);
    w.raise(5);
    assert_eq!(w, VolumeState(95));
    w.raise(u16::MAX);
    assert_eq!(w, VolumeState(100));
}

#[test]
fn volume_down_from_2_in_steps_of_5_stays_at_0() {
    let mut v = VolumeState(2);
    v.lower(5);
    assert_eq!(v, VolumeState(0));
    for _ in 0..10 {
        v.lower(5);
    }
    assert_eq!(v, VolumeState(0));
    let mut w = VolumeState(12);
    w.lower(5);
    assert_eq!(w, VolumeState(7));
}

#[test]
fn escape_quits_and_other_keys_do_nothing() {
    let mut s = Session::new(queue(&[10_000]), 0);
    press(&mut s, Key::Space, 0);
    s.apply(Event::Tick, SECOND);
    let before = s.controls();
    assert_eq!(press(&mut s, Key::Other, 2 * SECOND), Command::Nothing);
    assert_eq!(s.controls(), before);
    assert_eq!(press(&mut s, Key::Esc, 2 * SECOND), Command::Quit);
    assert_eq!(s.controls(), before);
}

#[test]
fn state_shows_the_current_track_and_the_listing() {
    let mut s = Session::new(queue(&[10_000, 5_000]), 0);
    press(&mut s, Key::Right, 0);
    let st = s.state();
    assert_eq!(st.controls, s.controls());
    assert_eq!(st.info.metadata.title, "t1");
    assert_eq!(st.info.metadata.artist, "Unknown");
    assert_eq!(st.info.metadata.album, "Unknown");
    assert_eq!(st.info.metadata.channels, 1);
    assert_eq!(st.info.metadata.sample_rate, 1000);
    assert_eq!(st.info.metadata.bit_depth, 16);
    assert_eq!(st.info.queue.queue, vec!["t0".to_string(), "t1".to_string()]);
    assert_eq!(st.info.queue.current, 1);
}

#[test]
fn handle_reads_the_clock() {
    let clock = Clock::new();
    let mut s = Session::new(queue(&[600_000]), clock.now());
    assert_eq!(s.handle(Event::Input(Key::Space), &clock), Command::Play);
    assert_eq!(s.handle(Event::Tick, &clock), Command::Nothing);
    assert!(s.controls().playback.played < 600 * SECOND);
    assert_eq!(s.handle(Event::Input(Key::Esc), &clock), Command::Quit);
}

#[test]
fn space_bar_is_the_only_character_key() {
    assert_eq!(Key::from_char(' '), Key::Space);
    assert_eq!(Key::from_char('q'), Key::Other);
    assert_eq!(Key::from_char('\n'), Key::Other);
}
