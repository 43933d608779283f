use track_monitor::detect::should_emit;
use track_monitor::scheduler::{Action, ConfigError, Event, Monitor, Phase, BACKOFF_SECS, TICK_SECS};
use track_monitor::track::{format_identity, TrackMetadata};

fn meta(title: Option<&str>, artists: Option<Vec<&str>>) -> TrackMetadata {
    TrackMetadata {
        title: title.map(|t| t.to_string()),
        artists: artists.map(|a| a.into_iter().map(|s| s.to_string()).collect()),
    }
}

/// What a scripted player answers when read.
#[derive(Clone)]
enum Script {
    Track(Option<&'static str>, Option<Vec<&'static str>>),
    Fails,
}

/// A scripted environment: the registry's answer, whether writes succeed,
/// and a record of what happened.
struct Fake {
    registry: Result<Vec<Script>, ()>,
    publish_ok: bool,
    file: String,
    publishes: Vec<String>,
    reads: Vec<usize>,
    waits: Vec<u64>,
}

impl Fake {
    fn new() -> Fake {
        Fake {
            registry: Ok(vec![]),
            publish_ok: true,
            file: String::new(),
            publishes: vec![],
            reads: vec![],
            waits: vec![],
        }
    }

    /// Runs one tick from `Idle` until the monitor asks to wait, and returns
    /// that wait.
    fn tick(&mut self, mon: &mut Monitor) -> u64 {
        assert_eq!(mon.phase(), Phase::Idle);
        let mut action = mon.step(Event::TimerElapsed).unwrap();
        loop {
            let event = match action {
                Action::Wait(s) => {
                    self.waits.push(s);
                    return s;
                }
                Action::FindPlayers => match &self.registry {
                    Ok(players) => Event::PlayersFound(players.len()),
                    Err(()) => Event::RegistryFailed,
                },
                Action::ReadPlayer(i) => {
                    self.reads.push(i);
                    match self.registry.as_ref().unwrap()[i].clone() {
                        Script::Track(t, a) => Event::MetadataRead(meta(t, a)),
                        Script::Fails => Event::ReadFailed,
                    }
                }
                Action::Publish(id) => {
                    self.publishes.push(id.clone());
                    if self.publish_ok {
                        self.file = id;
                        Event::Published
                    } else {
                        Event::PublishFailed
                    }
                }
            };
            action = mon.step(event).unwrap();
        }
    }
}

#[test]
fn format_joins_artists_and_title() {
    let m = meta(Some("T"), Some(vec!["a1", "a2", "a3"]));
    assert_eq!(format_identity(&m), "a1, a2, a3 - T");
    let m = meta(Some("Song A"), Some(vec!["Band X"]));
    assert_eq!(format_identity(&m), "Band X - Song A");
}

#[test]
fn format_missing_title_is_unknown() {
    let m = meta(None, Some(vec!["Band X", "Band Y"]));
    assert_eq!(format_identity(&m), "Band X, Band Y - Unknown");
}

#[test]
fn format_missing_or_empty_artists_is_unknown() {
    assert_eq!(format_identity(&meta(Some("Song"), None)), "Unknown - Song");
    assert_eq!(format_identity(&meta(Some("Song"), Some(vec![]))), "Unknown - Song");
    assert_eq!(format_identity(&meta(None, None)), "Unknown - Unknown");
}

#[test]
fn format_keeps_empty_names() {
    assert_eq!(format_identity(&meta(Some(""), Some(vec!["", "b"]))), ", b - ");
}

#[test]
fn unchanged_identity_does_not_emit() {
    let x = "Band X - Song A".to_string();
    assert!(!should_emit(&x, &x.clone()));
}

#[test]
fn empty_candidate_does_not_emit() {
    assert!(!should_emit(&String::new(), &String::new()));
    assert!(!should_emit(&String::new(), &"Band X - Song A".to_string()));
}

#[test]
fn new_identity_emits() {
    assert!(should_emit(&"Band X - Song B".to_string(), &"Band X - Song A".to_string()));
    assert!(should_emit(&"Band X - Song A".to_string(), &String::new()));
}

#[test]
fn intervals_must_grow_for_backoff() {
    assert!(matches!(Monitor::with_intervals(2, 2), Err(ConfigError::BackoffNotLonger)));
    assert!(matches!(Monitor::with_intervals(3, 1), Err(ConfigError::BackoffNotLonger)));
    let mut mon = Monitor::with_intervals(1, 4).ok().unwrap();
    let mut fake = Fake::new();
    assert_eq!(fake.tick(&mut mon), 1);
    fake.registry = Err(());
    assert_eq!(fake.tick(&mut mon), 4);
}

#[test]
fn new_monitor_starts_idle_and_empty() {
    let mon = Monitor::new();
    assert_eq!(mon.phase(), Phase::Idle);
    assert_eq!(mon.last_published(), "");
    assert!(TICK_SECS < BACKOFF_SECS);
}

#[test]
fn unexpected_event_is_refused() {
    let mut mon = Monitor::new();
    assert!(mon.step(Event::Published).is_none());
    assert!(mon.step(Event::PlayersFound(1)).is_none());
    assert_eq!(mon.phase(), Phase::Idle);
    assert!(matches!(mon.step(Event::TimerElapsed), Some(Action::FindPlayers)));
    assert!(mon.step(Event::TimerElapsed).is_none());
    assert_eq!(mon.phase(), Phase::Finding);
}

#[test]
fn no_players_waits_a_tick() {
    let mut mon = Monitor::new();
    let mut fake = Fake::new();
    assert_eq!(fake.tick(&mut mon), TICK_SECS);
    assert!(fake.reads.is_empty());
    assert!(fake.publishes.is_empty());
}

#[test]
fn read_failure_does_not_stop_other_players() {
    let mut mon = Monitor::new();
    let mut fake = Fake::new();
    fake.registry = Ok(vec![
        Script::Track(Some("One"), Some(vec!["A"])),
        Script::Fails,
        Script::Track(Some("Three"), Some(vec!["C"])),
    ]);
    assert_eq!(fake.tick(&mut mon), TICK_SECS);
    assert_eq!(fake.reads, vec![0, 1, 2]);
    assert_eq!(fake.publishes, vec!["A - One".to_string(), "C - Three".to_string()]);
    assert_eq!(mon.last_published(), "C - Three");
}

#[test]
fn registry_failure_backs_off_then_scans_again() {
    let mut mon = Monitor::new();
    let mut fake = Fake::new();
    fake.registry = Err(());
    assert_eq!(fake.tick(&mut mon), BACKOFF_SECS);
    assert_eq!(mon.phase(), Phase::Backoff);
    assert!(matches!(mon.step(Event::TimerElapsed), Some(Action::Wait(TICK_SECS))));
    fake.registry = Ok(vec![Script::Track(Some("Song A"), Some(vec!["Band X"]))]);
    assert_eq!(fake.tick(&mut mon), TICK_SECS);
    assert_eq!(fake.file, "Band X - Song A");
}

#[test]
fn publish_failure_keeps_last_published() {
    let mut mon = Monitor::new();
    let mut fake = Fake::new();
    fake.registry = Ok(vec![Script::Track(Some("Song A"), Some(vec!["Band X"]))]);
    fake.tick(&mut mon);
    fake.registry = Ok(vec![
        Script::Track(Some("Song B"), Some(vec!["Band X"])),
        Script::Track(Some("Song C"), Some(vec!["Band Y"])),
    ]);
    fake.publish_ok = false;
    assert_eq!(fake.tick(&mut mon), BACKOFF_SECS);
    assert_eq!(fake.reads, vec![0, 0]);
    assert_eq!(mon.last_published(), "Band X - Song A");
    assert!(matches!(mon.step(Event::TimerElapsed), Some(Action::Wait(TICK_SECS))));
    fake.publish_ok = true;
    fake.tick(&mut mon);
    assert_eq!(mon.last_published(), "Band Y - Song C");
    assert_eq!(fake.file, "Band Y - Song C");
}

#[test]
fn end_to_end_four_ticks() {
    let mut mon = Monitor::new();
    let mut fake = Fake::new();
    // First tick: the new track is written.
    fake.registry = Ok(vec![Script::Track(Some("Song A"), Some(vec!["Band X"]))]);
    fake.tick(&mut mon);
    assert_eq!(fake.publishes, vec!["Band X - Song A".to_string()]);
    assert_eq!(fake.file, "Band X - Song A");
    assert_eq!(mon.last_published(), "Band X - Song A");
    // Second tick: the title changed.
    fake.registry = Ok(vec![Script::Track(Some("Song B"), Some(vec!["Band X"]))]);
    fake.tick(&mut mon);
    assert_eq!(fake.publishes.len(), 2);
    assert_eq!(fake.publishes[1], "Band X - Song B");
    assert_eq!(mon.last_published(), "Band X - Song B");
    // Third tick: nothing changed, nothing is written.
    fake.tick(&mut mon);
    assert_eq!(fake.publishes.len(), 2);
    assert_eq!(fake.file, "Band X - Song B");
    // Fourth tick: the only player cannot be read.
    fake.registry = Ok(vec![Script::Fails]);
    assert_eq!(fake.tick(&mut mon), TICK_SECS);
    assert_eq!(fake.publishes.len(), 2);
    assert_eq!(mon.last_published(), "Band X - Song B");
}

#[test]
fn same_track_on_two_players_is_written_once() {
    let mut mon = Monitor::new();
    let mut fake = Fake::new();
    fake.registry = Ok(vec![
        Script::Track(Some("Song A"), Some(vec!["Band X"])),
        Script::Track(Some("Song A"), Some(vec!["Band X"])),
    ]);
    fake.tick(&mut mon);
    assert_eq!(fake.publishes, vec!["Band X - Song A".to_string()]);
}
