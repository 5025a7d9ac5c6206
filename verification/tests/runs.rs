use gsquire::config::{Config, Thresholds};
use gsquire::decision::Action;
use gsquire::engine::{Outcome, Request, Run};
use gsquire::message::Message;
use gsquire::snapshot::{Lookup, Marker};
use gsquire::time::Age;
use gsquire::walker::{Page, Reference, WalkEnd, Walker};

const ME: u64 = 42;
const SOMEONE: u64 = 7;
const WARNING: &str = "WARNING CHANNEL DELETION IMMINENT! Speak up to keep this channel.";
const FILLER: &str = "Keeping this channel on the books.";
const NOW: i64 = 1_480_593_600_000; // 2016-12-01T12:00:00Z

fn config() -> Config {
    Config::new(
        ME,
        '-',
        String::from(FILLER),
        String::from("WARNING CHANNEL DELETION IMMINENT!"),
        String::from(WARNING),
        100,
        Thresholds::standard(),
    )
    .unwrap()
}

fn message(id: u64, author: u64, timestamp: &str, content: &str) -> Message {
    Message { id, author, timestamp: String::from(timestamp), content: String::from(content) }
}

fn over(run: Run) -> Outcome {
    assert_eq!(run.request(), Request::Nothing);
    run.outcome().expect("the run should be over")
}

#[test]
fn run_begins_by_asking_for_the_newest_message() {
    assert_eq!(Run::Start.request(), Request::Newest);
    assert_eq!(Run::Start.outcome(), None);
}

#[test]
fn run_over_an_empty_channel_posts_the_filler_and_nothing_else() {
    let outcome = over(Run::Start.step(&config(), Page::NoMessage, NOW));
    assert_eq!(
        outcome,
        Outcome {
            reference: None,
            age: None,
            marker: Lookup::NotAsked,
            post_filler: true,
            action: Action::NoAction,
        }
    );
}

#[test]
fn run_whose_first_request_fails_posts_the_filler_and_nothing_else() {
    let outcome = over(Run::Start.step(&config(), Page::Failed, NOW));
    assert!(outcome.post_filler);
    assert_eq!(outcome.action, Action::NoAction);
    assert_eq!(outcome.reference, None);
}

#[test]
fn run_is_over_at_once_when_someone_wrote_five_days_ago() {
    let newest = message(9, SOMEONE, "2016-11-26T12:00:00+00:00", "still here");
    let outcome = over(Run::Start.step(&config(), Page::Message(newest.clone()), NOW));
    assert_eq!(
        outcome,
        Outcome {
            reference: Some(Reference { message: newest, end: WalkEnd::Found }),
            age: Some(Age { days: 5, hours: 120 }),
            marker: Lookup::NotAsked,
            post_filler: false,
            action: Action::NoAction,
        }
    );
}

#[test]
fn run_walks_back_by_the_identifier_of_the_message_seen_last() {
    let cfg = config();
    let run = Run::Start.step(
        &cfg,
        Page::Message(message(90, ME, "2016-11-30T12:00:00+00:00", FILLER)),
        NOW,
    );
    assert_eq!(run.request(), Request::Before(90));
    let run = run.step(
        &cfg,
        Page::Message(message(80, ME, "2016-11-29T12:00:00+00:00", "a note")),
        NOW,
    );
    assert_eq!(run.request(), Request::Before(80));
    let human = message(70, SOMEONE, "2016-11-28T12:00:00+00:00", "hello");
    let outcome = over(run.step(&cfg, Page::Message(human.clone()), NOW));
    assert_eq!(outcome.reference, Some(Reference { message: human, end: WalkEnd::Found }));
    assert_eq!(outcome.age, Some(Age { days: 3, hours: 72 }));
    assert_eq!(outcome.action, Action::NoAction);
}

#[test]
fn run_warns_on_the_sixth_day_without_looking_for_a_marker() {
    let newest = message(9, SOMEONE, "2016-11-25T09:00:00+00:00", "see you");
    let outcome = over(Run::Start.step(&config(), Page::Message(newest), NOW));
    assert_eq!(outcome.age, Some(Age { days: 6, hours: 147 }));
    assert_eq!(outcome.marker, Lookup::NotAsked);
    assert_eq!(outcome.action, Action::SendWarning);
    assert!(!outcome.post_filler);
}

#[test]
fn run_looks_for_the_marker_from_the_seventh_day() {
    let cfg = config();
    let human = message(9, SOMEONE, "2016-11-24T12:00:00+00:00", "bye");
    let run = Run::Start.step(&cfg, Page::Message(human.clone()), NOW);
    assert_eq!(run.request(), Request::Newest);
    assert_eq!(
        run,
        Run::Looking {
            reference: Reference { message: human.clone(), end: WalkEnd::Found },
            age: Some(Age { days: 7, hours: 168 }),
        }
    );
    let outcome = over(run.step(&cfg, Page::Message(human), NOW));
    assert_eq!(outcome.marker, Lookup::Answered(Marker::Absent));
    assert_eq!(outcome.action, Action::SendWarning);
    assert!(!outcome.post_filler);
}

#[test]
fn run_does_not_look_for_the_marker_one_second_short_of_seven_days() {
    let human = message(9, SOMEONE, "2016-11-24T12:00:01+00:00", "bye");
    let outcome = over(Run::Start.step(&config(), Page::Message(human), NOW));
    assert_eq!(outcome.age, Some(Age { days: 6, hours: 167 }));
    assert_eq!(outcome.marker, Lookup::NotAsked);
    assert_eq!(outcome.action, Action::SendWarning);
}

#[test]
fn run_deletes_when_the_warning_has_stood_for_the_grace_period() {
    let cfg = config();
    let warning = message(9, ME, "2016-11-30T14:00:00+00:00", WARNING);
    let human = message(8, SOMEONE, "2016-11-23T12:00:00+00:00", "bye");
    let run = Run::Start.step(&cfg, Page::Message(warning.clone()), NOW);
    assert_eq!(run.request(), Request::Before(9));
    let run = run.step(&cfg, Page::Message(human.clone()), NOW);
    assert_eq!(run.request(), Request::Newest);
    let outcome = over(run.step(&cfg, Page::Message(warning), NOW));
    assert_eq!(
        outcome,
        Outcome {
            reference: Some(Reference { message: human, end: WalkEnd::Found }),
            age: Some(Age { days: 8, hours: 192 }),
            marker: Lookup::Answered(Marker::Aged(22)),
            post_filler: false,
            action: Action::DeleteChannel,
        }
    );
}

#[test]
fn run_waits_while_the_warning_is_younger_than_the_grace_period() {
    let cfg = config();
    let warning = message(9, ME, "2016-11-30T15:00:00+00:00", WARNING);
    let human = message(8, SOMEONE, "2016-11-23T12:00:00+00:00", "bye");
    let run = Run::Start.step(&cfg, Page::Message(warning.clone()), NOW);
    let run = run.step(&cfg, Page::Message(human), NOW);
    let outcome = over(run.step(&cfg, Page::Message(warning), NOW));
    assert_eq!(outcome.marker, Lookup::Answered(Marker::Aged(21)));
    assert_eq!(outcome.action, Action::NoAction);
    assert!(!outcome.post_filler);
}

#[test]
fn run_warns_again_when_the_warning_cannot_be_dated() {
    let cfg = config();
    let warning = message(9, ME, "garbled", WARNING);
    let filler = message(8, ME, "2016-11-20T12:00:00+00:00", FILLER);
    let run = Run::Start.step(&cfg, Page::Message(warning.clone()), NOW);
    let run = run.step(&cfg, Page::Message(filler.clone()), NOW);
    let run = run.step(&cfg, Page::NoMessage, NOW);
    assert_eq!(run.request(), Request::Newest);
    let outcome = over(run.step(&cfg, Page::Message(warning), NOW));
    assert_eq!(
        outcome,
        Outcome {
            reference: Some(Reference { message: filler, end: WalkEnd::Exhausted }),
            age: Some(Age { days: 11, hours: 264 }),
            marker: Lookup::Answered(Marker::AgeUnknown),
            post_filler: false,
            action: Action::SendWarning,
        }
    );
}

#[test]
fn run_leaves_the_channel_alone_when_someone_s_message_cannot_be_dated() {
    let human = message(9, SOMEONE, "the other day", "bye");
    let outcome = over(Run::Start.step(&config(), Page::Message(human.clone()), NOW));
    assert_eq!(
        outcome,
        Outcome {
            reference: Some(Reference { message: human, end: WalkEnd::Found }),
            age: None,
            marker: Lookup::NotAsked,
            post_filler: false,
            action: Action::NoAction,
        }
    );
}

#[test]
fn run_goes_on_with_the_fallback_when_paging_fails() {
    let cfg = config();
    let filler = message(9, ME, "2016-11-25T12:00:00+00:00", FILLER);
    let run = Run::Start.step(&cfg, Page::Message(filler.clone()), NOW);
    let outcome = over(run.step(&cfg, Page::Failed, NOW));
    assert_eq!(outcome.reference, Some(Reference { message: filler, end: WalkEnd::Failed }));
    assert_eq!(outcome.age, Some(Age { days: 6, hours: 144 }));
    assert_eq!(outcome.action, Action::SendWarning);
}

#[test]
fn run_sends_nothing_when_the_marker_cannot_be_fetched() {
    let cfg = config();
    let human = message(9, SOMEONE, "2016-11-20T12:00:00+00:00", "bye");
    let run = Run::Start.step(&cfg, Page::Message(human.clone()), NOW);
    let outcome = over(run.step(&cfg, Page::Failed, NOW));
    assert_eq!(
        outcome,
        Outcome {
            reference: Some(Reference { message: human, end: WalkEnd::Found }),
            age: Some(Age { days: 11, hours: 264 }),
            marker: Lookup::Failed,
            post_filler: false,
            action: Action::NoAction,
        }
    );
}

#[test]
fn run_sends_nothing_when_the_marker_of_an_undated_channel_cannot_be_fetched() {
    let cfg = config();
    let run = Run::Start.step(&cfg, Page::Message(message(9, ME, "garbled", WARNING)), NOW);
    let run = run.step(&cfg, Page::NoMessage, NOW);
    assert_eq!(run.request(), Request::Newest);
    let outcome = over(run.step(&cfg, Page::Failed, NOW));
    assert_eq!(outcome.marker, Lookup::Failed);
    assert!(!outcome.post_filler);
    assert_eq!(outcome.action, Action::NoAction);
}

#[test]
fn run_resends_a_lone_warning_that_cannot_be_dated() {
    let cfg = config();
    let warning = message(9, ME, "garbled", WARNING);
    let run = Run::Start.step(&cfg, Page::Message(warning.clone()), NOW);
    assert_eq!(run.request(), Request::Before(9));
    let run = run.step(&cfg, Page::NoMessage, NOW);
    assert_eq!(
        run,
        Run::Looking {
            reference: Reference { message: warning.clone(), end: WalkEnd::Exhausted },
            age: None,
        }
    );
    assert_eq!(run.request(), Request::Newest);
    let outcome = over(run.step(&cfg, Page::Message(warning.clone()), NOW));
    assert_eq!(
        outcome,
        Outcome {
            reference: Some(Reference { message: warning, end: WalkEnd::Exhausted }),
            age: None,
            marker: Lookup::Answered(Marker::AgeUnknown),
            post_filler: false,
            action: Action::SendWarning,
        }
    );
}

#[test]
fn run_resends_an_undatable_warning_when_paging_failed_behind_it() {
    let cfg = config();
    let warning = message(9, ME, "garbled", WARNING);
    let run = Run::Start.step(&cfg, Page::Message(warning.clone()), NOW);
    let run = run.step(&cfg, Page::Failed, NOW);
    assert_eq!(run.request(), Request::Newest);
    let outcome = over(run.step(&cfg, Page::Message(warning), NOW));
    assert_eq!(outcome.reference.unwrap().end, WalkEnd::Failed);
    assert_eq!(outcome.action, Action::SendWarning);
    assert!(!outcome.post_filler);
}

#[test]
fn run_leaves_an_undated_channel_alone_unless_its_warning_is_undated_too() {
    let cfg = config();
    let filler = message(9, ME, "garbled", FILLER);
    let run = Run::Start.step(&cfg, Page::Message(filler.clone()), NOW);
    let run = run.step(&cfg, Page::NoMessage, NOW);
    assert_eq!(run.request(), Request::Newest);
    let outcome = over(run.clone().step(&cfg, Page::Message(filler), NOW));
    assert_eq!(outcome.marker, Lookup::Answered(Marker::Absent));
    assert_eq!(outcome.action, Action::NoAction);
    let dated = message(10, ME, "2016-11-01T12:00:00+00:00", WARNING);
    let outcome = over(run.clone().step(&cfg, Page::Message(dated), NOW));
    assert_eq!(outcome.marker, Lookup::Answered(Marker::Aged(720)));
    assert_eq!(outcome.action, Action::NoAction);
    let outcome = over(run.step(&cfg, Page::NoMessage, NOW));
    assert_eq!(outcome.marker, Lookup::Answered(Marker::Absent));
    assert_eq!(outcome.action, Action::NoAction);
    assert!(outcome.post_filler);
}

#[test]
fn run_goes_by_the_thresholds_of_its_settings() {
    let cfg = Config::new(
        ME,
        '-',
        String::from(FILLER),
        String::from("WARNING CHANNEL DELETION IMMINENT!"),
        String::from(WARNING),
        100,
        Thresholds { warn_after_days: 2, delete_after_days: 3, grace_hours: 1 },
    )
    .unwrap();
    let two_days = message(9, SOMEONE, "2016-11-29T12:00:00+00:00", "bye");
    let outcome = over(Run::Start.step(&cfg, Page::Message(two_days), NOW));
    assert_eq!(outcome.action, Action::SendWarning);
    let one_day = message(9, SOMEONE, "2016-11-30T12:00:01+00:00", "bye");
    let outcome = over(Run::Start.step(&cfg, Page::Message(one_day), NOW));
    assert_eq!(outcome.action, Action::NoAction);
    let warning = message(9, ME, "2016-12-01T11:00:00+00:00", WARNING);
    let three_days = message(8, SOMEONE, "2016-11-28T12:00:00+00:00", "bye");
    let run = Run::Start.step(&cfg, Page::Message(warning.clone()), NOW);
    let run = run.step(&cfg, Page::Message(three_days), NOW);
    assert_eq!(run.request(), Request::Newest);
    let outcome = over(run.step(&cfg, Page::Message(warning), NOW));
    assert_eq!(outcome.marker, Lookup::Answered(Marker::Aged(1)));
    assert_eq!(outcome.action, Action::DeleteChannel);
}

#[test]
fn run_posts_filler_and_warning_when_the_channel_has_gone_empty_meanwhile() {
    let cfg = config();
    let human = message(9, SOMEONE, "2016-11-20T12:00:00+00:00", "bye");
    let run = Run::Start.step(&cfg, Page::Message(human), NOW);
    let outcome = over(run.step(&cfg, Page::NoMessage, NOW));
    assert!(outcome.post_filler);
    assert_eq!(outcome.action, Action::SendWarning);
}

#[test]
fn run_dates_each_answer_by_the_time_it_is_given() {
    let cfg = config();
    let warning = message(9, ME, "2016-11-30T14:30:00+00:00", WARNING);
    let human = message(8, SOMEONE, "2016-11-23T12:00:00+00:00", "bye");
    let run = Run::Start.step(&cfg, Page::Message(warning.clone()), NOW);
    let run = run.step(&cfg, Page::Message(human), NOW);
    let half_an_hour_on = NOW + 30 * 60 * 1000;
    let outcome = over(run.step(&cfg, Page::Message(warning), half_an_hour_on));
    assert_eq!(outcome.age, Some(Age { days: 8, hours: 192 }));
    assert_eq!(outcome.marker, Lookup::Answered(Marker::Aged(22)));
    assert_eq!(outcome.action, Action::DeleteChannel);
}

#[test]
fn run_that_is_over_stays_as_it_is() {
    let cfg = config();
    let run = Run::Start.step(&cfg, Page::NoMessage, NOW);
    let again = run.clone().step(
        &cfg,
        Page::Message(message(1, SOMEONE, "2016-11-20T12:00:00+00:00", "late")),
        NOW,
    );
    assert_eq!(again, run);
}

#[test]
fn run_walks_on_from_a_walker_handed_in() {
    let cfg = config();
    let walker = Walker {
        cursor: 5,
        fallback: message(6, ME, "2016-11-25T12:00:00+00:00", FILLER),
        pages_left: 3,
    };
    let run = Run::Walking(walker);
    assert_eq!(run.request(), Request::Before(5));
    let outcome = over(run.step(&cfg, Page::NoMessage, NOW));
    assert_eq!(outcome.action, Action::SendWarning);
}

#[test]
fn run_asks_for_no_more_pages_than_the_limit() {
    let cfg = Config::new(
        ME,
        '-',
        String::from(FILLER),
        String::from("WARNING CHANNEL DELETION IMMINENT!"),
        String::from(WARNING),
        3,
        Thresholds::standard(),
    )
    .unwrap();
    let mut run = Run::Start;
    let mut id: u64 = 1000;
    let mut asked_before = 0;
    loop {
        match run.request() {
            Request::Nothing => break,
            Request::Newest => {},
            Request::Before(cursor) => {
                assert_eq!(cursor, id);
                asked_before += 1;
                id -= 1;
            },
        }
        run = run.step(&cfg, Page::Message(message(id, ME, "2016-11-30T12:00:00+00:00", FILLER)), NOW);
    }
    assert_eq!(asked_before, 3);
    let outcome = run.outcome().unwrap();
    assert_eq!(outcome.reference.unwrap().end, WalkEnd::LimitReached);
}
