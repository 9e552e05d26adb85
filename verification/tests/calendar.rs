use css_server::calendar::{
    cache_fresh, expand_occurrences, feed_events, feed_from_items, lookahead_limit, merge_events, parse_feed, rrule_count,
    rrule_frequency, rrule_interval, CalendarEvent, Frequency, IcalEvent, IcalTime,
};
use css_server::models::Timestamp;

const NOW: i64 = 1_893_456_000; // 2030-01-01T00:00:00Z
const DAY: i64 = 86_400;

fn at(s: i64) -> Timestamp {
    Timestamp { unix_seconds: s, nanos: 0 }
}

#[test]
fn rrules_are_read() {
    assert_eq!(rrule_frequency("FREQ=WEEKLY;BYDAY=MO,WE"), Some(Frequency::Weekly));
    assert_eq!(rrule_frequency("FREQ=DAILY"), Some(Frequency::Daily));
    assert_eq!(rrule_frequency("INTERVAL=2;FREQ=MONTHLY"), Some(Frequency::Monthly));
    assert_eq!(rrule_frequency("FREQ=YEARLY"), None);
    assert_eq!(rrule_interval("FREQ=DAILY;INTERVAL=3"), 3);
    assert_eq!(rrule_interval("FREQ=DAILY"), 1);
    assert_eq!(rrule_interval("FREQ=DAILY;INTERVAL=x;INTERVAL=4"), 1);
    assert_eq!(rrule_count("FREQ=DAILY;COUNT=10"), Some(10));
    assert_eq!(rrule_count("FREQ=DAILY;COUNT=-1"), None);
    assert_eq!(rrule_count("FREQ=DAILY"), None);
}

#[test]
fn occurrences_run_from_now_to_the_limit() {
    let limit = at(NOW + 10 * DAY);
    // Daily from two days ago: only today's and later occurrences show.
    let occ = expand_occurrences(at(NOW - 2 * DAY), Some(at(NOW - 2 * DAY + 3600)), at(NOW), limit, Frequency::Daily, 1, None)
        .unwrap();
    assert_eq!(occ.len(), 11);
    assert_eq!(occ[0].0, at(NOW));
    assert_eq!(occ[0].1, Some(at(NOW + 3600)));
    assert_eq!(occ[10].0, at(NOW + 10 * DAY));
    // A count counts steps taken before now too.
    let counted = expand_occurrences(at(NOW - 2 * DAY), None, at(NOW), limit, Frequency::Daily, 1, Some(3)).unwrap();
    assert_eq!(counted.len(), 1);
    assert_eq!(counted[0].1, None);
    // Every other week.
    let weekly = expand_occurrences(at(NOW), None, at(NOW), at(NOW + 40 * DAY), Frequency::Weekly, 2, None).unwrap();
    let starts: Vec<i64> = weekly.iter().map(|o| o.0.unix_seconds).collect();
    assert_eq!(starts, vec![NOW, NOW + 14 * DAY, NOW + 28 * DAY]);
    // A "month" is thirty days.
    let monthly = expand_occurrences(at(NOW), None, at(NOW), at(NOW + 65 * DAY), Frequency::Monthly, 1, None).unwrap();
    assert_eq!(monthly.len(), 3);
    assert_eq!(monthly[2].0, at(NOW + 60 * DAY));
    // An interval too large for the date library fails instead of panicking.
    assert!(expand_occurrences(at(NOW), None, at(NOW), limit, Frequency::Daily, i64::MAX / 2, None).is_none());
    // Nothing to expand when the event starts after the limit.
    assert!(expand_occurrences(at(NOW + 20 * DAY), None, at(NOW), limit, Frequency::Daily, i64::MAX / 2, None)
        .unwrap()
        .is_empty());
}

fn item(summary: Option<&str>, start: Option<IcalTime>, end: Option<IcalTime>, rrule: Option<&str>) -> IcalEvent {
    IcalEvent {
        summary: summary.map(|s| s.to_string()),
        description: None,
        location: None,
        start,
        end,
        rrule: rrule.map(|s| s.to_string()),
    }
}

#[test]
fn feeds_show_events_in_the_window() {
    let items = vec![
        item(Some("Open shop"), Some(IcalTime::At(at(NOW + 3600))), Some(IcalTime::At(at(NOW + 7200))), None),
        item(None, Some(IcalTime::Day(at(NOW + 2 * DAY))), Some(IcalTime::Day(at(NOW + 2 * DAY))), None),
        item(Some("Past"), Some(IcalTime::At(at(NOW - 1))), None, None),
        item(Some("Far"), Some(IcalTime::At(at(NOW + 400 * DAY))), None, None),
        item(Some("No start"), None, None, None),
        item(Some("Yearly"), Some(IcalTime::At(at(NOW))), None, Some("FREQ=YEARLY")),
    ];
    let events = feed_events(&items, "Shop", "#ff0000", at(NOW), 30).unwrap();
    assert_eq!(events.len(), 2);
    assert_eq!(events[0].title, "Open shop");
    assert_eq!(events[0].calendar_name, "Shop");
    assert_eq!(events[0].calendar_color, "#ff0000");
    assert!(!events[0].all_day);
    assert_eq!(events[1].title, "Untitled Event");
    assert!(events[1].all_day);
    assert_eq!(events[1].start, at(NOW + 2 * DAY));
    assert_eq!(events[1].end, Some(at(NOW + 3 * DAY - 1)));
    assert!(feed_events(&items, "Shop", "#ff0000", at(NOW), i64::MAX).is_none());
    assert_eq!(lookahead_limit(at(NOW), 30), Some(at(NOW + 30 * DAY)));
}

const FEED: &str = "BEGIN:VCALENDAR\r\nVERSION:2.0\r\nPRODID:-//test//EN\r\n\
BEGIN:VEVENT\r\nUID:1\r\nSUMMARY:Open shop\r\nDTSTART:20300101T180000Z\r\nDTEND:20300101T200000Z\r\nLOCATION:Main room\r\nEND:VEVENT\r\n\
BEGIN:VEVENT\r\nUID:2\r\nDTSTART;VALUE=DATE:20300103\r\nEND:VEVENT\r\n\
BEGIN:VEVENT\r\nUID:3\r\nSUMMARY:Weekly\r\nDTSTART:20300102T100000Z\r\nDTEND:20300102T110000Z\r\nRRULE:FREQ=WEEKLY;COUNT=3\r\nEND:VEVENT\r\n\
END:VCALENDAR\r\n";

#[test]
fn an_ical_feed_is_read_and_merged() {
    let events = parse_feed(FEED, "Shop", "blue", at(NOW), 30).unwrap().unwrap();
    let titles: Vec<&str> = events.iter().map(|e| e.title.as_str()).collect();
    assert_eq!(titles, vec!["Open shop", "Untitled Event", "Weekly", "Weekly", "Weekly"]);
    assert_eq!(events[0].start, at(NOW + 18 * 3600));
    assert_eq!(events[0].end, Some(at(NOW + 20 * 3600)));
    assert_eq!(events[0].location.as_deref(), Some("Main room"));
    assert_eq!(events[1].start, at(NOW + 2 * DAY));
    assert!(events[1].all_day);
    assert_eq!(events[4].start, at(NOW + DAY + 10 * 3600 + 14 * DAY));
    let merged = merge_events(&[events], 4);
    let order: Vec<i64> = merged.iter().map(|e| e.start.unix_seconds - NOW).collect();
    assert_eq!(order, vec![18 * 3600, DAY + 10 * 3600, 2 * DAY, 8 * DAY + 10 * 3600]);
    // The parser is lenient: text without events yields none.
    assert!(parse_feed("not a calendar", "Shop", "blue", at(NOW), 30).unwrap().unwrap().is_empty());
}

fn event(title: &str, start: i64) -> CalendarEvent {
    CalendarEvent {
        title: title.to_string(),
        description: None,
        start: at(start),
        end: None,
        location: None,
        calendar_name: "c".to_string(),
        calendar_color: "x".to_string(),
        all_day: false,
    }
}

#[test]
fn merging_is_a_stable_sort_by_start() {
    let a = vec![event("a1", 30), event("a2", 10)];
    let b = vec![event("b1", 10), event("b2", 20)];
    let merged = merge_events(&[a, b], 10);
    let titles: Vec<&str> = merged.iter().map(|e| e.title.as_str()).collect();
    assert_eq!(titles, vec!["a2", "b1", "b2", "a1"]);
    assert!(merge_events(&[], 3).is_empty());
}

#[test]
fn caches_expire_by_whole_minutes() {
    assert!(cache_fresh(at(NOW), at(NOW + 59 * 60 + 59), 60));
    assert!(!cache_fresh(at(NOW), at(NOW + 60 * 60), 60));
    assert!(!cache_fresh(at(NOW), at(NOW), 0));
    // A clock that went backwards leaves the cache fresh.
    assert!(cache_fresh(at(NOW), at(NOW - 3600), 5));
}

#[test]
fn items_with_an_unrepresentable_time_give_no_events() {
    let good = || item(Some("Open shop"), Some(IcalTime::At(at(NOW + 3600))), None, None);
    let shown = feed_from_items(&[good()], "Shop", "#ff0000", at(NOW), 30).unwrap();
    assert_eq!(shown.len(), 1);
    assert_eq!(shown[0].title, "Open shop");
    assert_eq!(feed_from_items(&[], "Shop", "#ff0000", at(NOW), 30).unwrap().len(), 0);
    let bad = item(Some("Odd"), Some(IcalTime::At(Timestamp { unix_seconds: NOW, nanos: 2_000_000_000 })), None, None);
    assert!(feed_from_items(&[good(), bad], "Shop", "#ff0000", at(NOW), 30).is_none());
    assert!(feed_from_items(&[good()], "Shop", "#ff0000", at(NOW), i64::MAX).is_none());
}
