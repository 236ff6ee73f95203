use april_backend::model::{
    get_calendar_identifier, AuthorizationStatus, Error, NativeCalendar, NativeReminder,
};
use april_backend::session::{Action, Command, Event, Output, PermissionReply, Phase, Session};

fn calendar(source: &str, title: &str) -> NativeCalendar {
    NativeCalendar {
        source_identifier: source.to_string(),
        source_title: "iCloud".to_string(),
        title: title.to_string(),
        allows_content_modifications: true,
    }
}

fn abc() -> Vec<NativeCalendar> {
    vec![calendar("s1", "A"), calendar("s1", "B"), calendar("s1", "C")]
}

/// Runs a command past an authorized gate.
fn authorized(command: Command) -> (Session, Action) {
    let (s, a) = Session::new(command);
    assert!(matches!(a, Action::QueryStatus));
    s.step(Event::Status(AuthorizationStatus::Authorized))
}

fn finish_error(a: Action) -> Error {
    match a {
        Action::Finish(Err(e)) => e,
        other => panic!("expected a failure, got {:?}", other),
    }
}

#[test]
fn identifier_joins_source_and_title() {
    assert_eq!(get_calendar_identifier("s1", "Groceries"), "s1-Groceries");
    assert_eq!(get_calendar_identifier("", ""), "-");
}

#[test]
fn identifier_distinguishes_pairs() {
    assert_ne!(get_calendar_identifier("s1", "A"), get_calendar_identifier("s2", "A"));
    assert_ne!(get_calendar_identifier("s1", "A"), get_calendar_identifier("s1", "B"));
    assert_eq!(get_calendar_identifier("s1", "A"), get_calendar_identifier("s1", "A"));
}

#[test]
fn identifier_collides_when_dashes_shift() {
    assert_eq!(get_calendar_identifier("a-b", "c"), get_calendar_identifier("a", "b-c"));
}

#[test]
fn denied_and_restricted_fail_every_command() {
    let commands = vec![
        Command::GetLists,
        Command::GetEnabledLists,
        Command::GetReminders { only_incomplete: true },
        Command::AddToList { list_name: "A".into(), title: "t".into(), due_date: 0 },
        Command::DeleteReminder { identifier: "x".into() },
    ];
    for status in [AuthorizationStatus::Denied, AuthorizationStatus::Restricted] {
        for c in commands.iter() {
            let (s, _) = Session::new(c.clone());
            let (t, a) = s.step(Event::Status(status));
            assert_eq!(t.phase, Phase::Finished);
            let e = finish_error(a);
            assert!(matches!(e, Error::InsufficientPermissions));
            assert_eq!(e.message(), "Unable to access reminders due to insufficient permissions");
        }
    }
}

#[test]
fn authorized_gate_does_not_prompt_twice() {
    for _ in 0..2 {
        let (s, a) = authorized(Command::GetLists);
        assert_eq!(s.phase, Phase::AwaitCalendars);
        assert!(matches!(a, Action::ReadCalendars { with_selection: false }));
    }
    let (s, a) = authorized(Command::DeleteReminder { identifier: "r1".into() });
    assert_eq!(s.phase, Phase::AwaitLookup);
    assert!(matches!(a, Action::LookupReminder { identifier } if identifier == "r1"));
}

#[test]
fn undetermined_status_prompts_then_follows_reply() {
    let (s, _) = Session::new(Command::GetLists);
    let (s, a) = s.step(Event::Status(AuthorizationStatus::NotDetermined));
    assert!(matches!(a, Action::RequestAccess));
    assert_eq!(s.phase, Phase::AwaitAccess);
    let (s, a) = s.step(Event::AccessReply(Some(PermissionReply { granted: true, error: None })));
    assert_eq!(s.phase, Phase::AwaitCalendars);
    assert!(matches!(a, Action::ReadCalendars { with_selection: false }));
}

#[test]
fn denied_prompt_reports_service_message() {
    let (s, _) = Session::new(Command::GetLists);
    let (s, _) = s.step(Event::Status(AuthorizationStatus::NotDetermined));
    let reply = PermissionReply { granted: false, error: Some("User said no".into()) };
    let (_, a) = s.step(Event::AccessReply(Some(reply)));
    let e = finish_error(a);
    assert!(matches!(&e, Error::PermissionDenied(m) if m == "User said no"));
    assert_eq!(e.message(), "User said no");
}

#[test]
fn unusable_prompt_reply_is_unknown_error() {
    for reply in [None, Some(PermissionReply { granted: false, error: None })] {
        let (s, _) = Session::new(Command::GetEnabledLists);
        let (s, _) = s.step(Event::Status(AuthorizationStatus::NotDetermined));
        let (_, a) = s.step(Event::AccessReply(reply));
        let e = finish_error(a);
        assert!(matches!(e, Error::UnknownPermissionError));
        assert_eq!(
            e.message(),
            "An unknown error has occurred while attempting to access reminders"
        );
    }
}

#[test]
fn all_lists_are_mapped_in_order() {
    let (s, _) = authorized(Command::GetLists);
    let mut cals = abc();
    cals[2].allows_content_modifications = false;
    let (_, a) = s.step(Event::Calendars { calendars: cals, selection: None });
    match a {
        Action::Finish(Ok(Output::Lists(v))) => {
            let ids: Vec<&str> = v.iter().map(|l| l.identifier.as_str()).collect();
            assert_eq!(ids, vec!["s1-A", "s1-B", "s1-C"]);
            assert_eq!(v[1].title, "B");
            assert_eq!(v[1].source, "iCloud");
            assert!(v[1].allows_content_modifications);
            assert!(!v[2].allows_content_modifications);
        }
        other => panic!("unexpected {:?}", other),
    }
}

#[test]
fn enabled_lists_keep_only_selected() {
    let (s, a) = authorized(Command::GetEnabledLists);
    assert!(matches!(a, Action::ReadCalendars { with_selection: true }));
    let (_, a) = s.step(Event::Calendars { calendars: abc(), selection: Some(vec!["s1-B".into()]) });
    match a {
        Action::Finish(Ok(Output::Lists(v))) => {
            assert_eq!(v.len(), 1);
            assert_eq!(v[0].identifier, "s1-B");
            assert_eq!(v[0].title, "B");
        }
        other => panic!("unexpected {:?}", other),
    }
}

#[test]
fn empty_selection_gives_empty_lists() {
    let (s, _) = authorized(Command::GetEnabledLists);
    let (_, a) = s.step(Event::Calendars { calendars: abc(), selection: Some(vec![]) });
    assert!(matches!(a, Action::Finish(Ok(Output::Lists(v))) if v.is_empty()));
}

#[test]
fn missing_selection_is_settings_unavailable() {
    for c in [Command::GetEnabledLists, Command::GetReminders { only_incomplete: false }] {
        let (s, _) = authorized(c);
        let (_, a) = s.step(Event::Calendars { calendars: abc(), selection: None });
        let e = finish_error(a);
        assert!(matches!(e, Error::SettingsUnavailable));
        assert_eq!(e.message(), "Unable to access settings for enabled reminders");
    }
}

#[test]
fn reminders_fetch_selected_calendars() {
    let (s, _) = authorized(Command::GetReminders { only_incomplete: true });
    let sel = Some(vec!["s1-C".to_string(), "s1-A".to_string(), "other".to_string()]);
    let (s, a) = s.step(Event::Calendars { calendars: abc(), selection: sel });
    assert_eq!(s.phase, Phase::AwaitFetch);
    match a {
        Action::FetchReminders { calendars, only_incomplete } => {
            assert_eq!(calendars, vec![0, 2]);
            assert!(only_incomplete);
        }
        other => panic!("unexpected {:?}", other),
    }
}

#[test]
fn fetched_reminders_use_zero_for_absent_dates() {
    let (s, _) = authorized(Command::GetReminders { only_incomplete: false });
    let (s, _) = s.step(Event::Calendars { calendars: abc(), selection: Some(vec!["s1-A".into()]) });
    let natives = vec![
        NativeReminder {
            identifier: "r1".into(),
            title: "Buy milk".into(),
            due_date: None,
            completion_date: Some(3_600_000),
        },
        NativeReminder {
            identifier: "r2".into(),
            title: "Call".into(),
            due_date: Some(1_700_000_000_000),
            completion_date: None,
        },
    ];
    let (_, a) = s.step(Event::Fetched(Some(natives)));
    match a {
        Action::Finish(Ok(Output::Reminders(v))) => {
            assert_eq!(v.len(), 2);
            assert_eq!(v[0].identifier, "r1");
            assert_eq!(v[0].title, "Buy milk");
            assert_eq!(v[0].due_date, 0);
            assert_eq!(v[0].completion_date, 3_600_000);
            assert_eq!(v[0].completion_date as f64 / 1000.0, 3600.0);
            assert_eq!(v[1].due_date, 1_700_000_000_000);
            assert_eq!(v[1].completion_date, 0);
        }
        other => panic!("unexpected {:?}", other),
    }
}

#[test]
fn null_fetch_is_unknown_fetch_error() {
    let (s, _) = authorized(Command::GetReminders { only_incomplete: false });
    let (s, _) = s.step(Event::Calendars { calendars: abc(), selection: Some(vec![]) });
    let (_, a) = s.step(Event::Fetched(None));
    let e = finish_error(a);
    assert!(matches!(e, Error::UnknownFetchError));
    assert_eq!(e.message(), "An unknown error has occurred while attempting to access reminders");
}

#[test]
fn add_to_unknown_list_is_not_saved() {
    let (s, _) = authorized(Command::AddToList {
        list_name: "Z".into(),
        title: "t".into(),
        due_date: 60_000,
    });
    let (t, a) = s.step(Event::Calendars { calendars: abc(), selection: None });
    assert_eq!(t.phase, Phase::Finished);
    let e = finish_error(a);
    assert!(matches!(e, Error::ListNotFound));
    assert_eq!(e.message(), "Unable to find calendar with the given name");
}

#[test]
fn add_saves_into_first_list_with_title() {
    let (s, _) = authorized(Command::AddToList {
        list_name: "B".into(),
        title: "Walk".into(),
        due_date: 60_000,
    });
    let mut cals = abc();
    cals.push(calendar("s2", "B"));
    let (s, a) = s.step(Event::Calendars { calendars: cals, selection: None });
    match a {
        Action::SaveReminder { calendar, title, due_date } => {
            assert_eq!(calendar, 1);
            assert_eq!(title, "Walk");
            assert_eq!(due_date, 60_000);
        }
        other => panic!("unexpected {:?}", other),
    }
    let (_, a) = s.step(Event::Saved(Ok("new-id".into())));
    assert!(matches!(a, Action::Finish(Ok(Output::Identifier(id))) if id == "new-id"));
}

#[test]
fn failed_save_reports_message() {
    let (s, _) = authorized(Command::AddToList {
        list_name: "A".into(),
        title: "t".into(),
        due_date: 0,
    });
    let (s, _) = s.step(Event::Calendars { calendars: abc(), selection: None });
    let (_, a) = s.step(Event::Saved(Err("disk full".into())));
    let e = finish_error(a);
    assert!(matches!(&e, Error::SaveFailed(m) if m == "disk full"));
    assert_eq!(e.message(), "disk full");
}

#[test]
fn delete_unknown_reminder_is_not_removed() {
    let (s, _) = authorized(Command::DeleteReminder { identifier: "nope".into() });
    let (t, a) = s.step(Event::Lookup { found: false });
    assert_eq!(t.phase, Phase::Finished);
    let e = finish_error(a);
    assert!(matches!(e, Error::ReminderNotFound));
    assert_eq!(e.message(), "Unable to find the reminder");
}

#[test]
fn delete_known_reminder() {
    let (s, _) = authorized(Command::DeleteReminder { identifier: "r1".into() });
    let (s, a) = s.step(Event::Lookup { found: true });
    assert!(matches!(a, Action::RemoveReminder { identifier } if identifier == "r1"));
    let (_, a) = s.step(Event::Removed(Ok(())));
    assert!(matches!(a, Action::Finish(Ok(Output::Done))));
}

#[test]
fn failed_delete_reports_message() {
    let (s, _) = authorized(Command::DeleteReminder { identifier: "r1".into() });
    let (s, _) = s.step(Event::Lookup { found: true });
    let (_, a) = s.step(Event::Removed(Err("locked".into())));
    let e = finish_error(a);
    assert!(matches!(&e, Error::DeleteFailed(m) if m == "locked"));
    assert_eq!(e.message(), "locked");
}

#[test]
fn session_expects_only_its_answer() {
    let (s, _) = Session::new(Command::GetLists);
    assert!(s.expects(&Event::Status(AuthorizationStatus::Authorized)));
    assert!(!s.expects(&Event::Lookup { found: true }));
}
