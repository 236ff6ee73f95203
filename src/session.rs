use vstd::prelude::*;
use crate::model::{
    AuthorizationStatus, Error, NativeCalendar, NativeReminder, Reminder, RemindersList,
    enabled_calendars, enabled_positions, every_position, find_calendar, list_matches, lists_at,
    reminder_matches, to_reminders,
};

verus! {

/// A reminders command issued by the front end.
#[derive(Clone, Debug)]
pub enum Command {
    GetLists,
    GetEnabledLists,
    GetReminders { only_incomplete: bool },
    AddToList { list_name: String, title: String, due_date: i64 },
    DeleteReminder { identifier: String },
}

/// What the service's completion callback for an access request carried.
#[derive(Clone, Debug)]
pub struct PermissionReply {
    pub granted: bool,
    pub error: Option<String>,
}

/// What the caller learned from the service after performing an action.
#[derive(Debug)]
pub enum Event {
    /// The current authorization status.
    Status(AuthorizationStatus),
    /// What the access request's callback delivered, `None` where it delivered nothing usable.
    AccessReply(Option<PermissionReply>),
    /// Every reminder calendar, and the enabled selection where one was asked for
    /// (`None` where the settings gave none).
    Calendars { calendars: Vec<NativeCalendar>, selection: Option<Vec<String>> },
    /// What the fetch callback delivered, `None` for a null result.
    Fetched(Option<Vec<NativeReminder>>),
    /// The identifier of the saved reminder, or the commit error's text.
    Saved(Result<String, String>),
    /// Whether a reminder with the looked-up identifier exists.
    Lookup { found: bool },
    /// The outcome of removing the reminder.
    Removed(Result<(), String>),
}

/// The successful result of a command.
#[derive(Debug)]
pub enum Output {
    Lists(Vec<RemindersList>),
    Reminders(Vec<Reminder>),
    Identifier(String),
    Done,
}

/// What the caller must do next on the service.
#[derive(Debug)]
pub enum Action {
    QueryStatus,
    RequestAccess,
    /// Enumerate reminder calendars, and read the enabled selection if asked.
    ReadCalendars { with_selection: bool },
    /// Fetch the reminders of the calendars at these positions.
    FetchReminders { calendars: Vec<usize>, only_incomplete: bool },
    /// Create a reminder in the calendar at this position and commit it.
    SaveReminder { calendar: usize, title: String, due_date: i64 },
    LookupReminder { identifier: String },
    RemoveReminder { identifier: String },
    /// The command is over.
    Finish(Result<Output, Error>),
}

#[derive(Clone, Copy, Debug, PartialEq, Eq, Structural)]
pub enum Phase {
    AwaitStatus,
    AwaitAccess,
    AwaitCalendars,
    AwaitFetch,
    AwaitSave,
    AwaitLookup,
    AwaitRemoval,
    Finished,
}

/// One command in progress.
#[derive(Debug)]
pub struct Session {
    pub command: Command,
    pub phase: Phase,
}

/// Whether `e` is the answer to what session `s` asked for.
pub open spec fn answers(s: Session, e: Event) -> bool {
    s.well_formed() && phase_answered(s.phase, e)
}

/// Whether `e` is the kind of event that phase `p` waits for.
pub open spec fn phase_answered(p: Phase, e: Event) -> bool {
    match e {
        Event::Status(_) => p == Phase::AwaitStatus,
        Event::AccessReply(_) => p == Phase::AwaitAccess,
        Event::Calendars { .. } => p == Phase::AwaitCalendars,
        Event::Fetched(_) => p == Phase::AwaitFetch,
        Event::Saved(_) => p == Phase::AwaitSave,
        Event::Lookup { .. } => p == Phase::AwaitLookup,
        Event::Removed(_) => p == Phase::AwaitRemoval,
    }
}

/// The result of an access request, from what its callback delivered.
pub open spec fn access_outcome(reply: Option<PermissionReply>) -> Result<(), Error> {
    match reply {
        Some(r) => if r.granted {
            Ok(())
        } else {
            match r.error {
                Some(m) => Err(Error::PermissionDenied(m)),
                None => Err(Error::UnknownPermissionError),
            }
        },
        None => Err(Error::UnknownPermissionError),
    }
}

/// The phase a command enters once access is granted.
pub open spec fn phase_after_gate(c: Command) -> Phase {
    match c {
        Command::DeleteReminder { .. } => Phase::AwaitLookup,
        _ => Phase::AwaitCalendars,
    }
}

/// The action a command takes once access is granted.
pub open spec fn action_after_gate(c: Command, a: Action) -> bool {
    match c {
        Command::GetLists => a == Action::ReadCalendars { with_selection: false },
        Command::GetEnabledLists => a == Action::ReadCalendars { with_selection: true },
        Command::GetReminders { .. } => a == Action::ReadCalendars { with_selection: true },
        Command::AddToList { .. } => a == Action::ReadCalendars { with_selection: false },
        Command::DeleteReminder { identifier } => a == Action::LookupReminder { identifier },
    }
}

/// Moving on once access is granted.
pub open spec fn gate_passed(s: Session, t: Session, a: Action) -> bool {
    &&& t.command == s.command
    &&& t.phase == phase_after_gate(s.command)
    &&& action_after_gate(s.command, a)
}

/// Ending the command with `e`.
pub open spec fn fails_with(t: Session, a: Action, e: Error) -> bool {
    t.phase == Phase::Finished && a == Action::Finish(Err(e))
}

/// Ending the command with lists built from the calendars at `ids`.
pub open spec fn finishes_with_lists(
    t: Session,
    a: Action,
    calendars: Seq<NativeCalendar>,
    ids: Seq<usize>,
) -> bool {
    &&& t.phase == Phase::Finished
    &&& match a {
        Action::Finish(Ok(Output::Lists(v))) => v.len() == ids.len() && forall|k: int|
            0 <= k < ids.len() ==> list_matches(#[trigger] v[k], calendars[ids[k] as int]),
        _ => false,
    }
}

/// What a session does on receiving its calendars.
pub open spec fn on_calendars(
    s: Session,
    calendars: Seq<NativeCalendar>,
    selection: Option<Vec<String>>,
    t: Session,
    a: Action,
) -> bool {
    match s.command {
        Command::GetLists => finishes_with_lists(
            t,
            a,
            calendars,
            Seq::new(calendars.len(), |i: int| i as usize),
        ),
        Command::GetEnabledLists => match selection {
            None => fails_with(t, a, Error::SettingsUnavailable),
            Some(sel) => finishes_with_lists(
                t,
                a,
                calendars,
                enabled_positions(calendars, sel@),
            ),
        },
        Command::GetReminders { only_incomplete } => match selection {
            None => fails_with(t, a, Error::SettingsUnavailable),
            Some(sel) => {
                &&& t.command == s.command
                &&& t.phase == Phase::AwaitFetch
                &&& match a {
                    Action::FetchReminders { calendars: ids, only_incomplete: o } => ids@
                        == enabled_positions(calendars, sel@) && o == only_incomplete,
                    _ => false,
                }
            },
        },
        Command::AddToList { list_name, title, due_date } => {
            if exists|i: int| 0 <= i < calendars.len() && #[trigger] calendars[i].title@ == list_name@ {
                &&& t.command == s.command
                &&& t.phase == Phase::AwaitSave
                &&& match a {
                    Action::SaveReminder { calendar, title: tt, due_date: d } => {
                        &&& calendar < calendars.len()
                        &&& calendars[calendar as int].title@ == list_name@
                        &&& forall|j: int| 0 <= j < calendar ==> #[trigger] calendars[j].title@ != list_name@
                        &&& tt == title
                        &&& d == due_date
                    },
                    _ => false,
                }
            } else {
                fails_with(t, a, Error::ListNotFound)
            }
        },
        Command::DeleteReminder { .. } => false,
    }
}

/// The complete transition relation of a session: from `s`, on event `e`,
/// to session `t` with action `a`.
pub open spec fn transition(s: Session, e: Event, t: Session, a: Action) -> bool {
    match e {
        Event::Status(status) => match status {
            AuthorizationStatus::Authorized => gate_passed(s, t, a),
            AuthorizationStatus::NotDetermined => t.command == s.command && t.phase
                == Phase::AwaitAccess && a == Action::RequestAccess,
            _ => fails_with(t, a, Error::InsufficientPermissions),
        },
        Event::AccessReply(reply) => match access_outcome(reply) {
            Ok(_) => gate_passed(s, t, a),
            Err(err) => fails_with(t, a, err),
        },
        Event::Calendars { calendars, selection } => on_calendars(
            s,
            calendars@,
            selection,
            t,
            a,
        ),
        Event::Fetched(fetched) => match fetched {
            None => fails_with(t, a, Error::UnknownFetchError),
            Some(natives) => {
                &&& t.phase == Phase::Finished
                &&& match a {
                    Action::Finish(Ok(Output::Reminders(v))) => v.len() == natives.len()
                        && forall|k: int|
                        0 <= k < natives.len() ==> reminder_matches(#[trigger] v[k], natives[k]),
                    _ => false,
                }
            },
        },
        Event::Saved(saved) => match saved {
            Ok(id) => t.phase == Phase::Finished && a == Action::Finish(
                Ok(Output::Identifier(id)),
            ),
            Err(m) => fails_with(t, a, Error::SaveFailed(m)),
        },
        Event::Lookup { found } => if found {
            match s.command {
                Command::DeleteReminder { identifier } => t.command == s.command && t.phase
                    == Phase::AwaitRemoval && a == Action::RemoveReminder { identifier },
                _ => false,
            }
        } else {
            fails_with(t, a, Error::ReminderNotFound)
        },
        Event::Removed(removed) => match removed {
            Ok(_) => t.phase == Phase::Finished && a == Action::Finish(Ok(Output::Done)),
            Err(m) => fails_with(t, a, Error::DeleteFailed(m)),
        },
    }
}

/// Whether the session's command is the one that phase `p` belongs to.
pub open spec fn command_fits(c: Command, p: Phase) -> bool {
    match p {
        Phase::AwaitFetch => c is GetReminders,
        Phase::AwaitSave => c is AddToList,
        Phase::AwaitLookup | Phase::AwaitRemoval => c is DeleteReminder,
        Phase::AwaitCalendars => !(c is DeleteReminder),
        _ => true,
    }
}

impl Session {
    pub open spec fn well_formed(&self) -> bool {
        command_fits(self.command, self.phase)
    }

    /// Starts a command: its first action is always to read the authorization status.
    pub fn new(command: Command) -> (r: (Session, Action))
        ensures
            r.0.command == command,
            r.0.phase == Phase::AwaitStatus,
            r.0.well_formed(),
            r.1 == Action::QueryStatus,
    {
        (Session { command, phase: Phase::AwaitStatus }, Action::QueryStatus)
    }

    /// Whether `event` answers what this session last asked for.
    pub fn expects(&self, event: &Event) -> (r: bool)
        ensures
            r == answers(*self, *event),
    {
        let fits = match self.phase {
            Phase::AwaitFetch => matches!(self.command, Command::GetReminders { .. }),
            Phase::AwaitSave => matches!(self.command, Command::AddToList { .. }),
            Phase::AwaitLookup | Phase::AwaitRemoval => matches!(
                self.command,
                Command::DeleteReminder { .. }
            ),
            Phase::AwaitCalendars => !matches!(self.command, Command::DeleteReminder { .. }),
            _ => true,
        };
        fits && match event {
            Event::Status(_) => self.phase == Phase::AwaitStatus,
            Event::AccessReply(_) => self.phase == Phase::AwaitAccess,
            Event::Calendars { .. } => self.phase == Phase::AwaitCalendars,
            Event::Fetched(_) => self.phase == Phase::AwaitFetch,
            Event::Saved(_) => self.phase == Phase::AwaitSave,
            Event::Lookup { .. } => self.phase == Phase::AwaitLookup,
            Event::Removed(_) => self.phase == Phase::AwaitRemoval,
        }
    }

    /// The action once access is granted.
    fn after_gate(self) -> (r: (Session, Action))
        ensures
            gate_passed(self, r.0, r.1),
            r.0.well_formed(),
    {
        let phase = match &self.command {
            Command::DeleteReminder { .. } => Phase::AwaitLookup,
            _ => Phase::AwaitCalendars,
        };
        let action = match &self.command {
            Command::GetLists => Action::ReadCalendars { with_selection: false },
            Command::GetEnabledLists => Action::ReadCalendars { with_selection: true },
            Command::GetReminders { .. } => Action::ReadCalendars { with_selection: true },
            Command::AddToList { .. } => Action::ReadCalendars { with_selection: false },
            Command::DeleteReminder { identifier } => Action::LookupReminder {
                identifier: identifier.clone(),
            },
        };
        (Session { command: self.command, phase }, action)
    }

    /// Advances the command by one event.
    pub fn step(self, event: Event) -> (r: (Session, Action))
        requires
            answers(self, event),
        ensures
            transition(self, event, r.0, r.1),
            r.0.well_formed(),
    {
        let finished = |command: Command, e: Error| -> (r: (Session, Action))
            ensures
                fails_with(r.0, r.1, e),
                r.0.well_formed(),
        { (Session { command, phase: Phase::Finished }, Action::Finish(Err(e))) };
        match event {
            Event::Status(status) => match status {
                AuthorizationStatus::Authorized => self.after_gate(),
                AuthorizationStatus::NotDetermined => (
                    Session { command: self.command, phase: Phase::AwaitAccess },
                    Action::RequestAccess,
                ),
                _ => finished(self.command, Error::InsufficientPermissions),
            },
            Event::AccessReply(reply) => match permission_outcome(reply) {
                Ok(_) => self.after_gate(),
                Err(e) => finished(self.command, e),
            },
            Event::Calendars { calendars, selection } => self.on_calendars(calendars, selection),
            Event::Fetched(fetched) => match fetched {
                None => finished(self.command, Error::UnknownFetchError),
                Some(natives) => {
                    let v = to_reminders(&natives);
                    (
                        Session { command: self.command, phase: Phase::Finished },
                        Action::Finish(Ok(Output::Reminders(v))),
                    )
                },
            },
            Event::Saved(saved) => match saved {
                Ok(id) => (
                    Session { command: self.command, phase: Phase::Finished },
                    Action::Finish(Ok(Output::Identifier(id))),
                ),
                Err(m) => finished(self.command, Error::SaveFailed(m)),
            },
            Event::Lookup { found } => {
                if found {
                    match self.command {
                        Command::DeleteReminder { identifier } => {
                            let action = Action::RemoveReminder { identifier: identifier.clone() };
                            (
                                Session {
                                    command: Command::DeleteReminder { identifier },
                                    phase: Phase::AwaitRemoval,
                                },
                                action,
                            )
                        },
                        _ => {
                            proof {
                                assert(false);
                            }
                            finished(self.command, Error::ReminderNotFound)
                        },
                    }
                } else {
                    finished(self.command, Error::ReminderNotFound)
                }
            },
            Event::Removed(removed) => match removed {
                Ok(_) => (
                    Session { command: self.command, phase: Phase::Finished },
                    Action::Finish(Ok(Output::Done)),
                ),
                Err(m) => finished(self.command, Error::DeleteFailed(m)),
            },
        }
    }

    fn on_calendars(self, calendars: Vec<NativeCalendar>, selection: Option<Vec<String>>) -> (r: (
        Session,
        Action,
    ))
        requires
            self.well_formed(),
            self.phase == Phase::AwaitCalendars,
        ensures
            on_calendars(self, calendars@, selection, r.0, r.1),
            r.0.well_formed(),
    {
        let done = Phase::Finished;
        match self.command {
            Command::GetLists => {
                let ids = every_position(&calendars);
                proof {
                    assert(ids@ =~= Seq::new(calendars.len() as nat, |i: int| i as usize));
                }
                let v = lists_at(&calendars, &ids);
                (
                    Session { command: Command::GetLists, phase: done },
                    Action::Finish(Ok(Output::Lists(v))),
                )
            },
            Command::GetEnabledLists => match selection {
                None => (
                    Session { command: Command::GetEnabledLists, phase: done },
                    Action::Finish(Err(Error::SettingsUnavailable)),
                ),
                Some(sel) => {
                    let ids = enabled_calendars(&calendars, &sel);
                    let v = lists_at(&calendars, &ids);
                    (
                        Session { command: Command::GetEnabledLists, phase: done },
                        Action::Finish(Ok(Output::Lists(v))),
                    )
                },
            },
            Command::GetReminders { only_incomplete } => match selection {
                None => (
                    Session { command: Command::GetReminders { only_incomplete }, phase: done },
                    Action::Finish(Err(Error::SettingsUnavailable)),
                ),
                Some(sel) => {
                    let ids = enabled_calendars(&calendars, &sel);
                    (
                        Session {
                            command: Command::GetReminders { only_incomplete },
                            phase: Phase::AwaitFetch,
                        },
                        Action::FetchReminders { calendars: ids, only_incomplete },
                    )
                },
            },
            Command::AddToList { list_name, title, due_date } => {
                match find_calendar(&calendars, &list_name) {
                    Some(i) => {
                        let action = Action::SaveReminder {
                            calendar: i,
                            title: title.clone(),
                            due_date,
                        };
                        (
                            Session {
                                command: Command::AddToList { list_name, title, due_date },
                                phase: Phase::AwaitSave,
                            },
                            action,
                        )
                    },
                    None => (
                        Session {
                            command: Command::AddToList { list_name, title, due_date },
                            phase: done,
                        },
                        Action::Finish(Err(Error::ListNotFound)),
                    ),
                }
            },
            Command::DeleteReminder { identifier } => {
                proof {
                    assert(false);
                }
                (
                    Session { command: Command::DeleteReminder { identifier }, phase: done },
                    Action::Finish(Err(Error::ReminderNotFound)),
                )
            },
        }
    }
}

/// The result of an access request, from what its completion callback delivered.
pub fn permission_outcome(reply: Option<PermissionReply>) -> (r: Result<(), Error>)
    ensures
        r == access_outcome(reply),
{
    match reply {
        Some(r) => {
            if r.granted {
                Ok(())
            } else {
                match r.error {
                    Some(m) => Err(Error::PermissionDenied(m)),
                    None => Err(Error::UnknownPermissionError),
                }
            }
        },
        None => Err(Error::UnknownPermissionError),
    }
}

/// A command told that access is denied or restricted ends at once with
/// `InsufficientPermissions`, whatever the command: its next action is to
/// finish, so nothing further is asked of the service.
pub proof fn refused_access_ends_command(
    command: Command,
    status: AuthorizationStatus,
    t: Session,
    a: Action,
)
    requires
        status == AuthorizationStatus::Denied || status == AuthorizationStatus::Restricted,
        transition(
            Session { command, phase: Phase::AwaitStatus },
            Event::Status(status),
            t,
            a,
        ),
    ensures
        t.phase == Phase::Finished,
        a == Action::Finish(Err(Error::InsufficientPermissions)),
{
}

/// With access authorized the permission check requests nothing from the
/// user and moves on to the command's own work; repeating it gives the same
/// session and action.
pub proof fn granted_gate_is_idempotent(
    command: Command,
    t1: Session,
    a1: Action,
    t2: Session,
    a2: Action,
)
    requires
        transition(
            Session { command, phase: Phase::AwaitStatus },
            Event::Status(AuthorizationStatus::Authorized),
            t1,
            a1,
        ),
        transition(
            Session { command, phase: Phase::AwaitStatus },
            Event::Status(AuthorizationStatus::Authorized),
            t2,
            a2,
        ),
    ensures
        a1 != Action::RequestAccess,
        a1 == a2,
        t1 == t2,
{
}

/// Adding to a list whose title no calendar has fails with `ListNotFound`,
/// and no save is asked for.
pub proof fn unknown_list_is_not_saved(
    list_name: String,
    title: String,
    due_date: i64,
    calendars: Vec<NativeCalendar>,
    selection: Option<Vec<String>>,
    t: Session,
    a: Action,
)
    requires
        forall|i: int| 0 <= i < calendars.len() ==> #[trigger] calendars[i].title@ != list_name@,
        transition(
            Session { command: Command::AddToList { list_name, title, due_date }, phase: Phase::AwaitCalendars },
            Event::Calendars { calendars, selection },
            t,
            a,
        ),
    ensures
        t.phase == Phase::Finished,
        a == Action::Finish(Err(Error::ListNotFound)),
{
}

/// Deleting a reminder that the service does not know fails with
/// `ReminderNotFound`, and no removal is asked for.
pub proof fn unknown_reminder_is_not_removed(identifier: String, t: Session, a: Action)
    requires
        transition(
            Session { command: Command::DeleteReminder { identifier }, phase: Phase::AwaitLookup },
            Event::Lookup { found: false },
            t,
            a,
        ),
    ensures
        t.phase == Phase::Finished,
        a == Action::Finish(Err(Error::ReminderNotFound)),
{
}

/// Where the settings give no enabled selection, listing the enabled lists and
/// fetching reminders fail with `SettingsUnavailable` rather than yield an
/// empty result.
pub proof fn missing_selection_fails(
    command: Command,
    calendars: Vec<NativeCalendar>,
    t: Session,
    a: Action,
)
    requires
        command is GetEnabledLists || command is GetReminders,
        transition(
            Session { command, phase: Phase::AwaitCalendars },
            Event::Calendars { calendars, selection: None },
            t,
            a,
        ),
    ensures
        t.phase == Phase::Finished,
        a == Action::Finish(Err(Error::SettingsUnavailable)),
{
}

} // verus!
