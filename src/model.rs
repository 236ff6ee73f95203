use vstd::prelude::*;
use vstd::string::*;

verus! {

/// Authorization of the reminders service, as the operating system reports it.
#[derive(Clone, Copy, Debug, PartialEq, Eq, Structural)]
pub enum AuthorizationStatus {
    NotDetermined,
    Restricted,
    Denied,
    Authorized,
}

/// Every way a reminders command can fail.
#[derive(Clone, Debug)]
pub enum Error {
    InsufficientPermissions,
    PermissionDenied(String),
    UnknownPermissionError,
    SettingsUnavailable,
    UnknownFetchError,
    ListNotFound,
    ReminderNotFound,
    SaveFailed(String),
    DeleteFailed(String),
}

/// A calendar as the native service describes it: what the adapter reads of it.
#[derive(Clone, Debug)]
pub struct NativeCalendar {
    pub source_identifier: String,
    pub source_title: String,
    pub title: String,
    pub allows_content_modifications: bool,
}

/// A reminder as the native service describes it. Dates are milliseconds
/// since the epoch; `None` where the reminder has no such date.
#[derive(Clone, Debug)]
pub struct NativeReminder {
    pub identifier: String,
    pub title: String,
    pub due_date: Option<i64>,
    pub completion_date: Option<i64>,
}

/// A reminder list as handed to the front end.
#[derive(Clone, Debug)]
pub struct RemindersList {
    pub identifier: String,
    pub title: String,
    pub allows_content_modifications: bool,
    pub source: String,
}

/// A reminder as handed to the front end. Dates are milliseconds since the
/// epoch, `0` standing for "no date".
#[derive(Clone, Debug)]
pub struct Reminder {
    pub identifier: String,
    pub title: String,
    pub due_date: i64,
    pub completion_date: i64,
}

/// The durable key of a calendar: its source's identifier, a dash, its title.
pub open spec fn identifier_of(source: Seq<char>, title: Seq<char>) -> Seq<char> {
    source + seq!['-'] + title
}

pub open spec fn calendar_key(c: NativeCalendar) -> Seq<char> {
    identifier_of(c.source_identifier@, c.title@)
}

/// The list shape of one calendar.
pub open spec fn list_matches(l: RemindersList, c: NativeCalendar) -> bool {
    &&& l.identifier@ == calendar_key(c)
    &&& l.title@ == c.title@
    &&& l.allows_content_modifications == c.allows_content_modifications
    &&& l.source@ == c.source_title@
}

/// A date with the `0` sentinel for an absent one.
pub open spec fn date_or_zero(d: Option<i64>) -> i64 {
    match d {
        Some(t) => t,
        None => 0,
    }
}

/// The front-end shape of one native reminder.
pub open spec fn reminder_matches(r: Reminder, n: NativeReminder) -> bool {
    &&& r.identifier@ == n.identifier@
    &&& r.title@ == n.title@
    &&& r.due_date == date_or_zero(n.due_date)
    &&& r.completion_date == date_or_zero(n.completion_date)
}

/// Builds the durable key of a calendar from its source's identifier and its title.
pub fn get_calendar_identifier(source_identifier: &str, title: &str) -> (r: String)
    ensures
        r@ == identifier_of(source_identifier@, title@),
{
    let mut r = String::from_str(source_identifier);
    r.append("-");
    r.append(title);
    proof {
        reveal_strlit("-");
    }
    r
}


/// Whether `key` is one of the selected identifiers.
pub open spec fn is_selected(selection: Seq<String>, key: Seq<char>) -> bool {
    exists|j: int| 0 <= j < selection.len() && #[trigger] selection[j]@ == key
}

/// Positions, in order, of the first `n` calendars whose key is selected.
pub open spec fn enabled_upto(
    calendars: Seq<NativeCalendar>,
    selection: Seq<String>,
    n: nat,
) -> Seq<usize>
    decreases n,
{
    if n == 0 {
        Seq::empty()
    } else {
        let prev = enabled_upto(calendars, selection, (n - 1) as nat);
        if is_selected(selection, calendar_key(calendars[n - 1])) {
            prev.push((n - 1) as usize)
        } else {
            prev
        }
    }
}

/// Positions, in order, of the calendars whose key is selected.
pub open spec fn enabled_positions(calendars: Seq<NativeCalendar>, selection: Seq<String>) -> Seq<
    usize,
> {
    enabled_upto(calendars, selection, calendars.len())
}

/// Whether `ids` lists every calendar position once, in order.
pub open spec fn all_positions(ids: Seq<usize>, n: nat) -> bool {
    ids.len() == n && forall|k: int| 0 <= k < n ==> ids[k] == k
}

/// The key of a calendar.
pub fn key_of(calendar: &NativeCalendar) -> (r: String)
    ensures
        r@ == calendar_key(*calendar),
{
    get_calendar_identifier(calendar.source_identifier.as_str(), calendar.title.as_str())
}

/// Whether `key` is one of the selected identifiers.
pub fn selection_contains(selection: &Vec<String>, key: &String) -> (r: bool)
    ensures
        r == is_selected(selection@, key@),
{
    let mut j: usize = 0;
    while j < selection.len()
        invariant
            j <= selection.len(),
            forall|k: int| 0 <= k < j ==> selection@[k]@ != key@,
        decreases selection.len() - j,
    {
        if selection[j] == *key {
            return true;
        }
        j += 1;
    }
    false
}

/// The front-end shape of the calendar at each position in `ids`, in order.
pub fn lists_at(calendars: &Vec<NativeCalendar>, ids: &Vec<usize>) -> (r: Vec<RemindersList>)
    requires
        forall|k: int| 0 <= k < ids.len() ==> ids[k] < calendars.len(),
    ensures
        r.len() == ids.len(),
        forall|k: int| 0 <= k < ids.len() ==> list_matches(#[trigger] r[k], calendars[ids[k] as int]),
{
    let mut r: Vec<RemindersList> = Vec::new();
    let mut k: usize = 0;
    while k < ids.len()
        invariant
            k <= ids.len(),
            r.len() == k,
            forall|m: int| 0 <= m < ids.len() ==> ids[m] < calendars.len(),
            forall|m: int| 0 <= m < k ==> list_matches(#[trigger] r[m], calendars[ids[m] as int]),
        decreases ids.len() - k,
    {
        let c = &calendars[ids[k]];
        r.push(
            RemindersList {
                identifier: key_of(c),
                title: c.title.clone(),
                allows_content_modifications: c.allows_content_modifications,
                source: c.source_title.clone(),
            },
        );
        k += 1;
    }
    r
}

/// Every calendar position, in order.
pub fn every_position(calendars: &Vec<NativeCalendar>) -> (r: Vec<usize>)
    ensures
        all_positions(r@, calendars.len() as nat),
{
    let mut r: Vec<usize> = Vec::new();
    let mut k: usize = 0;
    while k < calendars.len()
        invariant
            k <= calendars.len(),
            all_positions(r@, k as nat),
        decreases calendars.len() - k,
    {
        r.push(k);
        k += 1;
    }
    r
}

/// Positions, in order, of the calendars whose key is among `selection`.
pub fn enabled_calendars(calendars: &Vec<NativeCalendar>, selection: &Vec<String>) -> (r: Vec<
    usize,
>)
    ensures
        r@ == enabled_positions(calendars@, selection@),
        forall|k: int| 0 <= k < r.len() ==> r[k] < calendars.len(),
{
    let mut r: Vec<usize> = Vec::new();
    let mut i: usize = 0;
    while i < calendars.len()
        invariant
            i <= calendars.len(),
            r@ == enabled_upto(calendars@, selection@, i as nat),
            forall|k: int| 0 <= k < r.len() ==> r[k] < i,
        decreases calendars.len() - i,
    {
        let key = key_of(&calendars[i]);
        if selection_contains(selection, &key) {
            r.push(i);
        }
        i += 1;
    }
    r
}

/// The front-end shape of one native reminder.
pub fn to_reminder(native: &NativeReminder) -> (r: Reminder)
    ensures
        reminder_matches(r, *native),
{
    Reminder {
        identifier: native.identifier.clone(),
        title: native.title.clone(),
        due_date: match native.due_date {
            Some(t) => t,
            None => 0,
        },
        completion_date: match native.completion_date {
            Some(t) => t,
            None => 0,
        },
    }
}

/// The front-end shape of each native reminder, in the order given.
pub fn to_reminders(natives: &Vec<NativeReminder>) -> (r: Vec<Reminder>)
    ensures
        r.len() == natives.len(),
        forall|k: int| 0 <= k < natives.len() ==> reminder_matches(#[trigger] r[k], natives[k]),
{
    let mut r: Vec<Reminder> = Vec::new();
    let mut k: usize = 0;
    while k < natives.len()
        invariant
            k <= natives.len(),
            r.len() == k,
            forall|m: int| 0 <= m < k ==> reminder_matches(#[trigger] r[m], natives[m]),
        decreases natives.len() - k,
    {
        r.push(to_reminder(&natives[k]));
        k += 1;
    }
    r
}

/// Finds the first calendar titled `title`.
pub fn find_calendar(calendars: &Vec<NativeCalendar>, title: &String) -> (r: Option<usize>)
    ensures
        match r {
            Some(i) => i < calendars.len() && calendars[i as int].title@ == title@ && forall|
                j: int,
            |
                0 <= j < i ==> #[trigger] calendars[j].title@ != title@,
            None => forall|j: int| 0 <= j < calendars.len() ==> #[trigger] calendars[j].title@ != title@,
        },
{
    let mut i: usize = 0;
    while i < calendars.len()
        invariant
            i <= calendars.len(),
            forall|j: int| 0 <= j < i ==> #[trigger] calendars[j].title@ != title@,
        decreases calendars.len() - i,
    {
        if calendars[i].title == *title {
            return Some(i);
        }
        i += 1;
    }
    None
}


/// The text shown to the user for an error.
pub open spec fn message_of(e: Error) -> Seq<char> {
    match e {
        Error::InsufficientPermissions => "Unable to access reminders due to insufficient permissions"@,
        Error::PermissionDenied(m) => m@,
        Error::UnknownPermissionError => "An unknown error has occurred while attempting to access reminders"@,
        Error::SettingsUnavailable => "Unable to access settings for enabled reminders"@,
        Error::UnknownFetchError => "An unknown error has occurred while attempting to access reminders"@,
        Error::ListNotFound => "Unable to find calendar with the given name"@,
        Error::ReminderNotFound => "Unable to find the reminder"@,
        Error::SaveFailed(m) => m@,
        Error::DeleteFailed(m) => m@,
    }
}

impl Error {
    /// The text shown to the user for this error.
    pub fn message(&self) -> (r: String)
        ensures
            r@ == message_of(*self),
    {
        match self {
            Error::InsufficientPermissions => String::from_str(
                "Unable to access reminders due to insufficient permissions",
            ),
            Error::PermissionDenied(m) => m.clone(),
            Error::UnknownPermissionError => String::from_str(
                "An unknown error has occurred while attempting to access reminders",
            ),
            Error::SettingsUnavailable => String::from_str(
                "Unable to access settings for enabled reminders",
            ),
            Error::UnknownFetchError => String::from_str(
                "An unknown error has occurred while attempting to access reminders",
            ),
            Error::ListNotFound => String::from_str("Unable to find calendar with the given name"),
            Error::ReminderNotFound => String::from_str("Unable to find the reminder"),
            Error::SaveFailed(m) => m.clone(),
            Error::DeleteFailed(m) => m.clone(),
        }
    }
}

/// Whether `s` holds no dash.
pub open spec fn dashless(s: Seq<char>) -> bool {
    forall|i: int| 0 <= i < s.len() ==> s[i] != '-'
}

/// Calendar keys agree exactly when both the sources and the titles agree,
/// for sources of one length (as the service's fixed-width identifiers are)
/// or sources without a dash. (Sources of other lengths with dashes can
/// collide: `a-b` with `c`, and `a` with `b-c`.) Keys are a function of source
/// and title alone.
pub proof fn identifier_injective(
    source_a: Seq<char>,
    title_a: Seq<char>,
    source_b: Seq<char>,
    title_b: Seq<char>,
)
    requires
        source_a.len() == source_b.len() || (dashless(source_a) && dashless(source_b)),
    ensures
        identifier_of(source_a, title_a) == identifier_of(source_b, title_b) <==> (source_a
            == source_b && title_a == title_b),
{
    let ka = identifier_of(source_a, title_a);
    let kb = identifier_of(source_b, title_b);
    if ka == kb {
        let n = source_a.len() as int;
        let m = source_b.len() as int;
        if n < m {
            assert(ka[n] == '-');
            assert(kb[n] == source_b[n]);
        }
        if m < n {
            assert(kb[m] == '-');
            assert(ka[m] == source_a[m]);
        }
        assert(ka.subrange(0, n) =~= source_a);
        assert(kb.subrange(0, n) =~= source_b);
        assert(ka.subrange(n + 1, ka.len() as int) =~= title_a);
        assert(kb.subrange(n + 1, kb.len() as int) =~= title_b);
    }
}

} // verus!
