use vstd::prelude::*;

verus! {

/// The stamp that a mutation at clock reading `now` gives an item whose
/// last stamp is `prev`: the reading itself when it lies after `prev`, else
/// one microsecond past `prev`, so that stamps never stand still or go back.
pub open spec fn next_stamp(prev: i64, now: i64) -> i64 {
    if now > prev {
        now
    } else if prev < i64::MAX {
        (prev + 1) as i64
    } else {
        prev
    }
}

/// `u` is `t` with completion flipped and a later stamp.
pub open spec fn toggled(t: TodoView, u: TodoView) -> bool {
    &&& u.id == t.id
    &&& u.subject == t.subject
    &&& u.description == t.description
    &&& u.created_at == t.created_at
    &&& u.completed() != t.completed()
    &&& u.last_modified_at >= t.last_modified_at
    &&& t.last_modified_at < i64::MAX ==> u.last_modified_at > t.last_modified_at
    &&& u.closed_at matches Some(c) ==> c == u.last_modified_at
}

/// Relies on `SystemTime::now` and chrono's `DateTime::from_timestamp` and
/// `DateTime::timestamp_micros`: the current time as microseconds since the
/// Unix epoch, or `None` where the clock reads before the epoch or past
/// chrono's range. Nothing is known of the value.
#[verifier::external_body]
fn now_micros() -> (r: Option<i64>) {
    let since = std::time::SystemTime::now().duration_since(std::time::UNIX_EPOCH).ok()?;
    let secs = i64::try_from(since.as_secs()).ok()?;
    chrono::DateTime::from_timestamp(secs, since.subsec_nanos()).map(|t| t.timestamp_micros())
}

/// The current clock reading, or `fallback` where the clock gives none.
pub(crate) fn clock_or(fallback: i64) -> (r: i64) {
    match now_micros() {
        Some(now) => now,
        None => fallback,
    }
}

/// The stamp that follows `prev` at clock reading `now`.
fn stamp_after(prev: i64, now: i64) -> (r: i64)
    ensures
        r == next_stamp(prev, now),
{
    if now > prev {
        now
    } else if prev < i64::MAX {
        prev + 1
    } else {
        prev
    }
}

/// Relies on uuid's `Uuid::new_v4` and its `Display`, which writes the
/// hyphenated form: thirty-six characters.
#[verifier::external_body]
pub(crate) fn fresh_id() -> (r: String)
    ensures
        r@.len() == 36,
{
    uuid::Uuid::new_v4().to_string()
}

/// One todo item. Timestamps are microseconds since the Unix epoch (UTC);
/// the item is completed exactly when `closed_at` holds a stamp.
#[derive(Debug)]
pub struct Todo {
    pub id: String,
    pub subject: String,
    pub description: String,
    pub created_at: i64,
    pub closed_at: Option<i64>,
    pub last_modified_at: i64,
}

/// What an item holds, with its texts as character sequences.
pub struct TodoView {
    pub id: Seq<char>,
    pub subject: Seq<char>,
    pub description: Seq<char>,
    pub created_at: i64,
    pub closed_at: Option<i64>,
    pub last_modified_at: i64,
}

impl TodoView {
    pub open spec fn completed(self) -> bool {
        self.closed_at is Some
    }
}

impl View for Todo {
    type V = TodoView;

    open spec fn view(&self) -> TodoView {
        TodoView {
            id: self.id@,
            subject: self.subject@,
            description: self.description@,
            created_at: self.created_at,
            closed_at: self.closed_at,
            last_modified_at: self.last_modified_at,
        }
    }
}

impl Clone for Todo {
    fn clone(&self) -> (r: Self)
        ensures
            r == *self,
            r@ == self@,
    {
        Todo {
            id: self.id.clone(),
            subject: self.subject.clone(),
            description: self.description.clone(),
            created_at: self.created_at,
            closed_at: self.closed_at,
            last_modified_at: self.last_modified_at,
        }
    }
}

pub const COMPLETED_ICON: &'static str = "\u{2705}";

pub const ACTIVE_ICON: &'static str = "\u{1f4dd}";

impl Todo {
    /// The item's stamps are in order: it was last modified no earlier than
    /// it was created, and closed (if it is) between the two.
    pub open spec fn wf(&self) -> bool {
        &&& self.created_at <= self.last_modified_at
        &&& (self.closed_at matches Some(c) ==> self.created_at <= c <= self.last_modified_at)
    }

    pub open spec fn completed(&self) -> bool {
        self.closed_at is Some
    }

    /// A fresh, open item with the given identifier, created at `now`.
    pub fn from_parts(id: String, subject: String, description: String, now: i64) -> (r: Todo)
        ensures
            r.id == id,
            r.subject == subject,
            r.description == description,
            r.created_at == now,
            r.last_modified_at == now,
            r.closed_at is None,
            r.wf(),
    {
        Todo { id, subject, description, created_at: now, closed_at: None, last_modified_at: now }
    }

    /// A fresh, open item with a newly drawn identifier, stamped with the
    /// current time (with the epoch where the clock gives no reading).
    pub fn new(subject: String, description: String) -> (r: Todo)
        ensures
            r.id@.len() == 36,
            r.subject == subject,
            r.description == description,
            r.created_at == r.last_modified_at,
            r.closed_at is None,
            r.wf(),
    {
        let now = clock_or(0);
        let id = fresh_id();
        Todo::from_parts(id, subject, description, now)
    }

    pub fn is_completed(&self) -> (r: bool)
        ensures
            r == self.completed(),
    {
        self.closed_at.is_some()
    }

    /// Flips completion at clock reading `now`: an open item is closed at the
    /// new stamp, a closed one is reopened; the stamp always moves forward.
    pub fn toggle_completion_at(&mut self, now: i64)
        ensures
            final(self).id == old(self).id,
            final(self).subject == old(self).subject,
            final(self).description == old(self).description,
            final(self).created_at == old(self).created_at,
            final(self).last_modified_at == next_stamp(old(self).last_modified_at, now),
            final(self).closed_at == (if old(self).completed() {
                None
            } else {
                Some(final(self).last_modified_at)
            }),
            old(self).wf() ==> final(self).wf(),
    {
        let stamp = stamp_after(self.last_modified_at, now);
        if self.closed_at.is_some() {
            self.closed_at = None;
        } else {
            self.closed_at = Some(stamp);
        }
        self.last_modified_at = stamp;
    }

    /// Flips completion at the current time.
    pub fn toggle_completion(&mut self)
        ensures
            toggled(old(self)@, final(self)@),
            old(self).wf() ==> final(self).wf(),
    {
        let now = clock_or(self.last_modified_at);
        self.toggle_completion_at(now);
    }

    /// Replaces subject and description at clock reading `now`.
    pub fn update_at(&mut self, subject: String, description: String, now: i64)
        ensures
            final(self).id == old(self).id,
            final(self).subject == subject,
            final(self).description == description,
            final(self).created_at == old(self).created_at,
            final(self).closed_at == old(self).closed_at,
            final(self).last_modified_at == next_stamp(old(self).last_modified_at, now),
            old(self).wf() ==> final(self).wf(),
    {
        let stamp = stamp_after(self.last_modified_at, now);
        self.subject = subject;
        self.description = description;
        self.last_modified_at = stamp;
    }

    /// Replaces subject and description at the current time.
    pub fn update(&mut self, subject: String, description: String)
        ensures
            final(self).id == old(self).id,
            final(self).subject == subject,
            final(self).description == description,
            final(self).created_at == old(self).created_at,
            final(self).closed_at == old(self).closed_at,
            final(self).last_modified_at >= old(self).last_modified_at,
            old(self).last_modified_at < i64::MAX ==> final(self).last_modified_at
                > old(self).last_modified_at,
            old(self).wf() ==> final(self).wf(),
    {
        let now = clock_or(self.last_modified_at);
        self.update_at(subject, description, now);
    }

    pub fn status_icon(&self) -> (r: &'static str)
        ensures
            r == (if self.completed() { COMPLETED_ICON } else { ACTIVE_ICON }),
    {
        if self.is_completed() {
            COMPLETED_ICON
        } else {
            ACTIVE_ICON
        }
    }

    /// The status icon, a space, and the subject.
    pub fn display_title(&self) -> (r: String)
        ensures
            r@ == (if self.completed() { COMPLETED_ICON@ } else { ACTIVE_ICON@ }) + " "@
                + self.subject@,
    {
        let mut title = String::from_str(self.status_icon());
        title.append(" ");
        title.append(self.subject.as_str());
        title
    }
}

/// Toggling twice restores the completion status, and each toggle moves
/// the stamp strictly forward (as long as it has room to move).
pub proof fn lemma_toggle_twice(a: TodoView, b: TodoView, c: TodoView)
    requires
        toggled(a, b),
        toggled(b, c),
        a.last_modified_at < i64::MAX,
        b.last_modified_at < i64::MAX,
    ensures
        c.completed() == a.completed(),
        c.id == a.id,
        c.subject == a.subject,
        c.description == a.description,
        b.last_modified_at > a.last_modified_at,
        c.last_modified_at > b.last_modified_at,
{
}

} // verus!
