use vstd::prelude::*;
use vstd::string::StrSliceExecFns;
use crate::todo::{Todo, TodoView};

verus! {

/// The characters that Unicode gives the White_Space property.
pub open spec fn is_white_space(c: char) -> bool {
    ||| ('\u{9}' <= c && c <= '\u{d}')
    ||| c == ' '
    ||| c == '\u{85}'
    ||| c == '\u{a0}'
    ||| c == '\u{1680}'
    ||| ('\u{2000}' <= c && c <= '\u{200a}')
    ||| c == '\u{2028}'
    ||| c == '\u{2029}'
    ||| c == '\u{202f}'
    ||| c == '\u{205f}'
    ||| c == '\u{3000}'
}

/// A subject is valid when something other than white space is left of it
/// once surrounding white space is trimmed.
pub open spec fn subject_valid(s: Seq<char>) -> bool {
    exists|i: int| 0 <= i < s.len() && !is_white_space(#[trigger] s[i])
}

/// Whether `c` has the White_Space property, as `char::is_whitespace` tests.
pub fn char_is_whitespace(c: char) -> (r: bool)
    ensures
        r == is_white_space(c),
{
    ('\u{9}' <= c && c <= '\u{d}') || c == ' ' || c == '\u{85}' || c == '\u{a0}' || c == '\u{1680}'
        || ('\u{2000}' <= c && c <= '\u{200a}') || c == '\u{2028}' || c == '\u{2029}'
        || c == '\u{202f}' || c == '\u{205f}' || c == '\u{3000}'
}

/// Relies on `String::push`: appends one character.
#[verifier::external_body]
pub(crate) fn push_char(s: &mut String, c: char)
    ensures
        final(s)@ == old(s)@.push(c),
{
    s.push(c)
}

/// Relies on `String::pop`: removes and returns the last character, if any.
#[verifier::external_body]
fn pop_char(s: &mut String) -> (r: Option<char>)
    ensures
        old(s)@.len() == 0 ==> r is None && final(s)@ == old(s)@,
        old(s)@.len() > 0 ==> r == Some(old(s)@.last()) && final(s)@ == old(s)@.drop_last(),
{
    s.pop()
}

/// Whether `s` holds white space only (or nothing).
pub fn is_blank(s: &str) -> (r: bool)
    ensures
        r == !subject_valid(s@),
{
    let n = s.unicode_len();
    let mut i: usize = 0;
    while i < n
        invariant
            n == s@.len(),
            i <= n,
            forall|k: int| 0 <= k < i ==> is_white_space(#[trigger] s@[k]),
        decreases n - i,
    {
        if !char_is_whitespace(s.get_char(i)) {
            return false;
        }
        i = i + 1;
    }
    true
}

/// How the detail screen holds its buffer: showing an item, editing one,
/// or drafting a new one.
#[derive(Debug, Clone, Copy, PartialEq, Eq, Structural)]
pub enum DetailMode {
    View,
    Edit,
    New,
}

/// The edit buffer of the detail screen: working copies of subject and
/// description, which of the two is active (0 the subject, 1 the
/// description), and the original item's stamps for display.
#[derive(Debug)]
pub struct DetailView {
    pub mode: DetailMode,
    pub subject: String,
    pub description: String,
    pub created_at: Option<i64>,
    pub closed_at: Option<i64>,
    pub last_modified_at: Option<i64>,
    pub current_field: usize,
}

/// A buffer seen through its texts' characters.
pub struct DetailViewModel {
    pub mode: DetailMode,
    pub subject: Seq<char>,
    pub description: Seq<char>,
    pub created_at: Option<i64>,
    pub closed_at: Option<i64>,
    pub last_modified_at: Option<i64>,
    pub current_field: usize,
}

impl View for DetailView {
    type V = DetailViewModel;

    open spec fn view(&self) -> DetailViewModel {
        DetailViewModel {
            mode: self.mode,
            subject: self.subject@,
            description: self.description@,
            created_at: self.created_at,
            closed_at: self.closed_at,
            last_modified_at: self.last_modified_at,
            current_field: self.current_field,
        }
    }
}

/// The buffer that opening item `t` in `mode` gives.
pub open spec fn buffer_of(t: TodoView, mode: DetailMode) -> DetailViewModel {
    DetailViewModel {
        mode,
        subject: t.subject,
        description: t.description,
        created_at: Some(t.created_at),
        closed_at: t.closed_at,
        last_modified_at: Some(t.last_modified_at),
        current_field: 0,
    }
}

/// The empty buffer of a new draft.
pub open spec fn new_buffer() -> DetailViewModel {
    DetailViewModel {
        mode: DetailMode::New,
        subject: Seq::empty(),
        description: Seq::empty(),
        created_at: None,
        closed_at: None,
        last_modified_at: None,
        current_field: 0,
    }
}

/// The buffer after moving to the next field.
pub open spec fn next_field_of(v: DetailViewModel) -> DetailViewModel {
    DetailViewModel { current_field: ((v.current_field + 1) % 2) as usize, ..v }
}

/// The buffer after moving to the previous field.
pub open spec fn previous_field_of(v: DetailViewModel) -> DetailViewModel {
    DetailViewModel { current_field: if v.current_field == 0 { 1usize } else { 0usize }, ..v }
}

/// The buffer after typing `c` into the active field.
pub open spec fn with_char(v: DetailViewModel, c: char) -> DetailViewModel {
    if v.current_field == 0 {
        DetailViewModel { subject: v.subject.push(c), ..v }
    } else if v.current_field == 1 {
        DetailViewModel { description: v.description.push(c), ..v }
    } else {
        v
    }
}

/// The buffer after erasing the last character of the active field.
pub open spec fn without_last_char(v: DetailViewModel) -> DetailViewModel {
    if v.current_field == 0 && v.subject.len() > 0 {
        DetailViewModel { subject: v.subject.drop_last(), ..v }
    } else if v.current_field == 1 && v.description.len() > 0 {
        DetailViewModel { description: v.description.drop_last(), ..v }
    } else {
        v
    }
}

impl DetailView {
    fn for_item(todo: &Todo, mode: DetailMode) -> (r: DetailView)
        ensures
            r@ == buffer_of(todo@, mode),
    {
        DetailView {
            mode,
            subject: todo.subject.clone(),
            description: todo.description.clone(),
            created_at: Some(todo.created_at),
            closed_at: todo.closed_at,
            last_modified_at: Some(todo.last_modified_at),
            current_field: 0,
        }
    }

    pub fn new_for_viewing(todo: &Todo) -> (r: DetailView)
        ensures
            r@ == buffer_of(todo@, DetailMode::View),
    {
        DetailView::for_item(todo, DetailMode::View)
    }

    pub fn new_for_editing(todo: &Todo) -> (r: DetailView)
        ensures
            r@ == buffer_of(todo@, DetailMode::Edit),
    {
        DetailView::for_item(todo, DetailMode::Edit)
    }

    pub fn new_for_creation() -> (r: DetailView)
        ensures
            r@ == new_buffer(),
    {
        DetailView {
            mode: DetailMode::New,
            subject: String::new(),
            description: String::new(),
            created_at: None,
            closed_at: None,
            last_modified_at: None,
            current_field: 0,
        }
    }

    /// Moves to the other field, wrapping.
    pub fn next_field(&mut self)
        ensures
            final(self)@ == next_field_of(old(self)@),
    {
        self.current_field = (self.current_field % 2 + 1) % 2;
    }

    /// Moves to the other field, wrapping.
    pub fn previous_field(&mut self)
        ensures
            final(self)@ == previous_field_of(old(self)@),
    {
        self.current_field = if self.current_field == 0 {
            1
        } else {
            0
        };
    }

    /// Appends `c` to the active field.
    pub fn add_char(&mut self, c: char)
        ensures
            final(self)@ == with_char(old(self)@, c),
    {
        if self.current_field == 0 {
            push_char(&mut self.subject, c);
        } else if self.current_field == 1 {
            push_char(&mut self.description, c);
        }
    }

    /// Removes the last character of the active field, if it has one.
    pub fn delete_char(&mut self)
        ensures
            final(self)@ == without_last_char(old(self)@),
    {
        if self.current_field == 0 {
            pop_char(&mut self.subject);
        } else if self.current_field == 1 {
            pop_char(&mut self.description);
        }
    }

    /// The buffer may be stored: its subject is not blank.
    pub fn is_valid(&self) -> (r: bool)
        ensures
            r == subject_valid(self.subject@),
    {
        !is_blank(self.subject.as_str())
    }
}

} // verus!
