use vstd::prelude::*;
use vstd::string::StrSliceExecFns;
use crate::detail_view::push_char;
use crate::todo::{Todo, TodoView};

verus! {

/// Why reading, decoding, encoding or writing the backing store failed.
#[derive(Debug, Clone, Copy, PartialEq, Eq, Structural)]
pub enum PersistenceError {
    ConfigDirectoryUnavailable,
    ReadFailed,
    WriteFailed,
    DecodeFailed,
    EncodeFailed,
}

/// The form in which one item is written to the backing store:
/// identifier, subject, description, created, closed, last modified.
pub type Record = (String, String, String, i64, Option<i64>, i64);

/// A record with its texts as character sequences.
pub type RecordView = (Seq<char>, Seq<char>, Seq<char>, i64, Option<i64>, i64);

pub open spec fn record_view(r: Record) -> RecordView {
    (r.0@, r.1@, r.2@, r.3, r.4, r.5)
}

pub open spec fn record_of_view(t: TodoView) -> RecordView {
    (t.id, t.subject, t.description, t.created_at, t.closed_at, t.last_modified_at)
}

pub open spec fn todo_of_record(r: RecordView) -> TodoView {
    TodoView {
        id: r.0,
        subject: r.1,
        description: r.2,
        created_at: r.3,
        closed_at: r.4,
        last_modified_at: r.5,
    }
}

pub open spec fn views_of(s: Seq<Todo>) -> Seq<TodoView> {
    s.map_values(|t: Todo| t@)
}

pub open spec fn records_of_views(s: Seq<TodoView>) -> Seq<RecordView> {
    s.map_values(|t: TodoView| record_of_view(t))
}

pub open spec fn todos_of_records(s: Seq<RecordView>) -> Seq<TodoView> {
    s.map_values(|r: RecordView| todo_of_record(r))
}

pub open spec fn records_view_of(s: Seq<Record>) -> Seq<RecordView> {
    s.map_values(|r: Record| record_view(r))
}

/// The bytes that bincode writes for a sequence of records.
pub uninterp spec fn bincode_encoding(records: Seq<RecordView>) -> Seq<u8>;

/// The records that bincode reads back from bytes, or `None` where they do
/// not decode.
pub uninterp spec fn bincode_decoding(bytes: Seq<u8>) -> Option<Seq<RecordView>>;

#[verifier::external_type_specification]
#[verifier::external_body]
pub struct ExBincodeErrorKind(bincode::ErrorKind);

/// Relies on `bincode::serialize` (bincode 1): the bytes depend on the
/// records alone. It succeeds on these records: its options set no size
/// limit, a `Vec` always reports its length, and writing into a `Vec<u8>`
/// does not fail. With fixed-width integers the sequence's length comes
/// first as eight bytes, and `bincode::deserialize`, under the same options,
/// reads back the strings, integers and options that were written.
#[verifier::external_body]
fn encode_records(records: &Vec<Record>) -> (r: Result<Vec<u8>, Box<bincode::ErrorKind>>)
    ensures
        r is Ok,
        r matches Ok(bytes) ==> bytes@ == bincode_encoding(records_view_of(records@)),
        r matches Ok(bytes) ==> bytes@.len() >= 8,
        r matches Ok(bytes) ==> bincode_decoding(bytes@) == Some(records_view_of(records@)),
{
    bincode::serialize(records)
}

/// Relies on `bincode::deserialize` (bincode 1): whether the bytes decode,
/// and to what, depends on the bytes alone.
#[verifier::external_body]
fn decode_records(bytes: &[u8]) -> (r: Result<Vec<Record>, Box<bincode::ErrorKind>>)
    ensures
        (r is Ok) == (bincode_decoding(bytes@) is Some),
        r matches Ok(v) ==> bincode_decoding(bytes@) == Some(records_view_of(v@)),
{
    bincode::deserialize(bytes)
}

/// Relies on `<str as PartialEq>::eq`: equal exactly when the characters are.
#[verifier::external_body]
fn same_text(a: &str, b: &str) -> (r: bool)
    ensures
        r == (a@ == b@),
{
    a == b
}

/// No two items of `s` share an identifier.
pub open spec fn ids_unique(s: Seq<TodoView>) -> bool {
    forall|i: int, j: int|
        0 <= i < s.len() && 0 <= j < s.len() && i != j ==> #[trigger] s[i].id != #[trigger] s[j].id
}

/// The mapping from identifier to item that a sequence of items describes;
/// of two items with one identifier the later one counts.
pub open spec fn collection_of(s: Seq<TodoView>) -> Map<Seq<char>, TodoView>
    decreases s.len(),
{
    if s.len() == 0 {
        Map::empty()
    } else {
        collection_of(s.drop_last()).insert(s.last().id, s.last())
    }
}

/// `a` may stand before `b` in the listing: open items before completed
/// ones, and within each group the older modification first.
pub open spec fn listed_before(a: TodoView, b: TodoView) -> bool {
    ||| (!a.completed() && b.completed())
    ||| (a.completed() == b.completed() && a.last_modified_at <= b.last_modified_at)
}

pub open spec fn listing_sorted(s: Seq<TodoView>) -> bool {
    forall|i: int, j: int| 0 <= i < j < s.len() ==> listed_before(#[trigger] s[i], #[trigger] s[j])
}

/// `s` lists the collection `m`: each of its items once, none besides.
pub open spec fn lists(s: Seq<TodoView>, m: Map<Seq<char>, TodoView>) -> bool {
    ids_unique(s) && collection_of(s) == m
}

/// `bytes` is a snapshot of the collection `m`: the encoding of some
/// sequence of records that lists it, which decodes back to those records.
pub open spec fn encodes(bytes: Seq<u8>, m: Map<Seq<char>, TodoView>) -> bool {
    &&& bytes.len() > 0
    &&& exists|s: Seq<TodoView>| {
        &&& lists(s, m)
        &&& bytes == bincode_encoding(#[trigger] records_of_views(s))
        &&& bincode_decoding(bytes) == Some(records_of_views(s))
    }
}

proof fn lemma_collection_shape(s: Seq<TodoView>)
    ensures
        collection_of(s).dom().finite(),
        forall|k: Seq<char>| #[trigger] collection_of(s).contains_key(k) <==> exists|i: int| 0 <= i < s.len() && s[i].id == k,
        ids_unique(s) ==> collection_of(s).len() == s.len(),
        ids_unique(s) ==> forall|i: int| 0 <= i < s.len() ==> #[trigger] collection_of(s)[s[i].id] == s[i],
    decreases s.len(),
{
    if s.len() > 0 {
        let p = s.drop_last();
        lemma_collection_shape(p);
        assert forall|k: Seq<char>| #[trigger] collection_of(s).contains_key(k) <==> exists|i: int| 0 <= i < s.len() && s[i].id == k by {
            if collection_of(s).contains_key(k) && k != s.last().id {
                let i = choose|i: int| 0 <= i < p.len() && p[i].id == k;
                assert(s[i] == p[i]);
            }
            if exists|i: int| 0 <= i < s.len() && s[i].id == k {
                let i = choose|i: int| 0 <= i < s.len() && s[i].id == k;
                if i < p.len() {
                    assert(p[i] == s[i]);
                }
            }
        }
        if ids_unique(s) {
            assert(ids_unique(p)) by {
                assert forall|i: int, j: int| 0 <= i < p.len() && 0 <= j < p.len() && i != j implies p[i].id != p[j].id by {
                    assert(p[i] == s[i] && p[j] == s[j]);
                }
            }
            assert(!collection_of(p).contains_key(s.last().id)) by {
                if collection_of(p).contains_key(s.last().id) {
                    let i = choose|i: int| 0 <= i < p.len() && p[i].id == s.last().id;
                    assert(s[i] == p[i]);
                }
            }
            assert forall|i: int| 0 <= i < s.len() implies #[trigger] collection_of(s)[s[i].id] == s[i] by {
                if i < p.len() {
                    assert(s[i] == p[i]);
                    assert(s[i].id != s[s.len() - 1].id);
                }
            }
        }
    }
}

/// Two sequences without repeated identifiers and with the same items
/// describe the same collection.
proof fn lemma_collection_same_items(s1: Seq<TodoView>, s2: Seq<TodoView>)
    requires
        ids_unique(s1),
        ids_unique(s2),
        forall|t: TodoView| s1.contains(t) <==> s2.contains(t),
    ensures
        collection_of(s1) == collection_of(s2),
{
    lemma_collection_shape(s1);
    lemma_collection_shape(s2);
    let m1 = collection_of(s1);
    let m2 = collection_of(s2);
    assert forall|k: Seq<char>| #[trigger] m1.dom().contains(k) implies m2.dom().contains(k) && m2[k] == m1[k] by {
        let i = choose|i: int| 0 <= i < s1.len() && s1[i].id == k;
        assert(s1.contains(s1[i]));
        assert(m1[s1[i].id] == s1[i]);
        let j = choose|j: int| 0 <= j < s2.len() && s2[j] == s1[i];
        assert(m2[s2[j].id] == s2[j]);
        assert(m2.contains_key(s2[j].id));
    }
    assert forall|k: Seq<char>| #[trigger] m2.dom().contains(k) implies m1.dom().contains(k) by {
        let j = choose|j: int| 0 <= j < s2.len() && s2[j].id == k;
        assert(s2.contains(s2[j]));
        let i = choose|i: int| 0 <= i < s1.len() && s1[i] == s2[j];
        assert(s1[i].id == k);
        assert(m1.contains_key(s1[i].id));
    }
    assert(m1.dom() =~= m2.dom());
    assert(m1 =~= m2);
}

/// Inserting an item with a new identifier anywhere adds it to the
/// collection.
proof fn lemma_collection_insert(s: Seq<TodoView>, j: int, x: TodoView)
    requires
        ids_unique(s),
        0 <= j <= s.len(),
        forall|i: int| 0 <= i < s.len() ==> s[i].id != x.id,
    ensures
        ids_unique(s.insert(j, x)),
        collection_of(s.insert(j, x)) == collection_of(s).insert(x.id, x),
{
    let t = s.insert(j, x);
    s.insert_ensures(j, x);
    assert forall|a: int| 0 <= a < t.len() implies (a < j && t[a] == s[a]) || (a == j && t[a] == x) || (a > j && t[a] == s[a - 1]) by {
        if a > j {
            assert(t[(a - 1) + 1] == s[a - 1]);
        }
    }
    assert(ids_unique(t));
    let p = s.push(x);
    assert(p.drop_last() == s);
    assert(ids_unique(p)) by {
        assert forall|a: int, b: int| 0 <= a < p.len() && 0 <= b < p.len() && a != b implies p[a].id != p[b].id by {
            if a < s.len() {
                assert(p[a] == s[a]);
            }
            if b < s.len() {
                assert(p[b] == s[b]);
            }
        }
    }
    assert forall|y: TodoView| t.contains(y) <==> p.contains(y) by {
        if t.contains(y) {
            let a = choose|a: int| 0 <= a < t.len() && t[a] == y;
            if a < j {
                assert(p[a] == y);
            } else if a == j {
                assert(p[s.len() as int] == y);
            } else {
                assert(p[a - 1] == y);
            }
        }
        if p.contains(y) {
            let a = choose|a: int| 0 <= a < p.len() && p[a] == y;
            if a == s.len() {
                assert(t[j] == y);
            } else if a < j {
                assert(t[a] == y);
            } else {
                assert(t[a + 1] == y);
            }
        }
    }
    lemma_collection_same_items(t, p);
}

/// Removing the item at `i` removes its identifier from the collection.
proof fn lemma_collection_remove(s: Seq<TodoView>, i: int)
    requires
        ids_unique(s),
        0 <= i < s.len(),
    ensures
        ids_unique(s.remove(i)),
        collection_of(s.remove(i)) == collection_of(s).remove(s[i].id),
        forall|a: int| 0 <= a < s.remove(i).len() ==> s.remove(i)[a].id != s[i].id,
{
    let r = s.remove(i);
    s.remove_ensures(i);
    assert forall|a: int| 0 <= a < r.len() implies (a < i && r[a] == s[a]) || (a >= i && r[a] == s[a + 1]) by {}
    assert(ids_unique(r));
    assert(r.insert(i, s[i]) =~= s);
    lemma_collection_insert(r, i, s[i]);
    lemma_collection_shape(r);
    assert(collection_of(r) =~= collection_of(s).remove(s[i].id));
}

/// Whether `a` may stand before `b` in the listing.
fn comes_before(a: &Todo, b: &Todo) -> (r: bool)
    ensures
        r == listed_before(a@, b@),
{
    let ac = a.closed_at.is_some();
    let bc = b.closed_at.is_some();
    (!ac && bc) || (ac == bc && a.last_modified_at <= b.last_modified_at)
}

/// The storage engine: the whole collection of items, held in listing
/// order, and its snapshot for the backing store. Each mutation hands back
/// the snapshot that the backing store is then to hold; the mutation stands
/// in memory whatever becomes of that snapshot, so a failed encode or write
/// leaves memory ahead of the store until the next successful one.
pub struct Database {
    todos: Vec<Todo>,
}

impl View for Database {
    type V = Map<Seq<char>, TodoView>;

    closed spec fn view(&self) -> Map<Seq<char>, TodoView> {
        collection_of(views_of(self.todos@))
    }
}

impl Database {
    /// Identifiers are unique and the items are kept in listing order.
    pub closed spec fn wf(&self) -> bool {
        &&& ids_unique(views_of(self.todos@))
        &&& listing_sorted(views_of(self.todos@))
    }

    /// The items in the order in which they are listed.
    pub closed spec fn listing(&self) -> Seq<TodoView> {
        views_of(self.todos@)
    }

    /// The listing holds each item of the collection once, in listing
    /// order, and every item is stored under its own identifier.
    pub proof fn lemma_listing(&self)
        requires
            self.wf(),
        ensures
            lists(self.listing(), self@),
            listing_sorted(self.listing()),
            self.listing().len() == self@.len(),
            forall|i: int| 0 <= i < self.listing().len() ==> #[trigger] self@[self.listing()[i].id] == self.listing()[i],
            forall|k: Seq<char>| #[trigger] self@.contains_key(k) ==> self@[k].id == k,
    {
        self.lemma_view_facts();
        lemma_collection_shape(self.listing());
        assert forall|k: Seq<char>| #[trigger] self@.contains_key(k) implies self@[k].id == k by {
            let i = choose|i: int| 0 <= i < self.todos@.len() && self.todos@[i].id@ == k;
            assert(self@[self.todos@[i].id@] == self.todos@[i]@);
        }
        assert forall|i: int| 0 <= i < self.listing().len() implies #[trigger] self@[self.listing()[i].id] == self.listing()[i] by {
            assert(self.listing()[i] == self.todos@[i]@);
            assert(self@[self.todos@[i].id@] == self.todos@[i]@);
        }
    }

    pub fn new() -> (r: Database)
        ensures
            r.wf(),
            r@ == Map::<Seq<char>, TodoView>::empty(),
    {
        let r = Database { todos: Vec::new() };
        assert(views_of(r.todos@) =~= Seq::<TodoView>::empty());
        r
    }

    /// An empty collection that no backing store has been read into.
    pub fn new_in_memory() -> (r: Result<Database, PersistenceError>)
        ensures
            r matches Ok(db) && db.wf() && db@ == Map::<Seq<char>, TodoView>::empty(),
    {
        Ok(Database::new())
    }

    pub fn len(&self) -> (r: usize)
        requires
            self.wf(),
        ensures
            r == self@.len(),
    {
        proof {
            lemma_collection_shape(views_of(self.todos@));
        }
        self.todos.len()
    }

    pub fn is_empty(&self) -> (r: bool)
        requires
            self.wf(),
        ensures
            r == (self@.len() == 0),
    {
        self.len() == 0
    }

    /// An identifier that no stored item has: its `i`-th character differs
    /// from that of the `i`-th stored identifier, and it is as long as the
    /// collection is large, so that it differs from every stored identifier
    /// in a character or in length.
    pub fn unused_id(&self) -> (r: String)
        requires
            self.wf(),
        ensures
            !self@.contains_key(r@),
    {
        proof {
            self.lemma_view_facts();
        }
        let mut r = String::new();
        let mut i: usize = 0;
        while i < self.todos.len()
            invariant
                i <= self.todos@.len(),
                r@.len() == i,
                forall|j: int| 0 <= j < i && j < self.todos@[j].id@.len() ==> #[trigger] r@[j] != self.todos@[j].id@[j],
            decreases self.todos@.len() - i,
        {
            let key = self.todos[i].id.as_str();
            let c = if i < key.unicode_len() && key.get_char(i) == 'a' {
                'b'
            } else {
                'a'
            };
            let ghost before = r@;
            push_char(&mut r, c);
            assert forall|j: int| 0 <= j < i + 1 && j < self.todos@[j].id@.len() implies #[trigger] r@[j] != self.todos@[j].id@[j] by {
                if j < i {
                    assert(r@[j] == before[j]);
                }
            }
            i = i + 1;
        }
        assert forall|k: Seq<char>| self@.contains_key(k) implies k != r@ by {
            let j = choose|j: int| 0 <= j < self.todos@.len() && self.todos@[j].id@ == k;
            if k.len() == r@.len() {
                assert(r@[j] != k[j]);
            }
        }
        r
    }

    /// Where the item with identifier `id` stands in storage.
    fn position(&self, id: &str) -> (r: Option<usize>)
        ensures
            r matches Some(i) ==> i < self.todos@.len() && self.todos@[i as int].id@ == id@,
            r is None ==> forall|i: int| 0 <= i < self.todos@.len() ==> self.todos@[i].id@ != id@,
    {
        let mut i: usize = 0;
        while i < self.todos.len()
            invariant
                i <= self.todos@.len(),
                forall|k: int| 0 <= k < i ==> self.todos@[k].id@ != id@,
            decreases self.todos@.len() - i,
        {
            if same_text(self.todos[i].id.as_str(), id) {
                return Some(i);
            }
            i = i + 1;
        }
        None
    }

    proof fn lemma_view_facts(&self)
        requires
            self.wf(),
        ensures
            forall|k: Seq<char>| #[trigger] self@.contains_key(k) <==> exists|i: int| 0 <= i < self.todos@.len() && self.todos@[i].id@ == k,
            forall|i: int| 0 <= i < self.todos@.len() ==> #[trigger] self@[self.todos@[i].id@] == self.todos@[i]@,
            self@.len() == self.todos@.len(),
            self@.dom().finite(),
    {
        let v = views_of(self.todos@);
        lemma_collection_shape(v);
        assert forall|k: Seq<char>| #[trigger] self@.contains_key(k) <==> exists|i: int| 0 <= i < self.todos@.len() && self.todos@[i].id@ == k by {
            if self@.contains_key(k) {
                let i = choose|i: int| 0 <= i < v.len() && v[i].id == k;
                assert(self.todos@[i].id@ == k);
            }
            if exists|i: int| 0 <= i < self.todos@.len() && self.todos@[i].id@ == k {
                let i = choose|i: int| 0 <= i < self.todos@.len() && self.todos@[i].id@ == k;
                assert(v[i].id == k);
            }
        }
        assert forall|i: int| 0 <= i < self.todos@.len() implies #[trigger] self@[self.todos@[i].id@] == self.todos@[i]@ by {
            assert(v[i] == self.todos@[i]@);
            assert(collection_of(v)[v[i].id] == v[i]);
        }
    }

    /// The item with identifier `id`, if there is one.
    pub fn get_todo(&self, id: &str) -> (r: Option<&Todo>)
        requires
            self.wf(),
        ensures
            r is Some == self@.contains_key(id@),
            r matches Some(t) ==> t@ == self@[id@] && t.id@ == id@,
    {
        proof {
            self.lemma_view_facts();
        }
        match self.position(id) {
            Some(i) => Some(&self.todos[i]),
            None => None,
        }
    }

    /// Whether the collection holds an item with identifier `id`.
    pub fn contains(&self, id: &str) -> (r: bool)
        requires
            self.wf(),
        ensures
            r == self@.contains_key(id@),
    {
        self.get_todo(id).is_some()
    }

    /// Drops the item with identifier `id`, if there is one.
    fn remove_id(&mut self, id: &str)
        requires
            old(self).wf(),
        ensures
            final(self).wf(),
            final(self)@ == old(self)@.remove(id@),
    {
        if let Some(i) = self.position(id) {
            let ghost before = views_of(self.todos@);
            proof {
                lemma_collection_remove(before, i as int);
                before.remove_ensures(i as int);
            }
            self.todos.remove(i);
            assert(views_of(self.todos@) =~= before.remove(i as int));
            proof {
                let after = views_of(self.todos@);
                assert(old(self)@ == collection_of(before));
                assert(collection_of(after) == collection_of(before).remove(id@));
                assert forall|a: int, b: int| 0 <= a < b < after.len() implies listed_before(#[trigger] after[a], #[trigger] after[b]) by {
                    if a >= i {
                        assert(after[a] == before[a + 1]);
                    } else {
                        assert(after[a] == before[a]);
                    }
                    if b >= i {
                        assert(after[b] == before[b + 1]);
                    } else {
                        assert(after[b] == before[b]);
                    }
                }
            }
        } else {
            proof {
                self.lemma_view_facts();
            }
            assert(self@ =~= old(self)@.remove(id@));
        }
    }

    /// Every item, open ones first, each group from the oldest modification
    /// to the newest.
    pub fn get_all_todos(&self) -> (r: Vec<Todo>)
        requires
            self.wf(),
        ensures
            views_of(r@) == self.listing(),
            lists(views_of(r@), self@),
            r@.len() == self@.len(),
            listing_sorted(views_of(r@)),
    {
        proof {
            self.lemma_view_facts();
        }
        let mut r: Vec<Todo> = Vec::new();
        let mut i: usize = 0;
        while i < self.todos.len()
            invariant
                i <= self.todos@.len(),
                r@.len() == i,
                forall|k: int| 0 <= k < i ==> #[trigger] r@[k]@ == self.todos@[k]@,
            decreases self.todos@.len() - i,
        {
            r.push(self.todos[i].clone());
            i = i + 1;
        }
        assert(views_of(r@) =~= views_of(self.todos@));
        r
    }

    /// The collection as records for the backing store, one per item.
    pub fn records(&self) -> (r: Vec<Record>)
        requires
            self.wf(),
        ensures
            lists(todos_of_records(records_view_of(r@)), self@),
            r@.len() == self@.len(),
    {
        proof {
            self.lemma_view_facts();
        }
        let mut r: Vec<Record> = Vec::new();
        let mut i: usize = 0;
        while i < self.todos.len()
            invariant
                i <= self.todos@.len(),
                r@.len() == i,
                forall|k: int| 0 <= k < i ==> todo_of_record(record_view(#[trigger] r@[k])) == self.todos@[k]@,
            decreases self.todos@.len() - i,
        {
            let t = &self.todos[i];
            let rec: Record = (
                t.id.clone(),
                t.subject.clone(),
                t.description.clone(),
                t.created_at,
                t.closed_at,
                t.last_modified_at,
            );
            r.push(rec);
            i = i + 1;
        }
        assert(todos_of_records(records_view_of(r@)) =~= views_of(self.todos@));
        r
    }

    /// Encodes the whole collection as the snapshot that the backing store
    /// is to hold.
    pub fn save(&self) -> (r: Result<Vec<u8>, PersistenceError>)
        requires
            self.wf(),
        ensures
            r matches Ok(bytes) && encodes(bytes@, self@),
    {
        let records = self.records();
        match encode_records(&records) {
            Ok(bytes) => {
                proof {
                    let s = todos_of_records(records_view_of(records@));
                    assert(records_of_views(s) =~= records_view_of(records@));
                }
                Ok(bytes)
            },
            Err(_) => Err(PersistenceError::EncodeFailed),
        }
    }

    /// Replaces the collection with the one that `records` describe; of two
    /// records with one identifier the later one counts.
    pub fn load_records(&mut self, records: Vec<Record>)
        requires
            old(self).wf(),
        ensures
            final(self).wf(),
            final(self)@ == collection_of(todos_of_records(records_view_of(records@))),
    {
        let ghost all = todos_of_records(records_view_of(records@));
        *self = Database::new();
        let mut i: usize = 0;
        let n = records.len();
        while i < n
            invariant
                self.wf(),
                records@.len() == n,
                i <= n,
                all == todos_of_records(records_view_of(records@)),
                n == all.len(),
                self@ == collection_of(all.take(i as int)),
            decreases n - i,
        {
            let rec = &records[i];
            let todo = Todo {
                id: rec.0.clone(),
                subject: rec.1.clone(),
                description: rec.2.clone(),
                created_at: rec.3,
                closed_at: rec.4,
                last_modified_at: rec.5,
            };
            assert(records_view_of(records@)[i as int] == record_view(records@[i as int]));
            assert(all[i as int] == todo_of_record(records_view_of(records@)[i as int]));
            assert(todo@ == all[i as int]);
            self.put(todo);
            assert(all.take(i + 1).drop_last() =~= all.take(i as int));
            i = i + 1;
        }
        assert(all.take(n as int) =~= all);
    }

    /// Reads the collection from the backing store's contents. Empty
    /// contents leave it as it is; contents that do not decode leave it as
    /// it is and fail.
    pub fn load(&mut self, content: &[u8]) -> (r: Result<(), PersistenceError>)
        requires
            old(self).wf(),
        ensures
            final(self).wf(),
            content@.len() == 0 ==> r is Ok && final(self)@ == old(self)@,
            content@.len() > 0 && bincode_decoding(content@) is None ==> r == Err::<(), PersistenceError>(PersistenceError::DecodeFailed) && final(self)@ == old(self)@,
            content@.len() > 0 && bincode_decoding(content@) is Some ==> r is Ok && final(self)@ == collection_of(todos_of_records(bincode_decoding(content@)->0)),
    {
        if content.len() == 0 {
            return Ok(());
        }
        match decode_records(content) {
            Ok(records) => {
                self.load_records(records);
                Ok(())
            },
            Err(_) => Err(PersistenceError::DecodeFailed),
        }
    }

    /// Stores `todo` under its identifier, in place of any item that had it.
    fn put(&mut self, todo: Todo)
        requires
            old(self).wf(),
        ensures
            final(self).wf(),
            final(self)@ == old(self)@.insert(todo.id@, todo@),
    {
        self.remove_id(todo.id.as_str());
        let ghost mid = views_of(self.todos@);
        assert(collection_of(mid).insert(todo.id@, todo@) =~= old(self)@.insert(todo.id@, todo@));
        let mut j: usize = 0;
        while j < self.todos.len()
            invariant
                j <= self.todos@.len(),
                views_of(self.todos@) == mid,
                forall|k: int| 0 <= k < j ==> listed_before(#[trigger] mid[k], todo@),
            ensures
                j <= self.todos@.len(),
                views_of(self.todos@) == mid,
                forall|k: int| 0 <= k < j ==> listed_before(#[trigger] mid[k], todo@),
                j < mid.len() ==> !listed_before(mid[j as int], todo@),
            decreases self.todos@.len() - j,
        {
            if !comes_before(&self.todos[j], &todo) {
                break;
            }
            j = j + 1;
        }
        proof {
            lemma_collection_shape(mid);
            assert forall|k: int| 0 <= k < mid.len() implies mid[k].id != todo@.id by {
                assert(collection_of(mid).contains_key(mid[k].id));
            }
            lemma_collection_insert(mid, j as int, todo@);
            mid.insert_ensures(j as int, todo@);
        }
        let ghost tv = todo@;
        self.todos.insert(j, todo);
        proof {
            let after = views_of(self.todos@);
            assert(after =~= mid.insert(j as int, tv));
            assert forall|a: int, b: int| 0 <= a < b < after.len() implies listed_before(#[trigger] after[a], #[trigger] after[b]) by {
                if b == j {
                    assert(after[a] == mid[a]);
                } else if a == j {
                    assert(after[b] == mid[b - 1]);
                    if j < mid.len() {
                        assert(!listed_before(mid[j as int], tv));
                        assert(listed_before(mid[j as int], mid[b - 1]) || j == b - 1);
                    }
                } else {
                    if a > j {
                        assert(after[a] == mid[a - 1]);
                    } else {
                        assert(after[a] == mid[a]);
                    }
                    if b > j {
                        assert(after[b] == mid[b - 1]);
                    } else {
                        assert(after[b] == mid[b]);
                    }
                }
            }
        }
    }
    /// Stores `todo` under its identifier, in place of any item that had it,
    /// without encoding a snapshot.
    pub fn insert_todo_for_test(&mut self, todo: Todo)
        requires
            old(self).wf(),
        ensures
            final(self).wf(),
            final(self)@ == old(self)@.insert(todo.id@, todo@),
    {
        self.put(todo);
    }

    /// Stores a new item and encodes the snapshot to write.
    pub fn add_todo(&mut self, todo: Todo) -> (r: Result<Vec<u8>, PersistenceError>)
        requires
            old(self).wf(),
        ensures
            final(self).wf(),
            final(self)@ == old(self)@.insert(todo.id@, todo@),
            r matches Ok(bytes) && encodes(bytes@, final(self)@),
    {
        self.put(todo);
        self.save()
    }

    /// Stores a changed item in place of the one with its identifier and
    /// encodes the snapshot to write.
    pub fn update_todo(&mut self, todo: Todo) -> (r: Result<Vec<u8>, PersistenceError>)
        requires
            old(self).wf(),
        ensures
            final(self).wf(),
            final(self)@ == old(self)@.insert(todo.id@, todo@),
            r matches Ok(bytes) && encodes(bytes@, final(self)@),
    {
        self.put(todo);
        self.save()
    }

    /// Drops the item with identifier `id`, if any, and encodes the snapshot
    /// to write.
    pub fn delete_todo(&mut self, id: &str) -> (r: Result<Vec<u8>, PersistenceError>)
        requires
            old(self).wf(),
        ensures
            final(self).wf(),
            final(self)@ == old(self)@.remove(id@),
            r matches Ok(bytes) && encodes(bytes@, final(self)@),
    {
        self.remove_id(id);
        self.save()
    }
}

/// After an item is stored, looking up its identifier gives it back; after
/// an identifier is deleted, looking it up gives nothing. Other identifiers
/// keep what they had.
pub proof fn lemma_get_after_add_and_delete(m: Map<Seq<char>, TodoView>, t: TodoView, id: Seq<char>, other: Seq<char>)
    ensures
        m.insert(t.id, t).contains_key(t.id),
        m.insert(t.id, t)[t.id] == t,
        !m.remove(id).contains_key(id),
        other != t.id ==> m.insert(t.id, t).contains_key(other) == m.contains_key(other),
        other != t.id && m.contains_key(other) ==> m.insert(t.id, t)[other] == m[other],
        other != id ==> m.remove(id).contains_key(other) == m.contains_key(other),
        other != id && m.contains_key(other) ==> m.remove(id)[other] == m[other],
{
}

/// In a sorted listing an open item never comes after a completed one, and
/// items of equal status come in order of last modification, oldest first.
pub proof fn lemma_listing_order(s: Seq<TodoView>, i: int, j: int)
    requires
        listing_sorted(s),
        0 <= i < j < s.len(),
    ensures
        !(s[i].completed() && !s[j].completed()),
        s[i].completed() == s[j].completed() ==> s[i].last_modified_at <= s[j].last_modified_at,
{
    assert(listed_before(s[i], s[j]));
}

/// Turning a listing into records and the records back into items gives
/// the same items.
pub proof fn lemma_records_round_trip(s: Seq<TodoView>)
    ensures
        todos_of_records(records_of_views(s)) == s,
{
    assert(todos_of_records(records_of_views(s)) =~= s);
}

/// Loading a snapshot restores the collection it was taken of.
pub proof fn lemma_snapshot_round_trip(bytes: Seq<u8>, m: Map<Seq<char>, TodoView>)
    requires
        encodes(bytes, m),
    ensures
        bytes.len() > 0,
        bincode_decoding(bytes) is Some,
        collection_of(todos_of_records(bincode_decoding(bytes)->0)) == m,
{
    let s = choose|s: Seq<TodoView>| {
        &&& lists(s, m)
        &&& bytes == bincode_encoding(#[trigger] records_of_views(s))
        &&& bincode_decoding(bytes) == Some(records_of_views(s))
    };
    lemma_records_round_trip(s);
}

} // verus!
