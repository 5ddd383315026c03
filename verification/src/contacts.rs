//! The list of those who can be called, and the mark that moves over it.
//!
//! The list holds the names of everybody online but ourselves, in the order
//! in which strings compare: byte by byte. The mark is moved with the arrow
//! keys and stays on the list whatever happens to it.

use crate::directory::records;
use crate::text::{copy_strings, texts};
use crate::user::{User, UserView};
use vstd::prelude::*;
use vstd::seq_lib::{to_multiset_build, to_multiset_remove};
use vstd::utf8::encode_utf8;

verus! {

/// The order of two byte strings: the first byte that differs decides, and
/// a string comes before every string that it begins.
pub open spec fn lex_le(a: Seq<u8>, b: Seq<u8>) -> bool
    decreases a.len(),
{
    if a.len() == 0 {
        true
    } else if b.len() == 0 {
        false
    } else if a[0] != b[0] {
        a[0] < b[0]
    } else {
        lex_le(a.drop_first(), b.drop_first())
    }
}

/// The order of two names: that of their bytes.
pub open spec fn name_le(a: Seq<char>, b: Seq<char>) -> bool {
    lex_le(encode_utf8(a), encode_utf8(b))
}

/// The names stand in order.
pub open spec fn in_order(names: Seq<Seq<char>>) -> bool {
    forall|i: int, j: int| 0 <= i <= j < names.len() ==> name_le(names[i], names[j])
}

/// The names of the records that are not our own, in the order of the
/// records.
pub open spec fn other_names(all: Seq<UserView>, own: Seq<char>) -> Seq<Seq<char>>
    decreases all.len(),
{
    if all.len() == 0 {
        Seq::empty()
    } else if all.last().name == own {
        other_names(all.drop_last(), own)
    } else {
        other_names(all.drop_last(), own).push(all.last().name)
    }
}

/// Of two byte strings one comes before the other, or they are the same.
pub proof fn lemma_lex_total(a: Seq<u8>, b: Seq<u8>)
    ensures
        lex_le(a, b) || lex_le(b, a),
    decreases a.len(),
{
    if a.len() > 0 && b.len() > 0 && a[0] == b[0] {
        lemma_lex_total(a.drop_first(), b.drop_first());
    }
}

/// What comes before something that comes before a third comes before the
/// third.
pub proof fn lemma_lex_transitive(a: Seq<u8>, b: Seq<u8>, c: Seq<u8>)
    requires
        lex_le(a, b),
        lex_le(b, c),
    ensures
        lex_le(a, c),
    decreases a.len(),
{
    if a.len() > 0 && b.len() > 0 && c.len() > 0 && a[0] == b[0] && b[0] == c[0] {
        lemma_lex_transitive(a.drop_first(), b.drop_first(), c.drop_first());
    }
}

/// A name put into an ordered list before the first name that comes after
/// it leaves the list in order.
proof fn lemma_insert_keeps_order(names: Seq<Seq<char>>, at: int, name: Seq<char>)
    requires
        in_order(names),
        0 <= at <= names.len(),
        forall|k: int| 0 <= k < at ==> name_le(#[trigger] names[k], name),
        at < names.len() ==> !name_le(names[at], name),
    ensures
        in_order(names.insert(at, name)),
{
    let longer = names.insert(at, name);
    assert forall|i: int, j: int| 0 <= i <= j < longer.len() implies name_le(
        longer[i],
        longer[j],
    ) by {
        if i == j {
            lemma_lex_total(encode_utf8(longer[i]), encode_utf8(longer[i]));
        } else if j == at {
            assert(longer[i] == names[i]);
        } else if i == at {
            assert(longer[j] == names[j - 1]);
            assert(name_le(names[at], names[j - 1]));
            lemma_lex_total(encode_utf8(names[at]), encode_utf8(name));
            lemma_lex_transitive(
                encode_utf8(name),
                encode_utf8(names[at]),
                encode_utf8(names[j - 1]),
            );
        } else {
            let from = if i < at { i } else { i - 1 };
            let to = if j < at { j } else { j - 1 };
            assert(longer[i] == names[from]);
            assert(longer[j] == names[to]);
            assert(name_le(names[from], names[to]));
        }
    }
}

/// A list with a name put in holds what it held, and the name once more.
proof fn lemma_insert_adds_one(names: Seq<Seq<char>>, at: int, name: Seq<char>)
    requires
        0 <= at <= names.len(),
    ensures
        names.insert(at, name).to_multiset() == names.to_multiset().insert(name),
{
    let longer = names.insert(at, name);
    to_multiset_remove(longer, at);
    assert(longer.remove(at) =~= names);
    longer.to_multiset_ensures();
    assert(longer.contains(name)) by {
        assert(longer[at] == name);
    }
    assert(longer.to_multiset() =~= names.to_multiset().insert(name));
}

/// Whether the first name comes before the second, or is the same.
pub fn comes_before(a: &String, b: &String) -> (before: bool)
    ensures
        before == name_le(a@, b@),
{
    let x = a.as_str().as_bytes();
    let y = b.as_str().as_bytes();
    let mut i: usize = 0;
    assert(x@.subrange(0, x@.len() as int) =~= x@);
    assert(y@.subrange(0, y@.len() as int) =~= y@);
    while i < x.len() && i < y.len()
        invariant
            i <= x@.len(),
            i <= y@.len(),
            x@ == encode_utf8(a@),
            y@ == encode_utf8(b@),
            name_le(a@, b@) == lex_le(
                x@.subrange(i as int, x@.len() as int),
                y@.subrange(i as int, y@.len() as int),
            ),
        decreases x@.len() - i,
    {
        let ghost xs = x@.subrange(i as int, x@.len() as int);
        let ghost ys = y@.subrange(i as int, y@.len() as int);
        assert(xs[0] == x@[i as int] && ys[0] == y@[i as int]);
        if x[i] < y[i] {
            return true;
        }
        if x[i] > y[i] {
            return false;
        }
        assert(xs.drop_first() =~= x@.subrange(i + 1, x@.len() as int));
        assert(ys.drop_first() =~= y@.subrange(i + 1, y@.len() as int));
        i += 1;
    }
    i == x.len()
}

/// A key that the list of contacts answers to.
#[derive(Clone, Copy, Debug, PartialEq, Eq, Structural)]
pub enum Key {
    Esc,
    Up,
    Down,
    Enter,
    Other,
}

/// The list of contacts as plain values.
pub struct ContactsView {
    /// Our own name.
    pub name: Seq<char>,
    /// The names of the others, in order.
    pub names: Seq<Seq<char>>,
    /// The place of the mark.
    pub selected: nat,
    /// The user asked to leave.
    pub exit: bool,
    /// The user asked to call the marked contact.
    pub send_call: bool,
}

impl ContactsView {
    /// The list after a key. `Esc` asks to leave. The arrows move the mark,
    /// which stops at either end of the list. `Enter` asks for a call, if
    /// there is anybody to call.
    pub open spec fn after_key(self, key: Key) -> ContactsView {
        match key {
            Key::Esc => ContactsView { exit: true, ..self },
            Key::Up => ContactsView {
                selected: if self.selected > 0 { (self.selected - 1) as nat } else { 0 },
                ..self
            },
            Key::Down => ContactsView {
                selected: if self.selected + 1 < self.names.len() {
                    self.selected + 1
                } else if self.names.len() > 0 {
                    (self.names.len() - 1) as nat
                } else {
                    0
                },
                ..self
            },
            Key::Enter => ContactsView { send_call: self.names.len() > 0, ..self },
            Key::Other => self,
        }
    }

    /// The place of the mark once the list has `len` names: where it was,
    /// or on the last name if the list has become too short for that.
    pub open spec fn mark_within(self, len: nat) -> nat {
        if self.selected < len {
            self.selected
        } else if len > 0 {
            (len - 1) as nat
        } else {
            0
        }
    }

    /// The name that a call goes to, if one was asked for and the mark is
    /// on a name.
    pub open spec fn callee(self) -> Option<Seq<char>> {
        if self.send_call && self.selected < self.names.len() {
            Some(self.names[self.selected as int])
        } else {
            None
        }
    }

    /// The mark is on the list, or the list is empty and the mark at its
    /// start.
    pub open spec fn mark_on_list(self) -> bool {
        self.selected < self.names.len() || (self.names.len() == 0 && self.selected == 0)
    }
}

/// No key takes the mark off the list.
pub proof fn lemma_mark_stays_on_list(contacts: ContactsView, key: Key)
    requires
        contacts.mark_on_list(),
    ensures
        contacts.after_key(key).mark_on_list(),
{
}

/// The list of contacts and the mark on it.
pub struct Contacts {
    name: String,
    names: Vec<String>,
    selected: usize,
    exit: bool,
    send_call: bool,
}

impl View for Contacts {
    type V = ContactsView;

    closed spec fn view(&self) -> ContactsView {
        ContactsView {
            name: self.name@,
            names: texts(self.names@),
            selected: self.selected as nat,
            exit: self.exit,
            send_call: self.send_call,
        }
    }
}

impl Contacts {
    /// An empty list, for the user of the given name.
    pub fn new(name: String) -> (contacts: Contacts)
        ensures
            contacts@ == (ContactsView {
                name: name@,
                names: Seq::empty(),
                selected: 0,
                exit: false,
                send_call: false,
            }),
    {
        let contacts = Contacts {
            name,
            names: Vec::new(),
            selected: 0,
            exit: false,
            send_call: false,
        };
        assert(contacts@.names =~= Seq::empty());
        contacts
    }

    /// Takes in what the directory holds now. The list becomes the names of
    /// all records but our own, in order; the mark stays where it was, or
    /// moves to the last name if the list has become too short.
    pub fn update_contacts(&mut self, users: &Vec<User>)
        ensures
            in_order(final(self)@.names),
            final(self)@.names.to_multiset() == other_names(records(users@), old(self)@.name).to_multiset(),
            final(self)@.selected == old(self)@.mark_within(final(self)@.names.len()),
            final(self)@.mark_on_list(),
            final(self)@.name == old(self)@.name,
            final(self)@.exit == old(self)@.exit,
            final(self)@.send_call == old(self)@.send_call,
    {
        let mut names: Vec<String> = Vec::new();
        let mut i: usize = 0;
        assert(records(users@).take(0) =~= Seq::empty());
        assert(texts(names@) =~= Seq::empty());
        while i < users.len()
            invariant
                i <= users.len(),
                in_order(texts(names@)),
                texts(names@).to_multiset() == other_names(
                    records(users@).take(i as int),
                    self.name@,
                ).to_multiset(),
                self.name == old(self).name,
                self.selected == old(self).selected,
                self.exit == old(self).exit,
                self.send_call == old(self).send_call,
            decreases users.len() - i,
        {
            let ghost seen = records(users@).take(i as int);
            let ghost more = records(users@).take(i + 1);
            assert(more.drop_last() =~= seen);
            assert(more.last() == users@[i as int]@);
            if users[i].name != self.name {
                let name = users[i].name.clone();
                let mut at: usize = 0;
                while at < names.len() && comes_before(&names[at], &name)
                    invariant
                        at <= names.len(),
                        forall|k: int| 0 <= k < at ==> name_le(#[trigger] texts(names@)[k], name@),
                    decreases names.len() - at,
                {
                    at += 1;
                }
                proof {
                    let before = texts(names@);
                    if at < names.len() {
                        assert(before[at as int] == names@[at as int]@);
                    }
                    lemma_insert_keeps_order(before, at as int, name@);
                    lemma_insert_adds_one(before, at as int, name@);
                    to_multiset_build(other_names(seen, self.name@), name@);
                }
                let ghost before = texts(names@);
                names.insert(at, name);
                assert(texts(names@) =~= before.insert(at as int, name@));
            }
            i += 1;
        }
        assert(records(users@).take(users@.len() as int) =~= records(users@));
        if self.selected >= names.len() {
            self.selected = if names.len() > 0 { names.len() - 1 } else { 0 };
        }
        self.names = names;
    }

    /// A copy of the names on the list.
    pub fn contact_names(&self) -> (names: Vec<String>)
        ensures
            texts(names@) == self@.names,
    {
        copy_strings(&self.names)
    }

    /// The number of names on the list.
    pub fn len(&self) -> (n: usize)
        ensures
            n == self@.names.len(),
    {
        self.names.len()
    }

    /// The place of the mark.
    pub fn selected(&self) -> (at: usize)
        ensures
            at == self@.selected,
    {
        self.selected
    }

    /// The name under the mark, if the mark is on a name.
    pub fn selected_name(&self) -> (name: Option<&String>)
        ensures
            match name {
                Some(n) => self@.selected < self@.names.len() && n@ == self@.names[self@.selected as int],
                None => self@.selected >= self@.names.len(),
            },
    {
        if self.selected < self.names.len() {
            Some(&self.names[self.selected])
        } else {
            None
        }
    }

    /// Whether the user asked to leave.
    pub fn should_exit(&self) -> (exit: bool)
        ensures
            exit == self@.exit,
    {
        self.exit
    }

    /// Whether the user asked to call the marked contact.
    pub fn wants_call(&self) -> (call: bool)
        ensures
            call == self@.send_call,
    {
        self.send_call
    }

    /// Takes up the call that the user asked for, if any: hands back the
    /// name under the mark and forgets that a call was asked for.
    pub fn take_call(&mut self) -> (callee: Option<String>)
        ensures
            match callee {
                Some(name) => old(self)@.callee() == Some(name@),
                None => old(self)@.callee() is None,
            },
            final(self)@ == (ContactsView { send_call: false, ..old(self)@ }),
    {
        let asked = self.send_call;
        self.send_call = false;
        if asked && self.selected < self.names.len() {
            Some(self.names[self.selected].clone())
        } else {
            None
        }
    }

    /// Asks to leave.
    pub fn exit(&mut self)
        ensures
            final(self)@ == (ContactsView { exit: true, ..old(self)@ }),
    {
        self.exit = true;
    }

    /// Takes in a key.
    pub fn handle_key_event(&mut self, key: Key)
        ensures
            final(self)@ == old(self)@.after_key(key),
    {
        match key {
            Key::Esc => {
                self.exit = true;
            },
            Key::Up => {
                if self.selected > 0 {
                    self.selected = self.selected - 1;
                }
            },
            Key::Down => {
                if self.names.len() == 0 {
                    self.selected = 0;
                } else if self.selected < self.names.len() - 1 {
                    self.selected = self.selected + 1;
                } else {
                    self.selected = self.names.len() - 1;
                }
            },
            Key::Enter => {
                self.send_call = self.names.len() > 0;
            },
            Key::Other => {},
        }
    }
}

} // verus!
