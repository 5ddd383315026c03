//! The presence record that two peers share through the directory.

use vstd::prelude::*;

verus! {

/// A presence record as plain values.
pub struct UserView {
    pub name: Seq<char>,
    pub offer: Seq<char>,
    pub answer: Seq<char>,
    pub in_call: Seq<char>,
    pub sending_call: Seq<char>,
    pub receiving_call: Seq<char>,
}

impl UserView {
    /// A record that carries only a name.
    pub open spec fn bare(name: Seq<char>) -> UserView {
        UserView {
            name,
            offer: Seq::empty(),
            answer: Seq::empty(),
            in_call: Seq::empty(),
            sending_call: Seq::empty(),
            receiving_call: Seq::empty(),
        }
    }

    /// The record of a caller: an offer, and the name of the one called.
    pub open spec fn calling(name: Seq<char>, offer: Seq<char>, callee: Seq<char>) -> UserView {
        UserView { offer, sending_call: callee, ..UserView::bare(name) }
    }

    /// The record of one who answers: an answer, and the caller's name.
    pub open spec fn answering(name: Seq<char>, answer: Seq<char>, caller: Seq<char>) -> UserView {
        UserView { answer, receiving_call: caller, ..UserView::bare(name) }
    }

    /// The record of one who is in a call, with the name of the other.
    pub open spec fn talking(name: Seq<char>, peer: Seq<char>) -> UserView {
        UserView { in_call: peer, ..UserView::bare(name) }
    }

    /// How many of the three call fields say something.
    pub open spec fn call_fields_set(self) -> nat {
        let sending: nat = if self.sending_call.len() > 0 { 1 } else { 0 };
        let talking: nat = if self.in_call.len() > 0 { 1 } else { 0 };
        let receiving: nat = if self.receiving_call.len() > 0 { 1 } else { 0 };
        sending + talking + receiving
    }
}

/// A record made for one phase of a call names the other side in exactly
/// one of its three call fields, and a bare record in none.
pub proof fn lemma_one_call_field(name: Seq<char>, bundle: Seq<char>, peer: Seq<char>)
    requires
        peer.len() > 0,
    ensures
        UserView::bare(name).call_fields_set() == 0,
        UserView::calling(name, bundle, peer).call_fields_set() == 1,
        UserView::answering(name, bundle, peer).call_fields_set() == 1,
        UserView::talking(name, peer).call_fields_set() == 1,
{
}

/// One participant's record in the presence directory. Every field is a
/// string; the empty string means that the field says nothing.
#[derive(Clone, Debug, PartialEq, Eq)]
pub struct User {
    pub name: String,
    pub offer: String,
    pub answer: String,
    pub in_call: String,
    pub sending_call: String,
    pub receiving_call: String,
}

impl View for User {
    type V = UserView;

    open spec fn view(&self) -> UserView {
        UserView {
            name: self.name@,
            offer: self.offer@,
            answer: self.answer@,
            in_call: self.in_call@,
            sending_call: self.sending_call@,
            receiving_call: self.receiving_call@,
        }
    }
}

impl User {
    /// A record that carries only a name.
    pub fn new(name: String) -> (user: User)
        ensures
            user@ == UserView::bare(name@),
    {
        User {
            name,
            offer: String::new(),
            answer: String::new(),
            in_call: String::new(),
            sending_call: String::new(),
            receiving_call: String::new(),
        }
    }

    /// The record a caller publishes.
    pub fn calling(name: String, offer: String, callee: String) -> (user: User)
        ensures
            user@ == UserView::calling(name@, offer@, callee@),
    {
        let mut user = User::new(name);
        user.offer = offer;
        user.sending_call = callee;
        user
    }

    /// The record published by one who answers.
    pub fn answering(name: String, answer: String, caller: String) -> (user: User)
        ensures
            user@ == UserView::answering(name@, answer@, caller@),
    {
        let mut user = User::new(name);
        user.answer = answer;
        user.receiving_call = caller;
        user
    }

    /// The record published once the call is on.
    pub fn talking(name: String, peer: String) -> (user: User)
        ensures
            user@ == UserView::talking(name@, peer@),
    {
        let mut user = User::new(name);
        user.in_call = peer;
        user
    }

    /// A copy of the record, field for field.
    pub fn duplicate(&self) -> (copy: User)
        ensures
            copy@ == self@,
    {
        User {
            name: self.name.clone(),
            offer: self.offer.clone(),
            answer: self.answer.clone(),
            in_call: self.in_call.clone(),
            sending_call: self.sending_call.clone(),
            receiving_call: self.receiving_call.clone(),
        }
    }
}

} // verus!
