//! A subscriber whose fields have both been validated.

use crate::domain::subscriber_email::SubscriberEmail;
use crate::domain::subscriber_name::SubscriberName;
use vstd::prelude::*;

verus! {

/// A subscription request after validation: a name and an email address.
#[derive(Debug)]
pub struct NewSubscriber {
    pub email: SubscriberEmail,
    pub name: SubscriberName,
}

/// What a [`NewSubscriber`] holds, as texts.
pub struct NewSubscriberView {
    pub email: Seq<char>,
    pub name: Seq<char>,
}

impl View for NewSubscriber {
    type V = NewSubscriberView;

    open spec fn view(&self) -> NewSubscriberView {
        NewSubscriberView { email: self.email@, name: self.name@ }
    }
}

impl NewSubscriber {
    /// Puts a validated name and a validated address together.
    pub fn new(name: SubscriberName, email: SubscriberEmail) -> (r: NewSubscriber)
        ensures
            r.name == name,
            r.email == email,
            r@ == (NewSubscriberView { email: email@, name: name@ }),
    {
        NewSubscriber { email, name }
    }
}

} // verus!
