//! Domain events published for live observers. Events are not persisted:
//! delivery is best-effort, and an event published while no subscriber is
//! attached is lost.

use crate::fields::{User, UserV, Username};
use vstd::prelude::*;

verus! {

/// The view of a [`NewReferralEvent`].
pub ghost struct NewReferralEventV {
    pub referrer: Seq<char>,
    pub referred_user: Seq<char>,
}

/// A referral came into being: `referred_user` registered with the invite
/// code owned by `referrer`.
pub struct NewReferralEvent {
    pub referrer: Username,
    pub referred_user: Username,
}

impl View for NewReferralEvent {
    type V = NewReferralEventV;

    open spec fn view(&self) -> NewReferralEventV {
        NewReferralEventV { referrer: self.referrer@, referred_user: self.referred_user@ }
    }
}

impl Clone for NewReferralEvent {
    fn clone(&self) -> (r: Self)
        ensures
            r@ == self@,
    {
        NewReferralEvent {
            referrer: self.referrer.clone(),
            referred_user: self.referred_user.clone(),
        }
    }
}

/// The view of an [`AppEvent`].
pub ghost enum AppEventV {
    NewLogin(UserV),
    NewRegister(UserV),
    NewReferral(NewReferralEventV),
}

/// A domain event, published at the orchestrator's trigger points and
/// consumed by zero or more live subscribers.
pub enum AppEvent {
    NewLogin(User),
    NewRegister(User),
    NewReferral(NewReferralEvent),
}

impl View for AppEvent {
    type V = AppEventV;

    open spec fn view(&self) -> AppEventV {
        match self {
            AppEvent::NewLogin(u) => AppEventV::NewLogin(u@),
            AppEvent::NewRegister(u) => AppEventV::NewRegister(u@),
            AppEvent::NewReferral(e) => AppEventV::NewReferral(e@),
        }
    }
}

impl Clone for AppEvent {
    fn clone(&self) -> (r: Self)
        ensures
            r@ == self@,
    {
        match self {
            AppEvent::NewLogin(u) => AppEvent::NewLogin(u.clone()),
            AppEvent::NewRegister(u) => AppEvent::NewRegister(u.clone()),
            AppEvent::NewReferral(e) => AppEvent::NewReferral(e.clone()),
        }
    }
}

} // verus!
