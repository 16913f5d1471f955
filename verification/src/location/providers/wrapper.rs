//! The cache in front of the location providers: a fresh fix is answered
//! from the cache; an expired one makes the providers be asked in order.
use vstd::prelude::*;
use crate::clock::SysTime;
use crate::location::types::{Location, LocationView, location_valid};

verus! {

/// A source of locations.
#[derive(Clone, Copy, PartialEq, Eq, Structural, Debug)]
pub enum ProviderKind {
    /// The coordinates set by hand in the configuration.
    Manual,
    /// Geolocation by IP address.
    Ip,
}

/// The providers, in the order they are tried: the manual one first, then
/// geolocation by IP.
pub open spec fn provider_order() -> Seq<ProviderKind> {
    seq![ProviderKind::Manual, ProviderKind::Ip]
}

/// The providers, in the order they are tried.
pub fn providers_in_order() -> (r: Vec<ProviderKind>)
    ensures
        r@ == provider_order(),
{
    let mut v: Vec<ProviderKind> = Vec::new();
    v.push(ProviderKind::Manual);
    v.push(ProviderKind::Ip);
    assert(v@ =~= provider_order());
    v
}

/// What the cache needs next.
pub enum LookupStep {
    /// Ask the provider at this position in the list.
    AskProvider(usize),
    /// The lookup is over; this is the location to use.
    Done(Location),
}

/// Delegates to a list of providers (given by their number, in the order
/// they are tried), trying each in turn until one returns a location, and
/// keeps the last known location.
pub struct LocationProviderWrapper {
    pub latest_location: Location,
    pub ttl: u64,
    pub provider_count: usize,
    /// The provider being asked, while a lookup is under way.
    pub asking: Option<usize>,
}

/// A lookup step with the location as a view.
pub enum LookupStepView {
    AskProvider(usize),
    Done(LocationView),
}

impl View for LookupStep {
    type V = LookupStepView;

    open spec fn view(&self) -> LookupStepView {
        match self {
            LookupStep::AskProvider(i) => LookupStepView::AskProvider(*i),
            LookupStep::Done(l) => LookupStepView::Done(l@),
        }
    }
}

/// The cache as its lookups see it.
pub struct WrapperView {
    pub latest: LocationView,
    pub ttl: u64,
    pub provider_count: usize,
    pub asking: Option<usize>,
}

/// The view of an optional location.
pub open spec fn opt_location_view(l: Option<Location>) -> Option<LocationView> {
    match l {
        Some(x) => Some(x@),
        None => None,
    }
}

/// What the cache does with the answer of the provider it asked.
pub open spec fn answered_spec(w: WrapperView, answer: Option<LocationView>) -> (WrapperView, LookupStepView) {
    match answer {
        Some(l) => (WrapperView { latest: l, asking: None, ..w }, LookupStepView::Done(l)),
        None => if w.asking->0 + 1 < w.provider_count {
            (WrapperView { asking: Some((w.asking->0 + 1) as usize), ..w }, LookupStepView::AskProvider((w.asking->0 + 1) as usize))
        } else {
            (WrapperView { asking: None, ..w }, LookupStepView::Done(w.latest))
        },
    }
}

/// Feeds the providers' answers, in order, to a lookup under way: the
/// location it ends with, or `None` if it still asks when the answers run
/// out.
pub open spec fn feed_answers(w: WrapperView, answers: Seq<Option<LocationView>>) -> Option<LocationView>
    decreases answers.len(),
{
    if answers.len() == 0 {
        None
    } else {
        let (w2, step) = answered_spec(w, answers[0]);
        match step {
            LookupStepView::Done(l) => Some(l),
            LookupStepView::AskProvider(_) => feed_answers(w2, answers.drop_first()),
        }
    }
}

/// The first location among the answers, or `fallback` when none has one.
pub open spec fn first_success(answers: Seq<Option<LocationView>>, fallback: LocationView) -> LocationView
    decreases answers.len(),
{
    if answers.len() == 0 {
        fallback
    } else {
        match answers[0] {
            Some(l) => l,
            None => first_success(answers.drop_first(), fallback),
        }
    }
}

/// A lookup that asks the providers from position `asking` on ends with the
/// location of the first provider that answers with one, or else with the
/// cached location.
pub proof fn lemma_first_provider_that_answers_wins(w: WrapperView, answers: Seq<Option<LocationView>>)
    requires
        w.asking is Some,
        w.asking->0 < w.provider_count,
        answers.len() == w.provider_count - w.asking->0,
    ensures
        feed_answers(w, answers) == Some(first_success(answers, w.latest)),
    decreases answers.len(),
{
    let (w2, step) = answered_spec(w, answers[0]);
    if answers[0] is None && w.asking->0 + 1 < w.provider_count {
        lemma_first_provider_that_answers_wins(w2, answers.drop_first());
        assert(w2.latest == w.latest);
        assert(feed_answers(w, answers) == feed_answers(w2, answers.drop_first()));
        assert(first_success(answers, w.latest) == first_success(answers.drop_first(), w.latest));
    } else if answers[0] is None {
        assert(answers.drop_first().len() == 0);
        assert(first_success(answers.drop_first(), w.latest) == w.latest);
        assert(first_success(answers, w.latest) == first_success(answers.drop_first(), w.latest));
    }
}

impl LocationProviderWrapper {
    /// The cache as its lookups see it.
    pub open spec fn view(&self) -> WrapperView {
        WrapperView {
            latest: self.latest_location@,
            ttl: self.ttl,
            provider_count: self.provider_count,
            asking: self.asking,
        }
    }

    /// A cache of `provider_count` providers holding `cached` (the location
    /// read from the cache file, or the default one when there is none);
    /// fixes older than `ttl` seconds are refreshed.
    pub fn new(provider_count: usize, cached: Option<Location>, ttl: u64) -> (r: Self)
        ensures
            r.provider_count == provider_count,
            r.ttl == ttl,
            r.asking is None,
            match cached {
                Some(c) => r.latest_location@ == c@,
                None => r.latest_location@ == Location::default_view(),
            },
    {
        let latest_location = match cached {
            Some(c) => c,
            None => Location::default(),
        };
        LocationProviderWrapper { latest_location, ttl, provider_count, asking: None }
    }

    /// Starts a lookup at time `now`: a location that is still valid is the
    /// answer at once; an expired one makes the first provider be asked (or,
    /// with no providers, the cached location be the answer).
    pub fn get_location(&mut self, now: SysTime) -> (r: LookupStep)
        ensures
            final(self).latest_location@ == old(self).latest_location@,
            final(self).ttl == old(self).ttl,
            final(self).provider_count == old(self).provider_count,
            if location_valid(old(self).latest_location@, old(self).ttl, now) || old(self).provider_count == 0 {
                &&& final(self).asking is None
                &&& r matches LookupStep::Done(l) && l@ == old(self).latest_location@
            } else {
                &&& final(self).asking == Some(0usize)
                &&& r matches LookupStep::AskProvider(i) && i == 0
            },
    {
        if self.latest_location.validate(self.ttl, now) || self.provider_count == 0 {
            self.asking = None;
            LookupStep::Done(self.latest_location.clone_location())
        } else {
            self.asking = Some(0);
            LookupStep::AskProvider(0)
        }
    }

    /// The answer of the provider being asked: a location becomes the cached
    /// one and the answer; a failure makes the next provider be asked, and
    /// after the last one the cached location is the answer.
    pub fn provider_answered(&mut self, answer: Option<Location>) -> (r: LookupStep)
        requires
            old(self).asking is Some,
        ensures
            (final(self)@, r@) == answered_spec(old(self)@, opt_location_view(answer)),
            final(self).ttl == old(self).ttl,
            final(self).provider_count == old(self).provider_count,
            match answer {
                Some(l) => {
                    &&& final(self).latest_location@ == l@
                    &&& final(self).asking is None
                    &&& r matches LookupStep::Done(d) && d@ == l@
                },
                None => {
                    &&& final(self).latest_location@ == old(self).latest_location@
                    &&& if old(self).asking->0 + 1 < old(self).provider_count {
                        &&& final(self).asking == Some((old(self).asking->0 + 1) as usize)
                        &&& r matches LookupStep::AskProvider(i) && i == old(self).asking->0 + 1
                    } else {
                        &&& final(self).asking is None
                        &&& r matches LookupStep::Done(d) && d@ == old(self).latest_location@
                    }
                },
            },
    {
        let idx = match self.asking {
            Some(i) => i,
            None => 0,
        };
        match answer {
            Some(l) => {
                self.latest_location = l.clone_location();
                self.asking = None;
                LookupStep::Done(l)
            },
            None => {
                if idx < self.provider_count && idx + 1 < self.provider_count {
                    self.asking = Some(idx + 1);
                    LookupStep::AskProvider(idx + 1)
                } else {
                    self.asking = None;
                    LookupStep::Done(self.latest_location.clone_location())
                }
            },
        }
    }
}

} // verus!
