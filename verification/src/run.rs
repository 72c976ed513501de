//! One run over the configured users: what to ask for next, given what came back.
//!
//! The caller performs each `Action` and hands back the `Event` it led to.
//! Users are served one at a time, in the configuration's order, and the
//! first failure ends the run.

use vstd::prelude::*;
use crate::config::{Conf, ConfView};
use crate::failure::{Call, Failure};
use crate::notify::{body_text, message_text, format_message, notification_body};
use crate::weather::{body_forecast, forecast_url_text, forecast_from_body, forecast_url};

verus! {

/// What a run waits for.
#[derive(Debug, Clone, Copy, PartialEq, Eq, Structural)]
pub enum Phase {
    /// Nothing was asked for yet.
    Ready,
    /// The forecast for the current user.
    Lookup,
    /// The delivery of the current user's notification.
    Delivery,
    /// Nothing more: every user was served, or the run failed.
    Finished,
}

/// How far a run has come.
#[derive(Debug, Clone, Copy, PartialEq, Eq, Structural)]
pub struct Run {
    /// How many users have been notified; the current user's index.
    pub served: usize,
    pub phase: Phase,
}

/// What came back from the last action.
#[derive(Debug, Clone, PartialEq, Eq)]
pub enum Event {
    /// The run starts.
    Begin,
    /// The body of the forecast reply, or `None` where the request could not
    /// be sent or no reply came.
    Forecast(Option<Vec<u8>>),
    /// Whether a reply to the webhook call came, whatever its status.
    Delivered(bool),
}

/// The mathematical value of an `Event`.
pub enum EventView {
    Begin,
    Forecast(Option<Seq<u8>>),
    Delivered(bool),
}

/// What the caller is to do next.
#[derive(Debug, Clone, PartialEq, Eq)]
pub enum Action {
    /// Send one GET to `url`.
    Fetch { url: String },
    /// Send one POST to `url` with `body` as `application/json`.
    Post { url: String, body: String },
    /// Every user was served: end with success.
    Finish,
    /// End at once with this failure.
    Abort(Failure),
}

/// The mathematical value of an `Action`.
pub enum ActionView {
    Fetch { url: Seq<char> },
    Post { url: Seq<char>, body: Seq<char> },
    Finish,
    Abort(Failure),
}

impl View for Event {
    type V = EventView;

    open spec fn view(&self) -> EventView {
        match self {
            Event::Begin => EventView::Begin,
            Event::Forecast(Some(body)) => EventView::Forecast(Some(body@)),
            Event::Forecast(None) => EventView::Forecast(None),
            Event::Delivered(ok) => EventView::Delivered(*ok),
        }
    }
}

impl View for Action {
    type V = ActionView;

    open spec fn view(&self) -> ActionView {
        match self {
            Action::Fetch { url } => ActionView::Fetch { url: url@ },
            Action::Post { url, body } => ActionView::Post { url: url@, body: body@ },
            Action::Finish => ActionView::Finish,
            Action::Abort(e) => ActionView::Abort(*e),
        }
    }
}

impl Run {
    /// The run fits the configuration: while it waits for a user's forecast
    /// or delivery, that user exists. The users are as many as a `Vec` holds.
    pub open spec fn wf(self, conf: ConfView) -> bool {
        &&& conf.users.len() <= usize::MAX
        &&& match self.phase {
            Phase::Ready => self.served == 0,
            Phase::Lookup | Phase::Delivery => self.served < conf.users.len(),
            Phase::Finished => self.served <= conf.users.len(),
        }
    }

    /// The event is the one that the run waits for.
    pub open spec fn awaits(self, event: EventView) -> bool {
        match (self.phase, event) {
            (Phase::Ready, EventView::Begin) => true,
            (Phase::Lookup, EventView::Forecast(_)) => true,
            (Phase::Delivery, EventView::Delivered(_)) => true,
            _ => false,
        }
    }

    /// Whether `advance` takes this event for this run: the run fits the
    /// configuration and waits for the event.
    pub fn accepts(&self, conf: &Conf, event: &Event) -> (r: bool)
        ensures
            r == (self.wf(conf@) && self.awaits(event@)),
    {
        let count = conf.users.len();
        assert(count == conf@.users.len());
        match self.phase {
            Phase::Ready => self.served == 0 && matches!(event, Event::Begin),
            Phase::Lookup => self.served < count && matches!(event, Event::Forecast(_)),
            Phase::Delivery => self.served < count && matches!(event, Event::Delivered(_)),
            Phase::Finished => false,
        }
    }

    /// A run that has asked for nothing yet. It fits every configuration
    /// that a `Conf` can hold.
    pub fn new() -> (r: Run)
        ensures
            r == (Run { served: 0, phase: Phase::Ready }),
            forall|conf: Conf| r.wf(#[trigger] conf@),
    {
        assert forall|conf: Conf| (Run { served: 0, phase: Phase::Ready }).wf(
            #[trigger] conf@,
        ) by {
            assert(conf@.users.len() == conf.users.len());
        }
        Run { served: 0, phase: Phase::Ready }
    }
}

/// The end of a run after a failure.
pub open spec fn stopped(run: Run, failure: Failure) -> (Run, ActionView) {
    (Run { served: run.served, phase: Phase::Finished }, ActionView::Abort(failure))
}

/// The turn to user `i`: a lookup for that user's city, without air quality
/// and alerts, or the end of the run where no user is left.
pub open spec fn turn_to(conf: ConfView, i: usize) -> (Run, ActionView) {
    if i < conf.users.len() {
        (
            Run { served: i, phase: Phase::Lookup },
            ActionView::Fetch {
                url: forecast_url_text(conf.weather_api_token, conf.users[i as int].city, false, false),
            },
        )
    } else {
        (Run { served: i, phase: Phase::Finished }, ActionView::Finish)
    }
}

/// What follows a forecast reply for the current user: the webhook call
/// with that user's message, or the end of the run where the reply holds no
/// forecast.
pub open spec fn after_reply(conf: ConfView, run: Run, body: Seq<u8>) -> (Run, ActionView) {
    match body_forecast(body) {
        Ok(f) => (
            Run { served: run.served, phase: Phase::Delivery },
            ActionView::Post {
                url: conf.webhook_url,
                body: body_text(
                    message_text(
                        conf.users[run.served as int].id,
                        conf.users[run.served as int].city,
                        f,
                    ),
                ),
            },
        ),
        Err(e) => stopped(run, e),
    }
}

/// The run after an event, and what to do next.
pub open spec fn next(conf: ConfView, run: Run, event: EventView) -> (Run, ActionView) {
    match event {
        EventView::Begin => turn_to(conf, 0),
        EventView::Forecast(Some(body)) => after_reply(conf, run, body),
        EventView::Forecast(None) => stopped(run, Failure::Network(Call::Weather)),
        EventView::Delivered(true) => turn_to(conf, (run.served + 1) as usize),
        EventView::Delivered(false) => stopped(run, Failure::Network(Call::Webhook)),
    }
}

fn turn(conf: &Conf, i: usize) -> (r: (Run, Action))
    requires
        i <= conf@.users.len(),
    ensures
        r.0 == turn_to(conf@, i).0,
        r.1@ == turn_to(conf@, i).1,
{
    if i < conf.users.len() {
        let url = forecast_url(
            conf.weather_api_token.as_str(),
            conf.users[i].city.as_str(),
            false,
            false,
        );
        (Run { served: i, phase: Phase::Lookup }, Action::Fetch { url })
    } else {
        (Run { served: i, phase: Phase::Finished }, Action::Finish)
    }
}

/// Takes the event that the last action led to, and says how the run goes
/// on: the next state and the next action are those of `next`.
pub fn advance(conf: &Conf, run: Run, event: Event) -> (r: (Run, Action))
    requires
        run.wf(conf@),
        run.awaits(event@),
    ensures
        r.0 == next(conf@, run, event@).0,
        r.1@ == next(conf@, run, event@).1,
        r.0.wf(conf@),
{
    let count = conf.users.len();
    assert(count == conf@.users.len());
    match event {
        Event::Begin => turn(conf, 0),
        Event::Forecast(Some(body)) => match forecast_from_body(body.as_slice()) {
            Ok(f) => {
                let user = &conf.users[run.served];
                let message = format_message(user.id.as_str(), user.city.as_str(), &f);
                let body = notification_body(message.as_str());
                (
                    Run { served: run.served, phase: Phase::Delivery },
                    Action::Post { url: conf.webhook_url.clone(), body },
                )
            },
            Err(e) => (Run { served: run.served, phase: Phase::Finished }, Action::Abort(e)),
        },
        Event::Forecast(None) => (
            Run { served: run.served, phase: Phase::Finished },
            Action::Abort(Failure::Network(Call::Weather)),
        ),
        Event::Delivered(true) => turn(conf, run.served + 1),
        Event::Delivered(false) => (
            Run { served: run.served, phase: Phase::Finished },
            Action::Abort(Failure::Network(Call::Webhook)),
        ),
    }
}

/// A failed request ends the run at once: whichever user was being served,
/// the next action is `Abort` with `Failure::Network` for the call that
/// failed, and the run is finished.
pub proof fn failure_ends_run(conf: ConfView, run: Run, event: EventView)
    requires
        run.wf(conf),
        run.awaits(event),
        event == EventView::Forecast(None) || event == EventView::Delivered(false),
    ensures
        event is Forecast ==> next(conf, run, event).1 == ActionView::Abort(
            Failure::Network(Call::Weather),
        ),
        event is Delivered ==> next(conf, run, event).1 == ActionView::Abort(
            Failure::Network(Call::Webhook),
        ),
        next(conf, run, event).0.phase == Phase::Finished,
{
}

/// A finished run waits for nothing: no event can make it ask for a lookup
/// or a delivery again.
pub proof fn finished_awaits_nothing(run: Run, event: EventView)
    requires
        run.phase == Phase::Finished,
    ensures
        !run.awaits(event),
{
}

/// Users are served one at a time and in order. A lookup is asked for only
/// at the start, for the first user, or after a delivery, for the user after
/// the one just served. A delivery is asked for only after the lookup for
/// the same user, so each user gets one lookup and at most one notification.
pub proof fn one_user_at_a_time(conf: ConfView, run: Run, event: EventView)
    requires
        run.wf(conf),
        run.awaits(event),
    ensures
        next(conf, run, event).0.wf(conf),
        next(conf, run, event).1 is Fetch ==> {
            &&& next(conf, run, event).0.phase == Phase::Lookup
            &&& (run.phase == Phase::Ready && next(conf, run, event).0.served == 0
                || run.phase == Phase::Delivery && next(conf, run, event).0.served == run.served
                + 1)
        },
        next(conf, run, event).1 is Post ==> {
            &&& run.phase == Phase::Lookup
            &&& next(conf, run, event).0.phase == Phase::Delivery
            &&& next(conf, run, event).0.served == run.served
        },
        next(conf, run, event).1 is Finish ==> next(conf, run, event).0.served
            == conf.users.len(),
{
}

} // verus!
