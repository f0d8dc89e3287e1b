//! The polling cycle: fetch, judge and alert, rest, and fetch again.
//!
//! [`Notifier`] makes the decisions and leaves the work to its caller. The
//! caller reports what happened as an [`Event`] and is told what to do
//! next as an [`Action`]; when that is done it reports again.

use vstd::prelude::*;
use crate::alert::{alert_views, alerts, alerts_for, Alert, AlertView};
use crate::client::{request_url, weather_url, FetchError};
use crate::config::{Config, ConfigView};
use crate::report::{WeatherData, WeatherView};

verus! {

/// Seconds to rest between two fetches, whatever the first one yielded.
pub const POLL_INTERVAL_SECS: u64 = 300;

/// Where the notifier is in its cycle.
#[derive(Debug, Clone, Copy, PartialEq, Eq, Structural)]
pub enum Phase {
    /// Not started yet.
    Idle,
    /// A fetch is under way.
    Fetching,
    /// A report came in and its alerts are being delivered.
    Evaluating,
    /// Resting until the next fetch.
    Sleeping,
}

/// What the caller reports.
#[derive(Debug, PartialEq, Eq)]
pub enum Event {
    /// The caller is ready to run the cycle.
    Started,
    /// The fetch yielded a report.
    Fetched(WeatherData),
    /// The fetch yielded no report.
    FetchFailed(FetchError),
    /// The alerts were delivered.
    Notified,
    /// The rest is over.
    Woke,
}

/// What an [`Event`] says.
pub enum EventView {
    Started,
    Fetched(WeatherView),
    FetchFailed(FetchError),
    Notified,
    Woke,
}

impl View for Event {
    type V = EventView;

    open spec fn view(&self) -> EventView {
        match self {
            Event::Started => EventView::Started,
            Event::Fetched(weather) => EventView::Fetched(weather@),
            Event::FetchFailed(error) => EventView::FetchFailed(*error),
            Event::Notified => EventView::Notified,
            Event::Woke => EventView::Woke,
        }
    }
}

/// What the caller is to do next.
#[derive(Debug, PartialEq, Eq)]
pub enum Action {
    /// Get the address and decode the answer.
    Fetch { url: String },
    /// Deliver the alerts, in order.
    Notify { alerts: Vec<Alert> },
    /// Rest for so many seconds.
    Sleep { seconds: u64 },
}

/// What an [`Action`] says.
pub enum ActionView {
    Fetch { url: Seq<char> },
    Notify { alerts: Seq<AlertView> },
    Sleep { seconds: u64 },
}

impl View for Action {
    type V = ActionView;

    open spec fn view(&self) -> ActionView {
        match self {
            Action::Fetch { url } => ActionView::Fetch { url: url@ },
            Action::Notify { alerts } => ActionView::Notify { alerts: alert_views(alerts@) },
            Action::Sleep { seconds } => ActionView::Sleep { seconds: *seconds },
        }
    }
}

/// The fetch that a configuration calls for.
pub open spec fn fetch(config: ConfigView) -> ActionView {
    ActionView::Fetch { url: request_url(config.api_key, config.location_key) }
}

/// The rest between two fetches.
pub open spec fn rest() -> ActionView {
    ActionView::Sleep { seconds: POLL_INTERVAL_SECS }
}

/// The cycle. An event that the phase is waiting for leads to the next
/// phase and says what to do there; any other event leads nowhere.
///
/// Starting leads to the first fetch. A report leads to its alerts, and
/// their delivery to the rest. A failed fetch leads straight to the rest.
/// The end of the rest leads to the next fetch.
pub open spec fn transition(config: ConfigView, phase: Phase, event: EventView) -> Option<
    (Phase, ActionView),
> {
    match (phase, event) {
        (Phase::Idle, EventView::Started) => Some((Phase::Fetching, fetch(config))),
        (Phase::Fetching, EventView::Fetched(weather)) => Some(
            (Phase::Evaluating, ActionView::Notify { alerts: alerts(weather) }),
        ),
        (Phase::Fetching, EventView::FetchFailed(_)) => Some((Phase::Sleeping, rest())),
        (Phase::Evaluating, EventView::Notified) => Some((Phase::Sleeping, rest())),
        (Phase::Sleeping, EventView::Woke) => Some((Phase::Fetching, fetch(config))),
        _ => None,
    }
}

/// What a [`Notifier`] holds.
pub struct NotifierView {
    pub config: ConfigView,
    pub phase: Phase,
}

/// The state of the polling cycle.
#[derive(Debug)]
pub struct Notifier {
    config: Config,
    phase: Phase,
}

impl View for Notifier {
    type V = NotifierView;

    open spec fn view(&self) -> NotifierView {
        self.as_view()
    }
}

impl Notifier {
    pub closed spec fn as_view(&self) -> NotifierView {
        NotifierView { config: self.config@, phase: self.phase }
    }

    /// A notifier that has not started yet.
    pub fn new(config: Config) -> (notifier: Notifier)
        ensures
            notifier@ == (NotifierView { config: config@, phase: Phase::Idle }),
    {
        Notifier { config, phase: Phase::Idle }
    }

    /// The configuration that the notifier runs with.
    pub fn config(&self) -> (config: &Config)
        ensures
            config@ == self@.config,
    {
        &self.config
    }

    /// Where the notifier is in its cycle.
    pub fn phase(&self) -> (phase: Phase)
        ensures
            phase == self@.phase,
    {
        self.phase
    }

    /// Takes an event and says what to do next. An event that the phase
    /// is not waiting for changes nothing and yields `None`. The
    /// configuration never changes.
    pub fn step(&mut self, event: Event) -> (action: Option<Action>)
        ensures
            final(self)@.config == old(self)@.config,
            match transition(old(self)@.config, old(self)@.phase, event@) {
                Some((phase, planned)) => {
                    &&& final(self)@.phase == phase
                    &&& action matches Some(a)
                    &&& a@ == planned
                },
                None => final(self)@.phase == old(self)@.phase && action is None,
            },
    {
        match (self.phase, event) {
            (Phase::Idle, Event::Started) | (Phase::Sleeping, Event::Woke) => {
                self.phase = Phase::Fetching;
                Some(
                    Action::Fetch {
                        url: weather_url(
                            self.config.api_key().as_str(),
                            self.config.location_key().as_str(),
                        ),
                    },
                )
            },
            (Phase::Fetching, Event::Fetched(weather)) => {
                self.phase = Phase::Evaluating;
                Some(Action::Notify { alerts: alerts_for(&weather) })
            },
            (Phase::Fetching, Event::FetchFailed(_)) | (Phase::Evaluating, Event::Notified) => {
                self.phase = Phase::Sleeping;
                Some(Action::Sleep { seconds: POLL_INTERVAL_SECS })
            },
            _ => None,
        }
    }
}

/// A report always leads to alerts, at least one of them, and after their
/// delivery to the rest.
pub proof fn lemma_report_leads_to_alerts(config: ConfigView, weather: WeatherView)
    ensures
        transition(config, Phase::Fetching, EventView::Fetched(weather)) == Some(
            (Phase::Evaluating, ActionView::Notify { alerts: alerts(weather) }),
        ),
        alerts(weather).len() >= 1,
        transition(config, Phase::Evaluating, EventView::Notified) == Some(
            (Phase::Sleeping, rest()),
        ),
{
}

/// A failed fetch raises no alert and does not end the cycle: it leads to
/// the rest of the usual length, and the end of the rest to the next
/// fetch.
pub proof fn lemma_failed_fetch_is_survived(config: ConfigView, error: FetchError)
    ensures
        transition(config, Phase::Fetching, EventView::FetchFailed(error)) == Some(
            (Phase::Sleeping, ActionView::Sleep { seconds: 300 }),
        ),
        transition(config, Phase::Sleeping, EventView::Woke) == Some(
            (Phase::Fetching, fetch(config)),
        ),
{
}

/// The cycle has no end: in every phase there is an event that leads on.
pub proof fn lemma_no_phase_is_final(config: ConfigView, phase: Phase)
    ensures
        exists|event: EventView| (#[trigger] transition(config, phase, event)) is Some,
{
    match phase {
        Phase::Idle => {
            assert(transition(config, phase, EventView::Started) is Some);
        },
        Phase::Fetching => {
            assert(transition(config, phase, EventView::FetchFailed(FetchError::Transport))
                is Some);
        },
        Phase::Evaluating => {
            assert(transition(config, phase, EventView::Notified) is Some);
        },
        Phase::Sleeping => {
            assert(transition(config, phase, EventView::Woke) is Some);
        },
    }
}

/// What is told depends only on the phase that is entered. Nothing leads
/// back to the start. A fetch is told on leaving the start or a rest, and
/// it is always the configured one. Alerts are told on a report only, and
/// never none. A rest is told after a failed fetch or after the alerts,
/// and it always has the same length.
pub proof fn lemma_action_follows_phase(config: ConfigView, phase: Phase, event: EventView)
    ensures
        transition(config, phase, event) matches Some((next, action)) ==> match next {
            Phase::Idle => false,
            Phase::Fetching => {
                &&& action == fetch(config)
                &&& (phase == Phase::Idle || phase == Phase::Sleeping)
            },
            Phase::Evaluating => {
                &&& action matches ActionView::Notify { alerts }
                &&& alerts.len() >= 1
                &&& phase == Phase::Fetching
            },
            Phase::Sleeping => {
                &&& action == rest()
                &&& (phase == Phase::Fetching || phase == Phase::Evaluating)
            },
        },
{
}

} // verus!
