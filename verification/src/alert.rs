//! The alerts that one report calls for.

use vstd::prelude::*;
use crate::conditions::{high_uv, is_high_uv, is_polluted_air, is_severe_weather, polluted, severe};
use crate::message::{message, notification_message, SUMMARY};
use crate::report::{WeatherData, WeatherView};

verus! {

/// Why an alert is raised.
#[derive(Debug, Clone, Copy, PartialEq, Eq, Structural)]
pub enum Trigger {
    /// The report names severe weather.
    SevereWeather,
    /// The UV index is high.
    HighUv,
    /// The air is polluted.
    PollutedAir,
    /// The update that every report gets.
    Update,
}

/// What an [`Alert`] says.
pub struct AlertView {
    pub trigger: Trigger,
    pub summary: Seq<char>,
    pub body: Seq<char>,
}

/// One desktop notification to deliver.
#[derive(Debug, PartialEq, Eq)]
pub struct Alert {
    trigger: Trigger,
    summary: String,
    body: String,
}

impl Alert {
    pub closed spec fn as_view(&self) -> AlertView {
        AlertView { trigger: self.trigger, summary: self.summary@, body: self.body@ }
    }

    /// Why the alert is raised.
    pub fn trigger(&self) -> (trigger: Trigger)
        ensures
            trigger == self@.trigger,
    {
        self.trigger
    }

    /// The title to show.
    pub fn summary(&self) -> (summary: &String)
        ensures
            summary@ == self@.summary,
    {
        &self.summary
    }

    /// The text to show.
    pub fn body(&self) -> (body: &String)
        ensures
            body@ == self@.body,
    {
        &self.body
    }
}

impl Clone for Alert {
    fn clone(&self) -> (copy: Alert)
        ensures
            copy == *self,
    {
        Alert { trigger: self.trigger, summary: self.summary.clone(), body: self.body.clone() }
    }
}

impl View for Alert {
    type V = AlertView;

    open spec fn view(&self) -> AlertView {
        self.as_view()
    }
}

/// What each alert of a list says, in order.
pub open spec fn alert_views(alerts: Seq<Alert>) -> Seq<AlertView> {
    alerts.map_values(|a: Alert| a@)
}

/// The alert raised for a report on the given ground. Title and text do
/// not depend on the ground.
pub open spec fn alert_for(trigger: Trigger, weather: WeatherView) -> AlertView {
    AlertView { trigger, summary: SUMMARY@, body: message(weather) }
}

/// The alert for `trigger` if `raised`, else nothing.
pub open spec fn alert_if(raised: bool, trigger: Trigger, weather: WeatherView) -> Seq<AlertView> {
    if raised {
        seq![alert_for(trigger, weather)]
    } else {
        Seq::empty()
    }
}

/// The alerts that a report calls for, in the order of delivery: one for
/// each condition that holds (severe weather, then high UV, then polluted
/// air), and after them the update that every report gets.
pub open spec fn alerts(weather: WeatherView) -> Seq<AlertView> {
    alert_if(severe(weather), Trigger::SevereWeather, weather) + alert_if(
        high_uv(weather),
        Trigger::HighUv,
        weather,
    ) + alert_if(polluted(weather), Trigger::PollutedAir, weather) + seq![
        alert_for(Trigger::Update, weather),
    ]
}

/// How many of the three conditions hold for a report.
pub open spec fn conditions_met(weather: WeatherView) -> nat {
    (if severe(weather) { 1nat } else { 0nat }) + (if high_uv(weather) { 1nat } else { 0nat })
        + (if polluted(weather) { 1nat } else { 0nat })
}

/// The alerts to deliver for a report, in order.
pub fn alerts_for(weather: &WeatherData) -> (list: Vec<Alert>)
    ensures
        alert_views(list@) == alerts(weather@),
{
    let body = notification_message(weather);
    let mut list: Vec<Alert> = Vec::new();
    if is_severe_weather(weather) {
        list.push(Alert {
            trigger: Trigger::SevereWeather,
            summary: String::from_str(SUMMARY),
            body: body.clone(),
        });
    }
    if is_high_uv(weather) {
        list.push(Alert {
            trigger: Trigger::HighUv,
            summary: String::from_str(SUMMARY),
            body: body.clone(),
        });
    }
    if is_polluted_air(weather) {
        list.push(Alert {
            trigger: Trigger::PollutedAir,
            summary: String::from_str(SUMMARY),
            body: body.clone(),
        });
    }
    list.push(Alert { trigger: Trigger::Update, summary: String::from_str(SUMMARY), body });
    assert(alert_views(list@) =~= alerts(weather@));
    list
}

/// Every report gets at least one alert and at most four: the update,
/// and one more for each condition that holds.
pub proof fn lemma_alert_count(weather: WeatherView)
    ensures
        alerts(weather).len() == conditions_met(weather) + 1,
        1 <= alerts(weather).len() <= 4,
{
}

/// All alerts of one report carry the same title and the same text.
pub proof fn lemma_alerts_identical(weather: WeatherView, i: int)
    requires
        0 <= i < alerts(weather).len(),
    ensures
        alerts(weather)[i].summary == SUMMARY@,
        alerts(weather)[i].body == message(weather),
{
}

/// The update comes last, and it is the only alert raised as an update.
pub proof fn lemma_update_comes_last(weather: WeatherView, i: int)
    requires
        0 <= i < alerts(weather).len(),
    ensures
        alerts(weather)[i].trigger == Trigger::Update <==> i == alerts(weather).len() - 1,
{
}

/// A report for which all three conditions hold gets exactly four alerts:
/// severe weather, high UV, polluted air and the update, in that order.
pub proof fn lemma_all_conditions_give_four(weather: WeatherView)
    requires
        severe(weather),
        high_uv(weather),
        polluted(weather),
    ensures
        alerts(weather) == seq![
            alert_for(Trigger::SevereWeather, weather),
            alert_for(Trigger::HighUv, weather),
            alert_for(Trigger::PollutedAir, weather),
            alert_for(Trigger::Update, weather),
        ],
{
    assert(alerts(weather) =~= seq![
        alert_for(Trigger::SevereWeather, weather),
        alert_for(Trigger::HighUv, weather),
        alert_for(Trigger::PollutedAir, weather),
        alert_for(Trigger::Update, weather),
    ]);
}

/// A report for which no condition holds gets the update and nothing
/// else.
pub proof fn lemma_no_condition_gives_update_only(weather: WeatherView)
    requires
        !severe(weather),
        !high_uv(weather),
        !polluted(weather),
    ensures
        alerts(weather) == seq![alert_for(Trigger::Update, weather)],
{
    assert(alerts(weather) =~= seq![alert_for(Trigger::Update, weather)]);
}

} // verus!
