use weather_notifier::alert::{alerts_for, Alert, Trigger};
use weather_notifier::conditions::{is_high_uv, is_polluted_air, is_severe_weather};
use weather_notifier::message::notification_message;
use weather_notifier::report::{AirQuality, WeatherData};

fn report(text: &str, uv_index: u8, category: Option<&str>) -> WeatherData {
    WeatherData::new(
        text.to_string(),
        format!("{}", 15.0_f32),
        uv_index,
        category.map(|c| AirQuality::new(c.to_string())),
    )
}

fn triggers(alerts: &[Alert]) -> Vec<Trigger> {
    alerts.iter().map(|alert| alert.trigger()).collect()
}

#[test]
fn calm_report_gets_the_update_only() {
    let weather = WeatherData::new(
        "Sunny".to_string(),
        format!("{}", 20.0_f32),
        3,
        Some(AirQuality::new("Good".to_string())),
    );
    let alerts = alerts_for(&weather);
    assert_eq!(alerts.len(), 1);
    assert_eq!(alerts[0].trigger(), Trigger::Update);
    assert_eq!(alerts[0].summary(), "Weather Alert");
    assert_eq!(
        alerts[0].body(),
        "Weather: Sunny\nTemperature: 20°C\nUV Index: 3\nAir Quality: Good"
    );
}

#[test]
fn report_with_all_conditions_gets_four_identical_alerts() {
    let weather = report("Tornado", 9, Some("Unhealthy"));
    let alerts = alerts_for(&weather);
    assert_eq!(
        triggers(&alerts),
        vec![Trigger::SevereWeather, Trigger::HighUv, Trigger::PollutedAir, Trigger::Update]
    );
    for alert in &alerts {
        assert_eq!(alert.summary(), "Weather Alert");
        assert_eq!(
            alert.body(),
            "Weather: Tornado\nTemperature: 15°C\nUV Index: 9\nAir Quality: Unhealthy"
        );
    }
}

#[test]
fn report_without_air_quality_gets_no_pollution_alert() {
    let weather = report("Hail", 8, None);
    let alerts = alerts_for(&weather);
    assert_eq!(triggers(&alerts), vec![Trigger::SevereWeather, Trigger::HighUv, Trigger::Update]);
    for alert in &alerts {
        assert_eq!(alert.body().lines().last(), Some("Air Quality: Not available"));
    }
}

#[test]
fn each_condition_alone_adds_one_alert() {
    assert_eq!(
        triggers(&alerts_for(&report("Storm", 7, Some("Good")))),
        vec![Trigger::SevereWeather, Trigger::Update]
    );
    assert_eq!(
        triggers(&alerts_for(&report("Sunny", 8, Some("Good")))),
        vec![Trigger::HighUv, Trigger::Update]
    );
    assert_eq!(
        triggers(&alerts_for(&report("Sunny", 7, Some("Unhealthy")))),
        vec![Trigger::PollutedAir, Trigger::Update]
    );
}

#[test]
fn pairs_of_conditions_keep_their_order() {
    assert_eq!(
        triggers(&alerts_for(&report("Storm", 7, Some("Unhealthy")))),
        vec![Trigger::SevereWeather, Trigger::PollutedAir, Trigger::Update]
    );
    assert_eq!(
        triggers(&alerts_for(&report("Rain", 11, Some("Unhealthy")))),
        vec![Trigger::HighUv, Trigger::PollutedAir, Trigger::Update]
    );
}

#[test]
fn alert_count_is_one_more_than_the_conditions_met() {
    let texts = ["Storm", "Hail", "Tornado", "Sunny", "storm"];
    let indexes = [0_u8, 7, 8, 255];
    let categories = [None, Some("Good"), Some("Unhealthy")];
    for text in texts {
        for uv_index in indexes {
            for category in categories {
                let weather = report(text, uv_index, category);
                let met = [
                    is_severe_weather(&weather),
                    is_high_uv(&weather),
                    is_polluted_air(&weather),
                ]
                .iter()
                .filter(|flag| **flag)
                .count();
                let alerts = alerts_for(&weather);
                assert_eq!(alerts.len(), met + 1);
                assert!(alerts.len() >= 1 && alerts.len() <= 4);
                assert_eq!(alerts[alerts.len() - 1].trigger(), Trigger::Update);
                let body = notification_message(&weather);
                for (at, alert) in alerts.iter().enumerate() {
                    assert_eq!(alert.body(), &body);
                    assert_eq!(alert.summary(), "Weather Alert");
                    assert_eq!(alert.trigger() == Trigger::Update, at == alerts.len() - 1);
                }
            }
        }
    }
}

#[test]
fn alert_clone_is_equal_to_the_original() {
    let alerts = alerts_for(&report("Hail", 1, None));
    let copy = alerts[0].clone();
    assert_eq!(copy, alerts[0]);
}
