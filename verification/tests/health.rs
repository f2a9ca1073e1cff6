use ingestion::health::{health_check, HealthReport, KafkaStatus, ProducerStats};

#[test]
fn a_connected_producer_is_healthy() {
    assert_eq!(
        health_check(true, true),
        HealthReport {
            status: "ok",
            version: "1.0.0",
            producer_stats: ProducerStats {
                messages_sent: 0,
                errors: 0,
                connected: true,
                kafka_enabled: true,
            },
            kafka: KafkaStatus { status: "healthy", enabled: true, connected: true },
        }
    );
}

#[test]
fn a_disconnected_producer_is_unhealthy() {
    let report = health_check(false, true);
    assert_eq!(report.status, "ok");
    assert_eq!(report.kafka.status, "unhealthy");
    assert!(report.kafka.enabled);
    assert!(!report.kafka.connected);
    assert!(!report.producer_stats.connected);
    let report = health_check(false, false);
    assert_eq!(report.kafka.status, "unhealthy");
    assert!(!report.kafka.enabled);
    assert!(!report.producer_stats.kafka_enabled);
    let report = health_check(true, false);
    assert_eq!(report.kafka.status, "healthy");
    assert!(!report.kafka.enabled);
}
