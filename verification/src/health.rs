//! The health report of the service.

use vstd::prelude::*;

verus! {

/// What is known of the producer.
#[derive(Clone, Copy, Debug, PartialEq, Eq, Structural)]
pub struct ProducerStats {
    /// The number of messages sent; no count is kept, so it is 0.
    pub messages_sent: u64,
    /// The number of failures; no count is kept, so it is 0.
    pub errors: u64,
    /// Whether the producer reaches the broker.
    pub connected: bool,
    /// Whether a broker is configured.
    pub kafka_enabled: bool,
}

/// What is known of the broker.
#[derive(Clone, Copy, Debug, PartialEq, Eq)]
pub struct KafkaStatus {
    /// `"healthy"` or `"unhealthy"`.
    pub status: &'static str,
    /// Whether a broker is configured.
    pub enabled: bool,
    /// Whether the producer reaches the broker.
    pub connected: bool,
}

/// The health report.
#[derive(Clone, Copy, Debug, PartialEq, Eq)]
pub struct HealthReport {
    pub status: &'static str,
    pub version: &'static str,
    pub producer_stats: ProducerStats,
    pub kafka: KafkaStatus,
}

/// The report of a service whose producer is `connected` or not, and for which a broker
/// is configured or not.
pub open spec fn health_of(connected: bool, kafka_enabled: bool) -> HealthReport {
    HealthReport {
        status: "ok",
        version: "1.0.0",
        producer_stats: ProducerStats { messages_sent: 0, errors: 0, connected, kafka_enabled },
        kafka: KafkaStatus {
            status: if connected {
                "healthy"
            } else {
                "unhealthy"
            },
            enabled: kafka_enabled,
            connected,
        },
    }
}

/// The report of a service whose producer is `connected` or not, and for which a broker
/// is configured or not. The service itself always reports `"ok"`; the broker is
/// `"healthy"` exactly when the producer is connected.
pub fn health_check(connected: bool, kafka_enabled: bool) -> (report: HealthReport)
    ensures
        report == health_of(connected, kafka_enabled),
{
    HealthReport {
        status: "ok",
        version: "1.0.0",
        producer_stats: ProducerStats { messages_sent: 0, errors: 0, connected, kafka_enabled },
        kafka: KafkaStatus {
            status: if connected {
                "healthy"
            } else {
                "unhealthy"
            },
            enabled: kafka_enabled,
            connected,
        },
    }
}

} // verus!
