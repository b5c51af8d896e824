//! Tests of the configuration records, tier tables and wire-code mappings.

use symmetrix_core::config::{ExtractionConfig, WatcherConfig, GrpcServerConfig};
use symmetrix_core::gpu::{BaselineGpuType, TargetGpuType};
use symmetrix_core::certs::RevocationReason;
use symmetrix_core::subscription::{
    SubscriptionTier, GFEFAccess, Subscription, SubscriptionManager, SubscriptionError,
};
use symmetrix_core::tls::TlsConfiguration;
use symmetrix_core::TierConfig;
use uuid::Uuid;

#[test]
fn test_watcher_config_default() {
    let config = WatcherConfig::default();
    assert_eq!(config.poll_interval_secs, 10);
    assert!(config.process_existing);
}

/// Test that ExtractionConfig has sensible defaults
#[test]
fn test_extraction_config_defaults() {
    let config = ExtractionConfig::default();
    assert_eq!(config.k_components, 32);
    assert_eq!(config.fft_bins, 16);
    assert_eq!(config.poll_interval_secs, 10);
}

/// Test WatcherConfig defaults
#[test]
fn test_watcher_config_defaults() {
    let config = WatcherConfig::default();
    assert_eq!(config.poll_interval_secs, 10);
    assert!(config.process_existing);
}

#[test]
fn test_uuid_uniqueness() {
    let mut uuids = Vec::new();
    for _ in 0..100 {
        uuids.push(Uuid::new_v4());
    }

    // All UUIDs should be unique
    let unique_count = uuids.iter().collect::<std::collections::HashSet<_>>().len();
    assert_eq!(unique_count, 100);
}

#[test]
fn test_tier_config_values() {
    let free = TierConfig::free();
    assert_eq!(free.name, "free");
    assert_eq!(free.amplification_factor, 100);
    assert_eq!(free.max_allocation_tb, 2);
    assert_eq!(free.rate_limit, 100);
    assert_eq!(free.max_concurrent_allocations, 1);
    assert_eq!(free.priority, 1);

    let starter = TierConfig::starter();
    assert_eq!(starter.amplification_factor, 1_000);
    assert_eq!(starter.rate_limit, 1_000);

    let pro = TierConfig::pro();
    assert_eq!(pro.amplification_factor, 10_000);
    assert_eq!(pro.max_allocation_tb, 240);

    let enterprise = TierConfig::enterprise();
    assert_eq!(enterprise.amplification_factor, 24_500);
    assert_eq!(enterprise.rate_limit, 0);
    assert_eq!(enterprise.priority, 4);
}

#[test]
fn test_tier_config_from_name() {
    assert_eq!(TierConfig::from_name("enterprise").priority, 4);
    assert_eq!(TierConfig::from_name("pro").priority, 3);
    assert_eq!(TierConfig::from_name("starter").priority, 2);
    assert_eq!(TierConfig::from_name("free").priority, 1);
    // Unrecognized names fall back to free.
    assert_eq!(TierConfig::from_name("platinum").priority, 1);
    assert_eq!(TierConfig::from_name("").name, "free");
}

#[test]
fn test_tier_config_from_name_ignores_case() {
    // Names resolve up to ASCII case.
    assert_eq!(TierConfig::from_name("PRO").priority, 3);
    assert_eq!(TierConfig::from_name("PRO").rate_limit, 10_000);
    assert_eq!(TierConfig::from_name("Pro").amplification_factor, 10_000);
    assert_eq!(TierConfig::from_name("Enterprise").priority, 4);
    assert_eq!(TierConfig::from_name("ENTERPRISE").rate_limit, 0);
    assert_eq!(TierConfig::from_name("Starter").priority, 2);
    assert_eq!(TierConfig::from_name("FREE").priority, 1);
}

#[test]
fn test_revocation_reason_roundtrip() {
    for code in 0..8 {
        let reason = RevocationReason::from_proto(code);
        assert_eq!(reason.to_proto(), code);
    }
    // Out-of-range codes decode to Unspecified (code 0).
    assert_eq!(RevocationReason::from_proto(42).to_proto(), 0);
    assert_eq!(RevocationReason::from_proto(-1).to_proto(), 0);
}

#[test]
fn test_gpu_type_roundtrip() {
    let codes: [i32; 23] = [
        1, 2, 3, 4, 5, 6, 7, 8, 9, 10, 11, 12, 13, 14, 15, 16, 17, 20, 21, 22, 23, 25, 26,
    ];
    for &code in &codes {
        let t = BaselineGpuType::from_proto(code);
        assert_eq!(t.to_proto(), code);
        assert!(t.is_supported());
    }
    assert!(!BaselineGpuType::from_proto(0).is_supported());
    assert!(!BaselineGpuType::from_proto(19).is_supported());
    assert_eq!(BaselineGpuType::from_proto(3).name(), "NVIDIA H100");

    for code in [1, 2, 3, 4, 5, 99] {
        let t = TargetGpuType::from_proto(code);
        assert_eq!(t.to_proto(), code);
    }
    assert_eq!(TargetGpuType::from_proto(7).to_proto(), 0);
    assert_eq!(TargetGpuType::from_proto(1).name(), "NVIDIA H100 80GB HBM3");
}

#[test]
fn test_subscription_tier_tables() {
    assert_eq!(SubscriptionTier::Trial.monthly_predictions(), 1_000);
    assert_eq!(SubscriptionTier::Developer.monthly_predictions(), 100_000);
    assert_eq!(SubscriptionTier::Professional.monthly_predictions(), 1_000_000);
    assert_eq!(SubscriptionTier::Enterprise.monthly_predictions(), u64::MAX);

    assert_eq!(SubscriptionTier::Trial.calibration_rotation_secs(), 0);
    assert_eq!(SubscriptionTier::Developer.calibration_rotation_secs(), 3600);
    assert_eq!(SubscriptionTier::Professional.calibration_rotation_secs(), 60);
    assert_eq!(SubscriptionTier::Enterprise.calibration_rotation_secs(), 10);

    assert_eq!(SubscriptionTier::Trial.gfef_access(), GFEFAccess::NoAccess);
    assert_eq!(
        SubscriptionTier::Developer.gfef_access(),
        GFEFAccess::Cached { ttl_hours: 24 }
    );
    assert_eq!(SubscriptionTier::Professional.gfef_access(), GFEFAccess::RealTime);
    assert_eq!(SubscriptionTier::Enterprise.gfef_access(), GFEFAccess::CustomModels);
}

#[test]
fn test_subscription_quota() {
    let now: i64 = 1_700_000_000_000;
    let mut sub = Subscription::new(7, SubscriptionTier::Trial, now);
    assert!(sub.is_active(now));
    assert!(!sub.is_active(now + 31 * 86_400_000));
    for _ in 0..1000 {
        assert!(sub.consume_prediction());
    }
    // The trial quota of 1000 is now exhausted.
    assert!(!sub.has_quota());
    assert!(!sub.consume_prediction());
    assert_eq!(sub.predictions_used, 1000);
}

#[test]
fn test_subscription_access_precedence() {
    let now: i64 = 1_700_000_000_000;
    let mut mgr = SubscriptionManager::new();

    // Unknown customer.
    assert!(matches!(mgr.validate_access(1, now), Err(SubscriptionError::NotFound)));

    mgr.create_subscription(1, SubscriptionTier::Trial, now);
    assert!(mgr.validate_access(1, now).is_ok());

    // Expiry wins once the 30 days are over.
    let lapsed = now + 31 * 86_400_000;
    assert!(matches!(mgr.validate_access(1, lapsed), Err(SubscriptionError::Expired)));

    // Exhausted quota refuses while still active.
    for s in mgr.subscriptions.iter_mut() {
        if s.customer_id == 1 {
            s.predictions_used = s.predictions_quota;
        }
    }
    assert!(matches!(
        mgr.validate_access(1, now),
        Err(SubscriptionError::QuotaExceeded)
    ));

    // Re-registration overwrites and restores quota.
    mgr.create_subscription(1, SubscriptionTier::Developer, now);
    let sub = mgr.get_subscription(1).unwrap();
    assert_eq!(sub.predictions_used, 0);
    assert_eq!(sub.predictions_quota, 100_000);
    assert!(mgr.validate_access(1, now).is_ok());
}

#[test]
fn test_tls_configuration_flags() {
    let none = TlsConfiguration::default();
    assert!(!none.is_server_tls_enabled());
    assert!(!none.is_client_tls_enabled());

    let server = TlsConfiguration::new_server(
        "/etc/certs/server.pem".to_string(),
        "/etc/certs/server.key".to_string(),
        None,
        false,
    );
    assert!(server.is_server_tls_enabled());
    assert!(!server.is_client_tls_enabled());
    assert!(!server.enable_mtls);

    let client = TlsConfiguration::new_client(
        "/etc/certs/ca.pem".to_string(),
        Some("/etc/certs/client.pem".to_string()),
        Some("/etc/certs/client.key".to_string()),
        "example.test".to_string(),
    );
    assert!(client.is_client_tls_enabled());
    assert!(client.enable_mtls);

    let client_plain = TlsConfiguration::new_client(
        "/etc/certs/ca.pem".to_string(),
        None,
        None,
        "example.test".to_string(),
    );
    assert!(!client_plain.enable_mtls);
}

#[test]
fn test_grpc_server_config_profiles() {
    let dev = GrpcServerConfig::default();
    assert!(!dev.enable_tls);
    assert!(dev.enable_reflection);
    assert_eq!(dev.max_concurrent_streams, 100);

    let prod = GrpcServerConfig::production("c.pem".to_string(), "k.pem".to_string());
    assert!(prod.enable_tls);
    assert!(!prod.enable_mtls);
    assert!(!prod.enable_reflection);
    assert_eq!(prod.max_concurrent_streams, 1000);

    let mtls = GrpcServerConfig::production_mtls(
        "c.pem".to_string(),
        "k.pem".to_string(),
        "ca.pem".to_string(),
    );
    assert!(mtls.enable_mtls);
    assert_eq!(mtls.ca_cert_path.as_deref(), Some("ca.pem"));
}
