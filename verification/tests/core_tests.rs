//! End-to-end tests of the certificate authority, the authentication
//! gateway and the artifact registries.

use symmetrix_core::auth::{
    AuthManager, FastLookup, extract_api_key, intercept_request, tier_from_name,
};
use symmetrix_core::certs::{
    CertificateAuthority, CertificateStatus, RevocationReason,
};
use symmetrix_core::errors::ControlPlaneError;
use symmetrix_core::generators::{
    new_calibration_registry, new_compute_registry, new_pcie_registry,
};
use symmetrix_core::ocsp::OcspCertStatus;
use symmetrix_core::tier::Tier;
use sha2::Digest;

/// A plausible wall-clock instant used as "now" throughout.
const NOW: i64 = 1_700_000_000_000;

/// Decode a DER header: returns (header length, declared content length).
fn der_header(bytes: &[u8]) -> (usize, usize) {
    assert!(bytes.len() >= 2);
    let first = bytes[1] as usize;
    if first < 128 {
        (2, first)
    } else if first == 0x81 {
        (3, bytes[2] as usize)
    } else {
        assert_eq!(first, 0x82);
        (4, 256 * (bytes[2] as usize) + bytes[3] as usize)
    }
}

fn contains_subslice(haystack: &[u8], needle: &[u8]) -> bool {
    haystack.windows(needle.len()).any(|w| w == needle)
}

#[test]
fn test_hash_key_known_vector() {
    // SHA-256("abc"), a published test vector.
    let h = AuthManager::hash_key("abc");
    assert_eq!(
        h,
        "ba7816bf8f01cfea414140de5dae2223b00361a396177a9cb410ff61f20015ad"
    );
}

#[test]
fn test_validate_key_unknown_and_disabled_gateway() {
    let mut gw = AuthManager::new(true);
    assert_eq!(
        gw.validate_key("who-goes-there", NOW).unwrap_err(),
        ControlPlaneError::Unauthenticated
    );

    // With authentication globally disabled, everything passes with a
    // maximal-privilege entry.
    let mut open_gw = AuthManager::new(false);
    let entry = open_gw.validate_key("anything", NOW).unwrap();
    assert_eq!(entry.tier, "enterprise");
    assert_eq!(entry.rate_limit, 0);
}

#[test]
fn test_rate_limit_window() {
    let mut gw = AuthManager::new(true);
    gw.register_key("cf_free_key", "free", "org-free", NOW);

    // The free tier allows 100 requests per minute.
    for _ in 0..100 {
        assert!(gw.validate_key("cf_free_key", NOW).is_ok());
    }
    // The 101st request inside the same window is refused.
    assert_eq!(
        gw.validate_key("cf_free_key", NOW).unwrap_err(),
        ControlPlaneError::ResourceExhausted
    );
    // Once the 60-second window rolls over, the counter resets.
    let later = NOW + 60_000;
    assert!(gw.validate_key("cf_free_key", later).is_ok());
    // An enterprise key (limit 0) is never rate limited.
    gw.register_key("cf_ent_key", "enterprise", "org-ent", NOW);
    for _ in 0..500 {
        assert!(gw.validate_key("cf_ent_key", NOW).is_ok());
    }
}

#[test]
fn test_key_expiry_and_disable() {
    let mut gw = AuthManager::new(true);
    gw.register_key("k", "pro", "org", NOW);
    // Mark the stored entry expired and check the refusal.
    let h = AuthManager::hash_key("k");
    for e in gw.keys.iter_mut() {
        if e.key_hash == h {
            e.expires_at_ms = Some(NOW - 1);
        }
    }
    assert_eq!(
        gw.validate_key("k", NOW).unwrap_err(),
        ControlPlaneError::PermissionDenied
    );
    // Disabled keys are refused the same way.
    for e in gw.keys.iter_mut() {
        if e.key_hash == h {
            e.expires_at_ms = None;
            e.enabled = false;
        }
    }
    assert_eq!(
        gw.validate_key("k", NOW).unwrap_err(),
        ControlPlaneError::PermissionDenied
    );
}

#[test]
fn test_tier_gating() {
    let mut gw = AuthManager::new(true);
    gw.register_key("cf_pro_key", "pro", "org-pro", NOW);
    gw.register_key("cf_ent_key", "enterprise", "org-ent", NOW);

    // A key registered at "pro" is rejected for an enterprise-gated
    // operation.
    assert_eq!(
        gw.require_min_tier("cf_pro_key", Tier::Enterprise, NOW).unwrap_err(),
        ControlPlaneError::PermissionDenied
    );
    // ... but accepted at its own level and below.
    assert!(gw.require_min_tier("cf_pro_key", Tier::Pro, NOW).is_ok());
    assert!(gw.require_min_tier("cf_pro_key", Tier::Starter, NOW).is_ok());
    assert!(gw.require_min_tier("cf_pro_key", Tier::Free, NOW).is_ok());
    // An enterprise key is accepted for any lower-tier-gated operation.
    assert!(gw.require_min_tier("cf_ent_key", Tier::Free, NOW).is_ok());
    assert!(gw.require_min_tier("cf_ent_key", Tier::Starter, NOW).is_ok());
    assert!(gw.require_min_tier("cf_ent_key", Tier::Pro, NOW).is_ok());
    assert!(gw.require_min_tier("cf_ent_key", Tier::Enterprise, NOW).is_ok());
}

#[test]
fn test_allocation_caps() {
    let mut gw = AuthManager::new(true);
    gw.register_key("cf_free_key", "free", "org-free", NOW);
    // Within the free tier's 2 TB cumulative cap.
    assert!(gw.check_allocation_allowed("cf_free_key", 1 << 40, NOW).is_ok());
    // Beyond it.
    assert_eq!(
        gw.check_allocation_allowed("cf_free_key", 3 << 40, NOW).unwrap_err(),
        ControlPlaneError::ResourceExhausted
    );
    // The concurrent-allocation cap refuses when already at the limit.
    let h = AuthManager::hash_key("cf_free_key");
    for e in gw.keys.iter_mut() {
        if e.key_hash == h {
            e.current_allocations = 1;
        }
    }
    assert_eq!(
        gw.check_allocation_allowed("cf_free_key", 1, NOW).unwrap_err(),
        ControlPlaneError::ResourceExhausted
    );
}

#[test]
fn test_allocation_booking() {
    let mut gw = AuthManager::new(true);
    gw.register_key("cf_free_key", "free", "org-free", NOW);
    let h = AuthManager::hash_key("cf_free_key");

    // Admission books the allocation against the entry.
    assert!(gw.admit_allocation("cf_free_key", 1 << 40, NOW).is_ok());
    let entry = gw.keys.iter().find(|e| e.key_hash == h).unwrap();
    assert_eq!(entry.current_allocations, 1);
    assert_eq!(entry.allocated_memory_bytes, 1 << 40);

    // The free tier allows one concurrent allocation: a second is refused
    // and books nothing.
    assert_eq!(
        gw.admit_allocation("cf_free_key", 1, NOW).unwrap_err(),
        ControlPlaneError::ResourceExhausted
    );
    let entry = gw.keys.iter().find(|e| e.key_hash == h).unwrap();
    assert_eq!(entry.current_allocations, 1);

    // Release undoes the booking.
    gw.release_allocation("cf_free_key", 1 << 40);
    let entry = gw.keys.iter().find(|e| e.key_hash == h).unwrap();
    assert_eq!(entry.current_allocations, 0);
    assert_eq!(entry.allocated_memory_bytes, 0);

    // Over-release saturates at zero instead of underflowing.
    gw.release_allocation("cf_free_key", 12345);
    let entry = gw.keys.iter().find(|e| e.key_hash == h).unwrap();
    assert_eq!(entry.current_allocations, 0);
    assert_eq!(entry.allocated_memory_bytes, 0);

    // Admission past the cumulative cap is refused.
    assert_eq!(
        gw.admit_allocation("cf_free_key", 3 << 40, NOW).unwrap_err(),
        ControlPlaneError::ResourceExhausted
    );
}

#[test]
fn test_default_keys_tiers() {
    let mut gw = AuthManager::new(true);
    gw.register_default_keys(NOW);
    let expected: [(&str, &str, &str); 5] = [
        ("cf_free_test123", "free", "test-free-org"),
        ("cf_starter_test123", "starter", "test-starter-org"),
        ("cf_pro_test123", "pro", "test-pro-org"),
        ("cf_ent_test123", "enterprise", "test-enterprise-org"),
        ("test-key-123", "enterprise", "legacy-test-org"),
    ];
    for (key, tier, org) in &expected {
        let h = AuthManager::hash_key(key);
        let entry = gw.keys.iter().find(|e| e.key_hash == h).unwrap();
        assert_eq!(&entry.tier, tier);
        assert_eq!(&entry.org_id, org);
        assert_eq!(entry.request_count, 0);
        assert_eq!(entry.current_allocations, 0);
        assert_eq!(entry.allocated_memory_bytes, 0);
        assert!(entry.expires_at_ms.is_none());
        assert!(entry.enabled);
    }
}

#[test]
fn test_amplification_factor() {
    let mut gw = AuthManager::new(true);
    gw.register_default_keys(NOW);
    assert_eq!(gw.get_amplification_factor("cf_free_test123", NOW).unwrap(), 100);
    assert_eq!(gw.get_amplification_factor("cf_starter_test123", NOW).unwrap(), 1_000);
    assert_eq!(gw.get_amplification_factor("cf_pro_test123", NOW).unwrap(), 10_000);
    assert_eq!(gw.get_amplification_factor("cf_ent_test123", NOW).unwrap(), 24_500);
    assert_eq!(gw.get_amplification_factor("test-key-123", NOW).unwrap(), 24_500);
}

#[test]
fn test_credential_extraction_precedence() {
    let primary = "direct-key".to_string();
    let bearer = "Bearer token-xyz".to_string();
    // The dedicated header wins.
    assert_eq!(
        extract_api_key(Some(&primary), Some(&bearer)).as_deref(),
        Some("direct-key")
    );
    // Without it, a bearer-scheme authorization header is accepted.
    assert_eq!(extract_api_key(None, Some(&bearer)).as_deref(), Some("token-xyz"));
    // A non-bearer authorization header is not.
    let basic = "Basic dXNlcg==".to_string();
    assert_eq!(extract_api_key(None, Some(&basic)), None);
    assert_eq!(extract_api_key(None, None), None);
}

#[test]
fn test_interceptor_decision() {
    let cred = "some-key".to_string();
    let mut gw = AuthManager::new(true);
    gw.register_key("some-key", "pro", "org", NOW);
    let entry = gw.validate_key("some-key", NOW).unwrap();

    // Auth disabled: everything passes.
    assert!(intercept_request(false, None, &FastLookup::Miss, NOW).is_ok());
    // Missing credential is refused before anything else.
    assert_eq!(
        intercept_request(true, None, &FastLookup::Contended, NOW).unwrap_err(),
        ControlPlaneError::Unauthenticated
    );
    // Unknown key.
    assert_eq!(
        intercept_request(true, Some(&cred), &FastLookup::Miss, NOW).unwrap_err(),
        ControlPlaneError::Unauthenticated
    );
    // Known, enabled, unexpired key passes.
    assert!(intercept_request(true, Some(&cred), &FastLookup::Hit(entry), NOW).is_ok());
    // Lock contention fails open: the request is allowed.
    assert!(intercept_request(true, Some(&cred), &FastLookup::Contended, NOW).is_ok());
    // A disabled entry is refused.
    let mut disabled = gw.validate_key("some-key", NOW).unwrap();
    disabled.enabled = false;
    assert_eq!(
        intercept_request(true, Some(&cred), &FastLookup::Hit(disabled), NOW).unwrap_err(),
        ControlPlaneError::PermissionDenied
    );
}

#[test]
fn test_tier_name_resolution() {
    assert_eq!(tier_from_name("enterprise"), Tier::Enterprise);
    assert_eq!(tier_from_name("pro"), Tier::Pro);
    assert_eq!(tier_from_name("starter"), Tier::Starter);
    assert_eq!(tier_from_name("free"), Tier::Free);
    assert_eq!(tier_from_name("gold"), Tier::Free);
    // Resolution is ASCII case-insensitive.
    assert_eq!(tier_from_name("PRO"), Tier::Pro);
    assert_eq!(tier_from_name("Enterprise"), Tier::Enterprise);
    assert_eq!(tier_from_name("STARTER"), Tier::Starter);
    assert_eq!(tier_from_name("Free"), Tier::Free);
}

#[test]
fn test_mixed_case_registration_keeps_tier() {
    // A key registered under a mixed-case tier name still lands on that
    // tier's configuration and gating level.
    let mut gw = AuthManager::new(true);
    gw.register_key("mixed-key", "PRO", "org", NOW);
    let entry = gw.validate_key("mixed-key", NOW).unwrap();
    assert_eq!(entry.tier_config.amplification_factor, 10_000);
    assert_eq!(entry.tier_config.rate_limit, 10_000);
    assert!(gw.require_min_tier("mixed-key", Tier::Pro, NOW).is_ok());
    assert_eq!(
        gw.require_min_tier("mixed-key", Tier::Enterprise, NOW).unwrap_err(),
        ControlPlaneError::PermissionDenied
    );
}

#[test]
fn test_issue_identities_unique() {
    let mut ca = CertificateAuthority::new(NOW).unwrap();
    let mut serials = std::collections::HashSet::new();
    let mut fingerprints = std::collections::HashSet::new();
    for i in 0..1000 {
        let cn = format!("agent-{}", i);
        let entry = ca.issue("acme", &cn, "keyhash", None, 30, NOW).unwrap();
        assert_eq!(entry.serial_number.len(), 32);
        serials.insert(entry.serial_number);
        fingerprints.insert(entry.fingerprint_sha256);
    }
    // Serial numbers and fingerprints are pairwise unique across 1000
    // issuances.
    assert_eq!(serials.len(), 1000);
    assert_eq!(fingerprints.len(), 1000);
    assert_eq!(ca.active_certificate_count(NOW), 1000);
}

#[test]
fn test_issue_fields_and_fingerprint() {
    let mut ca = CertificateAuthority::new(NOW).unwrap();
    let entry = ca.issue("acme", "agent-1", "bound-hash", None, 30, NOW).unwrap();
    assert_eq!(entry.org_id, "acme");
    assert_eq!(entry.common_name, "agent-1");
    assert_eq!(entry.bound_api_key_hash, "bound-hash");
    assert_eq!(entry.issued_at_ms, NOW);
    assert_eq!(entry.expires_at_ms, NOW + 30 * 86_400_000);
    assert!(entry.certificate_pem.starts_with("-----BEGIN CERTIFICATE-----"));
    // The chain is exactly the leaf PEM, a newline, and the CA PEM.
    assert_eq!(
        entry.certificate_chain_pem,
        format!("{}\n{}", entry.certificate_pem, ca.ca_cert_pem)
    );
    // The fingerprint is 64 lowercase hex characters.
    assert_eq!(entry.fingerprint_sha256.len(), 64);
    assert!(entry
        .fingerprint_sha256
        .chars()
        .all(|c| c.is_ascii_hexdigit() && !c.is_ascii_uppercase()));
    assert_eq!(ca.status(&entry.serial_number, NOW), CertificateStatus::Valid);
    // Lookup by fingerprint finds the same certificate.
    let by_fp = ca.get_certificate_by_fingerprint(&entry.fingerprint_sha256).unwrap();
    assert_eq!(by_fp.serial_number, entry.serial_number);
}

#[test]
fn test_revocation_wins_over_expiry() {
    let mut ca = CertificateAuthority::new(NOW).unwrap();
    let entry = ca.issue("acme", "agent-1", "h", None, 30, NOW).unwrap();
    let serial = entry.serial_number.clone();

    ca.revoke(&serial, RevocationReason::KeyCompromise, NOW).unwrap();
    // Revoked now ...
    assert_eq!(ca.status(&serial, NOW), CertificateStatus::Revoked);
    // ... and still revoked long after expiry.
    let far_future = NOW + 365 * 86_400_000;
    assert_eq!(ca.status(&serial, far_future), CertificateStatus::Revoked);
    // A second revocation of the same serial always fails.
    assert_eq!(
        ca.revoke(&serial, RevocationReason::Superseded, NOW).unwrap_err(),
        ControlPlaneError::InvalidState
    );
    // Revoking an unissued serial is NotFound.
    assert_eq!(
        ca.revoke("no-such-serial", RevocationReason::Unspecified, NOW).unwrap_err(),
        ControlPlaneError::NotFound
    );
}

#[test]
fn test_expiry_without_revocation() {
    let mut ca = CertificateAuthority::new(NOW).unwrap();
    let entry = ca.issue("acme", "agent-1", "h", None, 1, NOW).unwrap();
    assert_eq!(ca.status(&entry.serial_number, NOW), CertificateStatus::Valid);
    assert_eq!(
        ca.status(&entry.serial_number, NOW + 2 * 86_400_000),
        CertificateStatus::Expired
    );
    // An unknown reference answers Unknown.
    assert_eq!(ca.status("unheard-of", NOW), CertificateStatus::Unknown);
}

#[test]
fn test_crl_monotone() {
    let mut ca = CertificateAuthority::new(NOW).unwrap();
    let a = ca.issue("acme", "a", "h", None, 30, NOW).unwrap();
    let b = ca.issue("acme", "b", "h", None, 30, NOW).unwrap();
    let c = ca.issue("acme", "c", "h", None, 30, NOW).unwrap();

    let (entries0, this0, next0) = ca.crl_snapshot();
    assert_eq!(entries0.len(), 0);
    assert_eq!(next0, this0 + 86_400_000);

    ca.revoke(&a.serial_number, RevocationReason::KeyCompromise, NOW + 1_000).unwrap();
    let (entries1, this1, _) = ca.crl_snapshot();
    assert_eq!(entries1.len(), 1);
    assert!(this1 >= this0);

    ca.revoke(&b.serial_number, RevocationReason::Superseded, NOW + 2_000).unwrap();
    let (entries2, this2, _) = ca.crl_snapshot();
    assert_eq!(entries2.len(), 2);
    assert!(this2 >= this1);

    // A revocation carrying an older clock reading still never moves
    // this_update backwards.
    ca.revoke(&c.serial_number, RevocationReason::CessationOfOperation, NOW + 500).unwrap();
    let (entries3, this3, _) = ca.crl_snapshot();
    assert_eq!(entries3.len(), 3);
    assert!(this3 >= this2);
    assert_eq!(entries3[0].serial_number, a.serial_number);
    assert_eq!(entries3[1].serial_number, b.serial_number);
    assert_eq!(entries3[2].serial_number, c.serial_number);
    assert_eq!(ca.revoked_certificate_count(), 3);
}

#[test]
fn test_renewal_paths() {
    let mut ca = CertificateAuthority::new(NOW).unwrap();
    let entry = ca.issue("acme", "agent-1", "good-hash", None, 30, NOW).unwrap();

    // Unknown fingerprint.
    assert_eq!(
        ca.renew("no-such-fingerprint", "good-hash", 30, NOW).unwrap_err(),
        ControlPlaneError::NotFound
    );
    // Credential mismatch.
    assert_eq!(
        ca.renew(&entry.fingerprint_sha256, "wrong-hash", 30, NOW).unwrap_err(),
        ControlPlaneError::InvalidState
    );
    // Success preserves organization and common name.
    let renewed = ca.renew(&entry.fingerprint_sha256, "good-hash", 60, NOW).unwrap();
    assert_eq!(renewed.org_id, "acme");
    assert_eq!(renewed.common_name, "agent-1");
    assert_eq!(renewed.expires_at_ms, NOW + 60 * 86_400_000);
    assert_ne!(renewed.serial_number, entry.serial_number);
    // A revoked certificate cannot be renewed.
    ca.revoke(&entry.serial_number, RevocationReason::KeyCompromise, NOW).unwrap();
    assert_eq!(
        ca.renew(&entry.fingerprint_sha256, "good-hash", 30, NOW).unwrap_err(),
        ControlPlaneError::InvalidState
    );
}

#[test]
fn test_ocsp_statuses_and_der_shape() {
    let mut ca = CertificateAuthority::new(NOW).unwrap();
    let entry = ca.issue("acme", "agent-1", "h", None, 30, NOW).unwrap();

    // Unissued serial answers unknown.
    let unknown = ca.check_ocsp("0123456789abcdef", NOW);
    assert_eq!(unknown.status, CertificateStatus::Unknown);
    assert_eq!(unknown.cert_status, OcspCertStatus::Unknown);

    // Valid unexpired unrevoked serial answers good.
    let good = ca.check_ocsp(&entry.serial_number, NOW);
    assert_eq!(good.status, CertificateStatus::Valid);
    assert_eq!(good.status_label(), "good");
    assert_eq!(good.cert_status, OcspCertStatus::Good);
    assert_eq!(good.this_update_ms, NOW);
    assert_eq!(good.next_update_ms, NOW + 86_400_000);

    // Revoked serial answers revoked.
    ca.revoke(&entry.serial_number, RevocationReason::KeyCompromise, NOW).unwrap();
    let revoked = ca.check_ocsp(&entry.serial_number, NOW);
    assert_eq!(revoked.status, CertificateStatus::Revoked);
    assert_eq!(revoked.cert_status, OcspCertStatus::Revoked);

    // Every answer is a DER SEQUENCE whose declared length matches the
    // remaining byte count, at the top level and one level in.
    for answer in [&unknown, &good, &revoked] {
        let der = &answer.der;
        assert_eq!(der[0], 0x30);
        let (header, content) = der_header(der);
        assert_eq!(der.len(), header + content);
        // responseStatus: ENUMERATED, length 1, successful.
        assert_eq!(&der[header..header + 3], &[0x0A, 0x01, 0x00]);
        // Then the tagged ResponseBytes, again with a matching length.
        let rest = &der[header + 3..];
        assert_eq!(rest[0], 0xA0);
        let (h2, c2) = der_header(rest);
        assert_eq!(rest.len(), h2 + c2);
    }

    // The responder identity is the SHA-256 of the responder name; its raw
    // bytes must appear in the response.
    let responder_hash = sha2::Sha256::digest(b"CYAN_FLAME_OCSP_RESPONDER");
    assert!(contains_subslice(&good.der, responder_hash.as_slice()));
    let issuer_hash = sha2::Sha256::digest(b"CYAN_FLAME_CA");
    assert!(contains_subslice(&good.der, issuer_hash.as_slice()));
    // The serial's first 16 bytes are carried as the CertID INTEGER.
    assert!(contains_subslice(&good.der, &entry.serial_number.as_bytes()[..16]));
}

#[test]
fn test_ocsp_generalized_time_rendering() {
    // At the epoch, thisUpdate renders as 19700101000000Z and must appear
    // byte for byte in the response.
    let ca = CertificateAuthority::new(0).unwrap();
    let answer = ca.check_ocsp("some-serial", 0);
    assert!(contains_subslice(&answer.der, b"19700101000000Z"));
    // And one day later for nextUpdate.
    assert!(contains_subslice(&answer.der, b"19700102000000Z"));
}

#[test]
fn test_registry_rotation_and_hash() {
    let mut reg = new_compute_registry(NOW);
    let first = reg.get(NOW);
    assert_eq!(first.version, 1);
    // The content hash is the lowercase hex SHA-256 of the payload.
    let expected = hex::encode(sha2::Sha256::digest(&first.payload));
    assert_eq!(first.content_hash, expected);

    reg.rotate(NOW + 60_000);
    let second = reg.get(NOW + 60_000);
    assert_eq!(second.version, 2);
    assert_ne!(second.content_hash, first.content_hash);
    // The payload is a function of the version alone: regenerating version
    // 2 in a fresh registry gives identical bytes.
    let reg2 = {
        let mut r = new_compute_registry(NOW);
        r.rotate(NOW + 60_000);
        r
    };
    let again = reg2.validate_version(2, &second.content_hash);
    assert!(again.is_valid);
}

#[test]
fn test_subscriber_sees_consecutive_versions() {
    let mut reg = new_pcie_registry(NOW);
    let sub = reg.subscribe();
    // Nothing is replayed at subscription time.
    assert!(reg.poll(sub).is_none());

    let mut t = NOW;
    for _ in 0..5 {
        t += 60_000;
        reg.rotate(t);
    }
    // The subscriber observes versions 2..=6, increasing by exactly 1.
    for expected in 2..=6u64 {
        let a = reg.poll(sub).unwrap();
        assert_eq!(a.version, expected);
    }
    assert!(reg.poll(sub).is_none());
}

#[test]
fn test_late_subscriber_never_replays() {
    let mut reg = new_calibration_registry(NOW);
    let mut t = NOW;
    for _ in 0..4 {
        t += 60_000;
        reg.rotate(t);
    }
    // Connecting after 4 rotations: none of the missed artifacts arrive.
    let sub = reg.subscribe();
    assert!(reg.poll(sub).is_none());
    t += 60_000;
    reg.rotate(t);
    let a = reg.poll(sub).unwrap();
    assert_eq!(a.version, 6);
    assert!(reg.poll(sub).is_none());
}

#[test]
fn test_slow_subscriber_loses_oldest() {
    let mut reg = new_pcie_registry(NOW);
    let sub = reg.subscribe();
    let mut t = NOW;
    // 105 rotations against a backlog of 100: the five oldest are lost.
    for _ in 0..105 {
        t += 60_000;
        reg.rotate(t);
    }
    let first = reg.poll(sub).unwrap();
    assert_eq!(first.version, 7);
    // What remains is still gapless.
    let mut prev = first.version;
    while let Some(a) = reg.poll(sub) {
        assert_eq!(a.version, prev + 1);
        prev = a.version;
    }
    assert_eq!(prev, 106);
}

#[test]
fn test_self_healing_get() {
    let mut reg = new_compute_registry(NOW);
    // Within the artifact's lifetime, reads do not rotate.
    assert_eq!(reg.get(NOW + 1_000).version, 1);
    // Past its expiry, a read regenerates synchronously: the returned
    // artifact is stamped with the read's time and a fresh expiry, so a
    // reader never sees a stale artifact.
    let healed = reg.get(NOW + 60_000);
    assert_eq!(healed.version, 2);
    assert_eq!(healed.generated_at_ms, NOW + 60_000);
    assert_eq!(healed.expires_at_ms, NOW + 120_000);
}

#[test]
fn test_validate_version_answers() {
    let mut reg = new_calibration_registry(NOW);
    reg.rotate(NOW + 60_000);
    reg.rotate(NOW + 120_000);
    let current = reg.get(NOW + 130_000);
    assert_eq!(current.version, 3);

    // Exact match: valid, no update needed.
    let ok = reg.validate_version(3, &current.content_hash);
    assert!(ok.is_valid);
    assert!(!ok.needs_update);
    assert_eq!(ok.latest_version, 3);

    // A stale version needs an update and is not valid.
    let stale = reg.validate_version(2, &current.content_hash);
    assert!(!stale.is_valid);
    assert!(stale.needs_update);

    // Matching version with a wrong hash is not valid, but needs no
    // update either.
    let tampered = reg.validate_version(3, "0000");
    assert!(!tampered.is_valid);
    assert!(!tampered.needs_update);

    // A version from the future is not valid and needs no update.
    let ahead = reg.validate_version(9, &current.content_hash);
    assert!(!ahead.is_valid);
    assert!(!ahead.needs_update);
    assert_eq!(ahead.latest_version, 3);
}

#[test]
fn test_unsubscribe_stops_delivery() {
    let mut reg = new_compute_registry(NOW);
    let a = reg.subscribe();
    let b = reg.subscribe();
    assert_ne!(a, b);
    reg.unsubscribe(a);
    reg.rotate(NOW + 60_000);
    assert!(reg.poll(a).is_none());
    assert_eq!(reg.poll(b).unwrap().version, 2);
}

#[test]
fn test_error_labels() {
    assert_eq!(ControlPlaneError::Unauthenticated.label(), "unauthenticated");
    assert_eq!(ControlPlaneError::PermissionDenied.label(), "permission_denied");
    assert_eq!(ControlPlaneError::ResourceExhausted.label(), "resource_exhausted");
    assert_eq!(ControlPlaneError::NotFound.label(), "not_found");
    assert_eq!(ControlPlaneError::InvalidState.label(), "invalid_state");
    assert_eq!(ControlPlaneError::Internal.label(), "internal");
    assert_eq!(CertificateStatus::Valid.label(), "valid");
    assert_eq!(CertificateStatus::Expired.label(), "expired");
    assert_eq!(CertificateStatus::Revoked.label(), "revoked");
    assert_eq!(CertificateStatus::Unknown.label(), "unknown");
}

#[test]
fn test_end_to_end_scenario() {
    // Register key "cf_pro_test123" at tier pro.
    let mut gw = AuthManager::new(true);
    gw.register_key("cf_pro_test123", "pro", "acme", NOW);
    let entry = gw.validate_key("cf_pro_test123", NOW).unwrap();
    assert_eq!(entry.tier, "pro");

    // Issue a certificate for org acme, common name agent-1, 30 days.
    let mut ca = CertificateAuthority::new(NOW).unwrap();
    let key_hash = AuthManager::hash_key("cf_pro_test123");
    let cert = ca.issue("acme", "agent-1", &key_hash, None, 30, NOW).unwrap();
    assert_eq!(ca.status(&cert.serial_number, NOW), CertificateStatus::Valid);

    // Revoke with reason KeyCompromise.
    ca.revoke(&cert.serial_number, RevocationReason::KeyCompromise, NOW).unwrap();
    assert_eq!(ca.status(&cert.serial_number, NOW), CertificateStatus::Revoked);

    // The OCSP query for that serial answers revoked.
    let answer = ca.check_ocsp(&cert.serial_number, NOW);
    assert_eq!(answer.status, CertificateStatus::Revoked);
    assert_eq!(answer.status_label(), "revoked");
    assert_eq!(answer.cert_status, OcspCertStatus::Revoked);
    assert_eq!(answer.der[0], 0x30);
}
