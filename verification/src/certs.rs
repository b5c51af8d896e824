//! Certificate lifecycle management: issuance, renewal, revocation, CRL and
//! OCSP answers.
//!
//! The store is append-only: entries are created on issuance and mutated
//! only by revocation, never deleted.  Serial numbers and fingerprints are
//! pairwise unique across all issued certificates; an issuance that would
//! collide is refused instead of corrupting the store.  Revocation always
//! wins over expiry, and a revoked certificate stays revoked.

use vstd::prelude::*;
use vstd::string::{StringExecFns, StringSliceAdditionalSpecFns};
use crate::der::der_header_matches;
use crate::ocsp::{OcspCertStatus, build_ocsp_response_der, spec_ocsp_response_of};
use crate::errors::ControlPlaneError;
use crate::gpu::BaselineGpuType;
use crate::hashing::{
    lemma_hex_of_len, sha256_digest, hex_encode, random_u128, u128_to_be_bytes,
};
use crate::strutil::str_eq;
use crate::x509::{rcgen_generate_ca, rcgen_leaf_params, rcgen_leaf_identity, rcgen_sign_leaf};
use crate::MAX_TIME_MS;

verus! {

/// One day in milliseconds; the CRL's next-update horizon.
pub const DAY_MS: i64 = 86_400_000;

/// Certificate revocation reasons (mirrors the X.509 CRL reasons).
#[derive(Clone, Copy, Debug, PartialEq, Eq, Structural)]
pub enum RevocationReason {
    Unspecified,
    KeyCompromise,
    CaCompromise,
    AffiliationChanged,
    Superseded,
    CessationOfOperation,
    CertificateHold,
    PrivilegeWithdrawn,
}

impl RevocationReason {
    /// The wire code of each reason.
    pub open spec fn proto_code(self) -> i32 {
        match self {
            RevocationReason::Unspecified => 0,
            RevocationReason::KeyCompromise => 1,
            RevocationReason::CaCompromise => 2,
            RevocationReason::AffiliationChanged => 3,
            RevocationReason::Superseded => 4,
            RevocationReason::CessationOfOperation => 5,
            RevocationReason::CertificateHold => 6,
            RevocationReason::PrivilegeWithdrawn => 7,
        }
    }

    /// Decode a wire code; unknown codes map to `Unspecified`.
    pub fn from_proto(value: i32) -> (r: RevocationReason)
        ensures
            1 <= value <= 7 ==> r.proto_code() == value,
            !(1 <= value <= 7) ==> r is Unspecified,
    {
        match value {
            1 => RevocationReason::KeyCompromise,
            2 => RevocationReason::CaCompromise,
            3 => RevocationReason::AffiliationChanged,
            4 => RevocationReason::Superseded,
            5 => RevocationReason::CessationOfOperation,
            6 => RevocationReason::CertificateHold,
            7 => RevocationReason::PrivilegeWithdrawn,
            _ => RevocationReason::Unspecified,
        }
    }

    /// Encode to the wire code.
    pub fn to_proto(&self) -> (r: i32)
        ensures
            r == self.proto_code(),
    {
        match self {
            RevocationReason::Unspecified => 0,
            RevocationReason::KeyCompromise => 1,
            RevocationReason::CaCompromise => 2,
            RevocationReason::AffiliationChanged => 3,
            RevocationReason::Superseded => 4,
            RevocationReason::CessationOfOperation => 5,
            RevocationReason::CertificateHold => 6,
            RevocationReason::PrivilegeWithdrawn => 7,
        }
    }
}

/// Certificate status.  `Expired` and `Unknown` are only ever computed, never
/// stored; revocation always wins over expiry.
#[derive(Clone, Copy, Debug, PartialEq, Eq, Structural)]
pub enum CertificateStatus {
    Valid,
    Expired,
    Revoked,
    Unknown,
}

impl CertificateStatus {
    /// A short, stable label for the status.
    pub fn label(&self) -> (r: &'static str)
        ensures
            self is Valid ==> r@ == "valid"@,
            self is Expired ==> r@ == "expired"@,
            self is Revoked ==> r@ == "revoked"@,
            self is Unknown ==> r@ == "unknown"@,
    {
        match self {
            CertificateStatus::Valid => "valid",
            CertificateStatus::Expired => "expired",
            CertificateStatus::Revoked => "revoked",
            CertificateStatus::Unknown => "unknown",
        }
    }
}

/// One certificate in the store.
#[derive(Clone, Debug)]
pub struct CertificateEntry {
    /// Serial number (unique identifier), 32 hex characters.
    pub serial_number: String,
    /// SHA-256 fingerprint of the DER encoding, hex encoded (unique).
    pub fingerprint_sha256: String,
    /// Common name.
    pub common_name: String,
    /// Organization id.
    pub org_id: String,
    /// Bound credential hash.
    pub bound_api_key_hash: String,
    /// Bound GPU type, if any.
    pub bound_gpu_type: Option<BaselineGpuType>,
    /// Certificate PEM.
    pub certificate_pem: String,
    /// Certificate chain PEM (leaf followed by the CA certificate).
    pub certificate_chain_pem: String,
    /// Issued at.
    pub issued_at_ms: i64,
    /// Expires at.
    pub expires_at_ms: i64,
    /// Stored status: `Valid` until revoked, then `Revoked`.
    pub status: CertificateStatus,
    /// Revocation time; present exactly when revoked.
    pub revoked_at_ms: Option<i64>,
    /// Revocation reason; present exactly when revoked.
    pub revocation_reason: Option<RevocationReason>,
}

/// One line of the certificate revocation list.
#[derive(Clone, Debug)]
pub struct CrlEntry {
    /// Serial of the revoked certificate.
    pub serial_number: String,
    /// When it was revoked.
    pub revoked_at_ms: i64,
    /// Why it was revoked.
    pub reason: RevocationReason,
}

/// A single entry is well formed: the stored status is `Valid` or `Revoked`,
/// the revocation fields are present exactly when revoked, and the validity
/// window is representable.
pub open spec fn cert_entry_wf(e: CertificateEntry) -> bool {
    &&& e.status is Valid || e.status is Revoked
    &&& (e.status is Revoked <==> e.revoked_at_ms is Some)
    &&& (e.status is Revoked <==> e.revocation_reason is Some)
    &&& 0 <= e.issued_at_ms <= e.expires_at_ms <= MAX_TIME_MS
}

/// The status a stored entry answers at `now_ms`: revocation wins over
/// expiry, which wins over validity.
pub open spec fn spec_status_at(e: CertificateEntry, now_ms: i64) -> CertificateStatus {
    if e.status is Revoked {
        CertificateStatus::Revoked
    } else if now_ms >= e.expires_at_ms {
        CertificateStatus::Expired
    } else {
        CertificateStatus::Valid
    }
}

/// View-level equality of two certificate entries.
pub open spec fn cert_views_eq(a: CertificateEntry, b: CertificateEntry) -> bool {
    &&& a.serial_number@ == b.serial_number@
    &&& a.fingerprint_sha256@ == b.fingerprint_sha256@
    &&& a.common_name@ == b.common_name@
    &&& a.org_id@ == b.org_id@
    &&& a.bound_api_key_hash@ == b.bound_api_key_hash@
    &&& a.bound_gpu_type == b.bound_gpu_type
    &&& a.certificate_pem@ == b.certificate_pem@
    &&& a.certificate_chain_pem@ == b.certificate_chain_pem@
    &&& a.issued_at_ms == b.issued_at_ms
    &&& a.expires_at_ms == b.expires_at_ms
    &&& a.status == b.status
    &&& a.revoked_at_ms == b.revoked_at_ms
    &&& a.revocation_reason == b.revocation_reason
}

impl CertificateEntry {
    /// The status this entry answers at `now_ms` (recalculated, not cached).
    pub fn current_status(&self, now_ms: i64) -> (r: CertificateStatus)
        ensures
            r == spec_status_at(*self, now_ms),
    {
        if matches!(self.status, CertificateStatus::Revoked) {
            CertificateStatus::Revoked
        } else if now_ms >= self.expires_at_ms {
            CertificateStatus::Expired
        } else {
            CertificateStatus::Valid
        }
    }

    /// Whether the entry is valid (not revoked, not expired) at `now_ms`.
    pub fn is_valid(&self, now_ms: i64) -> (r: bool)
        requires
            cert_entry_wf(*self),
        ensures
            r <==> spec_status_at(*self, now_ms) is Valid,
    {
        matches!(self.status, CertificateStatus::Valid) && now_ms < self.expires_at_ms
    }

    /// A field-for-field copy.
    pub fn snapshot(&self) -> (r: CertificateEntry)
        ensures
            cert_views_eq(*self, r),
    {
        CertificateEntry {
            serial_number: self.serial_number.clone(),
            fingerprint_sha256: self.fingerprint_sha256.clone(),
            common_name: self.common_name.clone(),
            org_id: self.org_id.clone(),
            bound_api_key_hash: self.bound_api_key_hash.clone(),
            bound_gpu_type: self.bound_gpu_type,
            certificate_pem: self.certificate_pem.clone(),
            certificate_chain_pem: self.certificate_chain_pem.clone(),
            issued_at_ms: self.issued_at_ms,
            expires_at_ms: self.expires_at_ms,
            status: self.status,
            revoked_at_ms: self.revoked_at_ms,
            revocation_reason: self.revocation_reason,
        }
    }
}

/// Once revoked, always revoked: a revoked entry answers `Revoked` at every
/// instant, regardless of expiry.
pub proof fn lemma_revocation_wins(e: CertificateEntry, now_ms: i64)
    requires
        e.status is Revoked,
    ensures
        spec_status_at(e, now_ms) == CertificateStatus::Revoked,
{
}

/// Whether some entry carries the serial `s`.
pub open spec fn has_serial(entries: Seq<CertificateEntry>, s: Seq<char>) -> bool {
    exists|i: int| 0 <= i < entries.len() && (#[trigger] entries[i].serial_number@) == s
}

/// The index of the entry carrying the serial `s`.
pub open spec fn serial_index(entries: Seq<CertificateEntry>, s: Seq<char>) -> int {
    choose|i: int| 0 <= i < entries.len() && (#[trigger] entries[i].serial_number@) == s
}

/// Whether some entry carries the fingerprint `f`.
pub open spec fn has_fingerprint(entries: Seq<CertificateEntry>, f: Seq<char>) -> bool {
    exists|i: int| 0 <= i < entries.len() && (#[trigger] entries[i].fingerprint_sha256@) == f
}

/// The index of the entry carrying the fingerprint `f`.
pub open spec fn fingerprint_index(entries: Seq<CertificateEntry>, f: Seq<char>) -> int {
    choose|i: int| 0 <= i < entries.len() && (#[trigger] entries[i].fingerprint_sha256@) == f
}

/// The certificate authority: owns the signing key, the store and the CRL.
pub struct CertificateAuthority {
    /// Issued certificates, in issuance order.
    pub entries: Vec<CertificateEntry>,
    /// The revocation log, append-only.
    pub crl: Vec<CrlEntry>,
    /// When the CRL last changed; only ever advances.
    pub this_update_ms: i64,
    /// The CA certificate that signs every leaf.
    pub ca_cert: rcgen::Certificate,
    /// The CA certificate's PEM, for chain building.
    pub ca_cert_pem: String,
}

impl CertificateAuthority {
    /// The authority's invariant: serials and fingerprints pairwise unique,
    /// every entry well formed, the CRL timestamp representable, and the CRL
    /// no longer than the store.
    pub open spec fn wf(self) -> bool {
        &&& forall|i: int, j: int|
            0 <= i < j < self.entries@.len()
                ==> (#[trigger] self.entries@[i].serial_number@)
                    != (#[trigger] self.entries@[j].serial_number@)
        &&& forall|i: int, j: int|
            0 <= i < j < self.entries@.len()
                ==> (#[trigger] self.entries@[i].fingerprint_sha256@)
                    != (#[trigger] self.entries@[j].fingerprint_sha256@)
        &&& forall|i: int| 0 <= i < self.entries@.len() ==> cert_entry_wf(#[trigger] self.entries@[i])
        &&& 0 <= self.this_update_ms <= MAX_TIME_MS
    }

    /// Set up a fresh authority with a self-generated CA certificate and an
    /// empty store.  Fails `Internal` only if CA generation fails.
    pub fn new(now_ms: i64) -> (r: Result<CertificateAuthority, ControlPlaneError>)
        requires
            0 <= now_ms <= MAX_TIME_MS,
        ensures
            r matches Ok(ca) ==> {
                &&& ca.wf()
                &&& ca.entries@.len() == 0
                &&& ca.crl@.len() == 0
                &&& ca.this_update_ms == now_ms
            },
            r matches Err(e) ==> e == ControlPlaneError::Internal,
    {
        match rcgen_generate_ca() {
            Ok((cert, pem)) => Ok(
                CertificateAuthority {
                    entries: Vec::new(),
                    crl: Vec::new(),
                    this_update_ms: now_ms,
                    ca_cert: cert,
                    ca_cert_pem: pem,
                },
            ),
            Err(_) => Err(ControlPlaneError::Internal),
        }
    }

    /// Find the index of a serial in the store.
    fn find_by_serial(&self, serial: &str) -> (r: Option<usize>)
        requires
            self.wf(),
        ensures
            match r {
                Some(i) => {
                    &&& i < self.entries@.len()
                    &&& self.entries@[i as int].serial_number@ == serial@
                    &&& has_serial(self.entries@, serial@)
                    &&& serial_index(self.entries@, serial@) == i
                },
                None => !has_serial(self.entries@, serial@),
            },
    {
        let n = self.entries.len();
        let mut i: usize = 0;
        while i < n
            invariant
                self.wf(),
                n == self.entries@.len(),
                i <= n,
                forall|j: int| 0 <= j < i ==> (#[trigger] self.entries@[j].serial_number@) != serial@,
            decreases n - i,
        {
            if str_eq(self.entries[i].serial_number.as_str(), serial) {
                proof {
                    assert(has_serial(self.entries@, serial@));
                    let k = serial_index(self.entries@, serial@);
                    assert(self.entries@[k].serial_number@ == serial@);
                    assert(k == i);
                }
                return Some(i);
            }
            i = i + 1;
        }
        None
    }

    /// Find the index of a fingerprint in the store.
    fn find_by_fingerprint(&self, fingerprint: &str) -> (r: Option<usize>)
        requires
            self.wf(),
        ensures
            match r {
                Some(i) => {
                    &&& i < self.entries@.len()
                    &&& self.entries@[i as int].fingerprint_sha256@ == fingerprint@
                    &&& has_fingerprint(self.entries@, fingerprint@)
                    &&& fingerprint_index(self.entries@, fingerprint@) == i
                },
                None => !has_fingerprint(self.entries@, fingerprint@),
            },
    {
        let n = self.entries.len();
        let mut i: usize = 0;
        while i < n
            invariant
                self.wf(),
                n == self.entries@.len(),
                i <= n,
                forall|j: int|
                    0 <= j < i ==> (#[trigger] self.entries@[j].fingerprint_sha256@)
                        != fingerprint@,
            decreases n - i,
        {
            if str_eq(self.entries[i].fingerprint_sha256.as_str(), fingerprint) {
                proof {
                    assert(has_fingerprint(self.entries@, fingerprint@));
                    let k = fingerprint_index(self.entries@, fingerprint@);
                    assert(self.entries@[k].fingerprint_sha256@ == fingerprint@);
                    assert(k == i);
                }
                return Some(i);
            }
            i = i + 1;
        }
        None
    }

    /// Issue a new certificate.  On success the store grows by exactly one
    /// entry holding the given identity, valid from `now_ms` for
    /// `validity_days`; the CRL and its timestamp are untouched.  Fails
    /// `Internal` only on cryptographic failure or an identifier collision.
    pub fn issue(
        &mut self,
        org_id: &str,
        common_name: &str,
        api_key_hash: &str,
        gpu_type: Option<BaselineGpuType>,
        validity_days: u32,
        now_ms: i64,
    ) -> (r: Result<CertificateEntry, ControlPlaneError>)
        requires
            old(self).wf(),
            0 <= now_ms,
            now_ms + validity_days * 86_400_000 <= MAX_TIME_MS,
        ensures
            final(self).wf(),
            final(self).crl@ == old(self).crl@,
            final(self).this_update_ms == old(self).this_update_ms,
            final(self).ca_cert_pem@ == old(self).ca_cert_pem@,
            r matches Err(e) ==> {
                &&& e == ControlPlaneError::Internal
                &&& final(self).entries@ == old(self).entries@
            },
            r matches Ok(entry) ==> {
                &&& final(self).entries@.len() == old(self).entries@.len() + 1
                &&& forall|j: int|
                    0 <= j < old(self).entries@.len()
                        ==> final(self).entries@[j] == old(self).entries@[j]
                &&& cert_views_eq(entry, final(self).entries@.last())
                &&& entry.common_name@ == common_name@
                &&& entry.org_id@ == org_id@
                &&& entry.bound_api_key_hash@ == api_key_hash@
                &&& entry.bound_gpu_type == gpu_type
                &&& entry.issued_at_ms == now_ms
                &&& entry.expires_at_ms == now_ms + validity_days * 86_400_000
                &&& entry.status is Valid
                &&& entry.revoked_at_ms is None
                &&& entry.revocation_reason is None
                &&& entry.serial_number@.len() == 32
                &&& entry.fingerprint_sha256@.len() == 64
                &&& entry.certificate_chain_pem@ == entry.certificate_pem@ + "\n"@ + old(
                    self,
                ).ca_cert_pem@
                &&& !has_serial(old(self).entries@, entry.serial_number@)
                &&& !has_fingerprint(old(self).entries@, entry.fingerprint_sha256@)
            },
    {
        // Draw a serial; refuse the issuance on the (cryptographically
        // unexpected) event of a collision rather than corrupt uniqueness.
        let serial_value = random_u128();
        let serial_bytes = u128_to_be_bytes(serial_value);
        let serial_number = hex_encode(serial_bytes.as_slice());
        proof {
            lemma_hex_of_len(serial_bytes@);
        }
        if self.find_by_serial(serial_number.as_str()).is_some() {
            return Err(ControlPlaneError::Internal);
        }
        let params = rcgen_leaf_params(
            serial_bytes.as_slice(),
            common_name,
            org_id,
            now_ms,
            validity_days,
        );
        let params = rcgen_leaf_identity(params, common_name, api_key_hash);
        let (certificate_pem, certificate_der) = match rcgen_sign_leaf(&self.ca_cert, params) {
            Ok(p) => p,
            Err(_) => {
                return Err(ControlPlaneError::Internal);
            },
        };
        let digest = sha256_digest(certificate_der.as_slice());
        let fingerprint = hex_encode(digest.as_slice());
        proof {
            lemma_hex_of_len(digest@);
        }
        if self.find_by_fingerprint(fingerprint.as_str()).is_some() {
            return Err(ControlPlaneError::Internal);
        }
        let mut chain = certificate_pem.clone();
        chain.append("\n");
        chain.append(self.ca_cert_pem.as_str());
        let expires_at_ms: i64 = now_ms + (validity_days as i64) * 86_400_000;
        let entry = CertificateEntry {
            serial_number,
            fingerprint_sha256: fingerprint,
            common_name: common_name.to_owned(),
            org_id: org_id.to_owned(),
            bound_api_key_hash: api_key_hash.to_owned(),
            bound_gpu_type: gpu_type,
            certificate_pem,
            certificate_chain_pem: chain,
            issued_at_ms: now_ms,
            expires_at_ms,
            status: CertificateStatus::Valid,
            revoked_at_ms: None,
            revocation_reason: None,
        };
        let snapshot = entry.snapshot();
        self.entries.push(entry);
        Ok(snapshot)
    }

    /// Renew a certificate resolved by its fingerprint.
    ///
    /// Fails `NotFound` if no certificate carries the fingerprint,
    /// `InvalidState` if the bound credential hash differs from the original
    /// or the original is revoked.  On success a new certificate is issued
    /// preserving the original's organization, common name and GPU binding.
    pub fn renew(
        &mut self,
        old_fingerprint: &str,
        api_key_hash: &str,
        validity_days: u32,
        now_ms: i64,
    ) -> (r: Result<CertificateEntry, ControlPlaneError>)
        requires
            old(self).wf(),
            0 <= now_ms,
            now_ms + validity_days * 86_400_000 <= MAX_TIME_MS,
        ensures
            final(self).wf(),
            final(self).crl@ == old(self).crl@,
            final(self).this_update_ms == old(self).this_update_ms,
            !has_fingerprint(old(self).entries@, old_fingerprint@) ==> {
                &&& r == Err::<CertificateEntry, ControlPlaneError>(ControlPlaneError::NotFound)
                &&& final(self).entries@ == old(self).entries@
            },
            has_fingerprint(old(self).entries@, old_fingerprint@) ==> {
                let prior = old(self).entries@[fingerprint_index(
                    old(self).entries@,
                    old_fingerprint@,
                )];
                if prior.bound_api_key_hash@ != api_key_hash@ {
                    &&& r == Err::<CertificateEntry, ControlPlaneError>(
                        ControlPlaneError::InvalidState,
                    )
                    &&& final(self).entries@ == old(self).entries@
                } else if prior.status is Revoked {
                    &&& r == Err::<CertificateEntry, ControlPlaneError>(
                        ControlPlaneError::InvalidState,
                    )
                    &&& final(self).entries@ == old(self).entries@
                } else {
                    match r {
                        Ok(entry) => {
                            &&& final(self).entries@.len() == old(self).entries@.len() + 1
                            &&& forall|j: int|
                                0 <= j < old(self).entries@.len()
                                    ==> final(self).entries@[j] == old(self).entries@[j]
                            &&& cert_views_eq(entry, final(self).entries@.last())
                            &&& entry.common_name@ == prior.common_name@
                            &&& entry.org_id@ == prior.org_id@
                            &&& entry.bound_api_key_hash@ == api_key_hash@
                            &&& entry.bound_gpu_type == prior.bound_gpu_type
                            &&& entry.issued_at_ms == now_ms
                            &&& entry.expires_at_ms == now_ms + validity_days * 86_400_000
                            &&& entry.status is Valid
                        },
                        Err(e) => {
                            &&& e == ControlPlaneError::Internal
                            &&& final(self).entries@ == old(self).entries@
                        },
                    }
                }
            },
    {
        let idx = match self.find_by_fingerprint(old_fingerprint) {
            Some(i) => i,
            None => {
                return Err(ControlPlaneError::NotFound);
            },
        };
        if !str_eq(self.entries[idx].bound_api_key_hash.as_str(), api_key_hash) {
            return Err(ControlPlaneError::InvalidState);
        }
        if matches!(self.entries[idx].status, CertificateStatus::Revoked) {
            return Err(ControlPlaneError::InvalidState);
        }
        let org_id = self.entries[idx].org_id.clone();
        let common_name = self.entries[idx].common_name.clone();
        let gpu_type = self.entries[idx].bound_gpu_type;
        self.issue(
            org_id.as_str(),
            common_name.as_str(),
            api_key_hash,
            gpu_type,
            validity_days,
            now_ms,
        )
    }

    /// Revoke a certificate by serial.
    ///
    /// Fails `NotFound` if the serial was never issued and `InvalidState` if
    /// the certificate is already revoked.  On success the entry is marked
    /// revoked with the given reason, one line is appended to the CRL, and
    /// the CRL timestamp advances to `now_ms` (never backwards).  The CRL
    /// never shrinks and its timestamp never moves back.
    pub fn revoke(&mut self, serial: &str, reason: RevocationReason, now_ms: i64) -> (r: Result<
        (),
        ControlPlaneError,
    >)
        requires
            old(self).wf(),
            0 <= now_ms <= MAX_TIME_MS,
        ensures
            final(self).wf(),
            final(self).crl@.len() >= old(self).crl@.len(),
            final(self).this_update_ms >= old(self).this_update_ms,
            !has_serial(old(self).entries@, serial@) ==> {
                &&& r == Err::<(), ControlPlaneError>(ControlPlaneError::NotFound)
                &&& final(self).entries@ == old(self).entries@
                &&& final(self).crl@ == old(self).crl@
                &&& final(self).this_update_ms == old(self).this_update_ms
            },
            has_serial(old(self).entries@, serial@) ==> {
                let i = serial_index(old(self).entries@, serial@);
                let e = old(self).entries@[i];
                if e.status is Revoked {
                    &&& r == Err::<(), ControlPlaneError>(ControlPlaneError::InvalidState)
                    &&& final(self).entries@ == old(self).entries@
                    &&& final(self).crl@ == old(self).crl@
                    &&& final(self).this_update_ms == old(self).this_update_ms
                } else {
                    &&& r == Ok::<(), ControlPlaneError>(())
                    &&& final(self).entries@.len() == old(self).entries@.len()
                    &&& forall|j: int|
                        0 <= j < old(self).entries@.len() && j != i
                            ==> final(self).entries@[j] == old(self).entries@[j]
                    &&& ({
                        let e2 = final(self).entries@[i];
                        &&& e2.status is Revoked
                        &&& e2.revoked_at_ms == Some(now_ms)
                        &&& e2.revocation_reason == Some(reason)
                        &&& e2.serial_number@ == e.serial_number@
                        &&& e2.fingerprint_sha256@ == e.fingerprint_sha256@
                        &&& e2.common_name@ == e.common_name@
                        &&& e2.org_id@ == e.org_id@
                        &&& e2.bound_api_key_hash@ == e.bound_api_key_hash@
                        &&& e2.expires_at_ms == e.expires_at_ms
                        &&& e2.issued_at_ms == e.issued_at_ms
                    })
                    &&& final(self).crl@.len() == old(self).crl@.len() + 1
                    &&& forall|k: int|
                        0 <= k < old(self).crl@.len()
                            ==> final(self).crl@[k] == old(self).crl@[k]
                    &&& final(self).crl@.last().serial_number@ == serial@
                    &&& final(self).crl@.last().revoked_at_ms == now_ms
                    &&& final(self).crl@.last().reason == reason
                    &&& final(self).this_update_ms == if now_ms > old(self).this_update_ms {
                        now_ms
                    } else {
                        old(self).this_update_ms
                    }
                }
            },
    {
        let idx = match self.find_by_serial(serial) {
            Some(i) => i,
            None => {
                return Err(ControlPlaneError::NotFound);
            },
        };
        if matches!(self.entries[idx].status, CertificateStatus::Revoked) {
            return Err(ControlPlaneError::InvalidState);
        }
        let e = &self.entries[idx];
        let updated = CertificateEntry {
            serial_number: e.serial_number.clone(),
            fingerprint_sha256: e.fingerprint_sha256.clone(),
            common_name: e.common_name.clone(),
            org_id: e.org_id.clone(),
            bound_api_key_hash: e.bound_api_key_hash.clone(),
            bound_gpu_type: e.bound_gpu_type,
            certificate_pem: e.certificate_pem.clone(),
            certificate_chain_pem: e.certificate_chain_pem.clone(),
            issued_at_ms: e.issued_at_ms,
            expires_at_ms: e.expires_at_ms,
            status: CertificateStatus::Revoked,
            revoked_at_ms: Some(now_ms),
            revocation_reason: Some(reason),
        };
        let crl_line = CrlEntry {
            serial_number: updated.serial_number.clone(),
            revoked_at_ms: now_ms,
            reason,
        };
        self.entries.set(idx, updated);
        self.crl.push(crl_line);
        if now_ms > self.this_update_ms {
            self.this_update_ms = now_ms;
        }
        Ok(())
    }

    /// The status the authority answers for a serial or fingerprint:
    /// `Unknown` exactly when no record is found, else revocation wins over
    /// expiry, which wins over validity.
    pub fn status(&self, serial_or_fingerprint: &str, now_ms: i64) -> (r: CertificateStatus)
        requires
            self.wf(),
        ensures
            r == self.spec_status_of(serial_or_fingerprint@, now_ms),
    {
        match self.find_by_serial(serial_or_fingerprint) {
            Some(i) => self.entries[i].current_status(now_ms),
            None => match self.find_by_fingerprint(serial_or_fingerprint) {
                Some(i) => self.entries[i].current_status(now_ms),
                None => CertificateStatus::Unknown,
            },
        }
    }

    /// What `status` answers: lookup by serial first, then by fingerprint.
    pub open spec fn spec_status_of(self, key: Seq<char>, now_ms: i64) -> CertificateStatus {
        if has_serial(self.entries@, key) {
            spec_status_at(self.entries@[serial_index(self.entries@, key)], now_ms)
        } else if has_fingerprint(self.entries@, key) {
            spec_status_at(self.entries@[fingerprint_index(self.entries@, key)], now_ms)
        } else {
            CertificateStatus::Unknown
        }
    }

    /// A copy of the certificate carrying this serial, if any.
    pub fn get_certificate(&self, serial: &str) -> (r: Option<CertificateEntry>)
        requires
            self.wf(),
        ensures
            match r {
                Some(e) => {
                    &&& has_serial(self.entries@, serial@)
                    &&& cert_views_eq(e, self.entries@[serial_index(self.entries@, serial@)])
                },
                None => !has_serial(self.entries@, serial@),
            },
    {
        match self.find_by_serial(serial) {
            Some(i) => Some(self.entries[i].snapshot()),
            None => None,
        }
    }

    /// A copy of the certificate carrying this fingerprint, if any.
    pub fn get_certificate_by_fingerprint(&self, fingerprint: &str) -> (r: Option<
        CertificateEntry,
    >)
        requires
            self.wf(),
        ensures
            match r {
                Some(e) => {
                    &&& has_fingerprint(self.entries@, fingerprint@)
                    &&& cert_views_eq(
                        e,
                        self.entries@[fingerprint_index(self.entries@, fingerprint@)],
                    )
                },
                None => !has_fingerprint(self.entries@, fingerprint@),
            },
    {
        match self.find_by_fingerprint(fingerprint) {
            Some(i) => Some(self.entries[i].snapshot()),
            None => None,
        }
    }

    /// A full, consistent copy of the revocation log with its `this_update`
    /// timestamp and the `next_update` horizon one day later.
    pub fn crl_snapshot(&self) -> (r: (Vec<CrlEntry>, i64, i64))
        requires
            self.wf(),
        ensures
            r.0@.len() == self.crl@.len(),
            forall|k: int|
                0 <= k < self.crl@.len() ==> {
                    &&& (#[trigger] r.0@[k]).serial_number@ == self.crl@[k].serial_number@
                    &&& r.0@[k].revoked_at_ms == self.crl@[k].revoked_at_ms
                    &&& r.0@[k].reason == self.crl@[k].reason
                },
            r.1 == self.this_update_ms,
            r.2 == self.this_update_ms + DAY_MS,
    {
        let n = self.crl.len();
        let mut out: Vec<CrlEntry> = Vec::new();
        let mut i: usize = 0;
        while i < n
            invariant
                n == self.crl@.len(),
                i <= n,
                out@.len() == i,
                forall|k: int|
                    0 <= k < i ==> {
                        &&& (#[trigger] out@[k]).serial_number@ == self.crl@[k].serial_number@
                        &&& out@[k].revoked_at_ms == self.crl@[k].revoked_at_ms
                        &&& out@[k].reason == self.crl@[k].reason
                    },
            decreases n - i,
        {
            let line = &self.crl[i];
            out.push(
                CrlEntry {
                    serial_number: line.serial_number.clone(),
                    revoked_at_ms: line.revoked_at_ms,
                    reason: line.reason,
                },
            );
            i = i + 1;
        }
        (out, self.this_update_ms, self.this_update_ms + DAY_MS)
    }

    /// How many revoked certificates the CRL lists.
    pub fn revoked_certificate_count(&self) -> (r: usize)
        ensures
            r == self.crl@.len(),
    {
        self.crl.len()
    }

    /// How many certificates answer `Valid` at `now_ms`.
    pub fn active_certificate_count(&self, now_ms: i64) -> (r: usize)
        requires
            self.wf(),
        ensures
            r == count_valid(self.entries@, now_ms),
    {
        let n = self.entries.len();
        let mut count: usize = 0;
        let mut i: usize = 0;
        while i < n
            invariant
                self.wf(),
                n == self.entries@.len(),
                i <= n,
                count <= i,
                count == count_valid(self.entries@.take(i as int), now_ms),
            decreases n - i,
        {
            proof {
                assert(self.entries@.take(i + 1 as int).drop_last() =~= self.entries@.take(
                    i as int,
                ));
                assert(self.entries@.take(i + 1 as int).last() == self.entries@[i as int]);
            }
            if self.entries[i].is_valid(now_ms) {
                count = count + 1;
            }
            i = i + 1;
        }
        proof {
            assert(self.entries@.take(n as int) =~= self.entries@);
        }
        count
    }
}

/// How many entries answer `Valid` at `now_ms`.
pub open spec fn count_valid(entries: Seq<CertificateEntry>, now_ms: i64) -> int
    decreases entries.len(),
{
    if entries.len() == 0 {
        0
    } else {
        count_valid(entries.drop_last(), now_ms) + if spec_status_at(
            entries.last(),
            now_ms,
        ) is Valid {
            1int
        } else {
            0int
        }
    }
}

/// An OCSP-style answer for one serial.
pub struct OcspAnswer {
    /// The status the store answers (`Unknown` when the serial was never
    /// issued).
    pub status: CertificateStatus,
    /// The certStatus carried in the DER response; an expired certificate
    /// is reported revoked there.
    pub cert_status: OcspCertStatus,
    /// The DER-encoded OCSP response.
    pub der: Vec<u8>,
    /// thisUpdate.
    pub this_update_ms: i64,
    /// nextUpdate, one day later.
    pub next_update_ms: i64,
}

impl OcspAnswer {
    /// The wire label of the answer: a valid certificate reports `good`.
    pub fn status_label(&self) -> (r: &'static str)
        ensures
            self.status is Valid ==> r@ == "good"@,
            self.status is Expired ==> r@ == "expired"@,
            self.status is Revoked ==> r@ == "revoked"@,
            self.status is Unknown ==> r@ == "unknown"@,
    {
        match self.status {
            CertificateStatus::Valid => "good",
            CertificateStatus::Expired => "expired",
            CertificateStatus::Revoked => "revoked",
            CertificateStatus::Unknown => "unknown",
        }
    }
}

/// The certStatus byte a store status maps to.
pub open spec fn ocsp_status_of(s: CertificateStatus) -> OcspCertStatus {
    match s {
        CertificateStatus::Valid => OcspCertStatus::Good,
        CertificateStatus::Expired => OcspCertStatus::Revoked,
        CertificateStatus::Revoked => OcspCertStatus::Revoked,
        CertificateStatus::Unknown => OcspCertStatus::Unknown,
    }
}

impl CertificateAuthority {
    /// Answer an OCSP query for one serial.
    ///
    /// An unissued serial answers `Unknown`; a valid unexpired unrevoked
    /// certificate answers `Good`; a revoked one answers `Revoked`; an
    /// expired one is reported revoked in the DER response.  The DER bytes
    /// always begin with a SEQUENCE tag (0x30) whose declared length equals
    /// the count of bytes that follow the header.
    pub fn check_ocsp(&self, serial: &str, now_ms: i64) -> (r: OcspAnswer)
        requires
            self.wf(),
            0 <= now_ms,
            now_ms + DAY_MS <= MAX_TIME_MS,
        ensures
            ({
                let st = if has_serial(self.entries@, serial@) {
                    spec_status_at(self.entries@[serial_index(self.entries@, serial@)], now_ms)
                } else {
                    CertificateStatus::Unknown
                };
                &&& r.status == st
                &&& r.cert_status == ocsp_status_of(st)
            }),
            r.this_update_ms == now_ms,
            r.next_update_ms == now_ms + DAY_MS,
            r.der@ == spec_ocsp_response_of(
                serial.spec_bytes(),
                r.cert_status,
                now_ms,
                (now_ms + DAY_MS) as i64,
            ),
            der_header_matches(r.der@, 0x30),
    {
        let status = match self.find_by_serial(serial) {
            Some(i) => self.entries[i].current_status(now_ms),
            None => CertificateStatus::Unknown,
        };
        let cert_status = match status {
            CertificateStatus::Valid => OcspCertStatus::Good,
            CertificateStatus::Expired => OcspCertStatus::Revoked,
            CertificateStatus::Revoked => OcspCertStatus::Revoked,
            CertificateStatus::Unknown => OcspCertStatus::Unknown,
        };
        let next_update_ms = now_ms + DAY_MS;
        let der = build_ocsp_response_der(serial, cert_status, now_ms, next_update_ms);
        OcspAnswer { status, cert_status, der, this_update_ms: now_ms, next_update_ms }
    }
}

/// Revocation is permanent: once a stored entry is revoked, the authority
/// answers `Revoked` for its serial at every instant, regardless of expiry.
pub proof fn lemma_revoked_stays_revoked(ca: CertificateAuthority, s: Seq<char>, now_ms: i64)
    requires
        ca.wf(),
        has_serial(ca.entries@, s),
        ca.entries@[serial_index(ca.entries@, s)].status is Revoked,
    ensures
        ca.spec_status_of(s, now_ms) == CertificateStatus::Revoked,
{
}

/// Serial numbers and fingerprints are pairwise unique across all issued
/// certificates, however many issuances the store has seen.
pub proof fn lemma_identities_unique(ca: CertificateAuthority, i: int, j: int)
    requires
        ca.wf(),
        0 <= i < ca.entries@.len(),
        0 <= j < ca.entries@.len(),
        i != j,
    ensures
        ca.entries@[i].serial_number@ != ca.entries@[j].serial_number@,
        ca.entries@[i].fingerprint_sha256@ != ca.entries@[j].fingerprint_sha256@,
{
}

} // verus!
