//! Minimal but structurally valid OCSP responses (RFC 6960 shape).
//!
//! The response is a top-level SEQUENCE holding a response-status ENUMERATED
//! value and a nested basic response carrying responder identity, producedAt,
//! and exactly one SingleResponse whose certStatus is good, revoked or
//! unknown.  Every nesting level declares its length with the DER short-form
//! / long-form rule.

use vstd::prelude::*;
use vstd::string::{StrSliceExecFns, StringSliceAdditionalSpecFns};
use crate::der::{der_tlv, der_header_matches, lemma_der_tlv_header_matches, wrap_tlv, TlvBuilder};
use crate::hashing::{
    sha256_of, sha256_digest, be_bytes_of_u64, u64_to_be_bytes,
};
use crate::MAX_TIME_MS;

verus! {

/// Certificate status carried in a SingleResponse.
#[derive(Clone, Copy, Debug, PartialEq, Eq, Structural)]
pub enum OcspCertStatus {
    Good,
    Revoked,
    Unknown,
}

/// The 15 ASCII bytes `YYYYMMDDHHMMSSZ` that a timestamp renders to.  The
/// rendering is a function of the timestamp alone; its value is stated
/// nowhere in this crate.
pub uninterp spec fn generalized_time_of(ms: i64) -> Seq<u8>;

/// Relies on chrono (Utc timestamp construction and `%Y%m%d%H%M%SZ`
/// formatting): for timestamps from 1970 up to year 9999 the rendering is
/// determined by the timestamp alone and is exactly 15 bytes.
#[verifier::external_body]
pub fn generalized_time_bytes(ms: i64) -> (r: Vec<u8>)
    requires
        0 <= ms <= MAX_TIME_MS,
    ensures
        r@ == generalized_time_of(ms),
        r@.len() == 15,
{
    let dt = chrono::TimeZone::timestamp_millis_opt(&chrono::Utc, ms).unwrap();
    dt.format("%Y%m%d%H%M%SZ").to_string().into_bytes()
}

/// OID 2.16.840.1.101.3.4.2.1 (SHA-256), pre-encoded.
pub open spec fn sha256_oid() -> Seq<u8> {
    seq![0x60u8, 0x86, 0x48, 0x01, 0x65, 0x03, 0x04, 0x02, 0x01]
}

/// OID 1.3.6.1.5.5.7.48.1.1 (id-pkix-ocsp-basic), pre-encoded.
pub open spec fn ocsp_basic_oid() -> Seq<u8> {
    seq![0x2Bu8, 0x06, 0x01, 0x05, 0x05, 0x07, 0x30, 0x01, 0x01]
}

/// OID 1.2.840.113549.1.1.11 (SHA256 with RSA), pre-encoded.
pub open spec fn sig_alg_oid() -> Seq<u8> {
    seq![0x2Au8, 0x86, 0x48, 0x86, 0xF7, 0x0D, 0x01, 0x01, 0x0B]
}

/// An AlgorithmIdentifier: SEQUENCE { OID, NULL }.
pub open spec fn spec_alg_id(oid: Seq<u8>) -> Seq<u8> {
    der_tlv(0x30, der_tlv(0x06, oid) + seq![0x05u8, 0x00])
}

/// The responder's key hash, used as its byKey identity.
pub open spec fn responder_id_hash() -> Seq<u8> {
    sha256_of(vstd::utf8::encode_utf8("CYAN_FLAME_OCSP_RESPONDER"@))
}

/// Hash standing for the issuer name in CertID.
pub open spec fn issuer_name_hash() -> Seq<u8> {
    sha256_of(vstd::utf8::encode_utf8("CYAN_FLAME_CA"@))
}

/// Hash standing for the issuer key in CertID.
pub open spec fn issuer_key_hash() -> Seq<u8> {
    sha256_of(vstd::utf8::encode_utf8("CYAN_FLAME_CA_KEY"@))
}

/// The placeholder signature: a digest over the serial and thisUpdate.
pub open spec fn spec_sig_hash(serial_bytes: Seq<u8>, this_update_ms: i64) -> Seq<u8> {
    sha256_of(serial_bytes + be_bytes_of_u64(this_update_ms as u64))
}

/// At most the first 16 bytes of the serial, as CertID's INTEGER.
pub open spec fn trunc16(s: Seq<u8>) -> Seq<u8> {
    if s.len() <= 16 { s } else { s.take(16) }
}

/// CertID: SEQUENCE { AlgorithmIdentifier, issuerNameHash, issuerKeyHash,
/// serialNumber }.
pub open spec fn spec_cert_id(serial16: Seq<u8>) -> Seq<u8> {
    der_tlv(
        0x30,
        spec_alg_id(sha256_oid()) + der_tlv(0x04, issuer_name_hash()) + der_tlv(
            0x04,
            issuer_key_hash(),
        ) + der_tlv(0x02, serial16),
    )
}

/// The certStatus CHOICE: good `[0]`, revoked `[1]` with its revocation
/// time, unknown `[2]`.
pub open spec fn spec_status_bytes(status: OcspCertStatus, gt: Seq<u8>) -> Seq<u8> {
    match status {
        OcspCertStatus::Good => seq![0x80u8, 0x00],
        OcspCertStatus::Revoked => der_tlv(0xA1, der_tlv(0x18, gt)),
        OcspCertStatus::Unknown => seq![0x82u8, 0x00],
    }
}

/// SingleResponse: SEQUENCE { CertID, certStatus, thisUpdate,
/// `[0]` nextUpdate }.
pub open spec fn spec_single_response(
    serial16: Seq<u8>,
    status: OcspCertStatus,
    gt: Seq<u8>,
    gn: Seq<u8>,
) -> Seq<u8> {
    der_tlv(
        0x30,
        spec_cert_id(serial16) + spec_status_bytes(status, gt) + der_tlv(0x18, gt) + der_tlv(
            0xA0,
            der_tlv(0x18, gn),
        ),
    )
}

/// tbsResponseData: SEQUENCE { `[2]` byKey responder id, producedAt,
/// responses }.
pub open spec fn spec_tbs_response_data(
    serial16: Seq<u8>,
    status: OcspCertStatus,
    gt: Seq<u8>,
    gn: Seq<u8>,
) -> Seq<u8> {
    der_tlv(
        0x30,
        der_tlv(0xA2, der_tlv(0x04, responder_id_hash())) + der_tlv(0x18, gt) + der_tlv(
            0x30,
            spec_single_response(serial16, status, gt, gn),
        ),
    )
}

/// BasicOCSPResponse: SEQUENCE { tbsResponseData, signatureAlgorithm,
/// signature BIT STRING }.
pub open spec fn spec_basic_ocsp_response(
    serial16: Seq<u8>,
    status: OcspCertStatus,
    gt: Seq<u8>,
    gn: Seq<u8>,
    sig: Seq<u8>,
) -> Seq<u8> {
    der_tlv(
        0x30,
        spec_tbs_response_data(serial16, status, gt, gn) + spec_alg_id(sig_alg_oid()) + der_tlv(
            0x03,
            seq![0x00u8] + sig,
        ),
    )
}

/// ResponseBytes: SEQUENCE { responseType OID, response OCTET STRING }.
pub open spec fn spec_response_bytes(
    serial16: Seq<u8>,
    status: OcspCertStatus,
    gt: Seq<u8>,
    gn: Seq<u8>,
    sig: Seq<u8>,
) -> Seq<u8> {
    der_tlv(
        0x30,
        der_tlv(0x06, ocsp_basic_oid()) + der_tlv(
            0x04,
            spec_basic_ocsp_response(serial16, status, gt, gn, sig),
        ),
    )
}

/// OCSPResponse: SEQUENCE { responseStatus ENUMERATED successful,
/// `[0]` ResponseBytes }.
pub open spec fn spec_ocsp_response(
    serial16: Seq<u8>,
    status: OcspCertStatus,
    gt: Seq<u8>,
    gn: Seq<u8>,
    sig: Seq<u8>,
) -> Seq<u8> {
    der_tlv(
        0x30,
        seq![0x0Au8, 0x01, 0x00] + der_tlv(
            0xA0,
            spec_response_bytes(serial16, status, gt, gn, sig),
        ),
    )
}

/// The full response a serial, status and time pair owes.
pub open spec fn spec_ocsp_response_of(
    serial_bytes: Seq<u8>,
    status: OcspCertStatus,
    this_update_ms: i64,
    next_update_ms: i64,
) -> Seq<u8> {
    spec_ocsp_response(
        trunc16(serial_bytes),
        status,
        generalized_time_of(this_update_ms),
        generalized_time_of(next_update_ms),
        spec_sig_hash(serial_bytes, this_update_ms),
    )
}

/// Build a complete DER-encoded OCSP response for one serial.
///
/// The result always begins with a SEQUENCE tag (0x30) whose declared
/// length matches the count of bytes that follow the header, and the same
/// holds at every nesting level by construction.
#[verifier::rlimit(100)]
pub fn build_ocsp_response_der(
    serial: &str,
    status: OcspCertStatus,
    this_update_ms: i64,
    next_update_ms: i64,
) -> (r: Vec<u8>)
    requires
        0 <= this_update_ms <= MAX_TIME_MS,
        0 <= next_update_ms <= MAX_TIME_MS,
    ensures
        r@ == spec_ocsp_response_of(serial.spec_bytes(), status, this_update_ms, next_update_ms),
        der_header_matches(r@, 0x30),
{
    let mut serial16 = serial.as_bytes_vec();
    serial16.truncate(16);
    proof {
        assert(serial16@ =~= trunc16(serial.spec_bytes()));
        assert(serial16@.len() <= 16);
    }
    let gt = generalized_time_bytes(this_update_ms);
    let gn = generalized_time_bytes(next_update_ms);

    // Placeholder signature: digest over the serial and thisUpdate.
    let mut sig_input = serial.as_bytes_vec();
    let mut ms_bytes = u64_to_be_bytes(this_update_ms as u64);
    sig_input.append(&mut ms_bytes);
    let sig = sha256_digest(sig_input.as_slice());

    // CertID.
    let mut cert_id_content = alg_id(sha256_oid_vec());
    let mut issuer_hash = {
        let s = "CYAN_FLAME_CA".as_bytes_vec();
        wrap_tlv(0x04, sha256_digest(s.as_slice()))
    };
    cert_id_content.append(&mut issuer_hash);
    let mut key_hash = {
        let s = "CYAN_FLAME_CA_KEY".as_bytes_vec();
        wrap_tlv(0x04, sha256_digest(s.as_slice()))
    };
    cert_id_content.append(&mut key_hash);
    let mut serial_tlv = wrap_tlv(0x02, serial16);
    cert_id_content.append(&mut serial_tlv);
    let cert_id = wrap_tlv(0x30, cert_id_content);
    proof {
        assert(cert_id@ =~= spec_cert_id(trunc16(serial.spec_bytes())));
    }

    // SingleResponse.
    let mut single_content = cert_id;
    let mut status_bytes: Vec<u8> = match status {
        OcspCertStatus::Good => {
            let mut v: Vec<u8> = Vec::new();
            v.push(0x80);
            v.push(0x00);
            v
        },
        OcspCertStatus::Revoked => {
            let inner = wrap_tlv(0x18, generalized_time_bytes(this_update_ms));
            wrap_tlv(0xA1, inner)
        },
        OcspCertStatus::Unknown => {
            let mut v: Vec<u8> = Vec::new();
            v.push(0x82);
            v.push(0x00);
            v
        },
    };
    proof {
        assert(status_bytes@ =~= spec_status_bytes(status, generalized_time_of(this_update_ms)));
    }
    single_content.append(&mut status_bytes);
    let mut this_tlv = wrap_tlv(0x18, gt);
    single_content.append(&mut this_tlv);
    let mut next_tlv = {
        let inner = wrap_tlv(0x18, gn);
        wrap_tlv(0xA0, inner)
    };
    single_content.append(&mut next_tlv);
    let single = wrap_tlv(0x30, single_content);
    proof {
        assert(single@ =~= spec_single_response(
            trunc16(serial.spec_bytes()),
            status,
            generalized_time_of(this_update_ms),
            generalized_time_of(next_update_ms),
        ));
    }

    // tbsResponseData.
    let mut tbs_content = {
        let responder = "CYAN_FLAME_OCSP_RESPONDER".as_bytes_vec();
        let inner = wrap_tlv(0x04, sha256_digest(responder.as_slice()));
        wrap_tlv(0xA2, inner)
    };
    let mut produced_tlv = wrap_tlv(0x18, generalized_time_bytes(this_update_ms));
    tbs_content.append(&mut produced_tlv);
    let mut responses_tlv = wrap_tlv(0x30, single);
    tbs_content.append(&mut responses_tlv);
    let tbs = wrap_tlv(0x30, tbs_content);
    proof {
        assert(tbs@ =~= spec_tbs_response_data(
            trunc16(serial.spec_bytes()),
            status,
            generalized_time_of(this_update_ms),
            generalized_time_of(next_update_ms),
        ));
    }

    // BasicOCSPResponse.
    let mut basic_content = tbs;
    let mut sig_alg = alg_id(sig_alg_oid_vec());
    basic_content.append(&mut sig_alg);
    let mut sig_bitstring = {
        let mut v: Vec<u8> = Vec::new();
        v.push(0x00);
        let mut s = sig;
        v.append(&mut s);
        wrap_tlv(0x03, v)
    };
    basic_content.append(&mut sig_bitstring);
    let basic = wrap_tlv(0x30, basic_content);
    proof {
        assert(basic@ =~= spec_basic_ocsp_response(
            trunc16(serial.spec_bytes()),
            status,
            generalized_time_of(this_update_ms),
            generalized_time_of(next_update_ms),
            spec_sig_hash(serial.spec_bytes(), this_update_ms),
        ));
    }

    // ResponseBytes.
    let mut rb_content = wrap_tlv(0x06, ocsp_basic_oid_vec());
    let mut basic_octets = wrap_tlv(0x04, basic);
    rb_content.append(&mut basic_octets);
    let response_bytes = wrap_tlv(0x30, rb_content);
    proof {
        assert(response_bytes@ =~= spec_response_bytes(
            trunc16(serial.spec_bytes()),
            status,
            generalized_time_of(this_update_ms),
            generalized_time_of(next_update_ms),
            spec_sig_hash(serial.spec_bytes(), this_update_ms),
        ));
    }

    // OCSPResponse.
    let mut top_content: Vec<u8> = Vec::new();
    top_content.push(0x0A);
    top_content.push(0x01);
    top_content.push(0x00);
    let mut rb_wrapped = wrap_tlv(0xA0, response_bytes);
    top_content.append(&mut rb_wrapped);
    let ghost top_content_view = top_content@;
    let result = wrap_tlv(0x30, top_content);
    proof {
        assert(result@ =~= spec_ocsp_response_of(
            serial.spec_bytes(),
            status,
            this_update_ms,
            next_update_ms,
        ));
        lemma_der_tlv_header_matches(0x30, top_content_view);
    }
    result
}

/// The SHA-256 OID bytes.
fn sha256_oid_vec() -> (r: Vec<u8>)
    ensures
        r@ == sha256_oid(),
{
    let v: Vec<u8> = vec![0x60u8, 0x86, 0x48, 0x01, 0x65, 0x03, 0x04, 0x02, 0x01];
    proof {
        assert(v@ =~= sha256_oid());
    }
    v
}

/// The id-pkix-ocsp-basic OID bytes.
fn ocsp_basic_oid_vec() -> (r: Vec<u8>)
    ensures
        r@ == ocsp_basic_oid(),
{
    let v: Vec<u8> = vec![0x2Bu8, 0x06, 0x01, 0x05, 0x05, 0x07, 0x30, 0x01, 0x01];
    proof {
        assert(v@ =~= ocsp_basic_oid());
    }
    v
}

/// The SHA256-with-RSA OID bytes.
fn sig_alg_oid_vec() -> (r: Vec<u8>)
    ensures
        r@ == sig_alg_oid(),
{
    let v: Vec<u8> = vec![0x2Au8, 0x86, 0x48, 0x86, 0xF7, 0x0D, 0x01, 0x01, 0x0B];
    proof {
        assert(v@ =~= sig_alg_oid());
    }
    v
}

/// An AlgorithmIdentifier TLV around a 9-byte OID.
fn alg_id(oid: Vec<u8>) -> (r: Vec<u8>)
    requires
        oid@.len() == 9,
    ensures
        r@ == spec_alg_id(oid@),
{
    let ghost oid_view = oid@;
    let mut content = wrap_tlv(0x06, oid);
    content.push(0x05);
    content.push(0x00);
    let r = wrap_tlv(0x30, content);
    proof {
        assert(r@ =~= spec_alg_id(oid_view));
    }
    r
}

} // verus!
