//! Trusted wrappers around rcgen for X.509 certificate generation.
//!
//! Certificate generation draws a fresh random keypair inside rcgen, so
//! nothing beyond the shape of a successful result can be promised of it.

use vstd::prelude::*;
use chrono::{Datelike, TimeZone};
use rcgen::{
    BasicConstraints, CertificateParams, DistinguishedName, DnType, ExtendedKeyUsagePurpose,
    IsCa, KeyUsagePurpose, SanType, SerialNumber, date_time_ymd,
};
use crate::MAX_TIME_MS;

verus! {

/// rcgen's certificate handle, declared so it can stand in fields and
/// signatures; its insides are opaque here.
#[verifier::external_type_specification]
#[verifier::external_body]
pub struct ExRcgenCertificate(rcgen::Certificate);

/// rcgen's certificate parameter block, declared so it can be carried
/// between the wrappers below; its insides are opaque here.
#[verifier::external_type_specification]
#[verifier::external_body]
pub struct ExRcgenCertificateParams(rcgen::CertificateParams);

/// Relies on rcgen::Certificate::from_params and serialize_pem: generates a
/// self-signed CA certificate (certificate-signing, CRL-signing and
/// digital-signature key usages) with a fresh random keypair and returns it
/// together with its PEM rendering.  The result depends on the drawn
/// keypair, so only the shape of success is stated.
#[verifier::external_body]
pub fn rcgen_generate_ca() -> (r: Result<(rcgen::Certificate, String), String>)
    ensures
        r matches Ok(p) ==> p.1@.len() > 0,
{
    let mut p = CertificateParams::default();
    p.distinguished_name = DistinguishedName::new();
    p.distinguished_name.push(DnType::CommonName, "CYAN FLAME Root CA");
    p.distinguished_name.push(DnType::OrganizationName, "SYMMETRIX CORE");
    p.distinguished_name.push(DnType::CountryName, "US");
    p.is_ca = IsCa::Ca(BasicConstraints::Unconstrained);
    p.key_usages = vec![KeyUsagePurpose::KeyCertSign, KeyUsagePurpose::CrlSign, KeyUsagePurpose::DigitalSignature];
    p.not_before = date_time_ymd(2024, 1, 1);
    p.not_after = date_time_ymd(2034, 12, 31);
    let cert = rcgen::Certificate::from_params(p).map_err(|e| e.to_string())?;
    let pem = cert.serialize_pem().map_err(|e| e.to_string())?;
    Ok((cert, pem))
}

/// Relies on rcgen's CertificateParams (with dates derived through chrono):
/// fills the parameter block for a leaf certificate with the given serial
/// number, subject names and validity window, not marked as a CA.  The
/// block is opaque here; what it holds is stated nowhere.
#[verifier::external_body]
pub fn rcgen_leaf_params(
    serial: &[u8],
    common_name: &str,
    org_id: &str,
    now_ms: i64,
    validity_days: u32,
) -> (r: rcgen::CertificateParams)
    requires
        0 <= now_ms,
        now_ms + validity_days * 86_400_000 <= MAX_TIME_MS,
{
    let nb = chrono::Utc.timestamp_millis_opt(now_ms).unwrap();
    let na = nb + chrono::Duration::days(validity_days as i64);
    let mut p = CertificateParams::default();
    p.distinguished_name = DistinguishedName::new();
    p.distinguished_name.push(DnType::CommonName, common_name);
    p.distinguished_name.push(DnType::OrganizationName, org_id);
    p.distinguished_name.push(DnType::OrganizationalUnitName, "CYAN FLAME Agent");
    p.distinguished_name.push(DnType::CountryName, "US");
    p.serial_number = Some(SerialNumber::from_slice(serial));
    p.not_before = date_time_ymd(nb.year(), nb.month() as u8, nb.day() as u8);
    p.not_after = date_time_ymd(na.year(), na.month() as u8, na.day() as u8);
    p.is_ca = IsCa::NoCa;
    p
}

/// Relies on rcgen's CertificateParams: adds the client-identity extensions
/// to a leaf parameter block, as issued certificates carry them: digital
/// signature and key encipherment usages, clientAuth and serverAuth
/// extended usages, and DNS subject alternative names derived from the
/// common name and the bound credential hash's first characters.
#[verifier::external_body]
pub fn rcgen_leaf_identity(
    params: rcgen::CertificateParams,
    common_name: &str,
    api_key_hash: &str,
) -> (r: rcgen::CertificateParams)
{
    let mut p = params;
    p.key_usages = vec![KeyUsagePurpose::DigitalSignature, KeyUsagePurpose::KeyEncipherment];
    p.extended_key_usages = vec![ExtendedKeyUsagePurpose::ClientAuth, ExtendedKeyUsagePurpose::ServerAuth];
    let tag = api_key_hash.get(..8).unwrap_or("agent");
    p.subject_alt_names = vec![
        SanType::DnsName(format!("{}.cyan-flame.local", common_name)),
        SanType::DnsName(format!("{}.agent.cyan-flame.io", tag)),
    ];
    p
}

/// Relies on rcgen::Certificate::from_params, serialize_pem_with_signer and
/// serialize_der_with_signer: signs a certificate built from the given
/// parameters under the given CA.  A fresh keypair is drawn inside, so only
/// the shape of success is stated: a successful result carries a non-empty
/// PEM and a non-empty DER encoding.
#[verifier::external_body]
pub fn rcgen_sign_leaf(ca: &rcgen::Certificate, params: rcgen::CertificateParams) -> (r: Result<
    (String, Vec<u8>),
    String,
>)
    ensures
        r matches Ok(p) ==> p.0@.len() > 0 && p.1@.len() > 0,
{
    let cert = rcgen::Certificate::from_params(params).map_err(|e| e.to_string())?;
    let pem = cert.serialize_pem_with_signer(ca).map_err(|e| e.to_string())?;
    let der = cert.serialize_der_with_signer(ca).map_err(|e| e.to_string())?;
    Ok((pem, der))
}

} // verus!
