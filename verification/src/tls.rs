//! TLS record-layer messages observed on a connection.
use vstd::prelude::*;
use crate::shared::{NamedU8, NamedU16, Side};

verus! {

/// A TLS record-layer event observed on one side of the connection.
#[derive(Debug, Clone)]
pub struct TlsEvent {
    pub side: Side,
    pub message: TlsMessage,
}

/// Top-level TLS message type.
#[derive(Debug, Clone)]
pub enum TlsMessage {
    Alert(Alert),
    ChangeCipherSpec(ChangeCipherSpec),
    Handshake(HandshakeMessage),
}

#[derive(Debug, Clone)]
pub struct Alert {
    pub level: NamedU8,
    pub description: NamedU8,
}

#[derive(Debug, Clone)]
pub struct ChangeCipherSpec {
    pub data: Vec<u8>,
}

/// A parsed TLS handshake message.
#[derive(Debug, Clone)]
pub enum HandshakeMessage {
    ClientHello(ClientHello),
    ServerHello(ServerHello),
    NewSessionTicket(NewSessionTicket),
    EncryptedExtensions(EncryptedExtensions),
    Certificate(Certificate),
    ServerKeyExchange(ServerKeyExchange),
    CertificateRequest(CertificateRequest),
    ServerHelloDone,
    CertificateVerify(CertificateVerify),
    ClientKeyExchange(ClientKeyExchange),
    Finished(Finished),
    CompressedCertificate(CompressedCertificate),
}

/// TLS ClientHello message fields.
#[derive(Debug, Clone)]
pub struct ClientHello {
    pub version: NamedU16,
    pub random: [u8; 32],
    pub session_id: Vec<u8>,
    pub cipher_suites: Vec<NamedU16>,
    pub compression_methods: Vec<NamedU8>,
    pub extensions: Vec<ClientExtension>,
}

/// TLS ServerHello message fields.
#[derive(Debug, Clone)]
pub struct ServerHello {
    pub version: NamedU16,
    pub random: [u8; 32],
    pub session_id: Vec<u8>,
    pub cipher_suite: NamedU16,
    pub compression_method: NamedU8,
    pub extensions: Vec<ServerExtension>,
}

#[derive(Debug, Clone)]
pub struct NewSessionTicket {
    pub ticket: Vec<u8>,
}

/// A TLS extension from a ClientHello message.
#[derive(Debug, Clone)]
pub struct ClientExtension {
    pub extension_type: NamedU16,
    pub extension_data: ClientExtensionData,
}

/// Parsed data for a client TLS extension.
#[derive(Debug, Clone)]
pub enum ClientExtensionData {
    Grease(Grease),
    SignedCertificateTimestamp,
    StatusRequest(CertificateStatusRequest),
    Alpn(Alpn),
    Ech(Ech),
    CompressCertificate(CompressCertificateExt),
    SessionTicket(SessionTicket),
    SupportedGroups(SupportedGroups),
    RenegotiationInfo(RenegotiationInfo),
    ExtendedMasterSecret,
    KeyShare(KeyShareClientHello),
    SignatureAlgorithms(SignatureAlgorithms),
    ServerName(ServerNameList),
    EcPointFormats(EcPointFormats),
    SupportedVersions(ClientSupportedVersions),
    PskKeyExchangeModes(PskKeyExchangeModes),
    ApplicationSettingsSupport(ApplicationSettingsSupport),
    ApplicationSettings(ApplicationSettings),
    EncryptThenMac,
    CertificateAuthorities(CertificateAuthorities),
    Padding(Padding),
    Unknown(UnknownExtension),
}

/// A TLS extension from a ServerHello message.
#[derive(Debug, Clone)]
pub struct ServerExtension {
    pub extension_type: NamedU16,
    pub extension_data: ServerExtensionData,
}

/// Parsed data for a server TLS extension.
#[derive(Debug, Clone)]
pub enum ServerExtensionData {
    ServerName,
    SignatureAlgorithms(SignatureAlgorithms),
    KeyShareServerHello(KeyShareServerHello),
    KeyShareHelloRetryRequest(KeyShareHelloRetryRequest),
    SupportedVersions(ServerSupportedVersions),
    ExtendedMasterSecret,
    Alpn(Alpn),
    Ech(Ech),
    ApplicationSettings(ApplicationSettings),
    SessionTicket(SessionTicket),
    CertificateAuthorities(CertificateAuthorities),
    Unknown(UnknownExtension),
}

#[derive(Debug, Clone)]
pub struct Grease {
    pub data: Vec<u8>,
}

#[derive(Debug, Clone)]
pub struct CertificateStatusRequest {
    pub status_type: NamedU8,
    pub request: StatusRequest,
}

#[derive(Debug, Clone)]
pub enum StatusRequest {
    Ocsp(OcspStatusRequest),
}

#[derive(Debug, Clone)]
pub struct OcspStatusRequest {
    pub responder_id_list: Vec<Vec<u8>>,
    pub extensions: Vec<u8>,
}

#[derive(Debug, Clone)]
pub struct Alpn {
    pub protocols: Vec<String>,
}

#[derive(Debug, Clone)]
pub struct Ech {
    pub ech: Vec<u8>,
}

#[derive(Debug, Clone)]
pub struct CompressCertificateExt {
    pub algorithms: Vec<NamedU16>,
}

#[derive(Debug, Clone)]
pub struct SessionTicket {
    pub ticket: Vec<u8>,
}

#[derive(Debug, Clone)]
pub struct SupportedGroups {
    pub named_group_list: Vec<NamedU16>,
}

#[derive(Debug, Clone)]
pub struct RenegotiationInfo {
    pub renegotiated_connection: Vec<u8>,
}

#[derive(Debug, Clone)]
pub struct KeyShareClientHello {
    pub client_shares: Vec<KeyShareEntry>,
}

#[derive(Debug, Clone)]
pub struct KeyShareEntry {
    pub group: NamedU16,
    pub key_exchange: Vec<u8>,
}

#[derive(Debug, Clone)]
pub struct SignatureAlgorithms {
    pub supported_signature_algorithms: Vec<NamedU16>,
}

#[derive(Debug, Clone)]
pub struct ServerNameList {
    pub server_name_list: Vec<ServerName>,
}

#[derive(Debug, Clone)]
pub struct ServerName {
    pub name_type: NamedU8,
    pub name: String,
}

#[derive(Debug, Clone)]
pub struct EcPointFormats {
    pub ec_point_format_list: Vec<NamedU8>,
}

#[derive(Debug, Clone)]
pub struct ClientSupportedVersions {
    pub versions: Vec<NamedU16>,
}

#[derive(Debug, Clone)]
pub struct ServerSupportedVersions {
    pub selected_version: NamedU16,
}

#[derive(Debug, Clone)]
pub struct PskKeyExchangeModes {
    pub ke_modes: Vec<NamedU8>,
}

#[derive(Debug, Clone)]
pub struct ApplicationSettingsSupport {
    pub supported_protocols: Vec<String>,
}

#[derive(Debug, Clone)]
pub struct ApplicationSettings {
    pub settings: Vec<u8>,
}

#[derive(Debug, Clone)]
pub struct CertificateAuthorities {
    pub authorities: Vec<Vec<u8>>,
}

#[derive(Debug, Clone)]
pub struct Padding {
    pub data: Vec<u8>,
}

#[derive(Debug, Clone)]
pub struct UnknownExtension {
    pub data: Vec<u8>,
}

#[derive(Debug, Clone)]
pub struct KeyShareServerHello {
    pub server_share: KeyShareEntry,
}

#[derive(Debug, Clone)]
pub struct KeyShareHelloRetryRequest {
    pub selected_group: NamedU16,
}

#[derive(Debug, Clone)]
pub enum EncryptedExtensions {
    Client(Vec<ClientExtension>),
    Server(Vec<ServerExtension>),
}

/// TLS Certificate message in either TLS 1.2 or TLS 1.3 format.
#[derive(Debug, Clone)]
pub enum Certificate {
    Tls13(Tls13Certificate),
    Tls12(Tls12Certificate),
}

#[derive(Debug, Clone)]
pub struct Tls13Certificate {
    pub certificate_request_context: Vec<u8>,
    pub certificate_list: Vec<CertificateEntry>,
}

#[derive(Debug, Clone)]
pub struct CertificateEntry {
    pub cert_data: Vec<u8>,
    pub extensions: Vec<u8>,
}

#[derive(Debug, Clone)]
pub struct Tls12Certificate {
    pub certificates: Vec<Vec<u8>>,
}

/// TLS ServerKeyExchange for either DH or ECDH key exchange.
#[derive(Debug, Clone)]
pub enum ServerKeyExchange {
    Dh(DhServerKeyExchange),
    Ecdh(EcdhServerKeyExchange),
}

#[derive(Debug, Clone)]
pub struct DhServerKeyExchange {
    pub params: ServerDhParams,
    pub signed_params: Option<DigitallySigned>,
}

#[derive(Debug, Clone)]
pub struct ServerDhParams {
    pub p: Vec<u8>,
    pub g: Vec<u8>,
    pub ys: Vec<u8>,
}

#[derive(Debug, Clone)]
pub struct DigitallySigned {
    pub algorithm: NamedU16,
    pub signature: Vec<u8>,
}

#[derive(Debug, Clone)]
pub struct EcdhServerKeyExchange {
    pub params: ServerEcdhParams,
    pub signed_params: Option<DigitallySigned>,
}

#[derive(Debug, Clone)]
pub struct ServerEcdhParams {
    pub curve_params: EcParams,
    pub public: Vec<u8>,
}

#[derive(Debug, Clone)]
pub enum EcParams {
    ExplicitPrime(ExplicitPrimeParams),
    ExplicitChar2(ExplicitChar2Params),
    NamedCurve(NamedCurveParams),
}

#[derive(Debug, Clone)]
pub struct ExplicitPrimeParams {
    pub p: Vec<u8>,
    pub curve: EcCurve,
    pub base: Vec<u8>,
    pub order: Vec<u8>,
    pub cofactor: Vec<u8>,
}

#[derive(Debug, Clone)]
pub struct ExplicitChar2Params {
    pub m: u16,
    pub basis: Char2Basis,
    pub curve: EcCurve,
    pub base: Vec<u8>,
    pub order: Vec<u8>,
    pub cofactor: Vec<u8>,
}

#[derive(Debug, Clone)]
pub struct NamedCurveParams {
    pub named_curve: NamedU16,
}

#[derive(Debug, Clone)]
pub struct EcCurve {
    pub a: Vec<u8>,
    pub b: Vec<u8>,
}

#[derive(Debug, Clone)]
pub enum Char2Basis {
    Trinomial(TrinomialBasis),
    Pentanomial(PentanomialBasis),
}

#[derive(Debug, Clone)]
pub struct TrinomialBasis {
    pub k: Vec<u8>,
}

#[derive(Debug, Clone)]
pub struct PentanomialBasis {
    pub k1: Vec<u8>,
    pub k2: Vec<u8>,
    pub k3: Vec<u8>,
}

/// TLS ClientKeyExchange for DH, ECDH or RSA key exchange.
#[derive(Debug, Clone)]
pub enum ClientKeyExchange {
    Dh(DhClientKeyExchange),
    Ecdh(EcdhClientKeyExchange),
    Rsa(RsaClientKeyExchange),
}

#[derive(Debug, Clone)]
pub struct DhClientKeyExchange {
    pub yc: Vec<u8>,
}

#[derive(Debug, Clone)]
pub struct EcdhClientKeyExchange {
    pub yc: Vec<u8>,
}

#[derive(Debug, Clone)]
pub struct RsaClientKeyExchange {
    pub encrypted_pre_master_secret: Vec<u8>,
}

#[derive(Debug, Clone)]
pub enum CertificateRequest {
    Tls13(Tls13CertificateRequest),
}

#[derive(Debug, Clone)]
pub struct Tls13CertificateRequest {
    pub certificate_request_context: Vec<u8>,
    pub extensions: Vec<ServerExtension>,
}

#[derive(Debug, Clone)]
pub struct CertificateVerify {
    pub algorithm: NamedU16,
    pub signature: Vec<u8>,
}

#[derive(Debug, Clone)]
pub struct Finished {
    pub verify_data: Vec<u8>,
}

#[derive(Debug, Clone)]
pub struct CompressedCertificate {
    pub algorithm: NamedU16,
    pub uncompressed_len: usize,
    pub compressed_certificate_message: Vec<u8>,
}

} // verus!
