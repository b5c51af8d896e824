//! Configuration records and thin service state.
//!
//! These are plain data carried between the composition root and the core
//! components; file paths are held as strings, timestamps as millisecond
//! values.

use vstd::prelude::*;

verus! {

/// Default gRPC server port.
pub const DEFAULT_GRPC_PORT: u16 = 50051;

/// gRPC server configuration.
#[derive(Clone, Debug)]
pub struct GrpcServerConfig {
    /// Server bind address.
    pub bind_addr: String,
    /// Enable TLS.
    pub enable_tls: bool,
    /// Server TLS certificate path (PEM).
    pub cert_path: Option<String>,
    /// Server TLS private key path (PEM).
    pub key_path: Option<String>,
    /// CA certificate path for mTLS client verification (PEM).
    pub ca_cert_path: Option<String>,
    /// Enable mTLS (requires client certificates).
    pub enable_mtls: bool,
    /// Maximum concurrent streams per connection.
    pub max_concurrent_streams: u32,
    /// Enable gRPC reflection (for debugging tools).
    pub enable_reflection: bool,
}

impl Default for GrpcServerConfig {
    /// The development default: plain text, reflection on.
    fn default() -> (r: GrpcServerConfig)
        ensures
            r.bind_addr@ == "0.0.0.0:50051"@,
            !r.enable_tls,
            r.cert_path is None,
            r.key_path is None,
            r.ca_cert_path is None,
            !r.enable_mtls,
            r.max_concurrent_streams == 100,
            r.enable_reflection,
    {
        GrpcServerConfig {
            bind_addr: "0.0.0.0:50051".to_owned(),
            enable_tls: false,
            cert_path: None,
            key_path: None,
            ca_cert_path: None,
            enable_mtls: false,
            max_concurrent_streams: 100,
            enable_reflection: true,
        }
    }
}

impl GrpcServerConfig {
    /// Production config with TLS but no client certificates.
    pub fn production(cert_path: String, key_path: String) -> (r: GrpcServerConfig)
        ensures
            r.bind_addr@ == "0.0.0.0:50051"@,
            r.enable_tls,
            r.cert_path matches Some(c) && c@ == cert_path@,
            r.key_path matches Some(k) && k@ == key_path@,
            r.ca_cert_path is None,
            !r.enable_mtls,
            r.max_concurrent_streams == 1000,
            !r.enable_reflection,
    {
        GrpcServerConfig {
            bind_addr: "0.0.0.0:50051".to_owned(),
            enable_tls: true,
            cert_path: Some(cert_path),
            key_path: Some(key_path),
            ca_cert_path: None,
            enable_mtls: false,
            max_concurrent_streams: 1000,
            enable_reflection: false,
        }
    }

    /// Production config with mTLS: clients must present certificates.
    pub fn production_mtls(cert_path: String, key_path: String, ca_cert_path: String) -> (r:
        GrpcServerConfig)
        ensures
            r.bind_addr@ == "0.0.0.0:50051"@,
            r.enable_tls,
            r.cert_path matches Some(c) && c@ == cert_path@,
            r.key_path matches Some(k) && k@ == key_path@,
            r.ca_cert_path matches Some(a) && a@ == ca_cert_path@,
            r.enable_mtls,
            r.max_concurrent_streams == 1000,
            !r.enable_reflection,
    {
        GrpcServerConfig {
            bind_addr: "0.0.0.0:50051".to_owned(),
            enable_tls: true,
            cert_path: Some(cert_path),
            key_path: Some(key_path),
            ca_cert_path: Some(ca_cert_path),
            enable_mtls: true,
            max_concurrent_streams: 1000,
            enable_reflection: false,
        }
    }
}

/// Management interface network configuration.
#[derive(Clone, Debug)]
pub struct NetworkConfig {
    /// Management interface bind address.
    pub bind_address: String,
    /// Management interface port.
    pub port: u16,
    /// Enable TLS for the management interface.
    pub enable_tls: bool,
    /// TLS certificate path.
    pub tls_cert_path: Option<String>,
    /// TLS private key path.
    pub tls_key_path: Option<String>,
}

/// Performance monitoring configuration.
#[derive(Clone, Debug)]
pub struct MonitoringConfig {
    /// Enable performance monitoring.
    pub enable_monitoring: bool,
    /// Monitoring data collection interval (seconds).
    pub collection_interval: u64,
    /// Enable cohomology computation monitoring.
    pub monitor_cohomology: bool,
    /// Enable mathematical operation profiling.
    pub profile_math_ops: bool,
}

/// Configuration of the model directory watcher.
#[derive(Clone, Debug)]
pub struct WatcherConfig {
    /// Directory to watch for pending models.
    pub watch_dir: String,
    /// Polling interval in seconds.
    pub poll_interval_secs: u64,
    /// Whether to process existing models on startup.
    pub process_existing: bool,
}

impl Default for WatcherConfig {
    /// Watch the pending-models directory every ten seconds, including
    /// whatever is already there.
    fn default() -> (r: WatcherConfig)
        ensures
            r.watch_dir@ == "/var/lib/vxlan/models/pending"@,
            r.poll_interval_secs == 10,
            r.process_existing,
    {
        WatcherConfig {
            watch_dir: "/var/lib/vxlan/models/pending".to_owned(),
            poll_interval_secs: 10,
            process_existing: true,
        }
    }
}

/// Number of principal components kept by default.
pub fn default_k_components() -> (r: u32)
    ensures
        r == 32,
{
    32
}

/// Number of FFT bins for the spectral hash by default.
pub fn default_fft_bins() -> (r: u32)
    ensures
        r == 16,
{
    16
}

/// Default poll interval for new models, in seconds.
pub fn default_poll_interval() -> (r: u64)
    ensures
        r == 10,
{
    10
}

/// Configuration of the extraction pipeline.
#[derive(Clone, Debug)]
pub struct ExtractionConfig {
    /// Path to the extraction executable.
    pub gfef_extract_path: String,
    /// Directory to watch for pending models.
    pub pending_models_dir: String,
    /// Directory to move models to after indexing.
    pub indexed_models_dir: String,
    /// Directory to store indices.
    pub indices_dir: String,
    /// Number of principal components.
    pub k_components: u32,
    /// FFT bins for the spectral hash.
    pub fft_bins: u32,
    /// Poll interval for new models (seconds).
    pub poll_interval_secs: u64,
}

impl Default for ExtractionConfig {
    /// The standard pipeline layout with the default tuning values.
    fn default() -> (r: ExtractionConfig)
        ensures
            r.k_components == 32,
            r.fft_bins == 16,
            r.poll_interval_secs == 10,
    {
        ExtractionConfig {
            gfef_extract_path: "gfef-extract".to_owned(),
            pending_models_dir: "/var/lib/vxlan/models/pending".to_owned(),
            indexed_models_dir: "/var/lib/vxlan/models/indexed".to_owned(),
            indices_dir: "/var/lib/vxlan/indices".to_owned(),
            k_components: default_k_components(),
            fft_bins: default_fft_bins(),
            poll_interval_secs: default_poll_interval(),
        }
    }
}

/// Categories of GPU benchmark workloads.
#[derive(Clone, Copy, Debug, PartialEq, Eq, Structural)]
pub enum GpuBenchmarkCategory {
    /// Matrix operations (GEMM, matrix-vector and the like).
    MatrixOperations,
    /// Deep learning inference.
    DeepLearningInference,
    /// Deep learning training workloads.
    DeepLearningTraining,
    /// Signal processing (FFT, convolution).
    SignalProcessing,
    /// Memory bandwidth and latency tests.
    MemoryBandwidth,
    /// Compute shader workloads.
    ComputeShaders,
}

/// One admitted memory allocation.
#[derive(Clone, Debug)]
pub struct AllocationRecord {
    /// The allocation's handle.
    pub allocation_id: String,
    /// The agent that holds it.
    pub agent_id: String,
    /// Allocated size in TB.
    pub allocated_tb: u64,
    /// What the allocation is for.
    pub purpose: String,
    /// The node that carries it.
    pub node_id: String,
    /// When it was created.
    pub created_at_ms: i64,
    /// When it expires.
    pub expires_at_ms: i64,
}

/// Aggregated system counters shown on the dashboard.
#[derive(Clone, Copy, Debug, PartialEq, Eq, Structural)]
pub struct SystemMetricsData {
    /// Connections seen in total.
    pub total_connections: u64,
    /// Connections currently open.
    pub active_connections: u64,
    /// Bytes received.
    pub bytes_in: u64,
    /// Bytes sent.
    pub bytes_out: u64,
    /// Calibration requests served.
    pub calibration_requests: u64,
    /// GPU registrations seen.
    pub gpu_registrations: u64,
    /// Certificates issued.
    pub certificates_issued: u64,
    /// Certificates currently active.
    pub certificates_active: u64,
    /// Certificates revoked.
    pub certificates_revoked: u64,
    /// Certificates expired.
    pub certificates_expired: u64,
}

impl SystemMetricsData {
    /// All counters at zero.
    pub fn new() -> (r: SystemMetricsData)
        ensures
            r.total_connections == 0,
            r.active_connections == 0,
            r.bytes_in == 0,
            r.bytes_out == 0,
            r.calibration_requests == 0,
            r.gpu_registrations == 0,
            r.certificates_issued == 0,
            r.certificates_active == 0,
            r.certificates_revoked == 0,
            r.certificates_expired == 0,
    {
        SystemMetricsData {
            total_connections: 0,
            active_connections: 0,
            bytes_in: 0,
            bytes_out: 0,
            calibration_requests: 0,
            gpu_registrations: 0,
            certificates_issued: 0,
            certificates_active: 0,
            certificates_revoked: 0,
            certificates_expired: 0,
        }
    }
}

/// A cache entry with compression metadata.
#[derive(Clone, Debug)]
pub struct CacheEntry {
    /// Compressed value bytes.
    pub compressed_value: Vec<u8>,
    /// Original uncompressed size.
    pub original_size: usize,
    /// Creation timestamp (Unix epoch seconds).
    pub created_at: i64,
    /// Last access timestamp.
    pub last_accessed: i64,
    /// Access count for weighted LRU.
    pub access_count: u64,
    /// Time-to-live in seconds (0 = no expiry).
    pub ttl: u64,
}

/// Operational command state: the server version string and start time,
/// held as explicit fields rather than process-global state.
pub struct OperationsServiceImpl {
    /// Server version.
    pub version: String,
}

impl OperationsServiceImpl {
    /// Create the operations service with an unset version string.
    pub fn new() -> (r: OperationsServiceImpl)
        ensures
            r.version@ == Seq::<char>::empty(),
    {
        OperationsServiceImpl { version: String::new() }
    }

    /// Create the operations service with a concrete version string.
    pub fn with_version(version: String) -> (r: OperationsServiceImpl)
        ensures
            r.version@ == version@,
    {
        OperationsServiceImpl { version }
    }
}

} // verus!
