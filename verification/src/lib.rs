//! A metrics-collection pipeline: raw submissions are normalized into flat
//! single-valued records, buffered, and flushed in batches to a sink either
//! when the batch size is reached or when a flush interval has elapsed.

use vstd::prelude::*;

pub mod assembler;
pub mod encode;
pub mod ingest;
pub mod metric;

verus! {

/// Which sink variant a configuration selects.
#[derive(Clone, Copy, Debug, PartialEq, Eq, Structural)]
pub enum OutputMode {
    Disk,
    Udp,
}

/// Runtime configuration, validated once at startup.
pub struct Config {
    /// Host to bind to.
    pub host: String,
    /// Port to listen on.
    pub port: u16,
    /// Number of buffered records that triggers an immediate flush.
    pub batch_size: usize,
    /// Output mode: "disk" or "udp".
    pub output_mode: String,
    /// Output file path (for disk mode).
    pub output_file: String,
    /// UDP target host (for UDP mode).
    pub udp_host: String,
    /// UDP target port (for UDP mode).
    pub udp_port: u16,
    /// Flush interval in milliseconds.
    pub flush_interval_ms: u64,
}

impl Config {
    /// The sink variant this configuration selects, or `None` when the
    /// `output_mode` string is invalid (a fatal startup error).
    pub fn selected_mode(&self) -> (r: Option<OutputMode>)
        ensures
            r == Some(OutputMode::Disk) <==> self.output_mode@ == "disk"@,
            r == Some(OutputMode::Udp) <==> self.output_mode@ == "udp"@,
            r is None <==> (self.output_mode@ != "disk"@ && self.output_mode@ != "udp"@),
    {
        proof {
            reveal_strlit("disk");
            reveal_strlit("udp");
            assert("disk"@.len() != "udp"@.len());
        }
        let disk: String = "disk".to_owned();
        let udp: String = "udp".to_owned();
        if self.output_mode == disk {
            Some(OutputMode::Disk)
        } else if self.output_mode == udp {
            Some(OutputMode::Udp)
        } else {
            None
        }
    }
}

} // verus!
