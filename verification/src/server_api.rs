//! Data carried over the control-room server API.
//!
//! The HTTP and WebSocket plumbing lives in the surrounding application;
//! the library defines the typed values both sides exchange.

use vstd::prelude::*;

verus! {

/// Default port of the discovery server.
pub const DEFAULT_PORT: u16 = 8765;

/// Server information shown to the frontend.
#[derive(Debug, Clone)]
pub struct DiscoveryServerInfo {
    pub running: bool,
    pub port: u16,
    pub addresses: Vec<String>,
    pub service_name: String,
    pub auth_required: bool,
    /// URL of the API documentation.
    pub docs_url: String,
}

/// Full server status including connection counts.
#[derive(Debug, Clone)]
pub struct DiscoveryServerStatus {
    pub running: bool,
    pub port: Option<u16>,
    pub addresses: Vec<String>,
    pub connected_clients: u32,
    pub mdns_registered: bool,
    /// URL of the API documentation.
    pub docs_url: Option<String>,
}

/// System status reported over the API.
#[derive(Debug, Clone)]
pub struct SystemStatus {
    pub obs_connected: bool,
    pub obs_streaming: bool,
    pub obs_recording: bool,
    pub rode_interface: bool,
    pub main_display: bool,
    pub secondary_display: bool,
    pub youtube_logged_in: bool,
}

impl Default for SystemStatus {
    /// Everything starts disconnected and off.
    fn default() -> (r: Self)
        ensures
            !r.obs_connected && !r.obs_streaming && !r.obs_recording,
            !r.rode_interface && !r.main_display && !r.secondary_display,
            !r.youtube_logged_in,
    {
        SystemStatus {
            obs_connected: false,
            obs_streaming: false,
            obs_recording: false,
            rode_interface: false,
            main_display: false,
            secondary_display: false,
            youtube_logged_in: false,
        }
    }
}

/// Streaming-software status.
#[derive(Debug, Clone)]
pub struct ObsStatus {
    pub connected: bool,
    pub streaming: bool,
    pub recording: bool,
    pub stream_timecode: Option<String>,
    pub record_timecode: Option<String>,
}

impl Default for ObsStatus {
    /// Starts disconnected with no timecodes.
    fn default() -> (r: Self)
        ensures
            !r.connected && !r.streaming && !r.recording,
            r.stream_timecode is None,
            r.record_timecode is None,
    {
        ObsStatus {
            connected: false,
            streaming: false,
            recording: false,
            stream_timecode: None,
            record_timecode: None,
        }
    }
}

/// An RF/IR command as the API lists it.
#[derive(Debug, Clone)]
pub struct RfIrCommandInfo {
    pub id: String,
    pub name: String,
    pub slug: String,
    pub category: String,
    pub signal_type: String,
}

/// A stored RF/IR command with everything needed to replay it.
#[derive(Debug, Clone)]
pub struct StoredRfIrCommand {
    pub id: String,
    pub name: String,
    pub slug: String,
    pub device_host: String,
    pub device_mac: String,
    pub device_type: String,
    pub code: String,
    pub signal_type: String,
    pub category: String,
}

/// A configured presentation folder.
#[derive(Debug, Clone)]
pub struct PptFolder {
    pub id: String,
    pub path: String,
    pub name: String,
}

/// One presentation file inside a configured folder.
#[derive(Debug, Clone)]
pub struct PptFile {
    pub id: String,
    pub name: String,
    pub path: String,
    pub folder_id: String,
}

/// The file listing the API returns, with the filter that produced it.
#[derive(Debug, Clone)]
pub struct PptFilesResponse {
    pub files: Vec<PptFile>,
    pub total: usize,
    pub filter: Option<String>,
}

/// Request to add a presentation folder.
#[derive(Debug, Clone)]
pub struct AddPptFolderRequest {
    pub path: String,
    pub name: String,
}

/// Request to open a presentation file.
#[derive(Debug, Clone)]
pub struct OpenPptRequest {
    pub file_path: String,
    pub start_presenter: bool,
}

/// Query parameters of the settings export endpoint.
#[derive(Debug, Clone)]
pub struct SettingsExportQuery {
    /// Include sensitive data such as tokens.
    pub include_sensitive: bool,
}

/// Request replacing the stored RF/IR command list.
#[derive(Debug, Clone)]
pub struct UpdateRfIrCommandsRequest {
    pub commands: Vec<StoredRfIrCommand>,
}

/// Messages pushed to WebSocket clients.
#[derive(Debug, Clone)]
pub enum WsMessage {
    StatusUpdate(SystemStatus),
    ObsStatusChanged(ObsStatus),
    StreamStateChanged { streaming: bool },
    RecordStateChanged { recording: bool },
    RfIrCommandExecuted { slug: String, success: bool },
    RfIrCommandList { commands: Vec<RfIrCommandInfo> },
    PptFoldersChanged { folders: Vec<PptFolder> },
    PptFileOpened { file_name: String, file_path: String, success: bool, presenter_started: bool },
    Ping,
    Pong,
    Error { message: String },
}

/// The network addresses the server listens on, grouped by reachability.
#[derive(Debug, Clone)]
pub struct NetworkAddresses {
    /// Addresses only reachable from this computer.
    pub localhost: Vec<String>,
    /// Private-network addresses reachable from the same LAN.
    pub lan: Vec<NetworkInterface>,
    /// Every address as a flat list.
    pub all: Vec<String>,
}

/// One interface with its address.
#[derive(Debug, Clone)]
pub struct NetworkInterface {
    pub name: String,
    pub address: String,
    pub is_primary: bool,
}

} // verus!
