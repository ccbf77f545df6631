//! Shutdown coordination and mobile device fingerprint emulation.

mod config;
mod emulation;
mod errors;
mod imports;
mod requirements;
mod shutdown;

pub use config::{lemma_phase_never_regresses, ShutdownState, SystemConfig};
pub use emulation::{
    generate_android_metadata, generate_device, generate_ios_metadata, get_device_browser, get_device_metadata,
    initialize_emulation, launch_config_outcome, lemma_catalog_lookups, lemma_generated_device_consistent,
    ChromeFlags, ChromiumConfig, ConnectionInfo, DeviceManager, DeviceMetadata, EmulatedBrowser, EmulatedDevice,
    HardwareInfo, PlatformType, ScreenMetrics, WebKitConfig, WebKitFlags, WebViewData,
};
pub use errors::{CatalogError, ConfigBuildError, PlatformFailure, ShutdownError};
pub use imports::{get_import_name, import_candidates};
pub use requirements::{log_deletion_enabled, parse_requirements_text, python_version, requirement_name, split_lines};
pub use shutdown::{
    complete_shutdown, complete_termination, exit_code, handle_shutdown, lemma_timeout_is_final,
    windows_termination_outcome, CleanupStep, Reclamation, CLEANUP_DEADLINE_MS,
};
