pub mod adaptive_concurrency;
pub mod adaptive_speed_controller;
pub mod cache;
pub mod compliance;
pub mod concurrent_downloader;
pub mod config;
pub mod download_options;
pub mod constants;
pub mod dns_cache;
pub mod domain_manager;
pub mod downloader;
pub mod error;
pub mod geo_detection;
pub mod github_releases;
pub mod http_client;
pub mod http_client_manager;
pub mod load_balancer;
pub mod logging;
pub mod memory_tracker;
pub mod mmap_writer;
pub mod pattern;
pub mod progress;
pub mod router;
pub mod server_quality_scorer;
pub mod smart_chunking;
pub mod smart_downloader;
pub mod text;
pub mod time;
pub mod url_parts;
