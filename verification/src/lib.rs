pub mod downloader;
pub mod installer;
pub mod numtext;
pub mod paths;
pub mod schema;
pub mod zipio;
