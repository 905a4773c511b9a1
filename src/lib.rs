//! Publishes Markdown articles with a metadata header, generating a cover image
//! when one is missing, and records the publication state in the header itself.

pub mod accounts;
pub mod cover;
pub mod error;
pub mod frontmatter;
pub mod markdown;
pub mod models;
pub mod paths;
pub mod providers;
pub mod text;
pub mod uploader;
pub mod wechat;
pub mod yaml;

pub use error::Error;
pub use frontmatter::Frontmatter;
pub use models::{AiProvider, Config};
pub use uploader::WxUploader;
pub use yaml::YamlValue;
