//! Webring assembly: validating a list of member sites, linking them into a
//! ring, auditing that members publish their ring links, and the pure text
//! work (owner markup, site tables) that the rendering stage consumes.

pub mod audit;
pub mod error;
pub mod file;
pub mod html;
pub mod pattern;
pub mod pipeline;
pub mod settings;
pub mod text;
pub mod webring;
pub mod website;

pub use error::Error;
pub use settings::AppSettings;
pub use webring::{build_webring_sequence, build_webring_sites, verify_websites, WebringSite};
pub use website::Website;
