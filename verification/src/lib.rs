//! Renders a collection of playlists as static documents, Markdown or HTML:
//! one document per playlist and an index that links them.
//!
//! Rendering is total: every value of the data model has a document, and the
//! contracts say which, character for character.

pub mod escape;
pub mod filename;
pub mod format;
pub mod html;
pub mod markdown;
pub mod model;
pub mod site;
pub mod styles;
pub mod text;

pub use crate::escape::{escape_html, escape_markdown};
pub use crate::filename::{playlist_file_name, sanitize_filename};
pub use crate::format::Format;
pub use crate::html::{generate_html, generate_index_html};
pub use crate::markdown::{generate_index_markdown, generate_markdown};
pub use crate::model::{Item, Playlist, Root, Track};
pub use crate::site::{render_index, render_playlist, render_site, Page, Site};
pub use crate::styles::get_common_styles;
