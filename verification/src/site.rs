//! A whole run: every playlist's document and the index, each with the name
//! of the file it belongs in.

use vstd::prelude::*;
use crate::filename::{file_name, playlist_file_name};
use crate::format::{index_file_name, Format};
use crate::html::{generate_html, generate_index_html, html_document, html_index};
use crate::markdown::{
    generate_index_markdown, generate_markdown, markdown_document, markdown_index,
};
use crate::model::{playlist_views, Playlist, PlaylistView, Root};
use crate::text::texts;

verus! {

/// A rendered document and the name of its file.
#[derive(Debug, Clone, PartialEq)]
pub struct Page {
    pub file_name: String,
    pub content: String,
}

/// The text of a page and of its file name.
pub struct PageView {
    pub file_name: Seq<char>,
    pub content: Seq<char>,
}

impl View for Page {
    type V = PageView;

    open spec fn view(&self) -> PageView {
        PageView { file_name: self.file_name@, content: self.content@ }
    }
}

/// The documents of one run: a page per playlist, in the collection's order,
/// and the index.
#[derive(Debug, Clone, PartialEq)]
pub struct Site {
    pub pages: Vec<Page>,
    pub index: Page,
}

/// The pages of a site as texts.
pub struct SiteView {
    pub pages: Seq<PageView>,
    pub index: PageView,
}

impl View for Site {
    type V = SiteView;

    open spec fn view(&self) -> SiteView {
        SiteView { pages: Seq::new(self.pages@.len(), |i: int| self.pages@[i]@), index: self.index@ }
    }
}

/// The document of a playlist in a format.
pub open spec fn playlist_document(playlist: PlaylistView, format: Format) -> Seq<char> {
    match format {
        Format::Markdown => markdown_document(playlist),
        Format::Html => html_document(playlist),
    }
}

/// The index document in a format.
pub open spec fn index_document(
    playlists: Seq<PlaylistView>,
    file_names: Seq<Seq<char>>,
    format: Format,
) -> Seq<char> {
    match format {
        Format::Markdown => markdown_index(playlists, file_names),
        Format::Html => html_index(playlists, file_names),
    }
}

/// The page of a playlist: its document under its sanitized name.
pub open spec fn playlist_page(playlist: PlaylistView, format: Format) -> PageView {
    PageView {
        file_name: file_name(playlist.name, format),
        content: playlist_document(playlist, format),
    }
}

/// The file names of the playlists' pages, in order.
pub open spec fn page_file_names(playlists: Seq<PlaylistView>, format: Format) -> Seq<Seq<char>> {
    Seq::new(playlists.len(), |i: int| file_name(playlists[i].name, format))
}

/// The site of a collection: the page of each playlist, then an index that
/// links every playlist to its page.
pub open spec fn site_of(playlists: Seq<PlaylistView>, format: Format) -> SiteView {
    SiteView {
        pages: Seq::new(playlists.len(), |i: int| playlist_page(playlists[i], format)),
        index: PageView {
            file_name: index_file_name(format),
            content: index_document(playlists, page_file_names(playlists, format), format),
        },
    }
}

/// Renders the document of one playlist in the chosen format.
pub fn render_playlist(playlist: &Playlist, format: Format) -> (r: String)
    ensures
        r@ == playlist_document(playlist@, format),
{
    match format {
        Format::Markdown => generate_markdown(playlist),
        Format::Html => generate_html(playlist),
    }
}

/// Renders the index in the chosen format; `filenames[i]` is the file of
/// `playlists[i]`.
pub fn render_index(playlists: &[Playlist], filenames: &[String], format: Format) -> (r: String)
    ensures
        r@ == index_document(playlist_views(playlists@), texts(filenames@), format),
{
    match format {
        Format::Markdown => generate_index_markdown(playlists, filenames),
        Format::Html => generate_index_html(playlists, filenames),
    }
}

/// Renders every document of a collection: one page per playlist, in order,
/// and the index over the pages' file names.
pub fn render_site(root: &Root, format: Format) -> (site: Site)
    ensures
        site@ == site_of(root@, format),
{
    let ghost views = root@;
    let mut pages: Vec<Page> = Vec::new();
    let mut names: Vec<String> = Vec::new();
    let mut i: usize = 0;
    while i < root.playlists.len()
        invariant
            i <= root.playlists.len(),
            views == playlist_views(root.playlists@),
            pages@.len() == i,
            names@.len() == i,
            forall|j: int| 0 <= j < i ==> (#[trigger] pages@[j])@ == playlist_page(views[j], format),
            forall|j: int| 0 <= j < i ==> (#[trigger] names@[j])@ == file_name(views[j].name, format),
        decreases root.playlists.len() - i,
    {
        let playlist = &root.playlists[i];
        let name = playlist_file_name(playlist.name.as_str(), format);
        let content = render_playlist(playlist, format);
        names.push(name.clone());
        pages.push(Page { file_name: name, content });
        i += 1;
    }
    let index = Page {
        file_name: format.index_name(),
        content: render_index(root.playlists.as_slice(), names.as_slice(), format),
    };
    proof {
        assert(texts(names@) == page_file_names(views, format));
    }
    let site = Site { pages, index };
    proof {
        assert(site@.pages == site_of(views, format).pages);
    }
    site
}

/// What is rendered of a playlist depends on its view alone: playlists that
/// agree on name, dates, follower count and tracks have the same document,
/// character for character, whatever else they carry. In particular
/// rendering one playlist twice gives the same text.
pub proof fn lemma_document_is_determined(a: Playlist, b: Playlist, format: Format)
    requires
        a@ == b@,
    ensures
        playlist_document(a@, format) == playlist_document(b@, format),
        playlist_page(a@, format) == playlist_page(b@, format),
{
}

/// The index depends on the playlists' views and the file names' texts
/// alone.
pub proof fn lemma_index_is_determined(
    a: Seq<Playlist>,
    a_names: Seq<String>,
    b: Seq<Playlist>,
    b_names: Seq<String>,
    format: Format,
)
    requires
        playlist_views(a) == playlist_views(b),
        texts(a_names) == texts(b_names),
    ensures
        index_document(playlist_views(a), texts(a_names), format) == index_document(
            playlist_views(b),
            texts(b_names),
            format,
        ),
{
}

/// Collections that agree on the views of their playlists have the same
/// site: the same pages under the same names and the same index.
pub proof fn lemma_site_is_determined(a: Root, b: Root, format: Format)
    requires
        a@ == b@,
    ensures
        site_of(a@, format) == site_of(b@, format),
{
}

} // verus!
