//! HTML documents: one page per playlist and the index page.
//!
//! Every page is self-contained. A playlist page links back to the index
//! twice, above its title and below its track section. User text goes through `escape_html` before
//! it is inserted; the one exception is a track's URI, which becomes the
//! target of the track's link as it is. A URI that holds a quotation mark
//! therefore ends the attribute early: whoever renders exports from an
//! unknown source has to vet the URIs first.

use vstd::prelude::*;
use crate::escape::{escape_html, escaped_html, html_safe, lemma_escaped_html_safe};
use crate::model::{
    count_tracks, item_views, paired, playlist_views, total_tracks, Item, ItemView, Playlist,
    PlaylistView,
};
use crate::styles::{get_common_styles, COMMON_STYLES, INDEX_PAGE_STYLES, PLAYLIST_PAGE_STYLES};
use crate::text::{decimal, signed_decimal, texts, unsigned_decimal};

verus! {

/// The title of the index page.
pub const INDEX_TITLE: &'static str = "My Spotify Playlists";

/// A page from its first line to the opening of the container: the title
/// element holds `title`, the style block holds the shared rules followed by
/// `page_styles`.
pub open spec fn html_page_open(title: Seq<char>, page_styles: Seq<char>) -> Seq<char> {
    "<!DOCTYPE html>\n<html lang=\"en\">\n<head>\n"@ + "    <meta charset=\"UTF-8\">\n"@
        + "    <meta name=\"viewport\" content=\"width=device-width, initial-scale=1.0\">\n"@
        + "    <title>"@ + title + "</title>\n"@ + "    <style>\n"@ + COMMON_STYLES@ + page_styles
        + "    </style>\n"@ + "</head>\n<body>\n"@ + "    <div class=\"container\">\n"@
}

/// The metadata panel of a playlist page: last-modified value, follower
/// count and number of items.
pub open spec fn html_metadata(playlist: PlaylistView) -> Seq<char> {
    "        <div class=\"metadata\">\n"@ + "            <p><strong>Last Modified:</strong> "@
        + escaped_html(playlist.last_modified_date) + "</p>\n"@
        + "            <p><strong>Followers:</strong> "@ + decimal(playlist.number_of_followers)
        + "</p>\n"@ + "            <p><strong>Total Tracks:</strong> "@ + decimal(
        playlist.items.len() as int,
    ) + "</p>\n"@ + "        </div>\n"@
}

/// The table row of one item, which is the `number`-th of its playlist.
pub open spec fn html_track_row(number: int, item: ItemView) -> Seq<char> {
    "                <tr>\n"@ + "                    <td class=\"track-number\">"@ + decimal(number)
        + "</td>\n"@ + "                    <td><a href=\""@ + item.track.track_uri + "\">"@
        + escaped_html(item.track.track_name) + "</a></td>\n"@ + "                    <td>"@
        + escaped_html(item.track.artist_name) + "</td>\n"@ + "                    <td>"@
        + escaped_html(item.track.album_name) + "</td>\n"@ + "                    <td>"@
        + escaped_html(item.added_date) + "</td>\n"@ + "                </tr>\n"@
}

/// The rows of `items` in order, numbered from 1.
pub open spec fn html_track_rows(items: Seq<ItemView>) -> Seq<char>
    decreases items.len(),
{
    if items.len() == 0 {
        Seq::empty()
    } else {
        html_track_rows(items.drop_last()) + html_track_row(items.len() as int, items.last())
    }
}

/// The heading and the five column titles that stand above the rows.
pub open spec fn html_track_table_open() -> Seq<char> {
    "        <h2>Tracks</h2>\n"@ + "        <table>\n"@ + "            <thead>\n"@
        + "                <tr>\n"@ + "                    <th class=\"track-number\">#</th>\n"@
        + "                    <th>Track Name</th>\n"@ + "                    <th>Artist</th>\n"@
        + "                    <th>Album</th>\n"@ + "                    <th>Added Date</th>\n"@
        + "                </tr>\n"@ + "            </thead>\n"@ + "            <tbody>\n"@
}

/// The track section of a playlist page: nothing for a playlist without
/// items, else the heading and the table.
pub open spec fn html_track_table(items: Seq<ItemView>) -> Seq<char> {
    if items.len() == 0 {
        Seq::empty()
    } else {
        html_track_table_open() + html_track_rows(items) + "            </tbody>\n"@
            + "        </table>\n"@
    }
}

/// The link back to the index. A playlist page holds it twice: above the
/// title and again below the track section.
pub open spec fn html_index_link() -> Seq<char> {
    "        <a href=\"index.html\" class=\"nav-link\">← Back to Index</a>\n"@
}

/// The end of a playlist page: the second link back to the index, the end
/// of the container, the floating "back to top" anchor and the end of the
/// document.
pub open spec fn html_page_close() -> Seq<char> {
    html_index_link() + "    </div>\n"@ + "    <a href=\"#\" class=\"back-to-top\">↑ Top</a>\n"@
        + "</body>\n</html>"@
}

/// The page of one playlist: the link to the index, the title, the
/// metadata panel, the track section, and the closing part with the second
/// link to the index.
pub open spec fn html_document(playlist: PlaylistView) -> Seq<char> {
    html_page_open(escaped_html(playlist.name), PLAYLIST_PAGE_STYLES@) + html_index_link()
        + "        <h1>"@ + escaped_html(playlist.name) + "</h1>\n"@ + html_metadata(playlist)
        + html_track_table(playlist.items) + html_page_close()
}

/// The two statistics cards of the index page.
pub open spec fn html_index_stats(playlists: int, tracks: int) -> Seq<char> {
    "        <div class=\"stats\">\n"@ + "            <div class=\"stat-card\">\n"@
        + "                <h3>Total Playlists</h3>\n"@ + "                <p>"@ + decimal(playlists)
        + "</p>\n"@ + "            </div>\n"@ + "            <div class=\"stat-card\">\n"@
        + "                <h3>Total Tracks</h3>\n"@ + "                <p>"@ + decimal(tracks)
        + "</p>\n"@ + "            </div>\n"@ + "        </div>\n"@
}

/// The card of one playlist on the index page; it links to `file_name`.
pub open spec fn html_index_card(playlist: PlaylistView, file_name: Seq<char>) -> Seq<char> {
    "            <div class=\"playlist-card\">\n"@ + "                <h3><a href=\""@
        + escaped_html(file_name) + "\">"@ + escaped_html(playlist.name) + "</a></h3>\n"@
        + "                <div class=\"playlist-meta\">\n"@ + "                    "@ + decimal(
        playlist.items.len() as int,
    ) + " tracks<br>\n"@ + "                    "@ + decimal(playlist.number_of_followers)
        + " followers\n"@ + "                </div>\n"@ + "            </div>\n"@
}

/// The cards of the first `count` playlists, each with the file name at its
/// own position.
pub open spec fn html_index_cards(
    playlists: Seq<PlaylistView>,
    file_names: Seq<Seq<char>>,
    count: int,
) -> Seq<char>
    decreases count,
{
    if count <= 0 {
        Seq::empty()
    } else {
        html_index_cards(playlists, file_names, count - 1) + html_index_card(
            playlists[count - 1],
            file_names[count - 1],
        )
    }
}

/// The index page. The statistics count every playlist; the grid pairs each
/// playlist with the file name at its position and stops where the shorter
/// of the two sequences ends.
pub open spec fn html_index(playlists: Seq<PlaylistView>, file_names: Seq<Seq<char>>) -> Seq<
    char,
> {
    html_page_open(INDEX_TITLE@, INDEX_PAGE_STYLES@) + "        <h1>My Spotify Playlists</h1>\n"@
        + html_index_stats(playlists.len() as int, total_tracks(playlists))
        + "        <h2>Playlists</h2>\n"@ + "        <div class=\"playlist-grid\">\n"@
        + html_index_cards(playlists, file_names, paired(playlists.len(), file_names.len()))
        + "        </div>\n"@ + "    </div>\n"@ + "</body>\n</html>"@
}

fn page_open(title: &str, page_styles: &str) -> (r: String)
    ensures
        r@ == html_page_open(title@, page_styles@),
{
    let mut out = String::from_str("<!DOCTYPE html>\n<html lang=\"en\">\n<head>\n");
    out.append("    <meta charset=\"UTF-8\">\n");
    out.append("    <meta name=\"viewport\" content=\"width=device-width, initial-scale=1.0\">\n");
    out.append("    <title>");
    out.append(title);
    out.append("</title>\n");
    out.append("    <style>\n");
    out.append(get_common_styles());
    out.append(page_styles);
    out.append("    </style>\n");
    out.append("</head>\n<body>\n");
    out.append("    <div class=\"container\">\n");
    out
}

fn metadata(playlist: &Playlist) -> (r: String)
    ensures
        r@ == html_metadata(playlist@),
{
    let mut out = String::from_str("        <div class=\"metadata\">\n");
    out.append("            <p><strong>Last Modified:</strong> ");
    out.append(escape_html(playlist.last_modified_date.as_str()).as_str());
    out.append("</p>\n");
    out.append("            <p><strong>Followers:</strong> ");
    out.append(signed_decimal(playlist.number_of_followers).as_str());
    out.append("</p>\n");
    out.append("            <p><strong>Total Tracks:</strong> ");
    out.append(unsigned_decimal(playlist.items.len() as u128).as_str());
    out.append("</p>\n");
    out.append("        </div>\n");
    out
}

fn track_row(number: usize, item: &Item) -> (r: String)
    ensures
        r@ == html_track_row(number as int, item@),
{
    let mut out = String::from_str("                <tr>\n");
    out.append("                    <td class=\"track-number\">");
    out.append(unsigned_decimal(number as u128).as_str());
    out.append("</td>\n");
    out.append("                    <td><a href=\"");
    out.append(item.track.track_uri.as_str());
    out.append("\">");
    out.append(escape_html(item.track.track_name.as_str()).as_str());
    out.append("</a></td>\n");
    out.append("                    <td>");
    out.append(escape_html(item.track.artist_name.as_str()).as_str());
    out.append("</td>\n");
    out.append("                    <td>");
    out.append(escape_html(item.track.album_name.as_str()).as_str());
    out.append("</td>\n");
    out.append("                    <td>");
    out.append(escape_html(item.added_date.as_str()).as_str());
    out.append("</td>\n");
    out.append("                </tr>\n");
    out
}

fn track_table(items: &Vec<Item>) -> (r: String)
    ensures
        r@ == html_track_table(item_views(items@)),
{
    let ghost views = item_views(items@);
    if items.len() == 0 {
        return String::new();
    }
    let mut out = String::from_str("        <h2>Tracks</h2>\n");
    out.append("        <table>\n");
    out.append("            <thead>\n");
    out.append("                <tr>\n");
    out.append("                    <th class=\"track-number\">#</th>\n");
    out.append("                    <th>Track Name</th>\n");
    out.append("                    <th>Artist</th>\n");
    out.append("                    <th>Album</th>\n");
    out.append("                    <th>Added Date</th>\n");
    out.append("                </tr>\n");
    out.append("            </thead>\n");
    out.append("            <tbody>\n");
    let mut rows = String::new();
    let mut i: usize = 0;
    while i < items.len()
        invariant
            i <= items.len(),
            views == item_views(items@),
            rows@ == html_track_rows(views.take(i as int)),
        decreases items.len() - i,
    {
        let row = track_row(i + 1, &items[i]);
        proof {
            assert(views.take(i + 1).drop_last() == views.take(i as int));
            assert(views.take(i + 1).last() == items@[i as int]@);
        }
        rows.append(row.as_str());
        i += 1;
    }
    proof {
        assert(views.take(items@.len() as int) == views);
    }
    out.append(rows.as_str());
    out.append("            </tbody>\n");
    out.append("        </table>\n");
    out
}

fn index_link() -> (r: &'static str)
    ensures
        r@ == html_index_link(),
{
    "        <a href=\"index.html\" class=\"nav-link\">← Back to Index</a>\n"
}

fn page_close() -> (r: String)
    ensures
        r@ == html_page_close(),
{
    let mut out = String::from_str(index_link());
    out.append("    </div>\n");
    out.append("    <a href=\"#\" class=\"back-to-top\">↑ Top</a>\n");
    out.append("</body>\n</html>");
    out
}

/// Renders the page of one playlist.
pub fn generate_html(playlist: &Playlist) -> (r: String)
    ensures
        r@ == html_document(playlist@),
{
    let name = escape_html(playlist.name.as_str());
    let mut out = page_open(name.as_str(), PLAYLIST_PAGE_STYLES);
    out.append(index_link());
    out.append("        <h1>");
    out.append(name.as_str());
    out.append("</h1>\n");
    out.append(metadata(playlist).as_str());
    out.append(track_table(&playlist.items).as_str());
    out.append(page_close().as_str());
    out
}

fn index_stats(playlists: usize, tracks: u128) -> (r: String)
    ensures
        r@ == html_index_stats(playlists as int, tracks as int),
{
    let mut out = String::from_str("        <div class=\"stats\">\n");
    out.append("            <div class=\"stat-card\">\n");
    out.append("                <h3>Total Playlists</h3>\n");
    out.append("                <p>");
    out.append(unsigned_decimal(playlists as u128).as_str());
    out.append("</p>\n");
    out.append("            </div>\n");
    out.append("            <div class=\"stat-card\">\n");
    out.append("                <h3>Total Tracks</h3>\n");
    out.append("                <p>");
    out.append(unsigned_decimal(tracks).as_str());
    out.append("</p>\n");
    out.append("            </div>\n");
    out.append("        </div>\n");
    out
}

fn index_card(playlist: &Playlist, file_name: &str) -> (r: String)
    ensures
        r@ == html_index_card(playlist@, file_name@),
{
    let mut out = String::from_str("            <div class=\"playlist-card\">\n");
    out.append("                <h3><a href=\"");
    out.append(escape_html(file_name).as_str());
    out.append("\">");
    out.append(escape_html(playlist.name.as_str()).as_str());
    out.append("</a></h3>\n");
    out.append("                <div class=\"playlist-meta\">\n");
    out.append("                    ");
    out.append(unsigned_decimal(playlist.items.len() as u128).as_str());
    out.append(" tracks<br>\n");
    out.append("                    ");
    out.append(signed_decimal(playlist.number_of_followers).as_str());
    out.append(" followers\n");
    out.append("                </div>\n");
    out.append("            </div>\n");
    out
}

/// Renders the index page for `playlists`, where `filenames[i]` is the file
/// of `playlists[i]`.
///
/// Callers pass one file name per playlist. With sequences of different
/// lengths the grid holds the pairs up to the end of the shorter one, while
/// the statistics still count every playlist.
pub fn generate_index_html(playlists: &[Playlist], filenames: &[String]) -> (r: String)
    ensures
        r@ == html_index(playlist_views(playlists@), texts(filenames@)),
{
    let ghost views = playlist_views(playlists@);
    let ghost names = texts(filenames@);
    let count = if playlists.len() <= filenames.len() {
        playlists.len()
    } else {
        filenames.len()
    };
    let mut cards = String::new();
    let mut i: usize = 0;
    while i < count
        invariant
            i <= count,
            count <= playlists.len(),
            count <= filenames.len(),
            views == playlist_views(playlists@),
            names == texts(filenames@),
            cards@ == html_index_cards(views, names, i as int),
        decreases count - i,
    {
        let card = index_card(&playlists[i], filenames[i].as_str());
        cards.append(card.as_str());
        i += 1;
    }
    let mut out = page_open(INDEX_TITLE, INDEX_PAGE_STYLES);
    out.append("        <h1>My Spotify Playlists</h1>\n");
    out.append(index_stats(playlists.len(), count_tracks(playlists)).as_str());
    out.append("        <h2>Playlists</h2>\n");
    out.append("        <div class=\"playlist-grid\">\n");
    out.append(cards.as_str());
    out.append("        </div>\n");
    out.append("    </div>\n");
    out.append("</body>\n</html>");
    out
}

/// In a track row every text cell stands escaped: whatever the item holds,
/// the cells of its names and of its date are free of raw special
/// characters. The link target alone is the URI as it is.
pub proof fn lemma_track_row_texts_are_escaped(number: int, item: ItemView)
    ensures
        ({
            let name = escaped_html(item.track.track_name);
            let artist = escaped_html(item.track.artist_name);
            let album = escaped_html(item.track.album_name);
            let added = escaped_html(item.added_date);
            &&& html_safe(name)
            &&& html_safe(artist)
            &&& html_safe(album)
            &&& html_safe(added)
            &&& html_track_row(number, item) == "                <tr>\n"@
                + "                    <td class=\"track-number\">"@ + decimal(number) + "</td>\n"@
                + "                    <td><a href=\""@ + item.track.track_uri + "\">"@ + name
                + "</a></td>\n"@ + "                    <td>"@ + artist + "</td>\n"@
                + "                    <td>"@ + album + "</td>\n"@ + "                    <td>"@
                + added + "</td>\n"@ + "                </tr>\n"@
        }),
{
    lemma_escaped_html_safe(item.track.track_name);
    lemma_escaped_html_safe(item.track.artist_name);
    lemma_escaped_html_safe(item.track.album_name);
    lemma_escaped_html_safe(item.added_date);
}

/// The page of a playlist without items has no track section: the metadata
/// panel, with a track count of zero, is followed at once by the second link
/// to the index and the end of the page.
pub proof fn lemma_html_without_items(playlist: PlaylistView)
    requires
        playlist.items.len() == 0,
    ensures
        html_track_table(playlist.items) == Seq::<char>::empty(),
        html_document(playlist) == html_page_open(
            escaped_html(playlist.name),
            PLAYLIST_PAGE_STYLES@,
        ) + html_index_link() + "        <h1>"@ + escaped_html(playlist.name) + "</h1>\n"@
            + html_metadata(playlist) + html_page_close(),
        html_metadata(playlist) == "        <div class=\"metadata\">\n"@
            + "            <p><strong>Last Modified:</strong> "@ + escaped_html(
            playlist.last_modified_date,
        ) + "</p>\n"@ + "            <p><strong>Followers:</strong> "@ + decimal(
            playlist.number_of_followers,
        ) + "</p>\n"@ + "            <p><strong>Total Tracks:</strong> "@ + decimal(0) + "</p>\n"@
            + "        </div>\n"@,
{
    let head = html_page_open(escaped_html(playlist.name), PLAYLIST_PAGE_STYLES@)
        + html_index_link() + "        <h1>"@ + escaped_html(playlist.name) + "</h1>\n"@
        + html_metadata(playlist);
    assert(head + Seq::<char>::empty() == head);
}

/// Every playlist page links to the index twice, whatever the playlist
/// holds: once between the opening of the page and the title, and once
/// after the track section, before the container ends.
pub proof fn lemma_html_document_links_index_twice(playlist: PlaylistView)
    ensures
        ({
            let above = html_page_open(escaped_html(playlist.name), PLAYLIST_PAGE_STYLES@);
            let between = "        <h1>"@ + escaped_html(playlist.name) + "</h1>\n"@
                + html_metadata(playlist) + html_track_table(playlist.items);
            let below = "    </div>\n"@ + "    <a href=\"#\" class=\"back-to-top\">↑ Top</a>\n"@
                + "</body>\n</html>"@;
            html_document(playlist) == above + html_index_link() + between + html_index_link()
                + below
        }),
{
    let above = html_page_open(escaped_html(playlist.name), PLAYLIST_PAGE_STYLES@);
    let between = "        <h1>"@ + escaped_html(playlist.name) + "</h1>\n"@ + html_metadata(
        playlist,
    ) + html_track_table(playlist.items);
    let below = "    </div>\n"@ + "    <a href=\"#\" class=\"back-to-top\">↑ Top</a>\n"@
        + "</body>\n</html>"@;
    assert(html_document(playlist) =~= above + html_index_link() + between + html_index_link()
        + below);
}

} // verus!
