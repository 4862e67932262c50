//! Markdown documents: one per playlist and the index.
//!
//! In a track row the track, artist and album names go through
//! `escape_markdown`. All other user text (playlist name, dates, URIs, file
//! names) is inserted as it is.

use vstd::prelude::*;
use crate::escape::{
    escape_markdown, escaped_markdown, lemma_escaped_markdown_safe, markdown_safe,
};
use crate::model::{
    count_tracks, item_views, paired, playlist_views, total_tracks, Item, ItemView, Playlist,
    PlaylistView,
};
use crate::text::{decimal, signed_decimal, texts, unsigned_decimal};

verus! {

/// The title line of a playlist document and the link back to the index.
pub open spec fn markdown_title(name: Seq<char>) -> Seq<char> {
    "# "@ + name + "\n\n"@ + "[← Back to Index](index.md)\n\n"@
}

/// The metadata list of a playlist document: last-modified value, follower
/// count and number of items.
pub open spec fn markdown_metadata(playlist: PlaylistView) -> Seq<char> {
    "## Playlist Information\n\n"@ + "- **Last Modified:** "@ + playlist.last_modified_date
        + "\n"@ + "- **Followers:** "@ + decimal(playlist.number_of_followers) + "\n"@
        + "- **Total Tracks:** "@ + decimal(playlist.items.len() as int) + "\n\n"@
}

/// The table row of one item, which is the `number`-th of its playlist.
pub open spec fn markdown_track_row(number: int, item: ItemView) -> Seq<char> {
    "| "@ + decimal(number) + " | ["@ + escaped_markdown(item.track.track_name) + "]("@
        + item.track.track_uri + ") | "@ + escaped_markdown(item.track.artist_name) + " | "@
        + escaped_markdown(item.track.album_name) + " | "@ + item.added_date + " |\n"@
}

/// The rows of `items` in order, numbered from 1.
pub open spec fn markdown_track_rows(items: Seq<ItemView>) -> Seq<char>
    decreases items.len(),
{
    if items.len() == 0 {
        Seq::empty()
    } else {
        markdown_track_rows(items.drop_last()) + markdown_track_row(
            items.len() as int,
            items.last(),
        )
    }
}

/// The track section of a playlist document: nothing for a playlist without
/// items, else the heading, the column titles and the rows.
pub open spec fn markdown_track_table(items: Seq<ItemView>) -> Seq<char> {
    if items.len() == 0 {
        Seq::empty()
    } else {
        "## Tracks\n\n"@ + "| # | Track Name | Artist | Album | Added Date |\n"@
            + "|---|------------|--------|-------|------------|\n"@ + markdown_track_rows(items)
    }
}

/// The two links that end a playlist document.
pub open spec fn markdown_footer() -> Seq<char> {
    "\n[↑ Back to Top](#)\n\n"@ + "[← Back to Index](index.md)\n"@
}

/// The document of one playlist.
pub open spec fn markdown_document(playlist: PlaylistView) -> Seq<char> {
    markdown_title(playlist.name) + markdown_metadata(playlist) + markdown_track_table(
        playlist.items,
    ) + markdown_footer()
}

/// The list entry of one playlist in the index; it links to `file_name`.
pub open spec fn markdown_index_entry(playlist: PlaylistView, file_name: Seq<char>) -> Seq<char> {
    "- [**"@ + playlist.name + "**]("@ + file_name + ") - "@ + decimal(
        playlist.items.len() as int,
    ) + " tracks, "@ + decimal(playlist.number_of_followers) + " followers\n"@
}

/// The entries of the first `count` playlists, each with the file name at
/// its own position.
pub open spec fn markdown_index_entries(
    playlists: Seq<PlaylistView>,
    file_names: Seq<Seq<char>>,
    count: int,
) -> Seq<char>
    decreases count,
{
    if count <= 0 {
        Seq::empty()
    } else {
        markdown_index_entries(playlists, file_names, count - 1) + markdown_index_entry(
            playlists[count - 1],
            file_names[count - 1],
        )
    }
}

/// The index document. The totals count every playlist; the list pairs each
/// playlist with the file name at its position and stops where the shorter
/// of the two sequences ends.
pub open spec fn markdown_index(playlists: Seq<PlaylistView>, file_names: Seq<Seq<char>>) -> Seq<
    char,
> {
    "# My Spotify Playlists\n\n"@ + "**Total Playlists:** "@ + decimal(playlists.len() as int)
        + "\n\n"@ + "**Total Tracks:** "@ + decimal(total_tracks(playlists)) + "\n\n"@
        + "## Playlists\n\n"@ + markdown_index_entries(
        playlists,
        file_names,
        paired(playlists.len(), file_names.len()),
    )
}

fn title(name: &str) -> (r: String)
    ensures
        r@ == markdown_title(name@),
{
    let mut out = String::from_str("# ");
    out.append(name);
    out.append("\n\n");
    out.append("[← Back to Index](index.md)\n\n");
    out
}

fn metadata(playlist: &Playlist) -> (r: String)
    ensures
        r@ == markdown_metadata(playlist@),
{
    let mut out = String::from_str("## Playlist Information\n\n");
    out.append("- **Last Modified:** ");
    out.append(playlist.last_modified_date.as_str());
    out.append("\n");
    out.append("- **Followers:** ");
    out.append(signed_decimal(playlist.number_of_followers).as_str());
    out.append("\n");
    out.append("- **Total Tracks:** ");
    out.append(unsigned_decimal(playlist.items.len() as u128).as_str());
    out.append("\n\n");
    out
}

fn track_row(number: usize, item: &Item) -> (r: String)
    ensures
        r@ == markdown_track_row(number as int, item@),
{
    let mut out = String::from_str("| ");
    out.append(unsigned_decimal(number as u128).as_str());
    out.append(" | [");
    out.append(escape_markdown(item.track.track_name.as_str()).as_str());
    out.append("](");
    out.append(item.track.track_uri.as_str());
    out.append(") | ");
    out.append(escape_markdown(item.track.artist_name.as_str()).as_str());
    out.append(" | ");
    out.append(escape_markdown(item.track.album_name.as_str()).as_str());
    out.append(" | ");
    out.append(item.added_date.as_str());
    out.append(" |\n");
    out
}

fn track_table(items: &Vec<Item>) -> (r: String)
    ensures
        r@ == markdown_track_table(item_views(items@)),
{
    let ghost views = item_views(items@);
    if items.len() == 0 {
        return String::new();
    }
    let mut rows = String::new();
    let mut i: usize = 0;
    while i < items.len()
        invariant
            i <= items.len(),
            views == item_views(items@),
            rows@ == markdown_track_rows(views.take(i as int)),
        decreases items.len() - i,
    {
        let row = track_row(i + 1, &items[i]);
        proof {
            assert(views.take(i + 1).drop_last() == views.take(i as int));
            assert(views.take(i + 1).last() == items@[i as int]@);
        }
        rows.append(row.as_str());
        i += 1;
    }
    proof {
        assert(views.take(items@.len() as int) == views);
    }
    let mut out = String::from_str("## Tracks\n\n");
    out.append("| # | Track Name | Artist | Album | Added Date |\n");
    out.append("|---|------------|--------|-------|------------|\n");
    out.append(rows.as_str());
    out
}

fn footer() -> (r: String)
    ensures
        r@ == markdown_footer(),
{
    let mut out = String::from_str("\n[↑ Back to Top](#)\n\n");
    out.append("[← Back to Index](index.md)\n");
    out
}

/// Renders the document of one playlist.
pub fn generate_markdown(playlist: &Playlist) -> (r: String)
    ensures
        r@ == markdown_document(playlist@),
{
    let mut out = title(playlist.name.as_str());
    out.append(metadata(playlist).as_str());
    out.append(track_table(&playlist.items).as_str());
    out.append(footer().as_str());
    out
}

fn index_entry(playlist: &Playlist, file_name: &str) -> (r: String)
    ensures
        r@ == markdown_index_entry(playlist@, file_name@),
{
    let mut out = String::from_str("- [**");
    out.append(playlist.name.as_str());
    out.append("**](");
    out.append(file_name);
    out.append(") - ");
    out.append(unsigned_decimal(playlist.items.len() as u128).as_str());
    out.append(" tracks, ");
    out.append(signed_decimal(playlist.number_of_followers).as_str());
    out.append(" followers\n");
    out
}

/// Renders the index document for `playlists`, where `filenames[i]` is the
/// file of `playlists[i]`.
///
/// Callers pass one file name per playlist. With sequences of different
/// lengths the list holds the pairs up to the end of the shorter one, while
/// the totals still count every playlist.
pub fn generate_index_markdown(playlists: &[Playlist], filenames: &[String]) -> (r: String)
    ensures
        r@ == markdown_index(playlist_views(playlists@), texts(filenames@)),
{
    let ghost views = playlist_views(playlists@);
    let ghost names = texts(filenames@);
    let count = if playlists.len() <= filenames.len() {
        playlists.len()
    } else {
        filenames.len()
    };
    let mut entries = String::new();
    let mut i: usize = 0;
    while i < count
        invariant
            i <= count,
            count <= playlists.len(),
            count <= filenames.len(),
            views == playlist_views(playlists@),
            names == texts(filenames@),
            entries@ == markdown_index_entries(views, names, i as int),
        decreases count - i,
    {
        let entry = index_entry(&playlists[i], filenames[i].as_str());
        entries.append(entry.as_str());
        i += 1;
    }
    let mut out = String::from_str("# My Spotify Playlists\n\n");
    out.append("**Total Playlists:** ");
    out.append(unsigned_decimal(playlists.len() as u128).as_str());
    out.append("\n\n");
    out.append("**Total Tracks:** ");
    out.append(unsigned_decimal(count_tracks(playlists)).as_str());
    out.append("\n\n");
    out.append("## Playlists\n\n");
    out.append(entries.as_str());
    out
}

/// In a track row the track, artist and album names stand escaped: whatever
/// the names hold, each `|`, `[` and `]` of their cells follows a backslash.
pub proof fn lemma_track_row_names_are_escaped(number: int, item: ItemView)
    ensures
        ({
            let name = escaped_markdown(item.track.track_name);
            let artist = escaped_markdown(item.track.artist_name);
            let album = escaped_markdown(item.track.album_name);
            &&& markdown_safe(name)
            &&& markdown_safe(artist)
            &&& markdown_safe(album)
            &&& markdown_track_row(number, item) == "| "@ + decimal(number) + " | ["@ + name
                + "]("@ + item.track.track_uri + ") | "@ + artist + " | "@ + album + " | "@
                + item.added_date + " |\n"@
        }),
{
    lemma_escaped_markdown_safe(item.track.track_name);
    lemma_escaped_markdown_safe(item.track.artist_name);
    lemma_escaped_markdown_safe(item.track.album_name);
}

/// The document of a playlist without items has no track section: it is the
/// title, the metadata with a track count of zero, and the closing links.
pub proof fn lemma_markdown_without_items(playlist: PlaylistView)
    requires
        playlist.items.len() == 0,
    ensures
        markdown_track_table(playlist.items) == Seq::<char>::empty(),
        markdown_document(playlist) == markdown_title(playlist.name) + markdown_metadata(playlist)
            + markdown_footer(),
        markdown_metadata(playlist) == "## Playlist Information\n\n"@ + "- **Last Modified:** "@
            + playlist.last_modified_date + "\n"@ + "- **Followers:** "@ + decimal(
            playlist.number_of_followers,
        ) + "\n"@ + "- **Total Tracks:** "@ + decimal(0) + "\n\n"@,
{
    let head = markdown_title(playlist.name) + markdown_metadata(playlist);
    assert(head + Seq::<char>::empty() == head);
}

} // verus!
