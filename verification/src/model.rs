//! The data model: a collection of playlists, each an ordered list of items.
//!
//! Every type has a view that keeps exactly what the renderers read. Fields
//! that are only carried along (collaborators, description and the
//! alternative item kinds) are opaque JSON values and do not appear in a view.

use vstd::prelude::*;

verus! {

/// `serde_json::Value`, carried through unread. Nothing in the library looks
/// inside one.
#[verifier::external_type_specification]
#[verifier::external_body]
pub struct ExJsonValue(serde_json::Value);

/// `Clone` of `serde_json::Value`, which the derived `Clone` of `Item` and
/// `Playlist` calls. Nothing is claimed of the copy.
pub assume_specification[ <serde_json::Value as Clone>::clone ](
    value: &serde_json::Value,
) -> serde_json::Value;

/// What is rendered of a track.
pub struct TrackView {
    pub track_name: Seq<char>,
    pub artist_name: Seq<char>,
    pub album_name: Seq<char>,
    pub track_uri: Seq<char>,
}

/// What is rendered of a playlist entry.
pub struct ItemView {
    pub track: TrackView,
    pub added_date: Seq<char>,
}

/// What is rendered of a playlist.
pub struct PlaylistView {
    pub name: Seq<char>,
    pub last_modified_date: Seq<char>,
    pub items: Seq<ItemView>,
    pub number_of_followers: int,
}

#[derive(Default, Debug, Clone, PartialEq)]
pub struct Track {
    pub track_name: String,
    pub artist_name: String,
    pub album_name: String,
    pub track_uri: String,
}

#[derive(Default, Debug, Clone, PartialEq)]
pub struct Item {
    pub track: Track,
    pub episode: serde_json::Value,
    pub audiobook: serde_json::Value,
    pub local_track: serde_json::Value,
    pub added_date: String,
}

#[derive(Default, Debug, Clone, PartialEq)]
pub struct Playlist {
    pub name: String,
    pub last_modified_date: String,
    pub collaborators: Vec<serde_json::Value>,
    pub items: Vec<Item>,
    pub description: serde_json::Value,
    pub number_of_followers: i64,
}

#[derive(Default, Debug, Clone, PartialEq)]
pub struct Root {
    pub playlists: Vec<Playlist>,
}

impl View for Track {
    type V = TrackView;

    open spec fn view(&self) -> TrackView {
        TrackView {
            track_name: self.track_name@,
            artist_name: self.artist_name@,
            album_name: self.album_name@,
            track_uri: self.track_uri@,
        }
    }
}

impl View for Item {
    type V = ItemView;

    open spec fn view(&self) -> ItemView {
        ItemView { track: self.track@, added_date: self.added_date@ }
    }
}

/// The views of a sequence of items, in order.
pub open spec fn item_views(items: Seq<Item>) -> Seq<ItemView> {
    Seq::new(items.len(), |i: int| items[i]@)
}

impl View for Playlist {
    type V = PlaylistView;

    open spec fn view(&self) -> PlaylistView {
        PlaylistView {
            name: self.name@,
            last_modified_date: self.last_modified_date@,
            items: item_views(self.items@),
            number_of_followers: self.number_of_followers as int,
        }
    }
}

/// The views of a sequence of playlists, in order.
pub open spec fn playlist_views(playlists: Seq<Playlist>) -> Seq<PlaylistView> {
    Seq::new(playlists.len(), |i: int| playlists[i]@)
}

impl View for Root {
    type V = Seq<PlaylistView>;

    open spec fn view(&self) -> Seq<PlaylistView> {
        playlist_views(self.playlists@)
    }
}

/// How many pairs two sequences of these lengths give, position by position.
pub open spec fn paired(playlists: nat, file_names: nat) -> int {
    if playlists <= file_names {
        playlists as int
    } else {
        file_names as int
    }
}

/// The number of items in all the playlists together.
pub open spec fn total_tracks(playlists: Seq<PlaylistView>) -> int
    decreases playlists.len(),
{
    if playlists.len() == 0 {
        0
    } else {
        total_tracks(playlists.drop_last()) + playlists.last().items.len()
    }
}

/// The total over two collections put together is the sum of their totals.
pub proof fn lemma_total_tracks_concat(a: Seq<PlaylistView>, b: Seq<PlaylistView>)
    ensures
        total_tracks(a + b) == total_tracks(a) + total_tracks(b),
    decreases b.len(),
{
    if b.len() == 0 {
        assert(a + b == a);
    } else {
        assert((a + b).drop_last() == a + b.drop_last());
        lemma_total_tracks_concat(a, b.drop_last());
    }
}

/// Counts the items in all the playlists together. The sum is kept in 128
/// bits, which no number of playlists can exceed.
pub fn count_tracks(playlists: &[Playlist]) -> (total: u128)
    ensures
        total == total_tracks(playlist_views(playlists@)),
{
    let ghost views = playlist_views(playlists@);
    let mut total: u128 = 0;
    let mut i: usize = 0;
    while i < playlists.len()
        invariant
            i <= playlists.len(),
            views == playlist_views(playlists@),
            total == total_tracks(views.take(i as int)),
            total <= i * usize::MAX,
        decreases playlists.len() - i,
    {
        let count = playlists[i].items.len();
        proof {
            assert(views.take(i + 1).drop_last() == views.take(i as int));
            assert(views.take(i + 1).last() == playlists@[i as int]@);
            assert(i * usize::MAX + usize::MAX == (i + 1) * usize::MAX) by (nonlinear_arith);
            assert((i + 1) * usize::MAX <= 0xffff_ffff_ffff_ffff * 0xffff_ffff_ffff_ffff)
                by (nonlinear_arith)
                requires
                    0 <= i + 1 <= 0xffff_ffff_ffff_ffff,
                    0 <= usize::MAX <= 0xffff_ffff_ffff_ffff,
            ;
        }
        total = total + count as u128;
        i += 1;
    }
    proof {
        assert(views.take(playlists@.len() as int) == views);
    }
    total
}

} // verus!
