//! Track snapshots, and the status text made from one.
use vstd::prelude::*;

verus! {

/// The abstract value of a track: its artist and its title.
pub type TrackView = (Seq<char>, Seq<char>);

/// The track that is playing now, as an artist and a title.
///
/// Two snapshots denote the same track when both fields are equal, exactly
/// and with case kept.
#[derive(Debug)]
pub struct TrackInfo {
    pub artist: String,
    pub title: String,
}

impl View for TrackInfo {
    type V = TrackView;

    open spec fn view(&self) -> TrackView {
        (self.artist@, self.title@)
    }
}

impl PartialEq for TrackInfo {
    fn eq(&self, other: &TrackInfo) -> (r: bool) {
        self.artist == other.artist && self.title == other.title
    }
}

impl vstd::std_specs::cmp::PartialEqSpecImpl for TrackInfo {
    open spec fn obeys_eq_spec() -> bool {
        true
    }

    open spec fn eq_spec(&self, other: &TrackInfo) -> bool {
        self@ == other@
    }
}

impl Eq for TrackInfo {}

impl TrackInfo {
    pub fn new(artist: String, title: String) -> (r: TrackInfo)
        ensures
            r.artist@ == artist@,
            r.title@ == title@,
    {
        TrackInfo { artist, title }
    }
}

/// The abstract value of an optional snapshot.
pub open spec fn snapshot_view(t: Option<TrackInfo>) -> Option<TrackView> {
    match t {
        Some(t) => Some(t@),
        None => None,
    }
}

/// The abstract value of an optional text.
pub open spec fn text_view(t: Option<String>) -> Option<Seq<char>> {
    match t {
        Some(s) => Some(s@),
        None => None,
    }
}

/// `s` with every match of the non-empty pattern `from` replaced by `to`:
/// matches are taken from the left and do not overlap.
pub open spec fn replacement(s: Seq<char>, from: Seq<char>, to: Seq<char>) -> Seq<char>
    recommends
        from.len() > 0,
    decreases s.len(),
{
    if from.len() == 0 || s.len() < from.len() {
        s
    } else if s.subrange(0, from.len() as int) == from {
        to + replacement(s.subrange(from.len() as int, s.len() as int), from, to)
    } else {
        seq![s[0]] + replacement(s.drop_first(), from, to)
    }
}

/// Relies on `str::replace`: every non-overlapping match of `from`, found
/// from the left, is replaced by `to`.
#[verifier::external_body]
fn replace_all(s: &str, from: &str, to: &str) -> (r: String)
    requires
        from@.len() > 0,
    ensures
        r@ == replacement(s@, from@, to@),
{
    s.replace(from, to)
}

/// The status text for a track: `%ARTIST%` in the template becomes the
/// artist, then `%NAME%` becomes the title.
pub open spec fn rendered(template: Seq<char>, track: TrackView) -> Seq<char> {
    replacement(replacement(template, "%ARTIST%"@, track.0), "%NAME%"@, track.1)
}

/// Renders the status text for `track` from `template`.
pub fn render_status(template: &str, track: &TrackInfo) -> (r: String)
    ensures
        r@ == rendered(template@, track@),
{
    proof {
        reveal_strlit("%ARTIST%");
        reveal_strlit("%NAME%");
    }
    let with_artist = replace_all(template, "%ARTIST%", track.artist.as_str());
    replace_all(with_artist.as_str(), "%NAME%", track.title.as_str())
}

} // verus!
