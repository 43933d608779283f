//! Track metadata and the normalized "artists - title" identity built from it.
use vstd::prelude::*;
use vstd::string::*;

verus! {

/// Separator placed between consecutive artist names.
pub const ARTIST_SEPARATOR: &'static str = ", ";

/// Separator placed between the artist list and the title.
pub const TITLE_SEPARATOR: &'static str = " - ";

/// Placeholder used for a missing title and for a missing or empty artist list.
pub const UNKNOWN: &'static str = "Unknown";

/// What a player reports about its current track: an optional title and an
/// optional ordered list of artist names.
pub struct TrackMetadata {
    pub title: Option<String>,
    pub artists: Option<Vec<String>>,
}

/// Mathematical view of [`TrackMetadata`].
pub struct TrackMetadataView {
    pub title: Option<Seq<char>>,
    pub artists: Option<Seq<Seq<char>>>,
}

impl View for TrackMetadata {
    type V = TrackMetadataView;

    open spec fn view(&self) -> TrackMetadataView {
        TrackMetadataView {
            title: match self.title {
                Some(t) => Some(t@),
                None => None,
            },
            artists: match self.artists {
                Some(a) => Some(a@.map_values(|s: String| s@)),
                None => None,
            },
        }
    }
}

/// `parts[0] + sep + parts[1] + sep + ... + parts[n-1]`; empty for no parts.
pub open spec fn join(parts: Seq<Seq<char>>, sep: Seq<char>) -> Seq<char>
    decreases parts.len(),
{
    if parts.len() == 0 {
        Seq::empty()
    } else if parts.len() == 1 {
        parts[0]
    } else {
        join(parts.drop_last(), sep) + sep + parts.last()
    }
}

/// The title as it appears in an identity.
pub open spec fn title_text(title: Option<Seq<char>>) -> Seq<char> {
    match title {
        Some(t) => t,
        None => UNKNOWN@,
    }
}

/// The artist list as it appears in an identity.
pub open spec fn artists_text(artists: Option<Seq<Seq<char>>>) -> Seq<char> {
    match artists {
        Some(a) => if a.len() > 0 {
            join(a, ARTIST_SEPARATOR@)
        } else {
            UNKNOWN@
        },
        None => UNKNOWN@,
    }
}

/// The identity of a track: `"<artist1>, <artist2>, ... - <title>"`.
pub open spec fn identity_of(m: TrackMetadataView) -> Seq<char> {
    artists_text(m.artists) + TITLE_SEPARATOR@ + title_text(m.title)
}

/// With a title and a non-empty artist list, the identity is the artists
/// joined by `", "`, then `" - "`, then the title.
pub proof fn lemma_identity_with_all_fields(title: Seq<char>, artists: Seq<Seq<char>>)
    requires
        artists.len() >= 1,
    ensures
        identity_of(TrackMetadataView { title: Some(title), artists: Some(artists) }) == join(
            artists,
            ", "@,
        ) + " - "@ + title,
{
}

/// Joining `n >= 1` names puts `", "` between each name and the next, and
/// nothing before the first or after the last.
pub proof fn lemma_join_extends(parts: Seq<Seq<char>>, name: Seq<char>)
    ensures
        parts.len() == 0 ==> join(parts.push(name), ", "@) == name,
        parts.len() > 0 ==> join(parts.push(name), ", "@) == join(parts, ", "@) + ", "@ + name,
{
    assert(parts.push(name).drop_last() =~= parts);
}

/// A missing title is shown as `"Unknown"`.
pub proof fn lemma_missing_title(m: TrackMetadataView)
    requires
        m.title is None,
    ensures
        identity_of(m) == artists_text(m.artists) + " - "@ + "Unknown"@,
{
}

/// A missing or empty artist list is shown as exactly `"Unknown"`.
pub proof fn lemma_missing_artists(m: TrackMetadataView)
    requires
        m.artists is None || m.artists.unwrap().len() == 0,
    ensures
        artists_text(m.artists) == "Unknown"@,
        identity_of(m) == "Unknown"@ + " - "@ + title_text(m.title),
{
}

/// Formats the identity string of a track.
pub fn format_identity(meta: &TrackMetadata) -> (r: String)
    ensures
        r@ == identity_of(meta@),
{
    let mut out = String::new();
    match &meta.artists {
        Some(artists) => {
            if artists.len() == 0 {
                out.append(UNKNOWN);
            } else {
                let ghost parts = artists@.map_values(|s: String| s@);
                let mut i: usize = 0;
                while i < artists.len()
                    invariant
                        parts == artists@.map_values(|s: String| s@),
                        0 <= i <= artists.len(),
                        out@ == join(parts.take(i as int), ARTIST_SEPARATOR@),
                    decreases artists.len() - i,
                {
                    if i > 0 {
                        out.append(ARTIST_SEPARATOR);
                    }
                    out.append(artists[i].as_str());
                    assert(parts.take(i + 1).drop_last() =~= parts.take(i as int));
                    i = i + 1;
                }
                assert(parts.take(i as int) =~= parts);
            }
        },
        None => {
            out.append(UNKNOWN);
        },
    }
    out.append(TITLE_SEPARATOR);
    match &meta.title {
        Some(t) => {
            out.append(t.as_str());
        },
        None => {
            out.append(UNKNOWN);
        },
    }
    out
}

} // verus!
