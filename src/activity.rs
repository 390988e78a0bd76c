//! The rich-presence activity that a snapshot is shown as.

use vstd::prelude::*;
use crate::media::{div_toward_zero, Media};

verus! {

/// The activity type "listening".
pub const LISTENING: usize = 2;

/// The status display type that shows the activity's state.
pub const STATUS_DISPLAY_STATE: u8 = 1;

/// Start and end of the activity, in milliseconds since the Unix epoch.
#[derive(Debug, Clone)]
pub struct ActivityTimestamps {
    pub start: Option<i128>,
    pub end: Option<i128>,
}

/// Images of the activity.
#[derive(Debug, Clone)]
pub struct ActivityAssets {
    pub large_image: Option<String>,
    pub large_text: Option<String>,
    pub large_url: Option<String>,
    pub small_image: Option<String>,
    pub small_text: Option<String>,
    pub small_url: Option<String>,
}

/// An activity as the presence server takes it. `None` fields are left out
/// of the JSON.
#[derive(Debug, Clone)]
pub struct Activity {
    pub name: Option<String>,
    pub kind: usize,
    pub url: Option<String>,
    pub created_at: usize,
    pub timestamps: Option<ActivityTimestamps>,
    pub application_id: Option<String>,
    pub details: Option<String>,
    pub state: Option<String>,
    pub assets: Option<ActivityAssets>,
    pub status_display_type: Option<u8>,
}

/// Whole milliseconds of `nanos`, rounded toward zero.
pub fn millis(nanos: i128) -> (r: i128)
    ensures
        r == div_toward_zero(nanos as int, 1_000_000),
{
    if nanos >= 0 {
        nanos / 1_000_000
    } else {
        let p = -(nanos + 1);
        let q = p / 1_000_000;
        let carry: i128 = if p % 1_000_000 == 999_999 {
            1
        } else {
            0
        };
        assert(p + 1 == -nanos);
        assert((p + 1) / 1_000_000 == q + carry) by {
            assert(p == q * 1_000_000 + p % 1_000_000);
        }
        -q - carry
    }
}

/// The address of the artwork with digest `hash` under `public_url`.
pub open spec fn artwork_url(public_url: Seq<char>, hash: Seq<char>) -> Seq<char> {
    public_url + "/"@ + hash
}

impl Activity {
    /// The activity that shows `media` as "listening", with its artwork
    /// served under `public_url`.
    pub fn for_media(media: &Media, public_url: &str) -> (r: Activity)
        ensures
            r.name is None && r.url is None && r.application_id is None,
            r.kind == LISTENING,
            r.created_at == 0,
            r.details matches Some(d) && d@ == media.title@,
            r.state matches Some(s) && s@ == media.artist@,
            r.timestamps matches Some(t) && t.start == Some(
                div_toward_zero(media.start as int, 1_000_000) as i128,
            ) && t.end == Some(div_toward_zero(media.end as int, 1_000_000) as i128),
            r.assets matches Some(a) && (a.large_image matches Some(l) && l@ == artwork_url(
                public_url@,
                media.artwork_hash@,
            )) && a.large_text is None && a.large_url is None && a.small_image is None
                && a.small_text is None && a.small_url is None,
            r.status_display_type == Some(STATUS_DISPLAY_STATE),
    {
        let mut large_image = String::from_str(public_url);
        proof {
            reveal_strlit("/");
        }
        large_image.append("/");
        large_image.append(media.artwork_hash.as_str());
        Activity {
            name: None,
            kind: LISTENING,
            url: None,
            created_at: 0,
            timestamps: Some(
                ActivityTimestamps { start: Some(millis(media.start)), end: Some(millis(media.end)) },
            ),
            application_id: None,
            details: Some(media.title.clone()),
            state: Some(media.artist.clone()),
            assets: Some(
                ActivityAssets {
                    large_image: Some(large_image),
                    large_text: None,
                    large_url: None,
                    small_image: None,
                    small_text: None,
                    small_url: None,
                },
            ),
            status_display_type: Some(STATUS_DISPLAY_STATE),
        }
    }
}

} // verus!
