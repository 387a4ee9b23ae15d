//! The metadata normalizer: turns a raw media record into its
//! presentation-ready form. Pure and total; optional fields stay optional,
//! and "absent" is never collapsed into "present but empty".

use vstd::prelude::*;

use crate::meta::{MediaMeta, MediaMetaView, RawMediaMeta, RawMediaMetaView};

verus! {

/// The single newline-joined text block of a sequence of statistic entries,
/// in original order. Empty input yields the empty string.
pub open spec fn joined_stats(entries: Seq<Seq<char>>) -> Seq<char>
    decreases entries.len(),
{
    if entries.len() == 0 {
        Seq::<char>::empty()
    } else if entries.len() == 1 {
        entries[0]
    } else {
        joined_stats(entries.drop_last()) + "\n"@ + entries.last()
    }
}

/// What normalization does to a raw media record: `title`, `author`,
/// `duration`, `date` and `extra` pass through unchanged, `date` is carried
/// under the `media_date` field, and `stats` collapses to one newline-joined
/// string — absent stays absent, an empty sequence becomes the empty string.
pub open spec fn normalized_media(raw: RawMediaMetaView) -> MediaMetaView {
    MediaMetaView {
        file_name: raw.file_name,
        title: raw.title,
        author: raw.author,
        duration: raw.duration,
        media_date: raw.date,
        stats: match raw.stats {
            Option::None => Option::None,
            Option::Some(entries) => Option::Some(joined_stats(entries)),
        },
        display_extra: raw.display_extra,
        extra: raw.extra,
    }
}

/// Joins the text forms of the statistic entries with a single newline,
/// keeping their original order.
pub fn join_stats(entries: &Vec<String>) -> (joined: String)
    ensures
        joined@ == joined_stats(entries.deep_view()),
{
    let ghost model: Seq<Seq<char>> = entries.deep_view();
    let mut joined = String::new();
    let mut i: usize = 0;
    while i < entries.len()
        invariant
            i <= entries.len(),
            model == entries.deep_view(),
            model.len() == entries.len(),
            joined@ == joined_stats(model.take(i as int)),
        decreases entries.len() - i,
    {
        if i > 0 {
            joined.append("\n");
        }
        joined.append(entries[i].as_str());
        proof {
            assert(model.take(i + 1 as int).drop_last() =~= model.take(i as int));
            assert(model.take(i + 1 as int).last() == model[i as int]);
        }
        i = i + 1;
    }
    proof {
        assert(model.take(entries.len() as int) =~= model);
    }
    joined
}

/// Normalizes a raw media record into its presentation-ready form.
pub fn normalize_media(raw: RawMediaMeta) -> (normalized: MediaMeta)
    ensures
        normalized@ == normalized_media(raw@),
{
    let stats: Option<String> = match raw.stats {
        Option::None => Option::None,
        Option::Some(entries) => Option::Some(join_stats(&entries)),
    };
    MediaMeta {
        file_name: raw.file_name,
        title: raw.title,
        author: raw.author,
        duration: raw.duration,
        media_date: raw.date,
        stats,
        display_extra: raw.display_extra,
        extra: raw.extra,
    }
}

/// Law: normalization preserves absence. If the raw record carried no
/// statistics at all, the normalized record carries none; if it carried an
/// empty sequence of statistics, the normalized record carries the empty
/// string — the two states stay distinct.
pub proof fn lemma_stats_absence_preserved(raw: RawMediaMetaView)
    ensures
        raw.stats is None ==> normalized_media(raw).stats is None,
        (raw.stats matches Option::Some(entries) && entries.len() == 0) ==> normalized_media(
            raw,
        ).stats == Option::Some(Seq::<char>::empty()),
{
}

/// Law: normalization is lossless for the extra text. `extra` and
/// `display_extra` pass through unchanged whatever `display_extra` holds;
/// filtering on the flag is a rendering-time concern, never done here.
pub proof fn lemma_extra_lossless(raw: RawMediaMetaView)
    ensures
        normalized_media(raw).extra == raw.extra,
        normalized_media(raw).display_extra == raw.display_extra,
{
}

/// Law: normalization is deterministic. Any two normalized records obtained
/// from the same raw record are structurally equal, so repeating an
/// unchanged query repeats its result.
pub proof fn lemma_normalize_deterministic(
    raw: RawMediaMetaView,
    first: MediaMetaView,
    second: MediaMetaView,
)
    requires
        first == normalized_media(raw),
        second == normalized_media(raw),
    ensures
        first == second,
{
}

} // verus!
