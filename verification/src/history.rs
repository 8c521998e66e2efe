//! The watch/queue history: what was played or queued, most recent first,
//! at most one entry per video id, and at most [`MAX_ENTRIES`] entries.
//! Reading and writing `history.toml` is done by the program around the
//! library; this module holds the rules the list follows.

use vstd::prelude::*;
use crate::yt::Video;

verus! {

/// Maximum number of entries kept, so that the file does not grow unbounded.
pub const MAX_ENTRIES: usize = 300;

/// The full watch/queue history.
#[derive(Debug)]
pub struct History {
    /// Entries, most recently played/queued first.
    pub entries: Vec<Video>,
}

impl Default for History {
    fn default() -> (r: Self)
        ensures
            r.entries@ == Seq::<Video>::empty(),
    {
        History { entries: Vec::new() }
    }
}

impl Clone for History {
    fn clone(&self) -> (r: Self)
        ensures
            r.entries@ == self.entries@,
    {
        let mut entries: Vec<Video> = Vec::new();
        for i in 0..self.entries.len()
            invariant
                entries@ == self.entries@.take(i as int),
        {
            entries.push(self.entries[i].clone());
            assert(entries@ =~= self.entries@.take(i + 1));
        }
        assert(entries@ =~= self.entries@);
        History { entries }
    }
}

/// Where `history.toml` lives, chosen from the environment.
#[derive(Debug, PartialEq, Eq)]
pub enum HistoryLocation {
    /// `<dir>/yt-tui/history.toml`, under `$XDG_CONFIG_HOME`.
    ConfigHome(String),
    /// `<dir>/.config/yt-tui/history.toml`, under `$HOME`.
    Home(String),
    /// `./yt-tui-history.toml`, in the current directory.
    WorkingDir,
}

/// `$XDG_CONFIG_HOME` when it is set, else `$HOME` when that is set, else
/// the current directory. Each variable is `None` when unset (or not
/// Unicode).
pub fn history_location(xdg_config_home: Option<String>, home: Option<String>) -> (r:
    HistoryLocation)
    ensures
        match (xdg_config_home, home) {
            (Some(x), _) => r == HistoryLocation::ConfigHome(x),
            (None, Some(h)) => r == HistoryLocation::Home(h),
            (None, None) => r == HistoryLocation::WorkingDir,
        },
{
    match xdg_config_home {
        Some(x) => HistoryLocation::ConfigHome(x),
        None => match home {
            Some(h) => HistoryLocation::Home(h),
            None => HistoryLocation::WorkingDir,
        },
    }
}

/// The entries whose id differs from `id`, in their order.
pub open spec fn without_id(entries: Seq<Video>, id: Seq<char>) -> Seq<Video> {
    entries.filter(has_other_id(id))
}

/// Whether a video's id differs from `id`.
pub open spec fn has_other_id(id: Seq<char>) -> spec_fn(Video) -> bool {
    |v: Video| v.id@ != id
}

/// `entries` cut down to at most [`MAX_ENTRIES`].
pub open spec fn capped(entries: Seq<Video>) -> Seq<Video> {
    if entries.len() > MAX_ENTRIES {
        entries.take(MAX_ENTRIES as int)
    } else {
        entries
    }
}

/// The entries after `video` is pushed: `video` first, then the earlier
/// entries with another id, in their order, cut down to [`MAX_ENTRIES`].
pub open spec fn pushed(entries: Seq<Video>, video: Video) -> Seq<Video> {
    capped(seq![video] + without_id(entries, video.id@))
}

/// No two entries have the same id.
pub open spec fn ids_distinct(entries: Seq<Video>) -> bool {
    forall|i: int, j: int|
        0 <= i < entries.len() && 0 <= j < entries.len() && i != j ==> entries[i].id@
            != entries[j].id@
}

proof fn lemma_filter_push(s: Seq<Video>, id: Seq<char>, e: Video)
    ensures
        without_id(s.push(e), id) == if e.id@ != id {
            without_id(s, id).push(e)
        } else {
            without_id(s, id)
        },
{
    reveal(Seq::filter);
    assert(s.push(e).drop_last() =~= s);
}

/// Every entry kept by [`without_id`] has another id and comes from `s`.
proof fn lemma_without_id_members(s: Seq<Video>, id: Seq<char>)
    ensures
        without_id(s, id).len() <= s.len(),
        forall|k: int|
            0 <= k < without_id(s, id).len() ==> (#[trigger] without_id(s, id)[k]).id@ != id
                && s.contains(without_id(s, id)[k]),
{
    let p = has_other_id(id);
    s.lemma_filter_len(p);
    assert forall|k: int| 0 <= k < without_id(s, id).len() implies (#[trigger] without_id(
        s,
        id,
    )[k]).id@ != id && s.contains(without_id(s, id)[k]) by {
        s.lemma_filter_pred(p, k);
        assert(s.filter(p).contains(s.filter(p)[k]));
        s.lemma_filter_contains_rev(p, s.filter(p)[k]);
    }
}

/// Removing the entries of one id keeps the others' ids distinct.
proof fn lemma_without_id_distinct(s: Seq<Video>, id: Seq<char>)
    requires
        ids_distinct(s),
    ensures
        ids_distinct(without_id(s, id)),
    decreases s.len(),
{
    reveal(Seq::filter);
    if s.len() > 0 {
        let rest = s.drop_last();
        assert(ids_distinct(rest));
        lemma_without_id_distinct(rest, id);
        lemma_without_id_members(rest, id);
        lemma_filter_push(rest, id, s.last());
        assert(s =~= rest.push(s.last()));
        let w = without_id(rest, id);
        if s.last().id@ != id {
            assert forall|k: int| 0 <= k < w.len() implies (#[trigger] w[k]).id@ != s.last().id@ by {
                assert(rest.contains(w[k]));
                let j = choose|j: int| 0 <= j < rest.len() && rest[j] == w[k];
                assert(s[j] == w[k]);
                assert(s[s.len() - 1] == s.last());
            }
            assert(without_id(s, id) =~= w.push(s.last()));
        }
    }
}

/// A filter that every element passes keeps the whole sequence.
proof fn lemma_without_id_none_removed(s: Seq<Video>, id: Seq<char>)
    requires
        forall|k: int| 0 <= k < s.len() ==> (#[trigger] s[k]).id@ != id,
    ensures
        without_id(s, id) == s,
    decreases s.len(),
{
    reveal(Seq::filter);
    if s.len() > 0 {
        let rest = s.drop_last();
        assert forall|k: int| 0 <= k < rest.len() implies (#[trigger] rest[k]).id@ != id by {
            assert(rest[k] == s[k]);
        }
        lemma_without_id_none_removed(rest, id);
        lemma_filter_push(rest, id, s.last());
        assert(s =~= rest.push(s.last()));
    }
}

/// With distinct ids, removing the entries of one id removes at most one.
proof fn lemma_without_id_removes_at_most_one(s: Seq<Video>, id: Seq<char>)
    requires
        ids_distinct(s),
    ensures
        without_id(s, id).len() + 1 >= s.len(),
    decreases s.len(),
{
    reveal(Seq::filter);
    if s.len() > 0 {
        let rest = s.drop_last();
        assert(ids_distinct(rest));
        lemma_filter_push(rest, id, s.last());
        assert(s =~= rest.push(s.last()));
        if s.last().id@ == id {
            assert forall|k: int| 0 <= k < rest.len() implies (#[trigger] rest[k]).id@ != id by {
                assert(rest[k] == s[k]);
                assert(s[s.len() - 1] == s.last());
            }
            lemma_without_id_none_removed(rest, id);
        } else {
            lemma_without_id_removes_at_most_one(rest, id);
        }
    }
}

/// A pushed video becomes the most recent entry.
pub proof fn lemma_push_entry_front(entries: Seq<Video>, video: Video)
    ensures
        pushed(entries, video).len() >= 1,
        pushed(entries, video)[0] == video,
{
}

/// The history never holds more than [`MAX_ENTRIES`] entries after a push.
pub proof fn lemma_push_entry_bounded(entries: Seq<Video>, video: Video)
    ensures
        pushed(entries, video).len() <= MAX_ENTRIES,
{
}

/// After a push, the pushed video's id occurs once, at the top, and every
/// other entry was already in the history.
pub proof fn lemma_push_entry_single(entries: Seq<Video>, video: Video)
    ensures
        forall|k: int|
            0 < k < pushed(entries, video).len() ==> (#[trigger] pushed(entries, video)[k]).id@
                != video.id@ && entries.contains(pushed(entries, video)[k]),
{
    let w = without_id(entries, video.id@);
    lemma_without_id_members(entries, video.id@);
    assert forall|k: int| 0 < k < pushed(entries, video).len() implies (#[trigger] pushed(
        entries,
        video,
    )[k]).id@ != video.id@ && entries.contains(pushed(entries, video)[k]) by {
        assert(pushed(entries, video)[k] == w[k - 1]);
    }
}

/// Pushing keeps the ids of the history distinct.
pub proof fn lemma_push_entry_keeps_ids_distinct(entries: Seq<Video>, video: Video)
    requires
        ids_distinct(entries),
    ensures
        ids_distinct(pushed(entries, video)),
{
    let w = without_id(entries, video.id@);
    lemma_without_id_distinct(entries, video.id@);
    lemma_without_id_members(entries, video.id@);
    let all = seq![video] + w;
    assert(ids_distinct(all)) by {
        assert forall|i: int, j: int|
            0 <= i < all.len() && 0 <= j < all.len() && i != j implies all[i].id@
            != all[j].id@ by {
            if i > 0 && j > 0 {
                assert(all[i] == w[i - 1] && all[j] == w[j - 1]);
            } else if i == 0 {
                assert(all[j] == w[j - 1]);
            } else {
                assert(all[i] == w[i - 1]);
            }
        }
    }
    let p = pushed(entries, video);
    assert forall|i: int, j: int|
        0 <= i < p.len() && 0 <= j < p.len() && i != j implies p[i].id@ != p[j].id@ by {
        assert(p[i] == all[i] && p[j] == all[j]);
    }
}

/// Pushing the same video twice leaves the history as pushing it once.
pub proof fn lemma_push_entry_idempotent(entries: Seq<Video>, video: Video)
    ensures
        pushed(pushed(entries, video), video) == pushed(entries, video),
{
    let once = pushed(entries, video);
    let rest = once.drop_first();
    lemma_push_entry_single(entries, video);
    assert forall|k: int| 0 <= k < rest.len() implies (#[trigger] rest[k]).id@ != video.id@ by {
        assert(rest[k] == once[k + 1]);
    }
    lemma_without_id_none_removed(rest, video.id@);
    assert(once =~= seq![video] + rest);
    rest.lemma_filter_prepend(video, has_other_id(video.id@));
    assert(without_id(once, video.id@) =~= rest);
    assert(seq![video] + rest =~= once);
}

/// With distinct ids, a push loses no entry other than the one it
/// replaces and those beyond [`MAX_ENTRIES`]: the history does not shrink
/// below its size or the cap.
pub proof fn lemma_push_entry_does_not_shrink(entries: Seq<Video>, video: Video)
    requires
        ids_distinct(entries),
    ensures
        pushed(entries, video).len() >= if entries.len() < MAX_ENTRIES {
            entries.len()
        } else {
            MAX_ENTRIES as nat
        },
{
    lemma_without_id_removes_at_most_one(entries, video.id@);
}

/// Inserts/updates an entry at the top (most recent first), removing any
/// duplicate by id and truncating to [`MAX_ENTRIES`].
pub fn push_entry(history: &mut History, video: Video)
    ensures
        final(history).entries@ == pushed(old(history).entries@, video),
{
    let ghost id = video.id@;
    let mut kept: Vec<Video> = Vec::new();
    let n = history.entries.len();
    for i in 0..n
        invariant
            n == history.entries@.len(),
            history.entries@ == old(history).entries@,
            id == video.id@,
            kept@ == without_id(history.entries@.take(i as int), id),
    {
        let ghost prefix = history.entries@.take(i as int);
        proof {
            assert(history.entries@.take(i + 1) =~= prefix.push(history.entries@[i as int]));
            lemma_filter_push(prefix, id, history.entries@[i as int]);
        }
        if history.entries[i].id != video.id {
            kept.push(history.entries[i].clone());
        }
    }
    assert(history.entries@.take(n as int) =~= history.entries@);
    kept.insert(0, video);
    kept.truncate(MAX_ENTRIES);
    assert(kept@ =~= pushed(old(history).entries@, video));
    history.entries = kept;
}

} // verus!
