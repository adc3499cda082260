//! Clipboard monitoring: every poll looks at the clipboard's text and
//! reports a newly copied URL-like value once.
use vstd::prelude::*;

use crate::text::{chars_of, has_prefix, seq_eq, string_from, trim_bounds, trim_spec};

verus! {

broadcast use vstd::string::group_string_axioms;

/// Text that looks like something to download.
pub open spec fn is_url_like(t: Seq<char>) -> bool {
    ||| "http://"@.is_prefix_of(t)
    ||| "https://"@.is_prefix_of(t)
    ||| "ftp://"@.is_prefix_of(t)
    ||| "magnet:"@.is_prefix_of(t)
}

/// One poll: `enabled` is the monitoring switch, `text` what the clipboard
/// held (`None` when it could not be read), `last` the previously seen text.
/// Returns the new previously-seen text and the URL to report, if any.
pub open spec fn poll_spec(last: Seq<char>, enabled: bool, text: Option<Seq<char>>) -> (
    Seq<char>,
    Option<Seq<char>>,
) {
    if !enabled {
        (Seq::empty(), None)
    } else {
        match text {
            None => (last, None),
            Some(t) => {
                let tr = trim_spec(t);
                if tr == last || tr.len() == 0 {
                    (last, None)
                } else if is_url_like(tr) {
                    (tr, Some(tr))
                } else {
                    (tr, None)
                }
            },
        }
    }
}

pub fn is_url_like_exec(t: &Vec<char>) -> (r: bool)
    ensures
        r == is_url_like(t@),
{
    let a = chars_of("http://");
    let b = chars_of("https://");
    let c = chars_of("ftp://");
    let d = chars_of("magnet:");
    has_prefix(t, &a) || has_prefix(t, &b) || has_prefix(t, &c) || has_prefix(t, &d)
}

/// The state of the clipboard monitor between polls.
pub struct ClipboardWatcher {
    last_seen: Vec<char>,
}

impl View for ClipboardWatcher {
    type V = Seq<char>;

    closed spec fn view(&self) -> Seq<char> {
        self.last_seen@
    }
}

impl ClipboardWatcher {
    /// A monitor that has seen nothing yet.
    pub fn new() -> (r: ClipboardWatcher)
        ensures
            r@ == Seq::<char>::empty(),
    {
        ClipboardWatcher { last_seen: Vec::new() }
    }

    /// One poll (see [`poll_spec`]); returns the URL to report.
    pub fn poll(&mut self, enabled: bool, text: Option<&str>) -> (r: Option<String>)
        ensures
            final(self)@ == poll_spec(
                old(self)@,
                enabled,
                match text {
                    Some(t) => Some(t@),
                    None => None,
                },
            ).0,
            match poll_spec(
                old(self)@,
                enabled,
                match text {
                    Some(t) => Some(t@),
                    None => None,
                },
            ).1 {
                Some(u) => r matches Some(s) && s@ == u,
                None => r is None,
            },
    {
        if !enabled {
            self.last_seen = Vec::new();
            return None;
        }
        let t = match text {
            Some(t) => t,
            None => {
                return None;
            },
        };
        let v = chars_of(t);
        let (i, j) = trim_bounds(&v);
        let mut trimmed: Vec<char> = Vec::new();
        let mut k = i;
        while k < j
            invariant
                i <= k <= j <= v@.len(),
                trimmed@ == v@.subrange(i as int, k as int),
            decreases j - k,
        {
            trimmed.push(v[k]);
            k = k + 1;
            assert(trimmed@ == v@.subrange(i as int, k as int));
        }
        if seq_eq(&trimmed, &self.last_seen) || trimmed.len() == 0 {
            return None;
        }
        let report = is_url_like_exec(&trimmed);
        let out = string_from(&v, i, j);
        self.last_seen = trimmed;
        if report {
            Some(out)
        } else {
            None
        }
    }
}

// ---------------------------------------------------------------------------
// Laws
// ---------------------------------------------------------------------------

/// Only URL-like text is reported, trimmed, and never the text seen just
/// before; a reported URL becomes the previously seen text.
pub proof fn law_reports_new_urls_only(last: Seq<char>, enabled: bool, text: Option<Seq<char>>)
    ensures
        poll_spec(last, enabled, text).1 matches Some(u) ==> {
            &&& enabled
            &&& text matches Some(t) && u == trim_spec(t)
            &&& is_url_like(u)
            &&& u != last
            &&& u.len() > 0
            &&& poll_spec(last, enabled, text).0 == u
        },
{
}

/// With monitoring on, newly copied text whose trim starts with `http://`,
/// `https://`, `ftp://` or `magnet:` is reported, trimmed; any other text is
/// never reported.
pub proof fn law_links_are_reported(seen: Seq<char>, copied: Seq<char>)
    ensures
        ({
            let t = trim_spec(copied);
            let link = "http://"@.is_prefix_of(t) || "https://"@.is_prefix_of(t)
                || "ftp://"@.is_prefix_of(t) || "magnet:"@.is_prefix_of(t);
            &&& link && t != seen ==> poll_spec(seen, true, Some(copied)).1 == Some(t)
            &&& !link ==> poll_spec(seen, true, Some(copied)).1 is None
        }),
{
    let t = trim_spec(copied);
    reveal_strlit("http://");
    reveal_strlit("https://");
    reveal_strlit("ftp://");
    reveal_strlit("magnet:");
    if "http://"@.is_prefix_of(t) || "https://"@.is_prefix_of(t) || "ftp://"@.is_prefix_of(t)
        || "magnet:"@.is_prefix_of(t) {
        assert(t.len() > 0);
    }
}

/// The same clipboard text, polled twice in a row while monitoring is on, is
/// reported at most once.
pub proof fn law_no_repeat(last: Seq<char>, text: Seq<char>)
    ensures
        poll_spec(poll_spec(last, true, Some(text)).0, true, Some(text)).1 is None,
{
}

/// While monitoring is off nothing is reported and the previously seen text
/// is forgotten, so a URL copied before is reported again once it is back on.
pub proof fn law_disabled_forgets(last: Seq<char>, text: Option<Seq<char>>)
    ensures
        poll_spec(last, false, text) == (Seq::<char>::empty(), None::<Seq<char>>),
{
}

/// The state after polling each of `reads` in turn (every read succeeding
/// and monitoring on), starting from the previously seen text `last`.
pub open spec fn watch(last: Seq<char>, reads: Seq<Seq<char>>) -> Seq<char>
    decreases reads.len(),
{
    if reads.len() == 0 {
        last
    } else {
        poll_spec(watch(last, reads.drop_last()), true, Some(reads.last())).0
    }
}

/// What the poll of read `i` reports, after the reads before it.
pub open spec fn report_at(last: Seq<char>, reads: Seq<Seq<char>>, i: int) -> Option<Seq<char>> {
    poll_spec(watch(last, reads.take(i)), true, Some(reads[i])).1
}

/// The last non-empty trimmed read among `reads`, or `last` when there is
/// none.
pub open spec fn last_nonempty(last: Seq<char>, reads: Seq<Seq<char>>) -> Seq<char>
    decreases reads.len(),
{
    if reads.len() == 0 {
        last
    } else if trim_spec(reads.last()).len() == 0 {
        last_nonempty(last, reads.drop_last())
    } else {
        trim_spec(reads.last())
    }
}

/// Polling remembers the last non-empty trimmed read.
proof fn lemma_watch_remembers(last: Seq<char>, reads: Seq<Seq<char>>)
    ensures
        watch(last, reads) == last_nonempty(last, reads),
    decreases reads.len(),
{
    if reads.len() > 0 {
        lemma_watch_remembers(last, reads.drop_last());
    }
}

/// Over a run of successful reads with monitoring on (a failed read changes
/// nothing, see [`poll_spec`]): the monitor remembers the last non-empty
/// trimmed read, and read `i` is reported, trimmed, exactly when its
/// trimmed text is non-empty, URL-like and differs from the last non-empty
/// trimmed read before it (or from the initially seen text, if none).
pub proof fn law_read_sequence(last: Seq<char>, reads: Seq<Seq<char>>)
    ensures
        watch(last, reads) == last_nonempty(last, reads),
        forall|i: int|
            0 <= i < reads.len() ==> #[trigger] report_at(last, reads, i) == {
                let t = trim_spec(reads[i]);
                if t.len() > 0 && t != last_nonempty(last, reads.take(i)) && is_url_like(t) {
                    Some(t)
                } else {
                    None
                }
            },
{
    lemma_watch_remembers(last, reads);
    assert forall|i: int| 0 <= i < reads.len() implies #[trigger] report_at(last, reads, i) == {
        let t = trim_spec(reads[i]);
        if t.len() > 0 && t != last_nonempty(last, reads.take(i)) && is_url_like(t) {
            Some(t)
        } else {
            None
        }
    } by {
        lemma_watch_remembers(last, reads.take(i));
    }
}

} // verus!
