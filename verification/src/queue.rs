//! Queue entries and the display title each one carries.

use vstd::prelude::*;

verus! {

/// One track of the daemon's play queue, reduced to the text fields the
/// core reads: the file path and the optional title, album and artist tags.
pub struct QueueEntry {
    /// Path of the track's file, relative to the music directory.
    pub file: String,
    /// Explicit title tag, when the track has one.
    pub title: Option<String>,
    /// Album tag.
    pub album: Option<String>,
    /// Artist tag.
    pub artist: Option<String>,
}

/// Index of the last `/` in `s`, or `-1` when `s` holds none.
pub open spec fn last_slash(s: Seq<char>) -> int
    decreases s.len(),
{
    if s.len() == 0 {
        -1
    } else if s.last() == '/' {
        s.len() - 1
    } else {
        last_slash(s.drop_last())
    }
}

/// What remains of a file path after its last `/`: the file's own name.
pub open spec fn file_name(s: Seq<char>) -> Seq<char> {
    s.subrange(last_slash(s) + 1, s.len() as int)
}

/// The title shown for an entry: its title tag, else its file's name.
pub open spec fn display_title(e: QueueEntry) -> Seq<char> {
    match e.title {
        Some(t) => t@,
        None => file_name(e.file@),
    }
}

proof fn lemma_last_slash_range(s: Seq<char>)
    ensures
        -1 <= last_slash(s) < s.len(),
    decreases s.len(),
{
    if s.len() > 0 && s.last() != '/' {
        lemma_last_slash_range(s.drop_last());
    }
}

/// Derive the display title of an entry.
pub fn gen_title(e: &QueueEntry) -> (r: String)
    ensures
        r@ == display_title(*e),
{
    match &e.title {
        Some(t) => t.clone(),
        None => {
            let f: &str = e.file.as_str();
            let n = f.unicode_len();
            let mut i = n;
            proof {
                assert(f@.take(n as int) =~= f@);
            }
            while i > 0 && f.get_char(i - 1) != '/'
                invariant
                    i <= n,
                    n == f@.len(),
                    last_slash(f@) == last_slash(f@.take(i as int)),
                decreases i,
            {
                proof {
                    assert(f@.take(i as int).last() == f@[i - 1]);
                    assert(f@.take(i as int).drop_last() =~= f@.take(i - 1));
                }
                i = i - 1;
            }
            proof {
                if i > 0 {
                    assert(f@.take(i as int).last() == f@[i - 1]);
                    assert(last_slash(f@) == i - 1);
                } else {
                    assert(f@.take(0) =~= Seq::<char>::empty());
                    assert(last_slash(f@) == -1);
                }
                lemma_last_slash_range(f@);
            }
            let base: &str = f.substring_char(i, n);
            base.to_owned()
        },
    }
}

} // verus!
