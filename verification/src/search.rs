//! Fuzzy search over the queue: match, score and rank entries for a query.
//!
//! A non-empty query is padded with one space on each side to bias the
//! approximate match toward word boundaries, then tested per entry against
//! the title (or file name), the album and the artist, in that order; the
//! first field that passes is the one scored. The score is the edit distance
//! to the matched field, offset by 100 per tier (title, album, artist), and
//! anything whose raw distance reaches 99 is discarded. Results come back
//! ascending by score, ties in original queue order.

use vstd::prelude::*;

use crate::queue::{display_title, gen_title, QueueEntry};

verus! {

/// One ranked search result: the entry's display title, its position in the
/// queue, and its rank score (lower is better).
pub struct SearchResult {
    /// Display title of the matched entry.
    pub title: String,
    /// Position of the entry in the queue.
    pub pos: usize,
    /// Rank score: raw edit distance plus the tier offset.
    pub ed: usize,
}

/// Whether the pattern approximately occurs in the text within `ambig`
/// edits, as the approximate-match engine decides it.
pub uninterp spec fn fuzzy_hit(pattern: Seq<char>, text: Seq<char>, ambig: u8) -> bool;

/// Levenshtein edit distance between two strings.
pub uninterp spec fn edit_dist(a: Seq<char>, b: Seq<char>) -> nat;

/// All characters lie in the basic multilingual plane.
pub open spec fn bmp_only(s: Seq<char>) -> bool {
    forall|i: int| 0 <= i < s.len() ==> (#[trigger] s[i] as nat) < 0x10000
}

/// Every text field of the entry is within the basic multilingual plane.
pub open spec fn entry_bmp(e: QueueEntry) -> bool {
    &&& bmp_only(e.file@)
    &&& (e.title is Some ==> bmp_only(e.title->0@))
    &&& (e.album is Some ==> bmp_only(e.album->0@))
    &&& (e.artist is Some ==> bmp_only(e.artist->0@))
}

/// Every entry of the queue is within the basic multilingual plane.
pub open spec fn queue_bmp(qu: Seq<QueueEntry>) -> bool {
    forall|i: int| 0 <= i < qu.len() ==> entry_bmp(#[trigger] qu[i])
}

/// Relies on asearch::Asearch::new and asearch::Asearch::find: whether the
/// pattern approximately occurs in the text within the given Levenshtein
/// distance is a function of the two strings and that distance alone. The
/// engine's character table covers only code points below 0x10000; anything
/// above makes it panic, so such inputs are excluded.
#[verifier::external_body]
fn fuzzy_find(pattern: &str, text: &str, ambig: u8) -> (r: bool)
    requires
        bmp_only(pattern@),
        bmp_only(text@),
    ensures
        r == fuzzy_hit(pattern@, text@, ambig),
{
    asearch::Asearch::new(pattern).find(text, ambig)
}

/// Relies on edit_distance::edit_distance: the Levenshtein distance between
/// two strings, a function of the two strings alone.
#[verifier::external_body]
fn edit_distance_of(a: &str, b: &str) -> (r: usize)
    ensures
        r == edit_dist(a@, b@),
{
    edit_distance::edit_distance(a, b)
}

/// The query padded with one space on each side.
pub open spec fn pad(q: Seq<char>) -> Seq<char> {
    seq![' '] + q + seq![' ']
}

/// The text the title tier is matched against: the title tag, else the raw
/// file path.
pub open spec fn match_text(e: QueueEntry) -> Seq<char> {
    match e.title {
        Some(t) => t@,
        None => e.file@,
    }
}

/// Whether the album tier's plausibility test passes.
pub open spec fn album_hit(q: Seq<char>, e: QueueEntry) -> bool {
    e.album is Some && fuzzy_hit(pad(q), e.album->0@, 0)
}

/// Whether the artist tier's plausibility test passes.
pub open spec fn artist_hit(q: Seq<char>, e: QueueEntry) -> bool {
    e.artist is Some && fuzzy_hit(pad(q), e.artist->0@, 0)
}

/// A raw edit distance under the cutoff yields a score in its tier;
/// 99 and above is discarded.
pub open spec fn score_cut(ed: nat, offset: int) -> Option<int> {
    if ed < 99 {
        Some(ed + offset)
    } else {
        None
    }
}

/// The score of an entry for a query: `Some` score when the entry belongs in
/// the result list, `None` when it is left out. An empty query scores every
/// entry 0. Otherwise the first field whose plausibility test passes is the
/// only one scored: title matches keep the raw edit distance, album matches
/// get +100, artist matches +200.
pub open spec fn score(q: Seq<char>, e: QueueEntry) -> Option<int> {
    if q.len() == 0 {
        Some(0)
    } else if fuzzy_hit(pad(q), match_text(e), 0) {
        score_cut(edit_dist(q, match_text(e)), 0)
    } else if album_hit(q, e) {
        score_cut(edit_dist(q, e.album->0@), 100)
    } else if artist_hit(q, e) {
        score_cut(edit_dist(q, e.artist->0@), 200)
    } else {
        None
    }
}

/// Whether the entry belongs in the result list for the query.
pub open spec fn included(q: Seq<char>, e: QueueEntry) -> bool {
    score(q, e) is Some
}

/// Strict rank order: ascending score, ties broken by queue position.
pub open spec fn rank_lt(a: SearchResult, b: SearchResult) -> bool {
    a.ed < b.ed || (a.ed == b.ed && a.pos < b.pos)
}

/// Exact characterization of a ranked result list `r` for query `q` over
/// queue `qu`: every element carries the score and title of its queue entry,
/// the list is strictly sorted by (score, position), and every included
/// queue position occurs.
pub open spec fn rank_post(q: Seq<char>, qu: Seq<QueueEntry>, r: Seq<SearchResult>) -> bool {
    &&& forall|i: int|
        0 <= i < r.len() ==> {
            &&& (#[trigger] r[i]).pos < qu.len()
            &&& included(q, qu[r[i].pos as int])
            &&& r[i].ed == score(q, qu[r[i].pos as int])->0
            &&& r[i].title@ == display_title(qu[r[i].pos as int])
        }
    &&& forall|i: int, j: int| 0 <= i < j < r.len() ==> rank_lt(#[trigger] r[i], #[trigger] r[j])
    &&& forall|p: int|
        0 <= p < qu.len() && #[trigger] included(q, qu[p]) ==> exists|i: int|
            0 <= i < r.len() && (#[trigger] r[i]).pos == p
}

/// The tier a score falls in: 0 for title, 1 for album, 2 for artist.
pub open spec fn tier_of(sc: int) -> int {
    sc / 100
}

/// Law: every score that `score` admits sits inside its tier's band — at
/// most 98 above the tier offset, 298 in all — so bands never overlap.
pub proof fn lemma_score_bands(q: Seq<char>, e: QueueEntry)
    requires
        included(q, e),
    ensures
        0 <= score(q, e)->0 <= 298,
        score(q, e)->0 % 100 <= 98,
        0 <= tier_of(score(q, e)->0) <= 2,
{
}

/// Law: a ranked result list is sorted ascending by score, and the tiers
/// never interleave — all title matches come before all album matches,
/// which come before all artist matches.
pub proof fn lemma_rank_sorted_tiers(q: Seq<char>, qu: Seq<QueueEntry>, r: Seq<SearchResult>)
    requires
        rank_post(q, qu, r),
    ensures
        forall|i: int, j: int| 0 <= i < j < r.len() ==> (#[trigger] r[i]).ed <= (#[trigger] r[j]).ed,
        forall|i: int, j: int|
            0 <= i < j < r.len() ==> tier_of((#[trigger] r[i]).ed as int) <= tier_of(
                (#[trigger] r[j]).ed as int,
            ),
        forall|i: int| 0 <= i < r.len() ==> (#[trigger] r[i]).ed <= 298,
{
    assert forall|i: int| 0 <= i < r.len() implies (#[trigger] r[i]).ed <= 298 by {
        lemma_score_bands(q, qu[r[i].pos as int]);
    }
    assert forall|i: int, j: int| 0 <= i < j < r.len() implies tier_of((#[trigger] r[i]).ed as int)
        <= tier_of((#[trigger] r[j]).ed as int) by {
        assert(rank_lt(r[i], r[j]));
        lemma_score_bands(q, qu[r[i].pos as int]);
        lemma_score_bands(q, qu[r[j].pos as int]);
    }
}

/// Strict order on (score, position) pairs.
spec fn pair_lt(a: (int, int), b: (int, int)) -> bool {
    a.0 < b.0 || (a.0 == b.0 && a.1 < b.1)
}

/// Two strictly sorted pair sequences with the same members are equal.
proof fn lemma_sorted_same_members(a: Seq<(int, int)>, b: Seq<(int, int)>)
    requires
        forall|i: int, j: int| 0 <= i < j < a.len() ==> pair_lt(#[trigger] a[i], #[trigger] a[j]),
        forall|i: int, j: int| 0 <= i < j < b.len() ==> pair_lt(#[trigger] b[i], #[trigger] b[j]),
        forall|x: (int, int)| a.contains(x) <==> b.contains(x),
    ensures
        a =~= b,
    decreases a.len() + b.len(),
{
    if a.len() == 0 {
        if b.len() > 0 {
            assert(b.contains(b[0]));
            assert(a.contains(b[0]));
        }
    } else if b.len() == 0 {
        assert(a.contains(a[0]));
        assert(b.contains(a[0]));
    } else {
        assert(a.contains(a[0]));
        assert(b.contains(b[0]));
        let jb = choose|j: int| 0 <= j < b.len() && b[j] == a[0];
        let ja = choose|j: int| 0 <= j < a.len() && a[j] == b[0];
        if jb > 0 && ja > 0 {
            assert(pair_lt(b[0], b[jb]));
            assert(pair_lt(a[0], a[ja]));
        }
        assert(a[0] == b[0]);
        let a1 = a.drop_first();
        let b1 = b.drop_first();
        assert forall|x: (int, int)| a1.contains(x) implies b1.contains(x) by {
            let k = choose|k: int| 0 <= k < a1.len() && a1[k] == x;
            assert(a[k + 1] == x);
            assert(a.contains(x));
            let m = choose|m: int| 0 <= m < b.len() && b[m] == x;
            assert(pair_lt(a[0], a[k + 1]));
            assert(m > 0);
            assert(b1[m - 1] == x);
        }
        assert forall|x: (int, int)| b1.contains(x) implies a1.contains(x) by {
            let k = choose|k: int| 0 <= k < b1.len() && b1[k] == x;
            assert(b[k + 1] == x);
            assert(b.contains(x));
            let m = choose|m: int| 0 <= m < a.len() && a[m] == x;
            assert(pair_lt(b[0], b[k + 1]));
            assert(m > 0);
            assert(a1[m - 1] == x);
        }
        lemma_sorted_same_members(a1, b1);
        assert forall|i: int| 0 <= i < a.len() implies a[i] == b[i] by {
            if i > 0 {
                assert(a[i] == a1[i - 1]);
                assert(b[i] == b1[i - 1]);
            }
        }
    }
}

/// Law: ranking is a pure function of the query and the queue — any two
/// result lists that satisfy the ranking contract agree entry for entry.
pub proof fn lemma_rank_deterministic(
    q: Seq<char>,
    qu: Seq<QueueEntry>,
    r1: Seq<SearchResult>,
    r2: Seq<SearchResult>,
)
    requires
        rank_post(q, qu, r1),
        rank_post(q, qu, r2),
    ensures
        r1.len() == r2.len(),
        forall|i: int|
            0 <= i < r1.len() ==> (#[trigger] r1[i]).pos == (#[trigger] r2[i]).pos && r1[i].ed
                == r2[i].ed && r1[i].title@ == r2[i].title@,
{
    let pa = Seq::new(r1.len(), |i: int| (r1[i].ed as int, r1[i].pos as int));
    let pb = Seq::new(r2.len(), |i: int| (r2[i].ed as int, r2[i].pos as int));
    assert forall|i: int, j: int| 0 <= i < j < pa.len() implies pair_lt(
        #[trigger] pa[i],
        #[trigger] pa[j],
    ) by {
        assert(rank_lt(r1[i], r1[j]));
    }
    assert forall|i: int, j: int| 0 <= i < j < pb.len() implies pair_lt(
        #[trigger] pb[i],
        #[trigger] pb[j],
    ) by {
        assert(rank_lt(r2[i], r2[j]));
    }
    assert forall|x: (int, int)| pa.contains(x) implies pb.contains(x) by {
        let i = choose|i: int| 0 <= i < pa.len() && pa[i] == x;
        let p = r1[i].pos as int;
        assert(included(q, qu[p]));
        let j = choose|j: int| 0 <= j < r2.len() && (#[trigger] r2[j]).pos == p;
        assert(pb[j] == x);
    }
    assert forall|x: (int, int)| pb.contains(x) implies pa.contains(x) by {
        let i = choose|i: int| 0 <= i < pb.len() && pb[i] == x;
        let p = r2[i].pos as int;
        assert(included(q, qu[p]));
        let j = choose|j: int| 0 <= j < r1.len() && (#[trigger] r1[j]).pos == p;
        assert(pa[j] == x);
    }
    lemma_sorted_same_members(pa, pb);
    assert forall|i: int| 0 <= i < r1.len() implies (#[trigger] r1[i]).pos == (#[trigger] r2[i]).pos
        && r1[i].ed == r2[i].ed && r1[i].title@ == r2[i].title@ by {
        assert(pa[i] == pb[i]);
    }
}

/// Compute the score of one entry for a non-empty query, exactly as the
/// `score` spec has it.
fn score_entry(q: &str, padded: &str, e: &QueueEntry) -> (sc: Option<usize>)
    requires
        q@.len() > 0,
        padded@ == pad(q@),
        bmp_only(padded@),
        entry_bmp(*e),
    ensures
        sc is Some <==> included(q@, *e),
        sc is Some ==> sc->0 == score(q@, *e)->0,
{
    let mt: &str = match &e.title {
        Some(t) => t.as_str(),
        None => e.file.as_str(),
    };
    if fuzzy_find(padded, mt, 0) {
        let ed = edit_distance_of(q, mt);
        if ed < 99 {
            Some(ed)
        } else {
            None
        }
    } else {
        let mut blocked = false;
        let mut r: Option<usize> = None;
        match &e.album {
            Some(al) => {
                if fuzzy_find(padded, al.as_str(), 0) {
                    blocked = true;
                    let ed = edit_distance_of(q, al.as_str());
                    if ed < 99 {
                        r = Some(ed + 100);
                    }
                }
            },
            None => {},
        }
        if !blocked {
            match &e.artist {
                Some(ar) => {
                    if fuzzy_find(padded, ar.as_str(), 0) {
                        let ed = edit_distance_of(q, ar.as_str());
                        if ed < 99 {
                            r = Some(ed + 200);
                        }
                    }
                },
                None => {},
            }
        }
        r
    }
}

/// Rank the queue against a query.
///
/// An empty query returns every entry in queue order with score 0; a
/// non-empty one returns the entries whose score exists, ascending by score
/// with ties in queue order.
pub fn build_list(q: &str, queue: &Vec<QueueEntry>) -> (r: Vec<SearchResult>)
    requires
        q@.len() > 0 ==> bmp_only(q@) && queue_bmp(queue@),
    ensures
        rank_post(q@, queue@, r@),
        q@.len() == 0 ==> r@.len() == queue@.len() && (forall|i: int|
            0 <= i < r@.len() ==> (#[trigger] r@[i]).pos == i && r@[i].ed == 0),
{
    let mut list: Vec<SearchResult> = Vec::new();
    if q.is_empty() {
        let mut i: usize = 0;
        while i < queue.len()
            invariant
                q@.len() == 0,
                i <= queue@.len(),
                list@.len() == i,
                forall|j: int|
                    0 <= j < i ==> (#[trigger] list@[j]).pos == j && list@[j].ed == 0
                        && list@[j].title@ == display_title(queue@[j]),
            decreases queue@.len() - i,
        {
            let title = gen_title(&queue[i]);
            list.push(SearchResult { title, pos: i, ed: 0 });
            i = i + 1;
        }
        proof {
            assert forall|p: int| 0 <= p < queue@.len() && #[trigger] included(q@, queue@[p])
                implies exists|i: int| 0 <= i < list@.len() && (#[trigger] list@[i]).pos == p by {
                assert(list@[p].pos == p);
            }
        }
    } else {
        let padded_s = String::from_str(" ").concat(q).concat(" ");
        let padded: &str = padded_s.as_str();
        proof {
            reveal_strlit(" ");
            assert(padded@ =~= pad(q@));
            assert forall|i: int| 0 <= i < padded@.len() implies (#[trigger] padded@[i] as nat)
                < 0x10000 by {
                if 1 <= i < padded@.len() - 1 {
                    assert(padded@[i] == q@[i - 1]);
                }
            }
        }
        let mut i: usize = 0;
        while i < queue.len()
            invariant
                q@.len() > 0,
                bmp_only(q@),
                queue_bmp(queue@),
                padded@ == pad(q@),
                bmp_only(padded@),
                i <= queue@.len(),
                forall|j: int|
                    0 <= j < list@.len() ==> {
                        &&& (#[trigger] list@[j]).pos < i
                        &&& included(q@, queue@[list@[j].pos as int])
                        &&& list@[j].ed == score(q@, queue@[list@[j].pos as int])->0
                        &&& list@[j].title@ == display_title(queue@[list@[j].pos as int])
                    },
                forall|j1: int, j2: int|
                    0 <= j1 < j2 < list@.len() ==> rank_lt(#[trigger] list@[j1], #[trigger] list@[j2]),
                forall|p: int|
                    0 <= p < i && #[trigger] included(q@, queue@[p]) ==> exists|j: int|
                        0 <= j < list@.len() && (#[trigger] list@[j]).pos == p,
            decreases queue@.len() - i,
        {
            let e = &queue[i];
            let sc = score_entry(q, padded, e);
            match sc {
                Some(edv) => {
                    let title = gen_title(e);
                    let ghost old_list = list@;
                    let mut k: usize = list.len();
                    while k > 0 && list[k - 1].ed > edv
                        invariant
                            k <= list@.len(),
                            list@ == old_list,
                            forall|j: int| k <= j < list@.len() ==> (#[trigger] list@[j]).ed > edv,
                        decreases k,
                    {
                        k = k - 1;
                    }
                    proof {
                        assert forall|j: int| 0 <= j < k implies (#[trigger] old_list[j]).ed
                            <= edv by {
                            if j < k - 1 {
                                assert(rank_lt(old_list[j], old_list[k - 1]));
                            }
                        }
                    }
                    let sr = SearchResult { title, pos: i, ed: edv };
                    list.insert(k, sr);
                    proof {
                        old_list.insert_ensures(k as int, sr);
                        assert forall|j1: int, j2: int| 0 <= j1 < j2 < list@.len() implies rank_lt(
                            #[trigger] list@[j1],
                            #[trigger] list@[j2],
                        ) by {
                            if j2 < k {
                                assert(rank_lt(old_list[j1], old_list[j2]));
                            } else if j1 > k {
                                assert(rank_lt(old_list[j1 - 1], old_list[j2 - 1]));
                            } else if j1 == k && j2 > k {
                                assert(list@[j2] == old_list[j2 - 1]);
                            } else if j2 == k {
                                assert(list@[j1] == old_list[j1]);
                            } else {
                                // j1 < k < j2
                                assert(list@[j1] == old_list[j1]);
                                assert(list@[j2] == old_list[j2 - 1]);
                                assert(old_list[j2 - 1].ed > edv);
                            }
                        }
                        assert forall|p: int| 0 <= p < i + 1 && #[trigger] included(q@, queue@[p])
                            implies exists|j: int| 0 <= j < list@.len() && (#[trigger] list@[j]).pos
                            == p by {
                            if p == i {
                                assert(list@[k as int].pos == p);
                            } else {
                                let j0 = choose|j0: int|
                                    0 <= j0 < old_list.len() && (#[trigger] old_list[j0]).pos == p;
                                if j0 < k {
                                    assert(list@[j0].pos == p);
                                } else {
                                    assert(list@[j0 + 1].pos == p);
                                }
                            }
                        }
                    }
                },
                None => {
                    proof {
                        assert forall|p: int| 0 <= p < i + 1 && #[trigger] included(q@, queue@[p])
                            implies exists|j: int| 0 <= j < list@.len() && (#[trigger] list@[j]).pos
                            == p by {
                            if p < i {
                                assert(included(q@, queue@[p]));
                            }
                        }
                    }
                },
            }
            i = i + 1;
        }
    }
    list
}

} // verus!
