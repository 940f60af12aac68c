//! The state bundle driven by the render loop: queue, last snapshot, search
//! list, selection and the rotating status line, with one tick entry point.
//!
//! The host loop owns the clock and the daemon connection; it hands each tick
//! the fetched snapshot (or `None` on a failed poll) and whether the rotation
//! timeout elapsed, and resets its timer when the tick says so.

use vstd::prelude::*;

use crate::display::{gen_switcher, spec_switcher};
use crate::queue::QueueEntry;
use crate::search::{bmp_only, build_list, queue_bmp, rank_post, SearchResult};
use crate::status::{more_of, snap_ok, PlaybackSnapshot};

verus! {

/// The visible list that an empty query produces: every queue entry in queue
/// order, scored zero.
pub open spec fn identity_list(qu: Seq<QueueEntry>, l: Seq<SearchResult>) -> bool {
    &&& l.len() == qu.len()
    &&& forall|i: int| 0 <= i < l.len() ==> (#[trigger] l[i]).pos == i && l[i].ed == 0
}

/// The phase shown right after a track transition: the regular `more` phase
/// when the selection sits on the new current track, else a now-playing
/// preview — phase 1 when a next track exists, phase 0 when none does.
pub open spec fn transition_phase(sel_eq: bool, more: int) -> int {
    if sel_eq {
        more
    } else if more == 2 {
        1
    } else {
        0
    }
}

/// The phase that follows `c` on a rotation timeout: 0 goes to 3, 1 to 2,
/// 2 to 3, and 3 is recomputed by the track-transition rule.
pub open spec fn advance_phase(c: int, sel_eq: bool, more: int) -> int {
    if c == 0 {
        3
    } else if c == 1 {
        2
    } else if c == 2 {
        3
    } else {
        transition_phase(sel_eq, more)
    }
}

/// Law: while the snapshot reports no next song, `more` resolves to 3 and
/// the next-up phase (and the phase 1 that leads to it) stays unreachable
/// from phases 0 and 3, on transitions and timeouts alike.
pub proof fn lemma_phase_two_unreachable(s: PlaybackSnapshot, c: int, sel_eq: bool)
    requires
        s.nextsong is None,
        c == 0 || c == 3,
    ensures
        more_of(s) == 3,
        transition_phase(sel_eq, more_of(s)) == 0 || transition_phase(sel_eq, more_of(s)) == 3,
        advance_phase(c, sel_eq, more_of(s)) == 0 || advance_phase(c, sel_eq, more_of(s)) == 3,
{
}

/// The in-process state bundle: the queue snapshot, the last playback
/// snapshot, the visible (possibly filtered) list, the selection and the
/// rotating status line.
pub struct PlayerCore {
    /// The daemon's play queue, mirrored once at startup.
    pub queue: Vec<QueueEntry>,
    /// Queue position of the current song, as last reported.
    pub current_pos: usize,
    /// The last successfully fetched playback snapshot.
    pub snapshot: PlaybackSnapshot,
    /// Rotator phase, 0 to 3.
    pub cycle: u8,
    /// The rotating status line for the current phase.
    pub switcher: String,
    /// The free-text search query.
    pub search_query: String,
    /// The visible list: the queue ranked against the query.
    pub list: Vec<SearchResult>,
    /// Index of the selected entry in the visible list.
    pub selected: usize,
    /// Queue position of the selected entry.
    pub selected_pos: usize,
    /// Whether the user has diverged from playback since the last reset.
    pub interacted: bool,
    /// Whether the renderer must scroll the selection into view.
    pub need_list_scroll: bool,
}

impl PlayerCore {
    /// Coherence of the bundle: positions lie inside the queue, the visible
    /// list is the ranked result of the current query, and the selection
    /// points at the list entry it claims to.
    pub open spec fn wf(self) -> bool {
        &&& self.queue@.len() >= 1
        &&& queue_bmp(self.queue@)
        &&& self.snapshot.song is Some
        &&& self.snapshot.song->0 == self.current_pos
        &&& self.current_pos < self.queue@.len()
        &&& (self.snapshot.nextsong is Some ==> self.snapshot.nextsong->0 < self.queue@.len())
        &&& self.cycle <= 3
        &&& bmp_only(self.search_query@)
        &&& rank_post(self.search_query@, self.queue@, self.list@)
        &&& (self.search_query@.len() == 0 ==> identity_list(self.queue@, self.list@))
        &&& (!self.interacted ==> self.search_query@.len() == 0)
        &&& (self.list@.len() > 0 ==> self.selected < self.list@.len() && self.selected_pos
            == self.list@[self.selected as int].pos)
        &&& (self.list@.len() == 0 ==> self.selected == 0 && self.selected_pos == self.current_pos)
        &&& self.selected_pos < self.queue@.len()
    }

    /// Build the bundle from the mirrored queue and a first snapshot: empty
    /// query, identity list, selection on the current song, phase at `more`.
    pub fn new(queue: Vec<QueueEntry>, snapshot: PlaybackSnapshot) -> (core: PlayerCore)
        requires
            queue@.len() >= 1,
            queue_bmp(queue@),
            snap_ok(snapshot, queue@.len() as int),
        ensures
            core.wf(),
            core.queue@ == queue@,
            core.snapshot == snapshot,
            core.current_pos == snapshot.song->0,
            core.cycle as int == more_of(snapshot),
            core.switcher@ == spec_switcher(more_of(snapshot), snapshot, queue@),
            core.search_query@.len() == 0,
            identity_list(queue@, core.list@),
            core.selected == snapshot.song->0,
            core.selected_pos == snapshot.song->0,
            !core.interacted,
            core.need_list_scroll,
    {
        proof {
            reveal_strlit("");
            assert(""@ =~= Seq::<char>::empty());
        }
        let cycle = crate::status::more_phase(&snapshot);
        let switcher = gen_switcher(cycle, &snapshot, &queue);
        let list = build_list("", &queue);
        let current_pos = match snapshot.song {
            Some(p) => p,
            None => 0,
        };
        PlayerCore {
            queue,
            current_pos,
            snapshot,
            cycle,
            switcher,
            search_query: String::new(),
            list,
            selected: current_pos,
            selected_pos: current_pos,
            interacted: false,
            need_list_scroll: true,
        }
    }

    /// One poll tick. `fetch` is the freshly fetched snapshot, `None` when
    /// the poll failed; `rotate_timeout` says the rotation timer elapsed.
    /// A failed poll changes nothing. A successful one supersedes the
    /// snapshot; a changed song position is a track transition: while the
    /// user has not diverged the selection follows the new position, and the
    /// phase and status line are recomputed. Otherwise a timeout advances
    /// the phase. The result says whether the host must reset its rotation
    /// timer.
    pub fn tick(&mut self, fetch: Option<PlaybackSnapshot>, rotate_timeout: bool) -> (timer_reset:
        bool)
        requires
            old(self).wf(),
            fetch matches Some(s) ==> snap_ok(s, old(self).queue@.len() as int),
            fetch matches Some(s) ==> ((s.song->0 == old(self).current_pos && rotate_timeout
                && old(self).cycle == 1) ==> s.nextsong is Some),
        ensures
            final(self).wf(),
            fetch is None ==> *final(self) == *old(self) && !timer_reset,
            fetch matches Some(s) ==> final(self).snapshot == s
                && final(self).current_pos == s.song->0
                && final(self).queue@ == old(self).queue@
                && final(self).search_query@ == old(self).search_query@
                && final(self).list@ == old(self).list@
                && final(self).interacted == old(self).interacted,
            fetch matches Some(s) ==> ((s.song->0 != old(self).current_pos
                && !old(self).interacted) ==> final(self).selected == s.song->0
                && final(self).selected_pos == s.song->0
                && final(self).need_list_scroll),
            fetch matches Some(s) ==> ((s.song->0 != old(self).current_pos
                && old(self).interacted) ==> final(self).selected == old(self).selected
                && (old(self).list@.len() > 0 ==> final(self).selected_pos == old(self).selected_pos)
                && (old(self).list@.len() == 0 ==> final(self).selected_pos == s.song->0)
                && final(self).need_list_scroll == old(self).need_list_scroll),
            fetch matches Some(s) ==> (s.song->0 != old(self).current_pos ==> timer_reset
                && final(self).cycle as int
                == transition_phase(final(self).selected_pos == s.song->0, more_of(s))
                && final(self).switcher@
                == spec_switcher(final(self).cycle as int, s, old(self).queue@)),
            fetch matches Some(s) ==> (s.song->0 == old(self).current_pos
                ==> final(self).selected == old(self).selected
                && final(self).selected_pos == old(self).selected_pos
                && final(self).need_list_scroll == old(self).need_list_scroll),
            fetch matches Some(s) ==> ((s.song->0 == old(self).current_pos && rotate_timeout)
                ==> timer_reset
                && final(self).cycle as int == advance_phase(
                old(self).cycle as int,
                old(self).selected_pos == old(self).current_pos,
                more_of(s),
            )
                && final(self).switcher@
                == spec_switcher(final(self).cycle as int, s, old(self).queue@)),
            fetch matches Some(s) ==> ((s.song->0 == old(self).current_pos && !rotate_timeout)
                ==> !timer_reset && final(self).cycle == old(self).cycle
                && final(self).switcher@ == old(self).switcher@),
    {
        match fetch {
            None => false,
            Some(s) => {
                let newpos = match s.song {
                    Some(p) => p,
                    None => 0,
                };
                let more = crate::status::more_phase(&s);
                let mut reset = false;
                if newpos != self.current_pos {
                    if !self.interacted {
                        self.selected = newpos;
                        self.selected_pos = newpos;
                        self.need_list_scroll = true;
                    } else if self.list.len() == 0 {
                        // with nothing to select, the selection stays pinned
                        // to the current song
                        self.selected_pos = newpos;
                    }
                    let cycle: u8 = if self.selected_pos == newpos {
                        more
                    } else if more == 2 {
                        1
                    } else {
                        0
                    };
                    let switcher = gen_switcher(cycle, &s, &self.queue);
                    self.cycle = cycle;
                    self.switcher = switcher;
                    reset = true;
                } else if rotate_timeout {
                    let c = self.cycle;
                    let cycle: u8 = if c == 0 {
                        3
                    } else if c == 1 {
                        2
                    } else if c == 2 {
                        3
                    } else if self.selected_pos == newpos {
                        more
                    } else if more == 2 {
                        1
                    } else {
                        0
                    };
                    let switcher = gen_switcher(cycle, &s, &self.queue);
                    self.cycle = cycle;
                    self.switcher = switcher;
                    reset = true;
                }
                self.snapshot = s;
                self.current_pos = newpos;
                reset
            },
        }
    }

    /// Reset: clear the query, snap the selection back to the current song,
    /// ask for a re-scroll, and clear the diverged flag.
    pub fn reset(&mut self)
        requires
            old(self).wf(),
        ensures
            final(self).wf(),
            final(self).search_query@.len() == 0,
            !final(self).interacted,
            final(self).selected_pos == final(self).current_pos,
            final(self).selected == final(self).current_pos,
            final(self).need_list_scroll,
            identity_list(final(self).queue@, final(self).list@),
            final(self).queue@ == old(self).queue@,
            final(self).snapshot == old(self).snapshot,
            final(self).current_pos == old(self).current_pos,
            final(self).cycle == old(self).cycle,
            final(self).switcher@ == old(self).switcher@,
    {
        proof {
            reveal_strlit("");
            assert(""@ =~= Seq::<char>::empty());
        }
        let list = build_list("", &self.queue);
        self.search_query = String::new();
        self.list = list;
        self.selected = self.current_pos;
        self.selected_pos = self.current_pos;
        self.need_list_scroll = true;
        self.interacted = false;
    }

    /// Replace the query and rebuild the visible list. A non-empty query
    /// selects the best match (or keeps the selection on the current song
    /// when nothing matches) and marks the user as diverged; an empty one
    /// behaves as a reset of the selection.
    pub fn set_query(&mut self, q: String)
        requires
            old(self).wf(),
            bmp_only(q@),
        ensures
            final(self).wf(),
            final(self).search_query@ == q@,
            rank_post(q@, final(self).queue@, final(self).list@),
            (q@.len() > 0 && final(self).list@.len() > 0) ==> final(self).selected == 0
                && final(self).selected_pos == final(self).list@[0].pos
                && final(self).interacted
                && final(self).need_list_scroll == old(self).need_list_scroll,
            (q@.len() > 0 && final(self).list@.len() == 0) ==> final(self).selected == 0
                && final(self).selected_pos == final(self).current_pos
                && final(self).interacted
                && final(self).need_list_scroll == old(self).need_list_scroll,
            q@.len() == 0 ==> final(self).selected == final(self).current_pos
                && final(self).selected_pos == final(self).current_pos
                && !final(self).interacted
                && final(self).need_list_scroll,
            final(self).queue@ == old(self).queue@,
            final(self).snapshot == old(self).snapshot,
            final(self).current_pos == old(self).current_pos,
            final(self).cycle == old(self).cycle,
            final(self).switcher@ == old(self).switcher@,
    {
        let list = build_list(q.as_str(), &self.queue);
        self.list = list;
        if !q.as_str().is_empty() {
            self.search_query = q;
            self.selected = 0;
            if self.list.len() > 0 {
                self.selected_pos = self.list[0].pos;
            } else {
                self.selected_pos = self.current_pos;
            }
            self.interacted = true;
        } else {
            self.search_query = q;
            self.selected = self.current_pos;
            self.selected_pos = self.current_pos;
            self.need_list_scroll = true;
            self.interacted = false;
        }
    }

    /// Move the selection one entry down (or up) the visible list, wrapping
    /// at the ends; marks the user as diverged. Nothing happens on an empty
    /// list.
    pub fn tab_cycle(&mut self, backward: bool)
        requires
            old(self).wf(),
        ensures
            final(self).wf(),
            old(self).list@.len() == 0 ==> *final(self) == *old(self),
            old(self).list@.len() > 0 ==> final(self).selected as int == (if backward {
                if old(self).selected == 0 {
                    old(self).list@.len() - 1
                } else {
                    old(self).selected - 1
                }
            } else {
                if old(self).selected as int == old(self).list@.len() - 1 {
                    0
                } else {
                    old(self).selected + 1
                }
            }) && final(self).selected_pos == old(self).list@[final(self).selected as int].pos
                && final(self).interacted && final(self).need_list_scroll,
            final(self).queue@ == old(self).queue@,
            final(self).snapshot == old(self).snapshot,
            final(self).current_pos == old(self).current_pos,
            final(self).cycle == old(self).cycle,
            final(self).switcher@ == old(self).switcher@,
            final(self).search_query@ == old(self).search_query@,
            final(self).list@ == old(self).list@,
    {
        if self.list.len() > 0 {
            if backward {
                if self.selected == 0 {
                    self.selected = self.list.len() - 1;
                } else {
                    self.selected = self.selected - 1;
                }
            } else {
                if self.selected == self.list.len() - 1 {
                    self.selected = 0;
                } else {
                    self.selected = self.selected + 1;
                }
            }
            self.selected_pos = self.list[self.selected].pos;
            self.need_list_scroll = true;
            self.interacted = true;
        }
    }

    /// Select the list entry at `index` (a pointer click); marks the user as
    /// diverged.
    pub fn click_select(&mut self, index: usize)
        requires
            old(self).wf(),
            index < old(self).list@.len(),
        ensures
            final(self).wf(),
            final(self).selected == index,
            final(self).selected_pos == old(self).list@[index as int].pos,
            final(self).interacted,
            final(self).need_list_scroll == old(self).need_list_scroll,
            final(self).queue@ == old(self).queue@,
            final(self).snapshot == old(self).snapshot,
            final(self).current_pos == old(self).current_pos,
            final(self).cycle == old(self).cycle,
            final(self).switcher@ == old(self).switcher@,
            final(self).search_query@ == old(self).search_query@,
            final(self).list@ == old(self).list@,
    {
        self.selected = index;
        self.selected_pos = self.list[index].pos;
        self.interacted = true;
    }

    /// Note a pointer press anywhere: the user has diverged from playback.
    pub fn pointer_pressed(&mut self)
        requires
            old(self).wf(),
        ensures
            final(self).wf(),
            final(self).interacted,
            final(self).queue@ == old(self).queue@,
            final(self).snapshot == old(self).snapshot,
            final(self).current_pos == old(self).current_pos,
            final(self).cycle == old(self).cycle,
            final(self).switcher@ == old(self).switcher@,
            final(self).search_query@ == old(self).search_query@,
            final(self).list@ == old(self).list@,
            final(self).selected == old(self).selected,
            final(self).selected_pos == old(self).selected_pos,
            final(self).need_list_scroll == old(self).need_list_scroll,
    {
        self.interacted = true;
    }

    /// Note scroll-wheel movement: while not already diverged it marks the
    /// user as diverged and stops the pending auto-scroll.
    pub fn scroll_moved(&mut self)
        requires
            old(self).wf(),
        ensures
            final(self).wf(),
            old(self).interacted ==> *final(self) == *old(self),
            !old(self).interacted ==> final(self).interacted && !final(self).need_list_scroll,
            final(self).queue@ == old(self).queue@,
            final(self).snapshot == old(self).snapshot,
            final(self).current_pos == old(self).current_pos,
            final(self).cycle == old(self).cycle,
            final(self).switcher@ == old(self).switcher@,
            final(self).search_query@ == old(self).search_query@,
            final(self).list@ == old(self).list@,
            final(self).selected == old(self).selected,
            final(self).selected_pos == old(self).selected_pos,
    {
        if !self.interacted {
            self.interacted = true;
            self.need_list_scroll = false;
        }
    }
}

} // verus!
