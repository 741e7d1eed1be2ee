use crate::system::{ComposeCommand, DrawCommand};
use vstd::prelude::*;

verus! {

/// The per-frame hand-off between the scheduler and the draw system: the
/// acquired image index and the frame's sizes go in before recording, the
/// two recorded command sequences come out, and recording consumes what it
/// was handed.
pub struct Rendering {
    pub image_num: Option<usize>,
    pub command_buffer: Option<Vec<DrawCommand>>,
    pub second_command_buffer: Option<Vec<ComposeCommand>>,
    pub size_points: Option<(u32, u32)>,
    pub size_pixels: Option<(u32, u32)>,
}

impl Rendering {
    /// An empty hand-off: nothing acquired, nothing recorded.
    pub fn new() -> (r: Self)
        ensures
            r.image_num is None,
            r.command_buffer is None,
            r.second_command_buffer is None,
            r.size_points is None,
            r.size_pixels is None,
    {
        Rendering {
            image_num: None,
            command_buffer: None,
            second_command_buffer: None,
            size_points: None,
            size_pixels: None,
        }
    }
}

/// Whether the window currently has focus.
pub struct Activated(pub bool);

/// Frames presented during the last counting interval.
pub struct FpsCounter(pub usize);

/// Whether debug drawing is switched on.
pub struct DebugMode(pub bool);

/// Elapsed play time of the current game, in milliseconds.
pub struct GameDuration(pub u64);

/// Level changes requested by gameplay, applied between frames.
pub struct LevelActions(pub Vec<LevelAction>);

/// One requested level change.
#[derive(Clone, Copy, PartialEq, Eq, Structural, Debug)]
pub enum LevelAction {
    Next,
    Reset,
    ReturnHall,
    Level(usize),
}

/// Which kind of maze the current level was generated from.  The maze's
/// cell data itself is owned by the level generator.
#[derive(Clone, Copy, PartialEq, Eq, Structural, Debug)]
pub enum Maze {
    Maze2D,
    Maze3D,
}

impl Maze {
    /// Whether the maze extends in three dimensions.
    pub fn is_3d(&self) -> (r: bool)
        ensures
            r == (*self is Maze3D),
    {
        match *self {
            Maze::Maze2D => false,
            Maze::Maze3D => true,
        }
    }
}

/// The sequence is ordered from smallest to largest.
pub open spec fn sorted(s: Seq<u64>) -> bool {
    forall|i: int, j: int| 0 <= i < j < s.len() ==> s[i] <= s[j]
}

/// Where a stable sort places `d` in the already sorted `s`: after every
/// element less than or equal to it.
pub open spec fn insert_pos(s: Seq<u64>, d: u64) -> int
    decreases s.len(),
{
    if s.len() == 0 {
        0
    } else if s[0] > d {
        0
    } else {
        1 + insert_pos(s.drop_first(), d)
    }
}

/// The sorted sequence `s` with `d` placed at its stable position.
pub open spec fn sorted_insert(s: Seq<u64>, d: u64) -> Seq<u64> {
    s.insert(insert_pos(s, d), d)
}

/// The first `n` elements of `s`, or all of `s` when it is shorter.
pub open spec fn truncated(s: Seq<u64>, n: int) -> Seq<u64> {
    if s.len() <= n {
        s
    } else {
        s.take(n)
    }
}

/// For a sorted `s`, the position with everything at most `d` before it and
/// something greater than `d` (or the end) at it is the stable insert
/// position.
proof fn lemma_insert_pos_char(s: Seq<u64>, d: u64, i: int)
    requires
        0 <= i <= s.len(),
        forall|k: int| 0 <= k < i ==> s[k] <= d,
        i == s.len() || s[i] > d,
    ensures
        insert_pos(s, d) == i,
    decreases s.len(),
{
    if s.len() == 0 {
    } else if s[0] > d {
        assert(i == 0);
    } else {
        assert(i >= 1);
        lemma_insert_pos_char(s.drop_first(), d, i - 1);
    }
}

/// A level's completion-time records, in milliseconds: the ten best times
/// in ascending order and the ten most recent times, newest first.
pub struct Score {
    pub bests: Vec<u64>,
    pub lasts: Vec<u64>,
}

impl Score {
    /// The best list is sorted, and both lists keep at most ten entries.
    pub open spec fn wf(self) -> bool {
        &&& sorted(self.bests@)
        &&& self.bests@.len() <= 10
        &&& self.lasts@.len() <= 10
    }

    /// A level with no recorded times.
    pub fn new() -> (s: Self)
        ensures
            s.wf(),
            s.bests@.len() == 0,
            s.lasts@.len() == 0,
    {
        Score { bests: Vec::new(), lasts: Vec::new() }
    }

    /// Records one completion time: it joins the best list at its sorted
    /// position and the front of the recent list, and each list keeps its
    /// ten foremost entries.
    pub fn insert(&mut self, duration: u64)
        requires
            old(self).wf(),
        ensures
            final(self).wf(),
            final(self).bests@ == truncated(sorted_insert(old(self).bests@, duration), 10),
            final(self).lasts@ == truncated(seq![duration] + old(self).lasts@, 10),
    {
        let ghost old_bests = self.bests@;
        let mut p: usize = 0;
        while p < self.bests.len() && self.bests[p] <= duration
            invariant
                p <= self.bests@.len(),
                self.bests@ == old_bests,
                forall|k: int| 0 <= k < p ==> self.bests@[k] <= duration,
            decreases self.bests@.len() - p,
        {
            p = p + 1;
        }
        proof {
            lemma_insert_pos_char(old_bests, duration, p as int);
        }
        self.bests.insert(p, duration);
        if self.bests.len() > 10 {
            self.bests.truncate(10);
        }

        let ghost old_lasts = self.lasts@;
        self.lasts.insert(0, duration);
        proof {
            assert(self.lasts@ =~= seq![duration] + old_lasts);
        }
        if self.lasts.len() > 10 {
            self.lasts.truncate(10);
        }
    }
}

} // verus!
