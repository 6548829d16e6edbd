//! Console histories: the bounded record of the lines a server printed.
use std::collections::VecDeque;
use vstd::prelude::*;

verus! {

/// The number of console lines kept for late subscribers.
pub const MAX_LINES: usize = 500;

/// The last `MAX_LINES` elements of `s` (all of them if there are fewer).
pub open spec fn keep_last<T>(s: Seq<T>) -> Seq<T> {
    if s.len() > MAX_LINES {
        s.skip(s.len() - MAX_LINES)
    } else {
        s
    }
}

/// The history after recording each of `lines` in turn, starting empty.
pub open spec fn history_of(lines: Seq<Seq<char>>) -> Seq<Seq<char>>
    decreases lines.len(),
{
    if lines.len() == 0 {
        Seq::empty()
    } else {
        keep_last(history_of(lines.drop_last()).push(lines.last()))
    }
}

/// The lines a console actor has kept, oldest first, at most `MAX_LINES`.
pub struct ConsoleHistory {
    lines: VecDeque<String>,
}

impl View for ConsoleHistory {
    type V = Seq<Seq<char>>;

    closed spec fn view(&self) -> Seq<Seq<char>> {
        self.lines@.map_values(|s: String| s@)
    }
}

impl ConsoleHistory {
    #[verifier::type_invariant]
    spec fn bounded(self) -> bool {
        self.lines@.len() <= MAX_LINES
    }

    /// An empty history.
    pub fn new() -> (res: ConsoleHistory)
        ensures
            res@ == Seq::<Seq<char>>::empty(),
    {
        let res = ConsoleHistory { lines: VecDeque::new() };
        assert(res@ =~= Seq::<Seq<char>>::empty());
        res
    }

    /// The number of lines kept.
    pub fn len(&self) -> (res: usize)
        ensures
            res == self@.len(),
            res <= MAX_LINES,
    {
        proof {
            use_type_invariant(self);
        }
        self.lines.len()
    }

    /// Records a line printed by the server: once `MAX_LINES` lines are kept,
    /// the oldest one is dropped to make room.
    pub fn record(&mut self, line: String)
        ensures
            final(self)@ == keep_last(old(self)@.push(line@)),
            final(self)@.len() <= MAX_LINES,
    {
        proof {
            use_type_invariant(&*self);
        }
        let ghost before = self@;
        let ghost l = line@;
        let mut lines = VecDeque::new();
        std::mem::swap(&mut lines, &mut self.lines);
        if lines.len() >= MAX_LINES {
            lines.pop_front();
        }
        lines.push_back(line);
        self.lines = lines;
        proof {
            let s = before.push(l);
            if before.len() >= MAX_LINES {
                assert(self@ =~= s.skip(s.len() - MAX_LINES));
            } else {
                assert(self@ =~= s);
            }
        }
    }

    /// A copy of the kept lines, oldest first.
    pub fn snapshot(&self) -> (res: Vec<String>)
        ensures
            res@.map_values(|s: String| s@) == self@,
    {
        let n = self.lines.len();
        let mut res: Vec<String> = Vec::new();
        let mut i: usize = 0;
        while i < n
            invariant
                n == self.lines@.len(),
                i <= n,
                res@.len() == i,
                forall|k: int| 0 <= k < i ==> #[trigger] res@[k]@ == self.lines@[k]@,
            decreases n - i,
        {
            let s = self.lines[i].clone();
            res.push(s);
            i = i + 1;
        }
        assert(res@.map_values(|s: String| s@) =~= self@);
        res
    }
}

/// Keeping the last lines of a history that already holds only last lines,
/// after appending one more, is keeping the last lines of the whole.
proof fn lemma_keep_last_push<T>(s: Seq<T>, l: T)
    ensures
        keep_last(keep_last(s).push(l)) == keep_last(s.push(l)),
{
    if s.len() > MAX_LINES {
        let k = keep_last(s);
        assert(k.push(l).skip(1) =~= s.push(l).skip(s.push(l).len() - MAX_LINES));
    } else if s.len() == MAX_LINES {
    } else {
    }
}

/// Whatever lines were recorded, a history holds exactly the last
/// `MAX_LINES` of them (all of them if there were fewer), oldest first.
pub proof fn lemma_history_is_last_lines(lines: Seq<Seq<char>>)
    ensures
        history_of(lines) == keep_last(lines),
        history_of(lines).len() <= MAX_LINES,
    decreases lines.len(),
{
    if lines.len() == 0 {
    } else {
        let init = lines.drop_last();
        lemma_history_is_last_lines(init);
        lemma_keep_last_push(init, lines.last());
        assert(init.push(lines.last()) =~= lines);
    }
}

/// The history a `McServer` keeps: newest line first. A line is dropped from
/// the old end only when more than `MAX_LINES` are kept, so it holds at most
/// `MAX_LINES + 1` lines.
pub open spec fn mc_record(h: Seq<Seq<char>>, line: Seq<char>) -> Seq<Seq<char>> {
    seq![line] + (if h.len() > MAX_LINES {
        h.drop_last()
    } else {
        h
    })
}

/// The newest-first history after recording each of `lines` in turn.
pub open spec fn mc_history_of(lines: Seq<Seq<char>>) -> Seq<Seq<char>>
    decreases lines.len(),
{
    if lines.len() == 0 {
        Seq::empty()
    } else {
        mc_record(mc_history_of(lines.drop_last()), lines.last())
    }
}

/// The newest `MAX_LINES + 1` of `lines`, newest first.
pub open spec fn newest_first(lines: Seq<Seq<char>>) -> Seq<Seq<char>> {
    let r = lines.reverse();
    if r.len() > MAX_LINES + 1 {
        r.take(MAX_LINES + 1)
    } else {
        r
    }
}

/// The console history of a `McServer`, newest line first.
pub struct McHistory {
    lines: VecDeque<String>,
}

impl View for McHistory {
    type V = Seq<Seq<char>>;

    closed spec fn view(&self) -> Seq<Seq<char>> {
        self.lines@.map_values(|s: String| s@)
    }
}

impl McHistory {
    #[verifier::type_invariant]
    spec fn bounded(self) -> bool {
        self.lines@.len() <= MAX_LINES + 1
    }

    /// An empty history.
    pub fn new() -> (res: McHistory)
        ensures
            res@ == Seq::<Seq<char>>::empty(),
    {
        let res = McHistory { lines: VecDeque::new() };
        assert(res@ =~= Seq::<Seq<char>>::empty());
        res
    }

    /// Records a line in front; the oldest line is dropped first when more
    /// than `MAX_LINES` lines are kept.
    pub fn record(&mut self, line: String)
        ensures
            final(self)@ == mc_record(old(self)@, line@),
            final(self)@.len() <= MAX_LINES + 1,
    {
        proof {
            use_type_invariant(&*self);
        }
        let ghost before = self@;
        let ghost l = line@;
        let mut lines = VecDeque::new();
        std::mem::swap(&mut lines, &mut self.lines);
        if lines.len() > MAX_LINES {
            lines.pop_back();
        }
        lines.push_front(line);
        self.lines = lines;
        assert(self@ =~= mc_record(before, l));
    }

    /// Forgets all lines.
    pub fn clear(&mut self)
        ensures
            final(self)@ == Seq::<Seq<char>>::empty(),
    {
        self.lines = VecDeque::new();
        assert(self@ =~= Seq::<Seq<char>>::empty());
    }

    /// The kept lines, oldest first, as they are sent to a console client.
    pub fn oldest_first(&self) -> (res: Vec<String>)
        ensures
            res@.map_values(|s: String| s@) == self@.reverse(),
    {
        let n = self.lines.len();
        let mut res: Vec<String> = Vec::new();
        let mut i: usize = n;
        while i > 0
            invariant
                n == self.lines@.len(),
                i <= n,
                res@.len() == n - i,
                forall|k: int| 0 <= k < n - i ==> #[trigger] res@[k]@ == self.lines@[n - 1 - k]@,
            decreases i,
        {
            i = i - 1;
            let s = self.lines[i].clone();
            res.push(s);
        }
        assert(res@.map_values(|s: String| s@) =~= self@.reverse());
        res
    }
}

/// Whatever lines were recorded, a `McServer` history holds the newest
/// `MAX_LINES + 1` of them, newest first.
pub proof fn lemma_mc_history_is_newest_lines(lines: Seq<Seq<char>>)
    ensures
        mc_history_of(lines) == newest_first(lines),
        mc_history_of(lines).len() <= MAX_LINES + 1,
    decreases lines.len(),
{
    if lines.len() == 0 {
        assert(newest_first(lines) =~= Seq::<Seq<char>>::empty());
    } else {
        let init = lines.drop_last();
        lemma_mc_history_is_newest_lines(init);
        let h = mc_history_of(init);
        let r = lines.reverse();
        let ri = init.reverse();
        assert(r =~= seq![lines.last()] + ri);
        if ri.len() > MAX_LINES + 1 {
            assert(h =~= ri.take(MAX_LINES + 1));
            assert(mc_history_of(lines) =~= r.take(MAX_LINES + 1));
        } else if ri.len() == MAX_LINES + 1 {
            assert(mc_history_of(lines) =~= r.take(MAX_LINES + 1));
        } else {
            assert(mc_history_of(lines) =~= r);
        }
    }
}

} // verus!
