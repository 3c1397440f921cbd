//! The log shown in the window: the most recent lines, at most a fixed
//! number of them.

use vstd::prelude::*;

verus! {

/// How many lines the log keeps.
pub const LOG_CAPACITY: usize = 200;

/// The last `n` elements of `s`, or all of them where there are fewer.
pub open spec fn keep_last<T>(s: Seq<T>, n: nat) -> Seq<T> {
    if s.len() > n {
        s.subrange(s.len() - n, s.len() as int)
    } else {
        s
    }
}

/// The lines of the log, oldest first.
pub struct LogBuffer {
    lines: Vec<String>,
}

impl View for LogBuffer {
    type V = Seq<Seq<char>>;

    closed spec fn view(&self) -> Seq<Seq<char>> {
        self.lines@.map_values(|l: String| l@)
    }
}

impl LogBuffer {
    #[verifier::type_invariant]
    spec fn inv(&self) -> bool {
        self.lines@.len() <= LOG_CAPACITY
    }

    /// An empty log.
    pub fn new() -> (r: LogBuffer)
        ensures
            r@ == Seq::<Seq<char>>::empty(),
    {
        let r = LogBuffer { lines: Vec::new() };
        assert(r.lines@.map_values(|l: String| l@) =~= Seq::<Seq<char>>::empty());
        r
    }

    /// The number of lines kept.
    pub fn len(&self) -> (r: usize)
        ensures
            r == self@.len(),
            r <= LOG_CAPACITY,
    {
        proof {
            use_type_invariant(self);
        }
        self.lines.len()
    }

    /// The line at `i`, oldest first.
    pub fn line(&self, i: usize) -> (r: &String)
        requires
            i < self@.len(),
        ensures
            r@ == self@[i as int],
    {
        &self.lines[i]
    }

    /// Adds a line, dropping the oldest one when the log is full.
    pub fn push(&mut self, line: String)
        ensures
            final(self)@ == keep_last(old(self)@.push(line@), LOG_CAPACITY as nat),
    {
        proof {
            use_type_invariant(&*self);
        }
        let ghost l = line@;
        let mut lines: Vec<String> = Vec::new();
        std::mem::swap(&mut lines, &mut self.lines);
        lines.push(line);
        if lines.len() > LOG_CAPACITY {
            lines.remove(0);
        }
        assert(lines@.map_values(|x: String| x@) =~= keep_last(
            old(self)@.push(l),
            LOG_CAPACITY as nat,
        ));
        self.lines = lines;
    }

    /// Adds several lines in order, then keeps only the newest
    /// `LOG_CAPACITY`.
    pub fn push_all(&mut self, new_lines: Vec<String>)
        ensures
            final(self)@ == keep_last(
                old(self)@ + new_lines@.map_values(|l: String| l@),
                LOG_CAPACITY as nat,
            ),
    {
        proof {
            use_type_invariant(&*self);
        }
        let ghost start = self.lines@;
        let ghost added = new_lines@;
        let mut lines: Vec<String> = Vec::new();
        std::mem::swap(&mut lines, &mut self.lines);
        let mut more = new_lines;
        lines.append(&mut more);
        assert(lines@ == start + added);
        let len = lines.len();
        if len > LOG_CAPACITY {
            let kept = lines.split_off(len - LOG_CAPACITY);
            assert(kept@.map_values(|l: String| l@) =~= keep_last(
                old(self)@ + added.map_values(|l: String| l@),
                LOG_CAPACITY as nat,
            ));
            self.lines = kept;
        } else {
            assert(lines@.map_values(|l: String| l@) =~= old(self)@ + added.map_values(
                |l: String| l@,
            ));
            self.lines = lines;
        }
    }
}

/// Trimming after every line gives the same log as trimming once after all
/// of them: the log always holds the newest lines ever added, up to its
/// capacity.
pub proof fn law_trim_composes<T>(s: Seq<T>, t: Seq<T>, n: nat)
    ensures
        keep_last(keep_last(s, n) + t, n) == keep_last(s + t, n),
{
    let a = keep_last(s, n);
    if s.len() > n {
        if (a + t).len() > n {
            assert(keep_last(a + t, n) =~= keep_last(s + t, n));
        } else {
            assert(keep_last(a + t, n) =~= keep_last(s + t, n));
        }
    } else {
        assert(a == s);
    }
}

/// Adding lines one at a time keeps the same log as adding them together.
pub proof fn law_push_one_equals_push_all<T>(s: Seq<T>, x: T, n: nat)
    ensures
        keep_last(keep_last(s, n).push(x), n) == keep_last(s + seq![x], n),
{
    law_trim_composes(s, seq![x], n);
    assert(keep_last(s, n).push(x) =~= keep_last(s, n) + seq![x]);
}

} // verus!
