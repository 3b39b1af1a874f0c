//! Finding the start of the last `n` lines of a file by reading it backwards
//! in fixed-size chunks.
//!
//! The scan is a state machine: it asks for a chunk (`TailStep::Read`), is
//! handed the bytes, and either answers (`TailStep::Done`) or asks for the
//! chunk before it. Whoever owns the file performs the reads.

use vstd::prelude::*;

verus! {

/// The size of the chunks the scan reads, the last chunk of a file first.
pub const TAIL_CHUNK: usize = 8192;

/// The newline byte.
pub const NEWLINE: u8 = 10;

/// The number of newline bytes in `s`.
pub open spec fn count_newlines(s: Seq<u8>) -> nat
    decreases s.len(),
{
    if s.len() == 0 {
        0
    } else {
        count_newlines(s.drop_last()) + if s.last() == NEWLINE {
            1nat
        } else {
            0nat
        }
    }
}

/// The offset just past the `k`-th newline of `s`, counting newlines from the
/// end of `s` (the last newline is the first); 0 when `s` holds fewer than `k`
/// newlines.
pub open spec fn after_newline_from_end(s: Seq<u8>, k: nat) -> int
    decreases s.len(),
{
    if s.len() == 0 {
        0
    } else if s.last() == NEWLINE {
        if k <= 1 {
            s.len() as int
        } else {
            after_newline_from_end(s.drop_last(), (k - 1) as nat)
        }
    } else {
        after_newline_from_end(s.drop_last(), k)
    }
}

/// Where the last `num_lines` lines of `content` begin: just past the
/// `(num_lines + 1)`-th newline from the end, or 0 when there are not that
/// many newlines.
pub open spec fn tail_start(content: Seq<u8>, num_lines: nat) -> int {
    after_newline_from_end(content, num_lines + 1)
}

/// The size of the chunk that ends at `pos`.
pub open spec fn chunk_size(pos: u64) -> int {
    if pos < TAIL_CHUNK {
        pos as int
    } else {
        TAIL_CHUNK as int
    }
}

pub proof fn lemma_count_single(x: u8)
    ensures
        count_newlines(seq![x]) == if x == NEWLINE {
            1nat
        } else {
            0nat
        },
{
    reveal_with_fuel(count_newlines, 2);
    assert(seq![x].drop_last() =~= Seq::<u8>::empty());
    assert(seq![x].last() == x);
}

pub proof fn lemma_after_newline_bounds(s: Seq<u8>, k: nat)
    ensures
        0 <= after_newline_from_end(s, k) <= s.len(),
    decreases s.len(),
{
    if s.len() > 0 {
        lemma_after_newline_bounds(s.drop_last(), if s.last() == NEWLINE && k > 1 {
            (k - 1) as nat
        } else {
            k
        });
    }
}

pub proof fn lemma_count_concat(a: Seq<u8>, b: Seq<u8>)
    ensures
        count_newlines(a + b) == count_newlines(a) + count_newlines(b),
    decreases b.len(),
{
    if b.len() == 0 {
        assert(a + b =~= a);
    } else {
        assert((a + b).drop_last() =~= a + b.drop_last());
        lemma_count_concat(a, b.drop_last());
    }
}

pub proof fn lemma_after_newline_concat(a: Seq<u8>, b: Seq<u8>, k: nat)
    requires
        k >= 1,
    ensures
        count_newlines(b) >= k ==> after_newline_from_end(a + b, k) == a.len()
            + after_newline_from_end(b, k),
        count_newlines(b) < k ==> after_newline_from_end(a + b, k) == after_newline_from_end(
            a,
            (k - count_newlines(b)) as nat,
        ),
    decreases b.len(),
{
    if b.len() == 0 {
        assert(a + b =~= a);
    } else {
        assert((a + b).drop_last() =~= a + b.drop_last());
        assert((a + b).last() == b.last());
        if b.last() == NEWLINE {
            if k > 1 {
                lemma_after_newline_concat(a, b.drop_last(), (k - 1) as nat);
            }
        } else {
            lemma_after_newline_concat(a, b.drop_last(), k);
        }
    }
}

proof fn lemma_after_newline_characterized(s: Seq<u8>, k: nat)
    requires
        k >= 1,
    ensures
        count_newlines(s) < k ==> after_newline_from_end(s, k) == 0,
        count_newlines(s) >= k ==> {
            let off = after_newline_from_end(s, k);
            &&& 1 <= off <= s.len()
            &&& s[off - 1] == NEWLINE
            &&& count_newlines(s.subrange(off, s.len() as int)) == k - 1
        },
    decreases s.len(),
{
    if s.len() > 0 {
        let init = s.drop_last();
        let k2: nat = if s.last() == NEWLINE && k > 1 {
            (k - 1) as nat
        } else {
            k
        };
        lemma_after_newline_characterized(init, k2);
        if count_newlines(s) >= k {
            let off = after_newline_from_end(s, k);
            if s.last() == NEWLINE && k <= 1 {
                assert(s.subrange(off, s.len() as int) =~= Seq::<u8>::empty());
            } else {
                assert(s.subrange(off, s.len() as int) =~= init.subrange(off, init.len() as int).push(
                    s.last(),
                ));
                assert(s.subrange(off, s.len() as int).drop_last() =~= init.subrange(
                    off,
                    init.len() as int,
                ));
            }
        }
    }
}

/// The last lines of a file begin just past a newline, and hold exactly
/// `num_lines` newlines, when the file holds more than `num_lines`
/// newlines; otherwise they are the whole file.
pub proof fn lemma_tail_start_holds_last_lines(content: Seq<u8>, num_lines: nat)
    ensures
        count_newlines(content) <= num_lines ==> tail_start(content, num_lines) == 0,
        count_newlines(content) > num_lines ==> {
            let start = tail_start(content, num_lines);
            &&& 1 <= start <= content.len()
            &&& content[start - 1] == NEWLINE
            &&& count_newlines(content.subrange(start, content.len() as int)) == num_lines
        },
{
    lemma_after_newline_characterized(content, num_lines + 1);
}

/// What the scan asks for next.
#[derive(PartialEq, Eq, Debug)]
pub enum TailStep {
    /// Read `len` bytes of the file starting at `offset`, and hand them to
    /// [`TailScan::feed`].
    Read { offset: u64, len: usize },
    /// The last lines begin at this offset.
    Done(u64),
}

/// The state of a backward scan for the start of the last `num_lines` lines.
pub struct TailScan {
    /// Where the chunk asked for last begins; nothing before it has been seen.
    pub pos: u64,
    /// The length of the chunk asked for last.
    pub chunk_len: usize,
    /// Newlines seen so far, all after `pos + chunk_len`.
    pub lines_found: usize,
    /// How many trailing lines are wanted.
    pub num_lines: usize,
}

impl TailScan {
    /// The scan is waiting for the chunk `[pos, pos + chunk_len)`, and has
    /// not yet seen more newlines than lines are wanted.
    pub open spec fn wf(&self) -> bool {
        &&& self.chunk_len as int == chunk_size((self.pos + self.chunk_len) as u64)
        &&& self.pos + self.chunk_len <= u64::MAX
        &&& self.lines_found <= self.num_lines
    }

    /// How many more newlines the scan has to see before it answers.
    pub open spec fn needed(&self) -> nat {
        (self.num_lines - self.lines_found + 1) as nat
    }

    /// Starts a scan of a file of `file_len` bytes for its last `num_lines`
    /// lines. An empty file answers 0 at once; otherwise the last chunk of
    /// the file is asked for.
    pub fn start(file_len: u64, num_lines: usize) -> (res: (TailScan, TailStep))
        ensures
            res.0.wf(),
            res.0.num_lines == num_lines,
            res.0.lines_found == 0,
            res.0.pos + res.0.chunk_len == file_len,
            file_len == 0 ==> res.1 == TailStep::Done(0),
            file_len > 0 ==> res.1 == (TailStep::Read { offset: res.0.pos, len: res.0.chunk_len }),
    {
        let len: usize = if file_len < TAIL_CHUNK as u64 {
            file_len as usize
        } else {
            TAIL_CHUNK
        };
        let pos = file_len - len as u64;
        let scan = TailScan { pos, chunk_len: len, lines_found: 0, num_lines };
        if file_len == 0 {
            (scan, TailStep::Done(0))
        } else {
            (scan, TailStep::Read { offset: pos, len })
        }
    }

    /// Takes the chunk the scan asked for and scans it from its end. When the
    /// chunk holds the newline the scan is looking for, the answer is the
    /// offset just past it; when the chunk was the first of the file, the
    /// answer is 0; otherwise the chunk before it is asked for.
    pub fn feed(&mut self, chunk: &[u8]) -> (step: TailStep)
        requires
            old(self).wf(),
            chunk@.len() == old(self).chunk_len,
        ensures
            final(self).num_lines == old(self).num_lines,
            count_newlines(chunk@) >= old(self).needed() ==> step == TailStep::Done(
                (old(self).pos + after_newline_from_end(chunk@, old(self).needed())) as u64,
            ),
            count_newlines(chunk@) < old(self).needed() ==> {
                &&& final(self).wf()
                &&& final(self).lines_found == old(self).lines_found + count_newlines(chunk@)
                &&& final(self).pos + final(self).chunk_len == old(self).pos
                &&& old(self).pos == 0 ==> step == TailStep::Done(0)
                &&& old(self).pos > 0 ==> step == (TailStep::Read {
                    offset: final(self).pos,
                    len: final(self).chunk_len,
                })
            },
    {
        let ghost c = chunk@;
        let ghost need = old(self).needed();
        let mut i: usize = chunk.len();
        proof {
            assert(c.subrange(i as int, c.len() as int) =~= Seq::<u8>::empty());
        }
        while i > 0
            invariant
                c == chunk@,
                c.len() == old(self).chunk_len,
                need == old(self).needed(),
                i <= c.len(),
                self.pos == old(self).pos,
                self.chunk_len == old(self).chunk_len,
                self.num_lines == old(self).num_lines,
                old(self).lines_found <= self.lines_found <= self.num_lines,
                self.lines_found == old(self).lines_found + count_newlines(
                    c.subrange(i as int, c.len() as int),
                ),
                old(self).pos + old(self).chunk_len <= u64::MAX,
            decreases i,
        {
            let ghost rest = c.subrange(i as int, c.len() as int);
            let ghost before = c.subrange(0, i as int);
            proof {
                assert(c.subrange((i - 1) as int, c.len() as int) =~= seq![c[i - 1]] + rest);
                lemma_count_concat(seq![c[i - 1]], rest);
                lemma_count_single(c[i - 1]);
            }
            if chunk[i - 1] == NEWLINE {
                if self.lines_found == self.num_lines {
                    proof {
                        assert(c =~= before + rest);
                        lemma_after_newline_concat(before, rest, need);
                        lemma_count_concat(before, rest);
                        assert(before.last() == NEWLINE);
                    }
                    return TailStep::Done(self.pos + i as u64);
                }
                self.lines_found = self.lines_found + 1;
            }
            i = i - 1;
        }
        proof {
            assert(c.subrange(0, c.len() as int) =~= c);
        }
        let len: usize = if self.pos < TAIL_CHUNK as u64 {
            self.pos as usize
        } else {
            TAIL_CHUNK
        };
        let start = self.pos;
        self.pos = start - len as u64;
        self.chunk_len = len;
        if start == 0 {
            TailStep::Done(0)
        } else {
            TailStep::Read { offset: self.pos, len }
        }
    }
}

/// Finds where the last `num_lines` lines of `content` begin, reading it
/// backwards chunk by chunk exactly as a file is read.
pub fn last_lines_offset(content: &[u8], num_lines: usize) -> (r: u64)
    ensures
        r == tail_start(content@, num_lines as nat),
{
    let file_len = content.len() as u64;
    let (mut scan, mut step) = TailScan::start(file_len, num_lines);
    proof {
        lemma_after_newline_bounds(content@, (num_lines + 1) as nat);
        assert(content@.subrange(0, content@.len() as int) =~= content@);
        assert(content@.subrange(file_len as int, content@.len() as int) =~= Seq::<u8>::empty());
    }
    let n: usize = content.len();
    loop
        invariant
            n == content@.len(),
            file_len == content@.len(),
            0 <= tail_start(content@, num_lines as nat) <= content@.len(),
            step is Done ==> step == TailStep::Done(tail_start(content@, num_lines as nat) as u64),
            step is Read ==> {
                &&& scan.wf()
                &&& scan.num_lines == num_lines
                &&& scan.pos + scan.chunk_len <= content@.len()
                &&& step == (TailStep::Read { offset: scan.pos, len: scan.chunk_len })
                &&& tail_start(content@, num_lines as nat) == after_newline_from_end(
                    content@.subrange(0, scan.pos + scan.chunk_len),
                    scan.needed(),
                )
            },
        decreases (if step is Read { scan.pos + scan.chunk_len + 1 } else { 0 }),
    {
        match step {
            TailStep::Done(offset) => {
                return offset;
            },
            TailStep::Read { offset, len } => {
                assert(offset == scan.pos && len == scan.chunk_len);
                assert(offset + len <= content@.len());
                let start = offset as usize;
                let chunk = &content[start..start + len];
                let ghost old_scan = scan;
                let ghost prefix = content@.subrange(0, start as int);
                proof {
                    assert(content@.subrange(0, start + len) =~= prefix + chunk@);
                    lemma_after_newline_concat(prefix, chunk@, old_scan.needed());
                }
                step = scan.feed(chunk);
                proof {
                    if count_newlines(chunk@) < old_scan.needed() {
                        assert(scan.needed() == (old_scan.needed() - count_newlines(chunk@)) as nat);
                        if old_scan.pos == 0 {
                            assert(prefix =~= Seq::<u8>::empty());
                            assert(after_newline_from_end(prefix, scan.needed()) == 0);
                            assert(tail_start(content@, num_lines as nat) == 0);
                        } else {
                            assert(content@.subrange(0, scan.pos + scan.chunk_len) =~= prefix);
                        }
                    } else {
                        assert(tail_start(content@, num_lines as nat) == start + after_newline_from_end(chunk@, old_scan.needed()));
                    }
                }
            },
        }
    }
}

} // verus!
