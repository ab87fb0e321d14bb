use vstd::prelude::*;

verus! {

/// The byte that ends a line.
pub const NEWLINE: u8 = 10;

/// The byte that a line ended by `"\r\n"` loses along with its newline.
pub const CARRIAGE_RETURN: u8 = 13;

/// `line` without one trailing carriage return.
pub open spec fn strip_cr(line: Seq<u8>) -> Seq<u8> {
    if line.len() > 0 && line.last() == CARRIAGE_RETURN {
        line.drop_last()
    } else {
        line
    }
}

/// Framing the bytes `s`, with `pending` left over from earlier input: the
/// lines that a newline in `s` completes, each without its line ending, and
/// the bytes after the last newline, which wait for more input.
pub open spec fn frame(pending: Seq<u8>, s: Seq<u8>) -> (Seq<Seq<u8>>, Seq<u8>)
    decreases s.len(),
{
    if s.len() == 0 {
        (Seq::empty(), pending)
    } else {
        let (lines, rest) = frame(pending, s.drop_last());
        if s.last() == NEWLINE {
            (lines.push(strip_cr(rest)), Seq::empty())
        } else {
            (lines, rest.push(s.last()))
        }
    }
}

/// Cuts a stream of bytes that arrives in pieces into lines.
pub struct LineSplitter {
    pending: Vec<u8>,
}

impl View for LineSplitter {
    type V = Seq<u8>;

    /// The bytes received after the last newline.
    closed spec fn view(&self) -> Seq<u8> {
        self.pending@
    }
}

impl LineSplitter {
    /// A splitter that has received nothing.
    pub fn new() -> (r: LineSplitter)
        ensures
            r@ == Seq::<u8>::empty(),
    {
        LineSplitter { pending: Vec::new() }
    }

    /// Takes in the next piece of the stream and returns the lines it
    /// completes, in order.
    pub fn feed(&mut self, chunk: &[u8]) -> (r: Vec<Vec<u8>>)
        ensures
            r@.map_values(|l: Vec<u8>| l@) == frame(old(self)@, chunk@).0,
            final(self)@ == frame(old(self)@, chunk@).1,
    {
        let mut out: Vec<Vec<u8>> = Vec::new();
        let ghost start = self.pending@;
        let mut i: usize = 0;
        while i < chunk.len()
            invariant
                i <= chunk@.len(),
                out@.map_values(|l: Vec<u8>| l@) == frame(start, chunk@.subrange(0, i as int)).0,
                self.pending@ == frame(start, chunk@.subrange(0, i as int)).1,
            decreases chunk@.len() - i,
        {
            let b = chunk[i];
            proof {
                assert(chunk@.subrange(0, i + 1).drop_last() =~= chunk@.subrange(0, i as int));
            }
            if b == NEWLINE {
                let mut line: Vec<u8> = Vec::new();
                std::mem::swap(&mut line, &mut self.pending);
                let ghost full = line@;
                let n = line.len();
                if n > 0 && line[n - 1] == CARRIAGE_RETURN {
                    line.pop();
                    proof {
                        assert(line@ =~= full.drop_last());
                    }
                }
                let ghost before = out@;
                out.push(line);
                proof {
                    assert(out@.map_values(|l: Vec<u8>| l@) =~= before.map_values(|l: Vec<u8>| l@).push(
                        strip_cr(full),
                    ));
                }
            } else {
                self.pending.push(b);
            }
            i = i + 1;
        }
        proof {
            assert(chunk@.subrange(0, chunk@.len() as int) =~= chunk@);
        }
        out
    }

    /// Ends the stream: the bytes after the last newline, if there are any,
    /// form the last line, taken as they are.
    pub fn finish(self) -> (r: Option<Vec<u8>>)
        ensures
            self@.len() == 0 ==> r is None,
            self@.len() > 0 ==> (r matches Some(l) && l@ == self@),
    {
        if self.pending.len() == 0 {
            None
        } else {
            Some(self.pending)
        }
    }
}

/// How the stream is cut into pieces does not matter: framing `a` and then
/// `b` gives the lines and the leftover bytes that framing `a + b` at once
/// gives.
pub proof fn lemma_frame_split(pending: Seq<u8>, a: Seq<u8>, b: Seq<u8>)
    ensures
        frame(pending, a + b).0 == frame(pending, a).0 + frame(frame(pending, a).1, b).0,
        frame(pending, a + b).1 == frame(frame(pending, a).1, b).1,
    decreases b.len(),
{
    if b.len() == 0 {
        assert(a + b =~= a);
        assert(frame(pending, a).0 + Seq::<Seq<u8>>::empty() =~= frame(pending, a).0);
    } else {
        lemma_frame_split(pending, a, b.drop_last());
        assert((a + b).drop_last() =~= a + b.drop_last());
        assert((a + b).last() == b.last());
        let mid = frame(pending, a);
        let (lines, rest) = frame(mid.1, b.drop_last());
        if b.last() == NEWLINE {
            assert(mid.0 + lines.push(strip_cr(rest)) =~= (mid.0 + lines).push(strip_cr(rest)));
        }
    }
}

} // verus!
