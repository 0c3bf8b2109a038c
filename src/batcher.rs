//! Groups consecutive firings into frames, one per revolution, by watching the
//! start azimuth fall back.
use vstd::prelude::*;

use crate::firing::AzimuthInterval;

verus! {

/// Something that sweeps an azimuth range.
pub trait AzimuthRange {
    spec fn azimuth_range_spec(&self) -> AzimuthInterval;

    fn azimuth_range(&self) -> (r: AzimuthInterval)
        ensures
            r == self.azimuth_range_spec(),
    ;
}

/// Where `next` starts before `prev` does, a new revolution has begun.
pub open spec fn wraps_after<E: AzimuthRange>(prev: E, next: E) -> bool {
    next.azimuth_range_spec().start < prev.azimuth_range_spec().start
}

/// The frames completed and the frame in progress after pushing `s` into an
/// empty batcher.
pub open spec fn run<E: AzimuthRange>(s: Seq<E>) -> (Seq<Seq<E>>, Seq<E>)
    decreases s.len(),
{
    if s.len() == 0 {
        (Seq::empty(), Seq::empty())
    } else {
        let (done, buf) = run(s.drop_last());
        let e = s.last();
        if buf.len() > 0 && wraps_after(buf.last(), e) {
            (done.push(buf), seq![e])
        } else {
            (done, buf.push(e))
        }
    }
}

/// The frames that `s` falls into: those completed, then the one in progress.
pub open spec fn frames<E: AzimuthRange>(s: Seq<E>) -> Seq<Seq<E>> {
    let (done, buf) = run(s);
    if buf.len() > 0 {
        done.push(buf)
    } else {
        done
    }
}

/// The number of places where `s` falls back in azimuth.
pub open spec fn wrap_count<E: AzimuthRange>(s: Seq<E>) -> nat
    decreases s.len(),
{
    if s.len() < 2 {
        0
    } else {
        wrap_count(s.drop_last()) + if wraps_after(s[s.len() - 2], s.last()) {
            1nat
        } else {
            0nat
        }
    }
}

/// No element of `s` starts before the one preceding it.
pub open spec fn no_wrap<E: AzimuthRange>(s: Seq<E>) -> bool {
    forall|i: int| 0 < i < s.len() ==> !wraps_after(s[i - 1], #[trigger] s[i])
}

proof fn lemma_run<E: AzimuthRange>(s: Seq<E>)
    ensures
        run(s).0.flatten() + run(s).1 == s,
        run(s).0.len() == wrap_count(s),
        s.len() > 0 ==> run(s).1.len() > 0 && run(s).1.last() == s.last(),
        no_wrap(run(s).1),
    decreases s.len(),
{
    broadcast use Seq::lemma_flatten_push;

    if s.len() > 0 {
        let t = s.drop_last();
        lemma_run(t);
        let (done, buf) = run(t);
        let e = s.last();
        if buf.len() > 0 && wraps_after(buf.last(), e) {
            assert(done.push(buf).flatten() == done.flatten() + buf);
            assert(done.push(buf).flatten() + seq![e] =~= s);
        } else {
            assert(done.flatten() + buf.push(e) =~= (done.flatten() + buf).push(e));
            assert(t.push(e) =~= s);
            assert forall|i: int| 0 < i < buf.push(e).len() implies !wraps_after(
                buf.push(e)[i - 1],
                #[trigger] buf.push(e)[i],
            ) by {
                if i < buf.len() {
                    assert(buf.push(e)[i] == buf[i]);
                }
            }
        }
        if t.len() > 0 {
            assert(s[s.len() - 2int] == t.last());
        }
    }
}

proof fn lemma_run_no_wrap<E: AzimuthRange>(s: Seq<E>)
    requires
        no_wrap(s),
    ensures
        run(s) == (Seq::<Seq<E>>::empty(), s),
    decreases s.len(),
{
    if s.len() > 0 {
        let t = s.drop_last();
        assert forall|i: int| 0 < i < t.len() implies !wraps_after(t[i - 1], #[trigger] t[i]) by {
            assert(t[i] == s[i] && t[i - 1] == s[i - 1]);
        }
        lemma_run_no_wrap(t);
        if t.len() > 0 {
            assert(t.last() == s[s.len() - 2]);
        }
        assert(t.push(s.last()) =~= s);
    }
}

/// Pushing a stream that falls back in azimuth `m - 1` times yields `m` frames
/// once flushed, and the frames laid end to end give back the stream.
pub proof fn lemma_frames_cover_stream<E: AzimuthRange>(s: Seq<E>)
    ensures
        frames(s).flatten() == s,
        s.len() > 0 ==> frames(s).len() == wrap_count(s) + 1,
        s.len() == 0 ==> frames(s).len() == 0,
{
    broadcast use Seq::lemma_flatten_push;

    lemma_run(s);
    let (done, buf) = run(s);
    if buf.len() > 0 {
        assert(done.push(buf).flatten() == done.flatten() + buf);
    } else {
        assert(done.flatten() + buf =~= done.flatten());
    }
}

/// Groups pushed elements into frames.
pub struct Batcher<E> {
    buffer: Vec<E>,
}

impl<E: AzimuthRange> Batcher<E> {
    /// The frame in progress.
    pub closed spec fn buffer(&self) -> Seq<E> {
        self.buffer@
    }

    /// The frame in progress never falls back in azimuth.
    pub open spec fn wf(&self) -> bool {
        no_wrap(self.buffer())
    }

    /// An empty batcher.
    pub fn new() -> (r: Self)
        ensures
            r.buffer() == Seq::<E>::empty(),
            r.wf(),
    {
        Batcher { buffer: Vec::new() }
    }

    /// Pushes one element. Where it starts before the last buffered one, the
    /// buffered frame is returned and the element starts the next; else it
    /// joins the buffer and nothing is returned.
    pub fn push_one(&mut self, firing: E) -> (r: Option<Vec<E>>)
        requires
            old(self).wf(),
        ensures
            final(self).wf(),
            if old(self).buffer().len() > 0 && wraps_after(old(self).buffer().last(), firing) {
                &&& r is Some
                &&& r->Some_0@ == old(self).buffer()
                &&& final(self).buffer() == seq![firing]
            } else {
                &&& r is None
                &&& final(self).buffer() == old(self).buffer().push(firing)
            },
    {
        let n = self.buffer.len();
        let wrap = if n > 0 {
            let prev = self.buffer[n - 1].azimuth_range();
            let next = firing.azimuth_range();
            next.start < prev.start
        } else {
            false
        };
        if wrap {
            let mut fresh: Vec<E> = Vec::new();
            fresh.push(firing);
            std::mem::swap(&mut self.buffer, &mut fresh);
            Some(fresh)
        } else {
            let ghost b = self.buffer@;
            self.buffer.push(firing);
            assert forall|i: int| 0 < i < self.buffer@.len() implies !wraps_after(
                self.buffer@[i - 1],
                #[trigger] self.buffer@[i],
            ) by {
                if i < b.len() {
                    assert(self.buffer@[i] == b[i]);
                }
            }
            None
        }
    }

    /// Takes the buffered frame, if it holds anything, and empties the buffer.
    pub fn take(&mut self) -> (r: Option<Vec<E>>)
        requires
            old(self).wf(),
        ensures
            final(self).wf(),
            final(self).buffer() == Seq::<E>::empty(),
            if old(self).buffer().len() > 0 {
                r is Some && r->Some_0@ == old(self).buffer()
            } else {
                r is None
            },
    {
        let mut fresh: Vec<E> = Vec::new();
        std::mem::swap(&mut self.buffer, &mut fresh);
        if fresh.len() > 0 {
            Some(fresh)
        } else {
            None
        }
    }

    /// Pushes each element in turn and returns the frames that completed.
    pub fn push_many(&mut self, firings: Vec<E>) -> (r: Vec<Vec<E>>)
        requires
            old(self).wf(),
        ensures
            final(self).wf(),
            r@.map_values(|v: Vec<E>| v@) == run(old(self).buffer() + firings@).0,
            final(self).buffer() == run(old(self).buffer() + firings@).1,
    {
        let ghost start = self.buffer@;
        let ghost input = firings@;
        let total = firings.len();
        let mut firings = firings;
        let mut out: Vec<Vec<E>> = Vec::new();
        proof {
            lemma_run_no_wrap(start);
            assert(start + input.subrange(0, 0) =~= start);
        }
        let mut i: usize = 0;
        while firings.len() > 0
            invariant
                self.wf(),
                i <= input.len(),
                total == input.len(),
                firings@ == input.subrange(i as int, input.len() as int),
                out@.map_values(|v: Vec<E>| v@) == run(start + input.subrange(0, i as int)).0,
                self.buffer() == run(start + input.subrange(0, i as int)).1,
            decreases firings@.len(),
        {
            let ghost prefix = start + input.subrange(0, i as int);
            let e = firings.remove(0);
            assert(e == input[i as int]);
            let ghost next = start + input.subrange(0, i + 1);
            assert(next.drop_last() =~= prefix);
            assert(next.last() == e);
            match self.push_one(e) {
                Some(frame) => {
                    out.push(frame);
                    assert(out@.map_values(|v: Vec<E>| v@) =~= run(next).0);
                },
                None => {},
            }
            i = i + 1;
            assert(firings@ =~= input.subrange(i as int, input.len() as int));
        }
        assert(input.subrange(0, i as int) =~= input);
        out
    }

    /// Pushes every element, then flushes: the frames of the buffered elements
    /// followed by `firings`.
    pub fn with_iter(self, firings: Vec<E>) -> (r: Vec<Vec<E>>)
        requires
            self.wf(),
        ensures
            r@.map_values(|v: Vec<E>| v@) == frames(self.buffer() + firings@),
    {
        let mut me = self;
        let mut out = me.push_many(firings);
        match me.take() {
            Some(frame) => {
                out.push(frame);
            },
            None => {},
        }
        assert(out@.map_values(|v: Vec<E>| v@) =~= frames(self.buffer() + firings@));
        out
    }
}

impl<E: AzimuthRange> Default for Batcher<E> {
    /// An empty batcher.
    fn default() -> (r: Self)
        ensures
            r.buffer() == Seq::<E>::empty(),
            r.wf(),
    {
        Batcher::new()
    }
}

/// The azimuth range of a frame: from the start of its first element to the
/// end of its last; `None` for an empty frame.
pub fn frame_azimuth_range<E: AzimuthRange>(frame: &Vec<E>) -> (r: Option<AzimuthInterval>)
    ensures
        frame@.len() == 0 ==> r is None,
        frame@.len() > 0 ==> r == Some(
            AzimuthInterval {
                start: frame@[0].azimuth_range_spec().start,
                end: frame@.last().azimuth_range_spec().end,
            },
        ),
{
    let n = frame.len();
    if n == 0 {
        return None;
    }
    let first = frame[0].azimuth_range();
    let last = frame[n - 1].azimuth_range();
    Some(AzimuthInterval { start: first.start, end: last.end })
}

} // verus!
