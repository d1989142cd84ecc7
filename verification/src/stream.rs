use vstd::prelude::*;

verus! {

/// A single-pass, pull-driven sequence of values: the lazy-iteration
/// primitive that the resolution combinators are built on.
///
/// `remaining()` is the mathematical model of a stream: the sequence of
/// elements it will still yield, in order. Each `next` call either yields
/// the head of that sequence and drops it from the model, or reports
/// exhaustion; an exhausted stream stays exhausted. Nothing beyond the one
/// pulled element is evaluated or buffered by a call to `next`.
pub trait Stream<T>: Sized {
    /// The elements this stream will still yield, in order.
    spec fn remaining(&self) -> Seq<T>;

    /// Pulls the next element, advancing the stream by exactly one element.
    fn next(&mut self) -> (item: Option<T>)
        ensures
            match item {
                Some(t) => old(self).remaining().len() > 0
                    && t == old(self).remaining()[0]
                    && final(self).remaining() == old(self).remaining().drop_first(),
                None => old(self).remaining().len() == 0
                    && final(self).remaining() == old(self).remaining(),
            },
    ;
}

/// A stream backed by a vector, yielding the vector's elements front to back.
pub struct VecStream<T> {
    items: Vec<T>,
}

impl<T> VecStream<T> {
    /// A stream that will yield exactly the elements of `items`, in order.
    pub fn new(items: Vec<T>) -> (s: Self)
        ensures
            s.remaining() == items@,
    {
        VecStream { items }
    }
}

impl<T> Stream<T> for VecStream<T> {
    closed spec fn remaining(&self) -> Seq<T> {
        self.items@
    }

    fn next(&mut self) -> (item: Option<T>) {
        if self.items.len() == 0 {
            None
        } else {
            let t = self.items.remove(0);
            proof {
                assert(self.items@ =~= old(self).items@.drop_first());
            }
            Some(t)
        }
    }
}

/// Collects everything a stream will still yield into a vector, in order,
/// fully draining the stream.
pub fn drain_stream<T, S: Stream<T>>(s: S) -> (items: Vec<T>)
    ensures
        items@ == s.remaining(),
{
    let mut cur = s;
    let mut items: Vec<T> = Vec::new();
    loop
        invariant
            items@ + cur.remaining() == s.remaining(),
        ensures
            items@ == s.remaining(),
        decreases cur.remaining().len(),
    {
        match cur.next() {
            None => {
                proof {
                    assert(items@ =~= items@ + cur.remaining());
                }
                break;
            },
            Some(t) => {
                items.push(t);
                proof {
                    assert(items@ + cur.remaining() =~= s.remaining());
                }
            },
        }
    }
    items
}

} // verus!
