//! The chain runtime: a forward-only, non-restartable cursor over the "has a
//! cause" capability that the synthesized dispatch implements, together with
//! a model error value whose cause lookup behaves exactly as a generated
//! dispatch does for each cause selection.

use vstd::prelude::*;

verus! {

/// The value an optional reference points at, if any.
pub open spec fn opt_value<T>(r: Option<&T>) -> Option<T> {
    match r {
        Some(t) => Some(*t),
        None => None,
    }
}

/// The "has a cause" capability. A value reports at most one cause; chains of
/// causes are walked with [`Error::iter`]. Implementors must be safely
/// shareable across concurrent readers, safely transferable across execution
/// contexts, and free of non-static borrowed data — the same marker
/// constraints the synthesized bounds assertion enforces — because a cursor
/// may be held for as long as the root reference remains valid.
pub trait Error: Sized + Send + Sync + 'static {
    /// The cause this value reports, if any.
    spec fn cause_of(&self) -> Option<Self>;

    /// The cause lookup the synthesized dispatch implements.
    fn source(&self) -> (r: Option<&Self>)
        ensures
            opt_value(r) == self.cause_of(),
    ;

    /// A fresh cursor positioned at this value. The cursor yields the chain
    /// of causes starting from this value's own cause — the value itself is
    /// not yielded — and once exhausted it stays exhausted; to replay the
    /// chain, start a fresh traversal from the root again.
    fn iter<'a>(&'a self) -> (r: Iter<'a, Self>)
        ensures
            r.position() == Some(*self),
    ;
}

/// The traversal state over a chain of causes: positioned at a current value,
/// or exhausted. The cursor only borrows; it owns none of the error values.
pub struct Iter<'a, E> {
    error: Option<&'a E>,
}

impl<'a, E> Iter<'a, E> {
    /// The current value, if the cursor is still positioned at one.
    pub closed spec fn position(&self) -> Option<E> {
        opt_value(self.error)
    }
}

impl<'a, E: Error> Iter<'a, E> {
    /// One step of the traversal: when positioned at a value, yield that
    /// value's cause and move to it (or exhaust the cursor when it has
    /// none); when exhausted, yield nothing, forever.
    pub fn next(&mut self) -> (r: Option<&'a E>)
        ensures
            old(self).position() is None ==> r is None && final(self).position() is None,
            old(self).position() matches Some(e) ==> opt_value(r) == e.cause_of()
                && final(self).position() == e.cause_of(),
    {
        match self.error {
            None => None,
            Some(e) => {
                let c = e.source();
                self.error = c;
                c
            },
        }
    }
}

/// A model error value: its label stands for the concrete type of the value
/// (chains are heterogeneous at the source level), and its cause link is the
/// resolved selection of the variant the value inhabits.
#[derive(Debug)]
pub struct ErrValue {
    pub label: u64,
    pub cause: CauseLink,
}

/// How a model error value is linked to the value it wraps, one constructor
/// per cause selection: no cause, the wrapped value itself is the cause, or
/// the wrapped value's own cause is reported instead (one hop further).
#[derive(Debug)]
pub enum CauseLink {
    NoCause,
    Direct(Box<ErrValue>),
    Deferred(Box<ErrValue>),
}

/// The cause a model error value reports: none, the wrapped value, or — for
/// a deferred link — whatever the wrapped value itself reports.
pub open spec fn err_cause(v: ErrValue) -> Option<ErrValue>
    decreases v,
{
    match v.cause {
        CauseLink::NoCause => None,
        CauseLink::Direct(f) => Some(*f),
        CauseLink::Deferred(f) => err_cause(*f),
    }
}

/// The cause lookup on a model error value, exactly as the synthesized
/// dispatch arm behaves: the no-cause sentinel, a reference to the linked
/// value, or the linked value's own lookup.
fn err_source(v: &ErrValue) -> (r: Option<&ErrValue>)
    ensures
        opt_value(r) == err_cause(*v),
    decreases *v,
{
    match &v.cause {
        CauseLink::NoCause => None,
        CauseLink::Direct(f) => Some(&**f),
        CauseLink::Deferred(f) => err_source(&**f),
    }
}

impl ErrValue {
    /// The labels of the full chain of causes under this value, in the order
    /// a cursor yields them: the value's own cause first, then that value's
    /// ancestors; the value itself is not part of its chain.
    pub open spec fn chain(self) -> Seq<u64>
        decreases self,
    {
        match self.cause {
            CauseLink::NoCause => Seq::empty(),
            CauseLink::Direct(f) => seq![(*f).label] + (*f).chain(),
            CauseLink::Deferred(f) => (*f).chain(),
        }
    }
}

/// What each kind of link reports, matching the synthesized arm for the
/// corresponding cause selection: no cause, the linked value itself, or — for
/// a deferred link — the linked value's own cause, one hop deeper than a
/// direct link to the same value would report.
pub proof fn lemma_link_semantics(v: ErrValue)
    ensures
        v.cause is NoCause ==> err_cause(v) is None,
        v.cause matches CauseLink::Direct(f) ==> err_cause(v) == Some(*f),
        v.cause matches CauseLink::Deferred(f) ==> err_cause(v) == err_cause(*f),
{
}

/// One step of the traversal agrees with the full chain: a value with no
/// cause has an empty chain, and the chain of a value with cause `c` is `c`'s
/// label followed by `c`'s own chain.
pub proof fn lemma_chain_step(v: ErrValue)
    ensures
        match err_cause(v) {
            None => v.chain() == Seq::<u64>::empty(),
            Some(c) => v.chain() == seq![c.label] + c.chain(),
        },
    decreases v,
{
    match v.cause {
        CauseLink::NoCause => {},
        CauseLink::Direct(_) => {},
        CauseLink::Deferred(f) => {
            lemma_chain_step(*f);
        },
    }
}

/// How many pulls a cursor positioned at `p` has left before exhaustion.
pub open spec fn remaining_steps(p: Option<ErrValue>) -> nat {
    match p {
        Some(e) => e.chain().len() + 1,
        None => 0,
    }
}

impl ErrValue {
    /// The labels of the full chain of causes under this value, collected by
    /// running a fresh cursor to exhaustion.
    pub fn chain_labels(&self) -> (r: Vec<u64>)
        ensures
            r@ == self.chain(),
    {
        let mut out: Vec<u64> = Vec::new();
        let mut it = self.iter();
        loop
            invariant
                match it.position() {
                    Some(e) => self.chain() == out@ + e.chain(),
                    None => self.chain() == out@,
                },
            ensures
                self.chain() == out@,
            decreases remaining_steps(it.position()),
        {
            let ghost prev = it.position();
            proof {
                match prev {
                    Some(e) => lemma_chain_step(e),
                    None => {},
                }
            }
            match it.next() {
                Some(c) => {
                    out.push(c.label);
                    proof {
                        assert(self.chain() =~= out@ + c.chain());
                    }
                },
                None => {
                    proof {
                        assert(self.chain() =~= out@);
                    }
                    break;
                },
            }
        }
        out
    }
}

impl Error for ErrValue {
    open spec fn cause_of(&self) -> Option<ErrValue> {
        err_cause(*self)
    }

    fn source(&self) -> (r: Option<&ErrValue>) {
        err_source(self)
    }

    fn iter<'a>(&'a self) -> (r: Iter<'a, ErrValue>) {
        Iter { error: Some(self) }
    }
}

} // verus!
