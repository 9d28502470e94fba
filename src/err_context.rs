//! Errors that carry a short label of the step that failed, and the
//! rendering of a chain of causes as one multi-line trace.

use vstd::prelude::*;
use vstd::string::*;

verus! {

/// An error together with a label of the step during which it happened.
pub struct ErrWithContext<E> {
    pub context: String,
    pub source: E,
}

/// The text shown for an error with context: `Context: <label>`.
pub open spec fn context_message_of(context: Seq<char>) -> Seq<char> {
    seq!['C', 'o', 'n', 't', 'e', 'x', 't', ':', ' '] + context
}

impl<E> ErrWithContext<E> {
    /// The text of this error, without its cause.
    pub fn message(&self) -> (r: String)
        ensures
            r@ == context_message_of(self.context@),
    {
        proof { reveal_strlit("Context: "); }
        String::from_str("Context: ").concat(self.context.as_str())
    }
}

/// Attaching a step label to the error of a failed result.
pub trait ErrContext<T, E>: Sized {
    fn context(self, context: &str) -> Result<T, ErrWithContext<E>>;
}

impl<T, E> ErrContext<T, E> for Result<T, E> {
    fn context(self, context: &str) -> (r: Result<T, ErrWithContext<E>>)
        ensures
            match self {
                Ok(v) => r == Ok::<T, ErrWithContext<E>>(v),
                Err(e) => r.is_err() && r->Err_0.source == e && r->Err_0.context@ == context@,
            },
    {
        match self {
            Ok(v) => Ok(v),
            Err(source) => Err(ErrWithContext { context: String::from_str(context), source }),
        }
    }
}

/// The line that separates an error from its cause in a trace.
pub open spec fn caused_by() -> Seq<char> {
    seq!['C', 'a', 'u', 's', 'e', 'd', ' ', 'b', 'y', ':', '\n']
}

/// The trace of a chain of error messages, outermost first: each message on
/// its own line, with a `Caused by:` line between an error and its cause.
pub open spec fn traceback_of(chain: Seq<Seq<char>>) -> Seq<char>
    decreases chain.len(),
{
    if chain.len() == 0 {
        seq![]
    } else if chain.len() == 1 {
        chain[0] + seq!['\n']
    } else {
        traceback_of(chain.drop_last()) + caused_by() + chain.last() + seq!['\n']
    }
}

/// Renders a chain of error messages, outermost first, as one trace.
pub fn traceback(chain: &[String]) -> (r: String)
    ensures
        r@ == traceback_of(chain@.map_values(|m: String| m@)),
{
    let ghost msgs = chain@.map_values(|m: String| m@);
    let mut out = String::new();
    let mut i: usize = 0;
    proof {
        assert(msgs.subrange(0, 0) =~= Seq::<Seq<char>>::empty());
    }
    while i < chain.len()
        invariant
            i <= chain@.len(),
            msgs == chain@.map_values(|m: String| m@),
            out@ == traceback_of(msgs.subrange(0, i as int)),
        decreases chain@.len() - i,
    {
        let ghost prev = msgs.subrange(0, i as int);
        let ghost next = msgs.subrange(0, i as int + 1);
        proof {
            assert(next.drop_last() =~= prev);
            assert(next.last() == chain@[i as int]@);
        }
        proof {
            reveal_strlit("\n");
            reveal_strlit("Caused by:\n");
            assert("\n"@ =~= seq!['\n']);
            assert("Caused by:\n"@ =~= caused_by());
        }
        if i > 0 {
            out.append("Caused by:\n");
        }
        let ghost mid = out@;
        out.append(chain[i].as_str());
        out.append("\n");
        proof {
            assert(out@ =~= mid + next.last() + seq!['\n']);
            if i == 0 {
                assert(mid =~= Seq::<char>::empty());
                assert(out@ =~= next[0] + seq!['\n']);
            } else {
                assert(mid =~= traceback_of(prev) + caused_by());
                assert(out@ =~= traceback_of(prev) + caused_by() + next.last() + seq!['\n']);
            }
        }
        i = i + 1;
    }
    proof {
        assert(msgs.subrange(0, chain@.len() as int) =~= msgs);
    }
    out
}

} // verus!
