use vstd::prelude::*;
use crate::dispatcher::CommandQueue;

verus! {

/// Result code of a successful parameter fetch.
pub const PARAM_OK: i32 = 0;

/// A tagged-union value handed over by the host.
#[derive(Debug)]
pub enum Variant {
    Empty,
    Int(i64),
    /// Text storage: the text, its terminating NUL, and whatever follows.
    Text(Vec<u8>),
}

/// The text storage of a variant, if it holds text.
pub open spec fn text_of(v: Variant) -> Option<Seq<u8>> {
    match v {
        Variant::Text(b) => Some(b@),
        _ => None,
    }
}

/// Number of bytes before the first NUL of `b` (all of them if none).
pub open spec fn c_len(b: Seq<u8>) -> nat
    decreases b.len(),
{
    if b.len() == 0 || b[0] == 0 {
        0
    } else {
        1 + c_len(b.drop_first())
    }
}

/// The text that null-terminated storage `b` holds.
pub open spec fn c_text(b: Seq<u8>) -> Seq<u8> {
    b.take(c_len(b) as int)
}

/// Text that holds no NUL byte.
pub open spec fn is_c_text(t: Seq<u8>) -> bool {
    forall|i: int| 0 <= i < t.len() ==> t[i] != 0
}

/// What the bridge forwards for an invocation whose parameter fetch
/// returned `code` and left a variant with text storage `text`.
pub open spec fn forwarded(code: i32, text: Option<Seq<u8>>) -> Option<Seq<u8>> {
    if code == PARAM_OK && text is Some {
        Some(c_text(text->0))
    } else {
        None
    }
}

/// The queue after a forward, or unchanged when nothing is forwarded.
pub open spec fn enqueue(q: Seq<Seq<u8>>, f: Option<Seq<u8>>) -> Seq<Seq<u8>> {
    match f {
        Some(t) => q.push(t),
        None => q,
    }
}

/// `i` is the length of the text when no NUL comes before index `i` and
/// storage ends or holds a NUL there.
pub proof fn lemma_c_len(b: Seq<u8>, i: int)
    requires
        0 <= i <= b.len(),
        forall|j: int| 0 <= j < i ==> b[j] != 0,
        i == b.len() || b[i] == 0,
    ensures
        c_len(b) == i,
    decreases i,
{
    if i > 0 {
        let d = b.drop_first();
        assert forall|j: int| 0 <= j < i - 1 implies d[j] != 0 by {
            assert(d[j] == b[j + 1]);
        }
        lemma_c_len(d, i - 1);
    }
}

/// Text followed by its NUL reads back as the same text.
pub proof fn lemma_c_text_terminated(t: Seq<u8>)
    requires
        is_c_text(t),
    ensures
        c_text(t.push(0u8)) == t,
{
    let b = t.push(0u8);
    assert forall|j: int| 0 <= j < t.len() implies b[j] != 0 by {
        assert(b[j] == t[j]);
    }
    lemma_c_len(b, t.len() as int);
    assert(c_text(b) =~= t);
}

/// Copies the text out of null-terminated storage.
pub fn copy_c_text(b: &Vec<u8>) -> (r: Vec<u8>)
    ensures
        r@ == c_text(b@),
{
    let mut out: Vec<u8> = Vec::new();
    let mut i: usize = 0;
    while i < b.len() && b[i] != 0
        invariant
            0 <= i <= b@.len(),
            out@ == b@.take(i as int),
            forall|j: int| 0 <= j < i ==> b@[j] != 0,
        decreases b@.len() - i,
    {
        out.push(b[i]);
        i = i + 1;
        assert(out@ =~= b@.take(i as int));
    }
    proof {
        lemma_c_len(b@, i as int);
    }
    out
}

/// The parameter variant of one invocation, which must be released exactly once.
pub struct ParamSlot {
    pub value: Variant,
    pub released: bool,
}

impl ParamSlot {
    /// A slot holding what the parameter fetch left in it.
    pub fn fetched(value: Variant) -> (r: ParamSlot)
        ensures
            r.value == value,
            !r.released,
    {
        ParamSlot { value, released: false }
    }

    /// Releases the variant's resources.
    pub fn release(&mut self)
        requires
            !old(self).released,
        ensures
            final(self).released,
            final(self).value is Empty,
    {
        self.value = Variant::Empty;
        self.released = true;
    }
}

/// How one invocation ended.
#[derive(Clone, Copy, PartialEq, Eq, Debug, Structural)]
pub enum InvokeOutcome {
    /// The argument was queued for the dispatcher.
    Forwarded,
    /// The parameter fetch failed with this code; nothing was queued.
    ParamFailed(i32),
    /// The parameter held no text; nothing was queued.
    NotText,
}

pub open spec fn outcome_of(code: i32, text: Option<Seq<u8>>) -> InvokeOutcome {
    if code != PARAM_OK {
        InvokeOutcome::ParamFailed(code)
    } else if text is Some {
        InvokeOutcome::Forwarded
    } else {
        InvokeOutcome::NotText
    }
}

/// The invocation callback: forwards the text of parameter 0 to the queue
/// when its fetch returned `PARAM_OK`, and releases the variant on every path.
pub fn on_invoke(queue: &mut CommandQueue, code: i32, slot: &mut ParamSlot) -> (r: InvokeOutcome)
    requires
        !old(slot).released,
    ensures
        final(slot).released,
        final(slot).value is Empty,
        final(queue)@ == enqueue(old(queue)@, forwarded(code, text_of(old(slot).value))),
        code != PARAM_OK ==> final(queue)@ == old(queue)@,
        r == outcome_of(code, text_of(old(slot).value)),
{
    let outcome = if code != PARAM_OK {
        InvokeOutcome::ParamFailed(code)
    } else {
        match &slot.value {
            Variant::Text(b) => {
                let arg = copy_c_text(b);
                queue.push(arg);
                InvokeOutcome::Forwarded
            },
            _ => InvokeOutcome::NotText,
        }
    };
    slot.release();
    outcome
}

} // verus!
