//! Transport byte streams with a descriptive label for diagnostics.
use vstd::prelude::*;

verus! {

/// Why a byte stream could not be created.
#[derive(Debug, Clone, Copy, PartialEq, Eq, Structural)]
pub enum StreamError {
    /// The transport label is empty.
    EmptyLabel,
}

/// A stream wrapped with a descriptive transport label.
pub struct LabeledStream<S> {
    inner: S,
    label: &'static str,
}

impl<S> LabeledStream<S> {
    pub closed spec fn spec_inner(&self) -> S {
        self.inner
    }

    pub closed spec fn spec_label(&self) -> Seq<char> {
        self.label@
    }

    pub fn new(inner: S, label: &'static str) -> (r: Self)
        ensures
            r.spec_inner() == inner,
            r.spec_label() == label@,
    {
        LabeledStream { inner, label }
    }

    pub fn label(&self) -> (r: &'static str)
        ensures
            r@ == self.spec_label(),
    {
        self.label
    }

    pub fn inner(&self) -> (r: &S)
        ensures
            *r == self.spec_inner(),
    {
        &self.inner
    }

    pub fn inner_mut(&mut self) -> (r: &mut S)
        ensures
            *r == old(self).spec_inner(),
            final(self).spec_inner() == *final(r),
            final(self).spec_label() == old(self).spec_label(),
    {
        &mut self.inner
    }

    pub fn into_inner(self) -> (r: S)
        ensures
            r == self.spec_inner(),
    {
        self.inner
    }
}

/// Labels a transport stream; the label must not be empty.
pub fn labeled<S>(stream: S, label: &'static str) -> (r: Result<LabeledStream<S>, StreamError>)
    ensures
        label@.len() == 0 ==> r matches Err(StreamError::EmptyLabel),
        label@.len() > 0 ==> (r matches Ok(s) && s.spec_inner() == stream && s.spec_label() == label@),
{
    if label.is_empty() {
        return Err(StreamError::EmptyLabel);
    }
    Ok(LabeledStream::new(stream, label))
}

} // verus!
