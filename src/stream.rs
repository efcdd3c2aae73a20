use vstd::prelude::*;

verus! {

/// The logical stream kinds that the pipeline decodes.
#[derive(Clone, Copy, Debug, PartialEq, Eq, Structural)]
pub enum StreamKind {
    Audio,
    Video,
}

/// A decoded unit, tagged with the kind of stream that produced it.
pub enum Decoded<A, V> {
    Audio(A),
    Video(V),
}

impl<A, V> Decoded<A, V> {
    pub open spec fn kind_spec(&self) -> StreamKind {
        match self {
            Decoded::Audio(_) => StreamKind::Audio,
            Decoded::Video(_) => StreamKind::Video,
        }
    }

    /// The kind of stream this unit belongs to, which selects its sink.
    pub fn kind(&self) -> (r: StreamKind)
        ensures
            r == self.kind_spec(),
    {
        match self {
            Decoded::Audio(_) => StreamKind::Audio,
            Decoded::Video(_) => StreamKind::Video,
        }
    }
}

} // verus!
