use vstd::prelude::*;

verus! {

/// Touch slot transition type.
#[derive(Clone, Copy, Debug, PartialEq, Eq, Structural)]
pub enum Kind {
    Begin,
    Update,
    End,
    Cancel,
}

impl Kind {
    /// The numeric code of the transition on the wire.
    pub fn wire_code(&self) -> (r: u32)
        ensures
            r == (match *self {
                Kind::Begin => 0u32,
                Kind::Update => 1u32,
                Kind::End => 2u32,
                Kind::Cancel => 3u32,
            }),
    {
        match *self {
            Kind::Begin => 0,
            Kind::Update => 1,
            Kind::End => 2,
            Kind::Cancel => 3,
        }
    }
}

} // verus!
