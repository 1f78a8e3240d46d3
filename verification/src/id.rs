//! The identifiers the stores hand out: one type per kind of thing, never
//! zero, and written with the kind's prefix before the number.

use vstd::prelude::*;

use crate::text::{joined, push_letter};

verus! {

/// The digit a number below ten is written with.
pub open spec fn digit_of(d: nat) -> char {
    if d == 0 {
        '0'
    } else if d == 1 {
        '1'
    } else if d == 2 {
        '2'
    } else if d == 3 {
        '3'
    } else if d == 4 {
        '4'
    } else if d == 5 {
        '5'
    } else if d == 6 {
        '6'
    } else if d == 7 {
        '7'
    } else if d == 8 {
        '8'
    } else {
        '9'
    }
}

/// A number written in decimal digits.
pub open spec fn decimal(n: nat) -> Seq<char>
    decreases n,
{
    if n < 10 {
        seq![digit_of(n)]
    } else {
        decimal(n / 10).push(digit_of(n % 10))
    }
}

/// The digit a number below ten is written with.
fn digit(d: u32) -> (res: char)
    requires
        d < 10,
    ensures
        res == digit_of(d as nat),
{
    if d == 0 {
        '0'
    } else if d == 1 {
        '1'
    } else if d == 2 {
        '2'
    } else if d == 3 {
        '3'
    } else if d == 4 {
        '4'
    } else if d == 5 {
        '5'
    } else if d == 6 {
        '6'
    } else if d == 7 {
        '7'
    } else if d == 8 {
        '8'
    } else {
        '9'
    }
}

/// Writes a number in decimal digits.
pub fn written(n: u32) -> (res: String)
    ensures
        res@ == decimal(n as nat),
    decreases n,
{
    if n < 10 {
        let mut held = String::new();
        push_letter(&mut held, digit(n));
        assert(held@ =~= seq![digit_of(n as nat)]);
        return held;
    }
    let mut held = written(n / 10);
    push_letter(&mut held, digit(n % 10));
    held
}

/// A dictionary entry. Never zero.
#[derive(Debug, Clone, Copy, PartialEq, Eq, PartialOrd, Ord, Hash)]
pub struct LemmaId(u32);

impl LemmaId {
    /// The number the identifier holds.
    pub closed spec fn value(self) -> u32 {
        self.0
    }

    /// An identifier is never zero.
    #[verifier::type_invariant]
    spec fn nonzero(self) -> bool {
        self.0 != 0
    }

    /// The first identifier a store hands out: one.
    pub fn first() -> (res: LemmaId)
        ensures
            res.value() == 1,
    {
        LemmaId(1)
    }

    /// The identifier of a number, none for zero.
    pub fn new(raw: u32) -> (res: Option<LemmaId>)
        ensures
            res is None <==> raw == 0,
            res matches Some(id) ==> id.value() == raw,
    {
        if raw == 0 {
            None
        } else {
            Some(LemmaId(raw))
        }
    }

    /// The number the identifier holds, which is never zero.
    pub fn get(self) -> (res: u32)
        ensures
            res == self.value(),
            res != 0,
    {
        proof {
            use_type_invariant(&self);
        }
        self.0
    }

    /// The identifier written with its kind's prefix: `lemma:7`.
    pub fn to_string(&self) -> (res: String)
        ensures
            res@ == "lemma:"@ + decimal(self.value() as nat),
    {
        let number = written(self.0);
        joined("lemma:", number.as_str())
    }
}

/// One sense of an entry. Never zero.
#[derive(Debug, Clone, Copy, PartialEq, Eq, PartialOrd, Ord, Hash)]
pub struct SenseId(u32);

impl SenseId {
    /// The number the identifier holds.
    pub closed spec fn value(self) -> u32 {
        self.0
    }

    /// An identifier is never zero.
    #[verifier::type_invariant]
    spec fn nonzero(self) -> bool {
        self.0 != 0
    }

    /// The first identifier a store hands out: one.
    pub fn first() -> (res: SenseId)
        ensures
            res.value() == 1,
    {
        SenseId(1)
    }

    /// The identifier of a number, none for zero.
    pub fn new(raw: u32) -> (res: Option<SenseId>)
        ensures
            res is None <==> raw == 0,
            res matches Some(id) ==> id.value() == raw,
    {
        if raw == 0 {
            None
        } else {
            Some(SenseId(raw))
        }
    }

    /// The number the identifier holds, which is never zero.
    pub fn get(self) -> (res: u32)
        ensures
            res == self.value(),
            res != 0,
    {
        proof {
            use_type_invariant(&self);
        }
        self.0
    }

    /// The identifier written with its kind's prefix: `sense:7`.
    pub fn to_string(&self) -> (res: String)
        ensures
            res@ == "sense:"@ + decimal(self.value() as nat),
    {
        let number = written(self.0);
        joined("sense:", number.as_str())
    }
}

/// A morpheme. Never zero.
#[derive(Debug, Clone, Copy, PartialEq, Eq, PartialOrd, Ord, Hash)]
pub struct MorphemeId(u32);

impl MorphemeId {
    /// The number the identifier holds.
    pub closed spec fn value(self) -> u32 {
        self.0
    }

    /// An identifier is never zero.
    #[verifier::type_invariant]
    spec fn nonzero(self) -> bool {
        self.0 != 0
    }

    /// The first identifier a store hands out: one.
    pub fn first() -> (res: MorphemeId)
        ensures
            res.value() == 1,
    {
        MorphemeId(1)
    }

    /// The identifier of a number, none for zero.
    pub fn new(raw: u32) -> (res: Option<MorphemeId>)
        ensures
            res is None <==> raw == 0,
            res matches Some(id) ==> id.value() == raw,
    {
        if raw == 0 {
            None
        } else {
            Some(MorphemeId(raw))
        }
    }

    /// The number the identifier holds, which is never zero.
    pub fn get(self) -> (res: u32)
        ensures
            res == self.value(),
            res != 0,
    {
        proof {
            use_type_invariant(&self);
        }
        self.0
    }

    /// The identifier written with its kind's prefix: `morph:7`.
    pub fn to_string(&self) -> (res: String)
        ensures
            res@ == "morph:"@ + decimal(self.value() as nat),
    {
        let number = written(self.0);
        joined("morph:", number.as_str())
    }
}

/// A government frame. Never zero.
#[derive(Debug, Clone, Copy, PartialEq, Eq, PartialOrd, Ord, Hash)]
pub struct FrameId(u32);

impl FrameId {
    /// The number the identifier holds.
    pub closed spec fn value(self) -> u32 {
        self.0
    }

    /// An identifier is never zero.
    #[verifier::type_invariant]
    spec fn nonzero(self) -> bool {
        self.0 != 0
    }

    /// The first identifier a store hands out: one.
    pub fn first() -> (res: FrameId)
        ensures
            res.value() == 1,
    {
        FrameId(1)
    }

    /// The identifier of a number, none for zero.
    pub fn new(raw: u32) -> (res: Option<FrameId>)
        ensures
            res is None <==> raw == 0,
            res matches Some(id) ==> id.value() == raw,
    {
        if raw == 0 {
            None
        } else {
            Some(FrameId(raw))
        }
    }

    /// The number the identifier holds, which is never zero.
    pub fn get(self) -> (res: u32)
        ensures
            res == self.value(),
            res != 0,
    {
        proof {
            use_type_invariant(&self);
        }
        self.0
    }

    /// The identifier written with its kind's prefix: `frame:7`.
    pub fn to_string(&self) -> (res: String)
        ensures
            res@ == "frame:"@ + decimal(self.value() as nat),
    {
        let number = written(self.0);
        joined("frame:", number.as_str())
    }
}

/// A source a fact was taken from. Never zero.
#[derive(Debug, Clone, Copy, PartialEq, Eq, PartialOrd, Ord, Hash)]
pub struct SourceId(u32);

impl SourceId {
    /// The number the identifier holds.
    pub closed spec fn value(self) -> u32 {
        self.0
    }

    /// An identifier is never zero.
    #[verifier::type_invariant]
    spec fn nonzero(self) -> bool {
        self.0 != 0
    }

    /// The first identifier a store hands out: one.
    pub fn first() -> (res: SourceId)
        ensures
            res.value() == 1,
    {
        SourceId(1)
    }

    /// The identifier of a number, none for zero.
    pub fn new(raw: u32) -> (res: Option<SourceId>)
        ensures
            res is None <==> raw == 0,
            res matches Some(id) ==> id.value() == raw,
    {
        if raw == 0 {
            None
        } else {
            Some(SourceId(raw))
        }
    }

    /// The number the identifier holds, which is never zero.
    pub fn get(self) -> (res: u32)
        ensures
            res == self.value(),
            res != 0,
    {
        proof {
            use_type_invariant(&self);
        }
        self.0
    }

    /// The identifier written with its kind's prefix: `source:7`.
    pub fn to_string(&self) -> (res: String)
        ensures
            res@ == "source:"@ + decimal(self.value() as nat),
    {
        let number = written(self.0);
        joined("source:", number.as_str())
    }
}

} // verus!
