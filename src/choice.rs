use vstd::prelude::*;

verus! {

/// A radio-button choice, used both for the monitor to capture
/// (`A`..`E` pick monitors one to five, `F` picks all of them) and for the
/// autosave format (`A` jpg, `B` png, `C` gif).
#[derive(Debug, Clone, Copy, PartialEq, Eq, Structural)]
pub enum Choice {
    A,
    B,
    C,
    D,
    E,
    F,
}

/// The ordinal of a choice, counting from one.
pub open spec fn numeric_of(c: Choice) -> u32 {
    match c {
        Choice::A => 1,
        Choice::B => 2,
        Choice::C => 3,
        Choice::D => 4,
        Choice::E => 5,
        Choice::F => 6,
    }
}

/// The file suffix that a format choice stands for; empty for the others.
pub open spec fn format_of(c: Choice) -> Seq<char> {
    match c {
        Choice::A => seq!['.', 'j', 'p', 'g'],
        Choice::B => seq!['.', 'p', 'n', 'g'],
        Choice::C => seq!['.', 'g', 'i', 'f'],
        _ => Seq::empty(),
    }
}

impl Choice {
    pub fn to_numeric(&self) -> (r: u32)
        ensures
            r == numeric_of(*self),
            1 <= r <= 6,
    {
        match self {
            Choice::A => 1,
            Choice::B => 2,
            Choice::C => 3,
            Choice::D => 4,
            Choice::E => 5,
            Choice::F => 6,
        }
    }

    pub fn to_format(&self) -> (r: String)
        ensures
            r@ == format_of(*self),
    {
        match self {
            Choice::A => {
                let s = String::from_str(".jpg");
                proof { reveal_strlit(".jpg"); }
                assert(s@ =~= format_of(*self));
                s
            },
            Choice::B => {
                let s = String::from_str(".png");
                proof { reveal_strlit(".png"); }
                assert(s@ =~= format_of(*self));
                s
            },
            Choice::C => {
                let s = String::from_str(".gif");
                proof { reveal_strlit(".gif"); }
                assert(s@ =~= format_of(*self));
                s
            },
            _ => {
                let s = String::new();
                assert(s@ =~= format_of(*self));
                s
            },
        }
    }
}

} // verus!
