//! Validated value types shared by the simulation modules.
use vstd::prelude::*;

verus! {

/// Why a value was refused at construction.
#[derive(Clone, Copy, Debug, PartialEq, Eq, Structural)]
pub enum DomainError {
    InvalidAxis(i8),
    InvalidSpinDirection(i8),
    InvalidPart { slot: usize, value: u8 },
    StatOutOfRange(u8),
}

/// Which of the two tops a value belongs to.
#[derive(Clone, Copy, Debug, PartialEq, Eq, Structural)]
pub enum Side {
    Player,
    Opponent,
}

impl Side {
    /// Slot of this side in a two-element per-top array.
    pub open spec fn spec_index(self) -> usize {
        match self {
            Side::Player => 0usize,
            Side::Opponent => 1usize,
        }
    }

    pub fn index(self) -> (i: usize)
        ensures
            i == self.spec_index(),
    {
        match self {
            Side::Player => 0,
            Side::Opponent => 1,
        }
    }

    pub fn other(self) -> (o: Side)
        ensures
            o != self,
            o.spec_index() == 1 - self.spec_index(),
    {
        match self {
            Side::Player => Side::Opponent,
            Side::Opponent => Side::Player,
        }
    }
}

/// A digital axis value, always one of `-1`, `0`, `1`.
#[derive(Clone, Copy, Debug, PartialEq, Eq, Structural)]
pub struct Axis(i8);

impl View for Axis {
    type V = i8;

    closed spec fn view(&self) -> i8 {
        self.0
    }
}

impl Axis {
    /// The axis invariant: the held value lies in `-1..=1`.
    pub closed spec fn wf(self) -> bool {
        -1 <= self.0 <= 1
    }

    pub fn new(value: i8) -> (r: Result<Axis, DomainError>)
        ensures
            -1 <= value <= 1 ==> (r matches Ok(a) && a@ == value && a.wf()),
            !(-1 <= value <= 1) ==> r == Err::<Axis, DomainError>(DomainError::InvalidAxis(value)),
    {
        if -1 <= value && value <= 1 {
            Ok(Axis(value))
        } else {
            Err(DomainError::InvalidAxis(value))
        }
    }

    pub fn get(self) -> (v: i8)
        ensures
            v == self@,
            self.wf() ==> -1 <= v <= 1,
    {
        self.0
    }
}

/// A spin direction, always `-1` or `1`.
#[derive(Clone, Copy, Debug, PartialEq, Eq, Structural)]
pub struct SpinDirection(i8);

impl View for SpinDirection {
    type V = i8;

    closed spec fn view(&self) -> i8 {
        self.0
    }
}

impl SpinDirection {
    /// The invariant: the held value is `-1` or `1`.
    pub closed spec fn wf(self) -> bool {
        self.0 == -1 || self.0 == 1
    }

    pub fn new(value: i8) -> (r: Result<SpinDirection, DomainError>)
        ensures
            (value == -1 || value == 1) ==> (r matches Ok(d) && d@ == value && d.wf()),
            !(value == -1 || value == 1) ==> r == Err::<SpinDirection, DomainError>(
                DomainError::InvalidSpinDirection(value),
            ),
    {
        if value == -1 || value == 1 {
            Ok(SpinDirection(value))
        } else {
            Err(DomainError::InvalidSpinDirection(value))
        }
    }

    pub fn get(self) -> (v: i8)
        ensures
            v == self@,
            self.wf() ==> (v == -1 || v == 1),
    {
        self.0
    }
}

/// Five garage part indices, each below 4.
#[derive(Clone, Copy, Debug, PartialEq, Eq)]
pub struct GarageSelection([u8; 5]);

impl View for GarageSelection {
    type V = Seq<u8>;

    closed spec fn view(&self) -> Seq<u8> {
        self.0@
    }
}

/// Every part index of `parts` is a valid index (below 4).
pub open spec fn parts_in_range(parts: Seq<u8>) -> bool {
    forall|i: int| 0 <= i < parts.len() ==> #[trigger] parts[i] < 4
}

/// The first slot of `parts` holding an index of 4 or more.
pub open spec fn first_bad_slot(parts: Seq<u8>, slot: int) -> bool {
    &&& 0 <= slot < parts.len()
    &&& parts[slot] >= 4
    &&& forall|j: int| 0 <= j < slot ==> #[trigger] parts[j] < 4
}

impl GarageSelection {
    pub fn new(parts: [u8; 5]) -> (r: Result<GarageSelection, DomainError>)
        ensures
            parts_in_range(parts@) <==> r is Ok,
            r matches Ok(g) ==> g@ == parts@,
            r matches Err(e) ==> (e matches DomainError::InvalidPart { slot, value } && first_bad_slot(
                parts@,
                slot as int,
            ) && value == parts@[slot as int]),
    {
        let mut slot: usize = 0;
        while slot < 5
            invariant
                0 <= slot <= 5,
                forall|j: int| 0 <= j < slot ==> #[trigger] parts@[j] < 4,
            decreases 5 - slot,
        {
            if parts[slot] >= 4 {
                return Err(DomainError::InvalidPart { slot, value: parts[slot] });
            }
            slot = slot + 1;
        }
        Ok(GarageSelection(parts))
    }

    pub fn parts(self) -> (p: [u8; 5])
        ensures
            p@ == self@,
    {
        self.0
    }
}

} // verus!
