use vstd::prelude::*;

verus! {

/// The battlefield is divided into two zones, like a tabletop card game: the **Bench**, where the
/// monsters not participating in the battle are, and the **Field**, where the monsters currently
/// participating are. Monsters on the Field stand on one of its tiles.
#[derive(Debug, Clone, Copy, PartialEq, Eq, Structural)]
pub enum BoardPosition {
    Bench,
    Field(FieldPosition),
}

/// The tiles of the Field. "Left" and "right" are with respect to the ally team, so `AllyLeft`
/// and `OpponentLeft` face each other.
#[derive(Debug, Clone, Copy, PartialEq, Eq, Structural)]
pub enum FieldPosition {
    AllyLeft,
    AllyCentre,
    AllyRight,
    OpponentLeft,
    OpponentCentre,
    OpponentRight,
}

/// The coordinates of a tile: the column (0 to 2, left to right) and the side (0 for the allies,
/// 1 for the opponents).
pub open spec fn coords(position: FieldPosition) -> (int, int) {
    match position {
        FieldPosition::AllyLeft => (0, 0),
        FieldPosition::AllyCentre => (1, 0),
        FieldPosition::AllyRight => (2, 0),
        FieldPosition::OpponentLeft => (0, 1),
        FieldPosition::OpponentCentre => (1, 1),
        FieldPosition::OpponentRight => (2, 1),
    }
}

/// The tile at the coordinates `(x, y)`, if there is one.
pub open spec fn position_at(x: int, y: int) -> Option<FieldPosition> {
    if x == 0 && y == 0 {
        Some(FieldPosition::AllyLeft)
    } else if x == 1 && y == 0 {
        Some(FieldPosition::AllyCentre)
    } else if x == 2 && y == 0 {
        Some(FieldPosition::AllyRight)
    } else if x == 0 && y == 1 {
        Some(FieldPosition::OpponentLeft)
    } else if x == 1 && y == 1 {
        Some(FieldPosition::OpponentCentre)
    } else if x == 2 && y == 1 {
        Some(FieldPosition::OpponentRight)
    } else {
        None
    }
}

/// The eight compass directions, in the order in which neighbours are listed.
pub open spec fn compass_direction(k: int) -> (int, int) {
    if k == 0 {
        (-1, 1)
    } else if k == 1 {
        (-1, 0)
    } else if k == 2 {
        (-1, -1)
    } else if k == 3 {
        (0, 1)
    } else if k == 4 {
        (0, -1)
    } else if k == 5 {
        (1, 1)
    } else if k == 6 {
        (1, 0)
    } else {
        (1, -1)
    }
}

/// The tiles that lie in the first `k` compass directions from `position`, in compass order.
pub open spec fn neighbours_in_first_directions(position: FieldPosition, k: nat) -> Seq<FieldPosition>
    decreases k,
{
    if k == 0 {
        Seq::empty()
    } else {
        let previous = neighbours_in_first_directions(position, (k - 1) as nat);
        let (dx, dy) = compass_direction(k - 1);
        match position_at(coords(position).0 + dx, coords(position).1 + dy) {
            Some(neighbour) => previous.push(neighbour),
            None => previous,
        }
    }
}

/// The tiles next to `position` (allies and opponents, but not `position` itself), in compass
/// order.
pub open spec fn spec_adjacent_positions(position: FieldPosition) -> Seq<FieldPosition> {
    neighbours_in_first_directions(position, 8)
}

/// Whether two tiles are distinct and at most one column and one side apart.
pub open spec fn are_neighbours(a: FieldPosition, b: FieldPosition) -> bool {
    let (ax, ay) = coords(a);
    let (bx, by) = coords(b);
    &&& a != b
    &&& -1 <= ax - bx <= 1
    &&& -1 <= ay - by <= 1
}

impl FieldPosition {
    /// The positions adjacent to this position, including allies and opponents but not itself.
    pub fn adjacent_positions(&self) -> (positions: Vec<FieldPosition>)
        ensures
            positions@ == spec_adjacent_positions(*self),
    {
        let (x, y) = self.to_coords();
        let mut positions: Vec<FieldPosition> = Vec::new();
        let compass_directions: [(i8, i8); 8] = [(-1, 1), (-1, 0), (-1, -1), (0, 1), (0, -1), (1, 1), (1, 0), (1, -1)];
        let mut k: usize = 0;
        while k < 8
            invariant
                k <= 8,
                (x as int, y as int) == coords(*self),
                positions@ == neighbours_in_first_directions(*self, k as nat),
                forall|j: int| 0 <= j < 8 ==> (compass_directions[j].0 as int, compass_directions[j].1 as int) == compass_direction(j),
            decreases 8 - k,
        {
            let (dx, dy) = compass_directions[k];
            let maybe_position = FieldPosition::from_coords(x + dx, y + dy);
            if let Some(position) = maybe_position {
                positions.push(position);
            }
            k = k + 1;
        }
        positions
    }

    /// Whether `position_to_compare` is adjacent to this position.
    pub fn is_adjacent_to(&self, position_to_compare: FieldPosition) -> (b: bool)
        ensures
            b == spec_adjacent_positions(*self).contains(position_to_compare),
            b == are_neighbours(*self, position_to_compare),
    {
        let positions = self.adjacent_positions();
        proof {
            law_adjacency_is_neighbourhood(*self, position_to_compare);
        }
        let mut i: usize = 0;
        while i < positions.len()
            invariant
                0 <= i <= positions.len(),
                positions@ == spec_adjacent_positions(*self),
                spec_adjacent_positions(*self).contains(position_to_compare) <==> are_neighbours(*self, position_to_compare),
                forall|j: int| 0 <= j < i ==> positions@[j] != position_to_compare,
            decreases positions.len() - i,
        {
            if positions[i] == position_to_compare {
                assert(positions@.contains(position_to_compare));
                return true;
            }
            i = i + 1;
        }
        false
    }

    fn from_coords(x: i8, y: i8) -> (p: Option<FieldPosition>)
        ensures
            p == position_at(x as int, y as int),
    {
        if x == 0 && y == 0 {
            Some(FieldPosition::AllyLeft)
        } else if x == 1 && y == 0 {
            Some(FieldPosition::AllyCentre)
        } else if x == 2 && y == 0 {
            Some(FieldPosition::AllyRight)
        } else if x == 0 && y == 1 {
            Some(FieldPosition::OpponentLeft)
        } else if x == 1 && y == 1 {
            Some(FieldPosition::OpponentCentre)
        } else if x == 2 && y == 1 {
            Some(FieldPosition::OpponentRight)
        } else {
            None
        }
    }

    fn to_coords(&self) -> (c: (i8, i8))
        ensures
            (c.0 as int, c.1 as int) == coords(*self),
    {
        match self {
            FieldPosition::AllyLeft => (0, 0),
            FieldPosition::AllyCentre => (1, 0),
            FieldPosition::AllyRight => (2, 0),
            FieldPosition::OpponentLeft => (0, 1),
            FieldPosition::OpponentCentre => (1, 1),
            FieldPosition::OpponentRight => (2, 1),
        }
    }

    /// Whether the other position is on the other side of the field.
    pub fn is_on_the_opposite_side_of(&self, other_position: FieldPosition) -> (b: bool)
        ensures
            b == (coords(*self).1 != coords(other_position).1),
    {
        let self_side = self.to_coords().1;
        let other_position_side = other_position.to_coords().1;
        self_side != other_position_side
    }

    /// Whether the other position is on the same side of the field.
    pub fn is_on_the_same_side_as(&self, other_position: FieldPosition) -> (b: bool)
        ensures
            b == (coords(*self).1 == coords(other_position).1),
    {
        let self_side = self.to_coords().1;
        let other_position_side = other_position.to_coords().1;
        self_side == other_position_side
    }

    /// Whether the relation of `other` to `reference` (itself, an ally or an opponent; adjacent or
    /// not) is one of those that `allowed` admits.
    pub fn is_position_relation_allowed_by_flags(reference: FieldPosition, other: FieldPosition, allowed: TargetFlags) -> (b: bool)
        ensures
            b == allowed.spec_contains(spec_relation_flags(reference, other)),
    {
        let relation = FieldPosition::relation_flags(reference, other);
        allowed.contains(relation)
    }

    /// The flags that describe the relation of `other` to `reference`.
    pub fn relation_flags(reference: FieldPosition, other: FieldPosition) -> (flags: TargetFlags)
        ensures
            flags == spec_relation_flags(reference, other),
    {
        if reference == other {
            TargetFlags { bits: TARGET_SELF }
        } else {
            let side_bits: u8 = if reference.is_on_the_same_side_as(other) { TARGET_ALLIES } else { TARGET_OPPONENTS };
            let adjacency_bits: u8 = if reference.is_adjacent_to(other) { TARGET_ADJACENT } else { TARGET_NONADJACENT };
            TargetFlags { bits: side_bits | adjacency_bits }
        }
    }
}

/// The relation of `other` to `reference`: `SELF` for the same tile; otherwise `ALLIES` or
/// `OPPONENTS` by side, together with `ADJACENT` or `NONADJACENT`.
pub open spec fn spec_relation_flags(reference: FieldPosition, other: FieldPosition) -> TargetFlags {
    if reference == other {
        TargetFlags { bits: TARGET_SELF }
    } else {
        let side_bits: u8 = if coords(reference).1 == coords(other).1 { TARGET_ALLIES } else { TARGET_OPPONENTS };
        let adjacency_bits: u8 = if are_neighbours(reference, other) { TARGET_ADJACENT } else { TARGET_NONADJACENT };
        TargetFlags { bits: side_bits | adjacency_bits }
    }
}

/// The name of a tile, as messages show it.
pub open spec fn field_position_name(position: FieldPosition) -> Seq<char> {
    match position {
        FieldPosition::AllyLeft => "AllyLeft"@,
        FieldPosition::AllyCentre => "AllyCentre"@,
        FieldPosition::AllyRight => "AllyRight"@,
        FieldPosition::OpponentLeft => "OpponentLeft"@,
        FieldPosition::OpponentCentre => "OpponentCentre"@,
        FieldPosition::OpponentRight => "OpponentRight"@,
    }
}

impl FieldPosition {
    /// The name of the tile, as messages show it.
    pub fn name(&self) -> (name: &'static str)
        ensures
            name@ == field_position_name(*self),
    {
        match self {
            FieldPosition::AllyLeft => "AllyLeft",
            FieldPosition::AllyCentre => "AllyCentre",
            FieldPosition::AllyRight => "AllyRight",
            FieldPosition::OpponentLeft => "OpponentLeft",
            FieldPosition::OpponentCentre => "OpponentCentre",
            FieldPosition::OpponentRight => "OpponentRight",
        }
    }
}

impl BoardPosition {
    /// The tile of the Field, or `None` for the Bench.
    pub fn field_position(&self) -> (p: Option<FieldPosition>)
        ensures
            p == spec_field_position(*self),
    {
        match self {
            BoardPosition::Bench => None,
            BoardPosition::Field(field_position) => Some(*field_position),
        }
    }
}

/// The tile of the Field, or `None` for the Bench.
pub open spec fn spec_field_position(position: BoardPosition) -> Option<FieldPosition> {
    match position {
        BoardPosition::Bench => None,
        BoardPosition::Field(field_position) => Some(field_position),
    }
}

/// The bit that stands for "any target".
pub const TARGET_ANY: u8 = 0b0000_0000;
/// The bit that stands for "all targets".
pub const TARGET_ALL: u8 = 0b0000_0001;
/// The bit that stands for adjacent positions.
pub const TARGET_ADJACENT: u8 = 0b0000_0010;
/// The bit that stands for non-adjacent positions.
pub const TARGET_NONADJACENT: u8 = 0b0000_0100;
/// The bit that stands for the position itself.
pub const TARGET_SELF: u8 = 0b0000_1000;
/// The bit that stands for allied positions.
pub const TARGET_ALLIES: u8 = 0b0001_0000;
/// The bit that stands for opposing positions.
pub const TARGET_OPPONENTS: u8 = 0b0010_0000;

/// A set of relations between two positions, as bits.
#[derive(Debug, Clone, Copy, PartialEq, Eq, Structural)]
pub struct TargetFlags {
    pub bits: u8,
}

/// The newer name of `TargetFlags`.
pub type PositionRelationFlags = TargetFlags;

impl TargetFlags {
    /// Whether every flag of `other` is in `self`.
    pub open spec fn spec_contains(self, other: TargetFlags) -> bool {
        self.bits & other.bits == other.bits
    }

    pub fn empty() -> (f: TargetFlags)
        ensures
            f.bits == 0,
    {
        TargetFlags { bits: 0 }
    }

    /// Every flag, the unnamed ones included.
    pub fn all() -> (f: TargetFlags)
        ensures
            f.bits == 0xff,
    {
        TargetFlags { bits: 0xff }
    }

    pub fn from_bits(bits: u8) -> (f: TargetFlags)
        ensures
            f.bits == bits,
    {
        TargetFlags { bits }
    }

    pub fn bits(&self) -> (b: u8)
        ensures
            b == self.bits,
    {
        self.bits
    }

    pub fn adjacent() -> (f: TargetFlags)
        ensures
            f.bits == TARGET_ADJACENT,
    {
        TargetFlags { bits: TARGET_ADJACENT }
    }

    pub fn nonadjacent() -> (f: TargetFlags)
        ensures
            f.bits == TARGET_NONADJACENT,
    {
        TargetFlags { bits: TARGET_NONADJACENT }
    }

    pub fn itself() -> (f: TargetFlags)
        ensures
            f.bits == TARGET_SELF,
    {
        TargetFlags { bits: TARGET_SELF }
    }

    pub fn allies() -> (f: TargetFlags)
        ensures
            f.bits == TARGET_ALLIES,
    {
        TargetFlags { bits: TARGET_ALLIES }
    }

    pub fn opponents() -> (f: TargetFlags)
        ensures
            f.bits == TARGET_OPPONENTS,
    {
        TargetFlags { bits: TARGET_OPPONENTS }
    }

    /// The flags of `self` together with those of `other`.
    pub fn union(self, other: TargetFlags) -> (f: TargetFlags)
        ensures
            f.bits == self.bits | other.bits,
    {
        TargetFlags { bits: self.bits | other.bits }
    }

    /// Whether every flag of `other` is in `self`.
    pub fn contains(&self, other: TargetFlags) -> (b: bool)
        ensures
            b == self.spec_contains(other),
    {
        self.bits & other.bits == other.bits
    }
}

// Laws ------------------------------------------------------------------------------------- //

/// A position's adjacent positions are exactly the other tiles at most one column and one side
/// away.
pub proof fn law_adjacency_is_neighbourhood(position: FieldPosition, other: FieldPosition)
    ensures
        spec_adjacent_positions(position).contains(other) <==> are_neighbours(position, other),
{
    reveal_with_fuel(neighbours_in_first_directions, 9);
    let s = spec_adjacent_positions(position);
    match position {
        FieldPosition::AllyLeft => {
            assert(s =~= seq![FieldPosition::OpponentLeft, FieldPosition::OpponentCentre, FieldPosition::AllyCentre]);
        },
        FieldPosition::AllyCentre => {
            assert(s =~= seq![
                FieldPosition::OpponentLeft,
                FieldPosition::AllyLeft,
                FieldPosition::OpponentCentre,
                FieldPosition::OpponentRight,
                FieldPosition::AllyRight,
            ]);
        },
        FieldPosition::AllyRight => {
            assert(s =~= seq![FieldPosition::OpponentCentre, FieldPosition::AllyCentre, FieldPosition::OpponentRight]);
        },
        FieldPosition::OpponentLeft => {
            assert(s =~= seq![FieldPosition::AllyLeft, FieldPosition::OpponentCentre, FieldPosition::AllyCentre]);
        },
        FieldPosition::OpponentCentre => {
            assert(s =~= seq![
                FieldPosition::OpponentLeft,
                FieldPosition::AllyLeft,
                FieldPosition::AllyCentre,
                FieldPosition::OpponentRight,
                FieldPosition::AllyRight,
            ]);
        },
        FieldPosition::OpponentRight => {
            assert(s =~= seq![FieldPosition::OpponentCentre, FieldPosition::AllyCentre, FieldPosition::AllyRight]);
        },
    }
}

/// Adjacency is symmetric: if `b` is next to `a`, then `a` is next to `b`.
pub proof fn law_adjacency_is_symmetric(a: FieldPosition, b: FieldPosition)
    ensures
        spec_adjacent_positions(a).contains(b) == spec_adjacent_positions(b).contains(a),
{
    law_adjacency_is_neighbourhood(a, b);
    law_adjacency_is_neighbourhood(b, a);
}

/// A position is related to itself exactly by `SELF`, and to any other position by exactly one of
/// `ALLIES` or `OPPONENTS` and exactly one of `ADJACENT` or `NONADJACENT`.
pub proof fn law_relation_flags_are_exclusive(reference: FieldPosition, other: FieldPosition)
    ensures
        reference == other ==> spec_relation_flags(reference, other).bits == TARGET_SELF,
        reference != other ==> ({
            let bits = spec_relation_flags(reference, other).bits;
            &&& (bits & TARGET_SELF) == 0
            &&& ((bits & TARGET_ALLIES) == 0) != ((bits & TARGET_OPPONENTS) == 0)
            &&& ((bits & TARGET_ADJACENT) == 0) != ((bits & TARGET_NONADJACENT) == 0)
        }),
{
    if reference != other {
        let side_bits: u8 = if coords(reference).1 == coords(other).1 { TARGET_ALLIES } else { TARGET_OPPONENTS };
        let adjacency_bits: u8 = if are_neighbours(reference, other) { TARGET_ADJACENT } else { TARGET_NONADJACENT };
        assert((side_bits == 16u8 || side_bits == 32u8) && (adjacency_bits == 2u8 || adjacency_bits == 4u8));
        assert(forall|s: u8, a: u8|
            (s == 16u8 || s == 32u8) && (a == 2u8 || a == 4u8) ==> {
                &&& ((s | a) & 8u8) == 0
                &&& (((s | a) & 16u8) == 0) != (((s | a) & 32u8) == 0)
                &&& (((s | a) & 2u8) == 0) != (((s | a) & 4u8) == 0)
            }) by (bit_vector);
    }
}


/// A set of flags contains another exactly when every flag of the other is among its own:
/// joining the other to it adds nothing, and it shares all of the other's flags.
pub proof fn law_containment_is_inclusion(flags: TargetFlags, other: TargetFlags)
    ensures
        flags.spec_contains(other) <==> (flags.bits | other.bits) == flags.bits,
        flags.spec_contains(other) <==> (other.bits & !flags.bits) == 0,
{
    let a = flags.bits;
    let b = other.bits;
    assert((a & b == b) <==> ((a | b) == a)) by (bit_vector);
    assert((a & b == b) <==> ((b & !a) == 0u8)) by (bit_vector);
}

} // verus!
