use vstd::prelude::*;
use vstd::std_specs::ops::AddSpec;
use vstd::std_specs::ops::SubSpec;

verus! {

/// An axis-aligned rotation; the only possible values are 0°, 90°, 180° and 270°,
/// held as a number of clockwise quarter turns in `0..4`.
#[derive(Copy, Clone, Eq, PartialEq, Hash, Debug, Structural)]
pub struct AaRotation(u8);

impl AaRotation {
    #[verifier::type_invariant]
    spec fn in_range(self) -> bool {
        self.0 < 4
    }

    /// The number of clockwise quarter turns, in `0..4`.
    pub closed spec fn turns(self) -> int {
        self.0 as int
    }

    /// Every rotation that the operations of this type produce holds between
    /// 0 and 3 quarter turns.
    pub open spec fn is_valid(self) -> bool {
        0 <= self.turns() < 4
    }

    /// This rotation followed by a clockwise quarter turn.
    pub closed spec fn turned_clockwise(self) -> AaRotation {
        AaRotation(((self.0 + 1) % 4) as u8)
    }

    /// This rotation followed by a counter-clockwise quarter turn.
    pub closed spec fn turned_counter_clockwise(self) -> AaRotation {
        AaRotation(((self.0 + 3) % 4) as u8)
    }

    /// This rotation followed by a half turn.
    pub closed spec fn turned_half(self) -> AaRotation {
        AaRotation(((self.0 + 2) % 4) as u8)
    }

    /// 0°
    pub fn origin() -> (r: AaRotation)
        ensures
            r.turns() == 0,
    {
        AaRotation(0)
    }

    /// 90°
    pub fn clockwise_quarter() -> (r: AaRotation)
        ensures
            r.turns() == 1,
    {
        AaRotation(1)
    }

    /// 180°
    pub fn half_way() -> (r: AaRotation)
        ensures
            r.turns() == 2,
    {
        AaRotation(2)
    }

    /// 270°
    pub fn counter_clockwise_quarter() -> (r: AaRotation)
        ensures
            r.turns() == 3,
    {
        AaRotation(3)
    }

    /// turn clockwise 90°
    pub fn clockwise(self) -> (r: Self)
        ensures
            r == self.turned_clockwise(),
            r.turns() == (self.turns() + 1) % 4,
    {
        proof {
            use_type_invariant(self);
        }
        Self((self.0 + 1) % 4)
    }

    /// turn counter-clockwise 90°
    pub fn counter_clockwise(self) -> (r: Self)
        ensures
            r == self.turned_counter_clockwise(),
            r.turns() == (self.turns() + 3) % 4,
    {
        proof {
            use_type_invariant(self);
        }
        Self((self.0 + 3) % 4)
    }

    /// turn 180°
    pub fn flipped(self) -> (r: Self)
        ensures
            r == self.turned_half(),
            r.turns() == (self.turns() + 2) % 4,
    {
        proof {
            use_type_invariant(self);
        }
        Self((self.0 + 2) % 4)
    }

    /// The number of clockwise quarter turns.
    pub fn quarter_turns(self) -> (n: u8)
        ensures
            n == self.turns(),
    {
        self.0
    }

    /// Is 90° or 270°, therefore the X-axis becomes the Y-axis.
    pub fn is_axis_flipped(self) -> (b: bool)
        ensures
            b == (self.turns() % 2 == 1),
    {
        self.0 % 2 == 1
    }
}

impl Default for AaRotation {
    fn default() -> (r: Self)
        ensures
            r.turns() == 0,
    {
        AaRotation(0)
    }
}

impl std::ops::Add for AaRotation {
    type Output = Self;

    fn add(self, other: Self) -> (r: Self) {
        proof {
            use_type_invariant(self);
            use_type_invariant(other);
        }
        Self((self.0 + other.0) % 4)
    }
}

impl vstd::std_specs::ops::AddSpecImpl for AaRotation {
    open spec fn obeys_add_spec() -> bool {
        true
    }

    open spec fn add_req(self, other: Self) -> bool {
        true
    }

    closed spec fn add_spec(self, other: Self) -> Self {
        AaRotation(((self.0 + other.0) % 4) as u8)
    }
}

impl std::ops::Sub for AaRotation {
    type Output = Self;

    fn sub(self, other: Self) -> (r: Self) {
        proof {
            use_type_invariant(self);
            use_type_invariant(other);
        }
        Self((self.0 - other.0 + 4) % 4)
    }
}

impl vstd::std_specs::ops::SubSpecImpl for AaRotation {
    open spec fn obeys_sub_spec() -> bool {
        true
    }

    /// The subtraction is carried out on `u8` before the wrap-around is added
    /// back, so it is only defined when `self` has at least as many turns as
    /// `other`.
    closed spec fn sub_req(self, other: Self) -> bool {
        self.0 >= other.0
    }

    closed spec fn sub_spec(self, other: Self) -> Self {
        AaRotation(((self.0 - other.0 + 4) % 4) as u8)
    }
}

/// An axis-aligned transformation: a rotation, optionally followed by a
/// horizontal flip.
#[derive(Copy, Clone, Debug, Eq, PartialEq, Structural)]
pub struct AaTransform {
    rotation: AaRotation,
    flipped_horizontal: bool,
}

impl AaTransform {
    /// The rotation part of this transform.
    pub closed spec fn spec_rotation(self) -> AaRotation {
        self.rotation
    }

    /// Whether this transform flips horizontally after rotating.
    pub closed spec fn spec_flipped(self) -> bool {
        self.flipped_horizontal
    }

    /// This transform with `rotation` added to its rotation.
    pub closed spec fn with_rotation_added(self, rotation: AaRotation) -> AaTransform {
        AaTransform { rotation: self.rotation.add_spec(rotation), ..self }
    }

    /// This transform followed by a horizontal flip.
    pub closed spec fn mirrored_horizontally(self) -> AaTransform {
        AaTransform { flipped_horizontal: !self.flipped_horizontal, ..self }
    }

    /// This transform followed by a vertical flip: a half turn and a
    /// horizontal flip.
    pub closed spec fn mirrored_vertically(self) -> AaTransform {
        AaTransform { rotation: self.rotation.turned_half(), flipped_horizontal: !self.flipped_horizontal }
    }

    /// returns the rotation of this transform.
    pub fn get_rotation(self) -> (r: AaRotation)
        ensures
            r == self.spec_rotation(),
            r.is_valid(),
    {
        proof {
            use_type_invariant(self.rotation);
        }
        self.rotation
    }

    /// The transform can't be turned into identity by rotating.
    pub fn is_flipped(self) -> (b: bool)
        ensures
            b == self.spec_flipped(),
    {
        self.flipped_horizontal
    }

    /// A builder-style method to rotate the transform.
    pub fn rotated(self, rotation: AaRotation) -> (t: Self)
        ensures
            t == self.with_rotation_added(rotation),
            t.spec_rotation() == self.spec_rotation().add_spec(rotation),
            t.spec_rotation().turns() == (self.spec_rotation().turns() + rotation.turns()) % 4,
            t.spec_flipped() == self.spec_flipped(),
    {
        let mut t = self;
        t.rotate(rotation);
        t
    }

    /// A builder-style method to flip the transform horizontally.
    pub fn flipped_horizontal(self) -> (t: Self)
        ensures
            t == self.mirrored_horizontally(),
            t.spec_rotation() == self.spec_rotation(),
            t.spec_flipped() == !self.spec_flipped(),
    {
        let mut t = self;
        t.flip_horizontal();
        t
    }

    /// A builder-style method to flip the transform vertically.
    pub fn flipped_vertical(self) -> (t: Self)
        ensures
            t == self.mirrored_vertically(),
            t.spec_rotation() == self.spec_rotation().turned_half(),
            t.spec_rotation().turns() == (self.spec_rotation().turns() + 2) % 4,
            t.spec_flipped() == !self.spec_flipped(),
    {
        let mut t = self;
        t.flip_vertical();
        t
    }

    /// Rotate the transform.
    pub fn rotate(&mut self, rotation: AaRotation)
        ensures
            *final(self) == old(self).with_rotation_added(rotation),
            final(self).spec_rotation() == old(self).spec_rotation().add_spec(rotation),
            final(self).spec_rotation().turns() == (old(self).spec_rotation().turns()
                + rotation.turns()) % 4,
            final(self).spec_flipped() == old(self).spec_flipped(),
    {
        self.rotation = self.rotation + rotation;
    }

    /// Flip the transform horizontally.
    pub fn flip_horizontal(&mut self)
        ensures
            *final(self) == old(self).mirrored_horizontally(),
            final(self).spec_rotation() == old(self).spec_rotation(),
            final(self).spec_flipped() == !old(self).spec_flipped(),
    {
        self.flipped_horizontal = !self.flipped_horizontal;
    }

    /// Flip the transform vertically: a half turn followed by a horizontal flip.
    pub fn flip_vertical(&mut self)
        ensures
            *final(self) == old(self).mirrored_vertically(),
            final(self).spec_rotation() == old(self).spec_rotation().turned_half(),
            final(self).spec_rotation().turns() == (old(self).spec_rotation().turns() + 2) % 4,
            final(self).spec_flipped() == !old(self).spec_flipped(),
    {
        self.rotation = self.rotation.flipped();
        self.flipped_horizontal = !self.flipped_horizontal;
    }

    /// Orient a pair of dimensions for this transform: when the rotation turns
    /// the X-axis into the Y-axis the pair is swapped, otherwise it is kept.
    /// The layout of a transformed child swaps its constraints and its size
    /// this way.
    pub fn oriented<N>(self, width: N, height: N) -> (r: (N, N))
        ensures
            self.spec_rotation().turns() % 2 == 1 ==> r == (height, width),
            self.spec_rotation().turns() % 2 != 1 ==> r == (width, height),
    {
        if self.rotation.is_axis_flipped() {
            (height, width)
        } else {
            (width, height)
        }
    }
}

impl Default for AaTransform {
    fn default() -> (t: Self)
        ensures
            t.spec_rotation().turns() == 0,
            !t.spec_flipped(),
    {
        Self { rotation: AaRotation(0), flipped_horizontal: false }
    }
}

/// A rotation is determined by its number of quarter turns: two rotations
/// with the same number of turns are the same rotation.
pub broadcast proof fn lemma_rotation_determined_by_turns(a: AaRotation, b: AaRotation)
    ensures
        #[trigger] a.turns() == #[trigger] b.turns() ==> a == b,
{
}

/// A transform is determined by its rotation and its flip.
pub broadcast proof fn lemma_transform_determined_by_parts(a: AaTransform, b: AaTransform)
    ensures
        #[trigger] a.spec_rotation() == #[trigger] b.spec_rotation() && a.spec_flipped() == b.spec_flipped()
            ==> a == b,
{
}

/// The facts that identify rotations and transforms by their parts.
pub broadcast group group_transform_identity {
    lemma_rotation_determined_by_turns,
    lemma_transform_determined_by_parts,
}

/// Four clockwise quarter turns bring a rotation back to itself.
pub proof fn law_four_clockwise_turns_are_identity(r: AaRotation)
    requires
        r.is_valid(),
    ensures
        r.turned_clockwise().turned_clockwise().turned_clockwise().turned_clockwise() == r,
{
}

/// A counter-clockwise quarter turn undoes a clockwise one, and the other way round.
pub proof fn law_counter_clockwise_undoes_clockwise(r: AaRotation)
    requires
        r.is_valid(),
    ensures
        r.turned_clockwise().turned_counter_clockwise() == r,
        r.turned_counter_clockwise().turned_clockwise() == r,
{
}

/// Turning 180° is the same as two clockwise quarter turns, and keeps whether
/// the axes are swapped.
pub proof fn law_half_turn_is_two_quarter_turns(r: AaRotation)
    requires
        r.is_valid(),
    ensures
        r.turned_half() == r.turned_clockwise().turned_clockwise(),
        (r.turned_half().turns() % 2 == 1) == (r.turns() % 2 == 1),
{
}

/// Adding rotations is commutative and associative, and the 0° rotation is
/// its neutral element.
pub proof fn law_rotation_addition(a: AaRotation, b: AaRotation, c: AaRotation, zero: AaRotation)
    requires
        a.is_valid(),
        b.is_valid(),
        c.is_valid(),
        zero.turns() == 0,
    ensures
        a.add_spec(b) == b.add_spec(a),
        a.add_spec(b).add_spec(c) == a.add_spec(b.add_spec(c)),
        a.add_spec(zero) == a,
        a.add_spec(b).turns() == (a.turns() + b.turns()) % 4,
{
}

/// Subtracting a rotation undoes adding it, wherever the subtraction is defined.
pub proof fn law_subtraction_undoes_addition(a: AaRotation, b: AaRotation)
    requires
        a.is_valid(),
        b.is_valid(),
        a.add_spec(b).sub_req(b),
    ensures
        a.add_spec(b).sub_spec(b) == a,
{
}

/// Subtracting a rotation and adding it back gives the rotation, wherever the
/// subtraction is defined (the first rotation has at least as many turns as
/// the second); the difference is then a valid rotation of the difference of
/// the turns, modulo four.
pub proof fn law_addition_undoes_subtraction(a: AaRotation, b: AaRotation)
    requires
        a.is_valid(),
        b.is_valid(),
        a.sub_req(b),
    ensures
        a.sub_req(b) <==> a.turns() >= b.turns(),
        a.sub_spec(b).turns() == (a.turns() - b.turns() + 4) % 4,
        a.sub_spec(b).is_valid(),
        a.sub_spec(b).add_spec(b) == a,
{
}

/// Subtraction is defined exactly when the first rotation has at least as
/// many quarter turns as the second.
pub proof fn law_subtraction_defined(a: AaRotation, b: AaRotation)
    ensures
        a.sub_req(b) <==> a.turns() >= b.turns(),
{
}

/// Turning a transform a quarter clockwise and then a quarter
/// counter-clockwise gives back the transform, and so does the other order;
/// adding the 0° rotation changes nothing.
pub proof fn law_turning_back_restores(t: AaTransform, cw: AaRotation, ccw: AaRotation, zero: AaRotation)
    requires
        t.spec_rotation().is_valid(),
        cw.turns() == 1,
        ccw.turns() == 3,
        zero.turns() == 0,
    ensures
        t.with_rotation_added(cw).with_rotation_added(ccw) == t,
        t.with_rotation_added(ccw).with_rotation_added(cw) == t,
        t.with_rotation_added(zero) == t,
{
}

/// Flipping horizontally twice, or vertically twice, gives back the transform.
pub proof fn law_flips_are_involutions(t: AaTransform)
    requires
        t.spec_rotation().is_valid(),
    ensures
        t.mirrored_horizontally().mirrored_horizontally() == t,
        t.mirrored_vertically().mirrored_vertically() == t,
{
}

/// A vertical flip is a horizontal flip followed by a half turn.
pub proof fn law_vertical_flip_is_horizontal_flip_and_half_turn(t: AaTransform, half: AaRotation)
    requires
        half.turns() == 2,
    ensures
        t.mirrored_vertically() == t.mirrored_horizontally().with_rotation_added(half),
{
}

/// Rotating by `a` and then by `b` is rotating by `a + b`, and rotating
/// commutes with a horizontal flip.
pub proof fn law_rotations_compose(t: AaTransform, a: AaRotation, b: AaRotation)
    requires
        t.spec_rotation().is_valid(),
        a.is_valid(),
        b.is_valid(),
    ensures
        t.with_rotation_added(a).with_rotation_added(b) == t.with_rotation_added(a.add_spec(b)),
        t.with_rotation_added(a).mirrored_horizontally() == t.mirrored_horizontally().with_rotation_added(a),
{
}

} // verus!
