use rand::Rng;
use vstd::arithmetic::div_mod::lemma_div_multiples_vanish;
use vstd::prelude::*;

verus! {

/// The mathematical value of a `Vector3`: its three components as integers.
pub type Triple = (int, int, int);

/// Whether an integer can be stored in an `i64` component.
pub open spec fn fits(v: int) -> bool {
    i64::MIN <= v <= i64::MAX
}

/// Integer division rounding toward zero, as Rust's `/` does.
pub open spec fn tdiv(a: int, b: int) -> int {
    if a >= 0 && b > 0 {
        a / b
    } else if a >= 0 {
        -(a / (-b))
    } else if b > 0 {
        -((-a) / b)
    } else {
        (-a) / (-b)
    }
}

pub open spec fn add3(a: Triple, b: Triple) -> Triple {
    (a.0 + b.0, a.1 + b.1, a.2 + b.2)
}

pub open spec fn sub3(a: Triple, b: Triple) -> Triple {
    (a.0 - b.0, a.1 - b.1, a.2 - b.2)
}

pub open spec fn neg3(a: Triple) -> Triple {
    (-a.0, -a.1, -a.2)
}

pub open spec fn scale3(a: Triple, s: int) -> Triple {
    (a.0 * s, a.1 * s, a.2 * s)
}

pub open spec fn div3(a: Triple, s: int) -> Triple {
    (tdiv(a.0, s), tdiv(a.1, s), tdiv(a.2, s))
}

/// Component-wise product.
pub open spec fn mul3(a: Triple, b: Triple) -> Triple {
    (a.0 * b.0, a.1 * b.1, a.2 * b.2)
}

pub open spec fn dot3(a: Triple, b: Triple) -> int {
    a.0 * b.0 + a.1 * b.1 + a.2 * b.2
}

pub open spec fn cross3(a: Triple, b: Triple) -> Triple {
    (a.1 * b.2 - a.2 * b.1, a.2 * b.0 - a.0 * b.2, a.0 * b.1 - a.1 * b.0)
}

pub open spec fn length_squared3(a: Triple) -> int {
    a.0 * a.0 + a.1 * a.1 + a.2 * a.2
}

pub open spec fn fits3(a: Triple) -> bool {
    fits(a.0) && fits(a.1) && fits(a.2)
}

/// Every intermediate value of `dot`, evaluated left to right, fits in an `i64`.
pub open spec fn dot_fits(a: Triple, b: Triple) -> bool {
    &&& fits(a.0 * b.0)
    &&& fits(a.1 * b.1)
    &&& fits(a.2 * b.2)
    &&& fits(a.0 * b.0 + a.1 * b.1)
    &&& fits(dot3(a, b))
}

/// Every intermediate value of `cross` fits in an `i64`.
pub open spec fn cross_fits(a: Triple, b: Triple) -> bool {
    &&& fits(a.1 * b.2) && fits(a.2 * b.1)
    &&& fits(a.2 * b.0) && fits(a.0 * b.2)
    &&& fits(a.0 * b.1) && fits(a.1 * b.0)
    &&& fits3(cross3(a, b))
}

/// A vector of three integer components, in the fixed order x, y, z.
#[derive(Clone, Copy, Debug)]
pub struct Vector3 {
    pub data: [i64; 3],
}

/// A position in space.
pub type Point3 = Vector3;

impl View for Vector3 {
    type V = Triple;

    open spec fn view(&self) -> Triple {
        (self.data@[0] as int, self.data@[1] as int, self.data@[2] as int)
    }
}

fn trunc_div(a: i64, b: i64) -> (q: i64)
    requires
        b != 0,
        fits(tdiv(a as int, b as int)),
    ensures
        q == tdiv(a as int, b as int),
{
    if b > 0 {
        a / b
    } else if b == i64::MIN {
        if a == i64::MIN {
            1
        } else {
            0
        }
    } else {
        let d: i64 = -b;
        let q: i64 = a / d;
        assert(q == tdiv(a as int, d as int));
        -q
    }
}

/// Relies on rand::Rng::gen with the thread-local generator, drawing an array of
/// three `i64`; nothing is promised of the values.
#[verifier::external_body]
fn draw_components() -> (r: [i64; 3]) {
    rand::thread_rng().gen()
}

impl Vector3 {
    pub fn new(data: [i64; 3]) -> (r: Self)
        ensures
            r.data@ == data@,
            r@ == (data@[0] as int, data@[1] as int, data@[2] as int),
    {
        Vector3 { data }
    }

    pub fn x(&self) -> (r: i64)
        ensures
            r == self@.0,
    {
        self.data[0]
    }

    pub fn y(&self) -> (r: i64)
        ensures
            r == self@.1,
    {
        self.data[1]
    }

    pub fn z(&self) -> (r: i64)
        ensures
            r == self@.2,
    {
        self.data[2]
    }

    /// The component at position `index` (0 is x, 1 is y, 2 is z).
    pub fn index(&self, index: usize) -> (r: i64)
        requires
            index < 3,
        ensures
            r == self.data@[index as int],
    {
        self.data[index]
    }

    /// A mutable reference to the component at position `index`.
    pub fn index_mut(&mut self, index: usize) -> (r: &mut i64)
        requires
            index < 3,
        ensures
            *r == old(self).data@[index as int],
            final(self).data@ == old(self).data@.update(index as int, *final(r)),
    {
        &mut self.data[index]
    }

    /// The vector of the first three values of `items`.
    pub fn from_iter(items: Vec<i64>) -> (r: Self)
        requires
            items@.len() >= 3,
        ensures
            r.data@ == items@.subrange(0, 3),
    {
        let mut data: [i64; 3] = [0, 0, 0];
        let mut i: usize = 0;
        while i < 3
            invariant
                i <= 3,
                items@.len() >= 3,
                forall|k: int| 0 <= k < i ==> data@[k] == items@[k],
            decreases 3 - i,
        {
            data[i] = items[i];
            i = i + 1;
        }
        assert(data@ =~= items@.subrange(0, 3));
        Vector3::new(data)
    }

    /// A vector with each component drawn at random from the whole `i64` range.
    pub fn random() -> Self {
        Vector3::new(draw_components())
    }

    pub fn length_squared(&self) -> (r: i64)
        requires
            dot_fits(self@, self@),
        ensures
            r == length_squared3(self@),
    {
        self.data[0] * self.data[0] + self.data[1] * self.data[1] + self.data[2] * self.data[2]
    }

    pub fn dot(&self, other: &Vector3) -> (r: i64)
        requires
            dot_fits(self@, other@),
        ensures
            r == dot3(self@, other@),
    {
        self.data[0] * other.data[0] + self.data[1] * other.data[1] + self.data[2] * other.data[2]
    }

    pub fn cross(&self, other: &Vector3) -> (r: Vector3)
        requires
            cross_fits(self@, other@),
        ensures
            r@ == cross3(self@, other@),
    {
        let x: i64 = self.data[1] * other.data[2] - self.data[2] * other.data[1];
        let y: i64 = self.data[2] * other.data[0] - self.data[0] * other.data[2];
        let z: i64 = self.data[0] * other.data[1] - self.data[1] * other.data[0];
        Vector3::new([x, y, z])
    }

    pub fn add(self, other: Vector3) -> (r: Vector3)
        requires
            fits3(add3(self@, other@)),
        ensures
            r@ == add3(self@, other@),
    {
        Vector3::new(
            [self.data[0] + other.data[0], self.data[1] + other.data[1], self.data[2] + other.data[2]],
        )
    }

    pub fn sub(self, other: Vector3) -> (r: Vector3)
        requires
            fits3(sub3(self@, other@)),
        ensures
            r@ == sub3(self@, other@),
    {
        Vector3::new(
            [self.data[0] - other.data[0], self.data[1] - other.data[1], self.data[2] - other.data[2]],
        )
    }

    pub fn neg(self) -> (r: Vector3)
        requires
            fits3(neg3(self@)),
        ensures
            r@ == neg3(self@),
    {
        Vector3::new([-self.data[0], -self.data[1], -self.data[2]])
    }

    /// Every component multiplied by `scalar`.
    pub fn scale(self, scalar: i64) -> (r: Vector3)
        requires
            fits3(scale3(self@, scalar as int)),
        ensures
            r@ == scale3(self@, scalar as int),
    {
        Vector3::new([self.data[0] * scalar, self.data[1] * scalar, self.data[2] * scalar])
    }

    /// Every component divided by `scalar`, rounding toward zero.
    pub fn div(self, scalar: i64) -> (r: Vector3)
        requires
            scalar != 0,
            fits3(div3(self@, scalar as int)),
        ensures
            r@ == div3(self@, scalar as int),
    {
        Vector3::new(
            [
                trunc_div(self.data[0], scalar),
                trunc_div(self.data[1], scalar),
                trunc_div(self.data[2], scalar),
            ],
        )
    }

    /// Component-wise product.
    pub fn mul(self, other: Vector3) -> (r: Vector3)
        requires
            fits3(mul3(self@, other@)),
        ensures
            r@ == mul3(self@, other@),
    {
        Vector3::new(
            [self.data[0] * other.data[0], self.data[1] * other.data[1], self.data[2] * other.data[2]],
        )
    }
}

impl PartialEq for Vector3 {
    fn eq(&self, other: &Vector3) -> (r: bool) {
        self.data[0] == other.data[0] && self.data[1] == other.data[1] && self.data[2]
            == other.data[2]
    }
}

impl vstd::std_specs::cmp::PartialEqSpecImpl for Vector3 {
    open spec fn obeys_eq_spec() -> bool {
        true
    }

    open spec fn eq_spec(&self, other: &Vector3) -> bool {
        self@ == other@
    }
}

/// Vector addition is commutative.
pub proof fn lemma_add_commutative(a: Vector3, b: Vector3)
    ensures
        add3(a@, b@) == add3(b@, a@),
{
}

/// Subtracting what was added gives the original vector back.
pub proof fn lemma_add_then_sub(a: Vector3, b: Vector3)
    ensures
        sub3(add3(a@, b@), b@) == a@,
{
}

proof fn lemma_tdiv_of_multiple(a: int, s: int)
    requires
        s != 0,
    ensures
        tdiv(a * s, s) == a,
{
    let m: int = if a >= 0 { a } else { -a };
    let t: int = if s > 0 { s } else { -s };
    lemma_div_multiples_vanish(m, t);
    assert(t * m == m * t);
    assert(m * t >= 0) by (nonlinear_arith)
        requires
            m >= 0,
            t > 0,
    ;
    if a >= 0 && s > 0 {
    } else if a >= 0 {
        assert(a * s == -(m * t)) by (nonlinear_arith)
            requires
                m == a,
                t == -s,
        ;
    } else if s > 0 {
        assert(a * s == -(m * t)) by (nonlinear_arith)
            requires
                m == -a,
                t == s,
        ;
    } else {
        assert(a * s == m * t) by (nonlinear_arith)
            requires
                m == -a,
                t == -s,
        ;
    }
}

/// Multiplying by a nonzero scalar and then dividing by it gives the original vector back.
pub proof fn lemma_scale_then_div(a: Vector3, s: i64)
    requires
        s != 0,
    ensures
        div3(scale3(a@, s as int), s as int) == a@,
{
    lemma_tdiv_of_multiple(a@.0, s as int);
    lemma_tdiv_of_multiple(a@.1, s as int);
    lemma_tdiv_of_multiple(a@.2, s as int);
}

/// The dot product of a vector with itself is its squared length.
pub proof fn lemma_dot_self(a: Vector3)
    ensures
        dot3(a@, a@) == length_squared3(a@),
{
}

/// The cross product is orthogonal to both of its operands.
pub proof fn lemma_cross_orthogonal(a: Vector3, b: Vector3)
    ensures
        dot3(cross3(a@, b@), a@) == 0,
        dot3(cross3(a@, b@), b@) == 0,
{
    let (a0, a1, a2) = a@;
    let (b0, b1, b2) = b@;
    assert((a1 * b2 - a2 * b1) * a0 + (a2 * b0 - a0 * b2) * a1 + (a0 * b1 - a1 * b0) * a2 == 0)
        by (nonlinear_arith);
    assert((a1 * b2 - a2 * b1) * b0 + (a2 * b0 - a0 * b2) * b1 + (a0 * b1 - a1 * b0) * b2 == 0)
        by (nonlinear_arith);
}

} // verus!
