use vstd::prelude::*;

verus! {

/// A literal: a nonzero signed variable reference whose sign is its polarity.
/// The value `i32::MIN` is excluded, so negation never overflows.
#[derive(Debug, Clone, Copy, PartialEq, Eq, Structural, PartialOrd, Ord, Hash)]
pub struct Lit(i32);

/// Whether `i` is the encoding of a literal.
pub open spec fn is_lit_value(i: int) -> bool {
    i != 0 && i != i32::MIN as int
}

/// The magnitude of `i`.
pub open spec fn abs(i: int) -> nat {
    if i < 0 { (-i) as nat } else { i as nat }
}

impl View for Lit {
    type V = int;

    closed spec fn view(&self) -> int {
        self.0 as int
    }
}

impl Lit {
    #[verifier::type_invariant]
    spec fn inv(self) -> bool {
        is_lit_value(self.0 as int)
    }

    /// What `new` gives for `i`.
    pub closed spec fn created(i: i32) -> Option<Lit> {
        if is_lit_value(i as int) {
            Some(Lit(i))
        } else {
            None
        }
    }

    /// The literal of the same variable with the opposite polarity.
    pub closed spec fn negated(self) -> Lit {
        Lit((-self.0) as i32)
    }

    /// Builds a literal, or `None` for `0` and `i32::MIN`.
    pub fn new(i: i32) -> (r: Option<Lit>)
        ensures
            r == Lit::created(i),
            is_lit_value(i as int) <==> r.is_some(),
            r matches Some(l) ==> l@ == i as int,
    {
        if i == i32::MIN || i == 0 {
            None
        } else {
            Some(Lit(i))
        }
    }

    /// The signed encoding, as the engine takes it.
    pub fn get(self) -> (r: i32)
        ensures
            r as int == self@,
            is_lit_value(r as int),
    {
        proof { use_type_invariant(&self); }
        self.0
    }

    /// The underlying variable: the magnitude of the encoding.
    pub fn var(self) -> (r: u32)
        ensures
            r as nat == abs(self@),
            r > 0,
    {
        proof { use_type_invariant(&self); }
        if self.0 > 0 {
            self.0 as u32
        } else {
            (-self.0) as u32
        }
    }

    /// The literal of the same variable with the opposite polarity.
    pub fn negate(self) -> (r: Lit)
        ensures
            r == self.negated(),
            r@ == -self@,
    {
        proof { use_type_invariant(&self); }
        Lit(-self.0)
    }

}

/// A clause: the disjunction of its literals.
pub type Clause = Vec<Lit>;

/// Construction rejects exactly `0` and `i32::MIN`; any other `i` gives a
/// literal whose variable is the magnitude of `i`.
pub proof fn lemma_new_variable(i: i32)
    ensures
        (i == 0 || i == i32::MIN) <==> Lit::created(i).is_none(),
        Lit::created(i) matches Some(l) ==> abs(l@) == abs(i as int),
{
}

/// Negation is an involution: negating the negation of a literal gives it back.
pub proof fn lemma_negate_involutive(l: Lit)
    requires
        is_lit_value(l@),
    ensures
        l.negated().negated() == l,
        l.negated()@ == -l@,
{
}

/// The literal of the same variable with the opposite polarity, as `!l`.
impl core::ops::Not for Lit {
    type Output = Lit;

    fn not(self) -> (r: Lit)
        ensures
            r == self.negated(),
            r@ == -self@,
    {
        self.negate()
    }
}

impl vstd::std_specs::ops::NotSpecImpl for Lit {
    open spec fn obeys_not_spec() -> bool {
        true
    }

    open spec fn not_req(self) -> bool {
        true
    }

    closed spec fn not_spec(self) -> Lit {
        Lit((-self.0) as i32)
    }
}

} // verus!

