use vstd::prelude::*;

verus! {

/// The failure raised when a model would be left with no observation to fit.
#[derive(Debug, Clone, Copy, PartialEq, Eq, Structural)]
pub struct EmptyInputError;

/// Copies a slice into a fresh vector, element by element.
fn copy_of<T: Copy>(s: &[T]) -> (r: Vec<T>)
    ensures
        r@ == s@,
{
    let mut r: Vec<T> = Vec::with_capacity(s.len());
    let mut i: usize = 0;
    while i < s.len()
        invariant
            i <= s@.len(),
            r@ == s@.subrange(0, i as int),
        decreases s@.len() - i,
    {
        r.push(s[i]);
        i = i + 1;
    }
    assert(r@ =~= s@);
    r
}

/// The pairs `(xs[i], ys[i])` for every index that both columns have.
pub open spec fn zip_spec<T>(xs: Seq<T>, ys: Seq<T>) -> Seq<(T, T)> {
    Seq::new(
        if xs.len() <= ys.len() { xs.len() } else { ys.len() },
        |i: int| (xs[i], ys[i]),
    )
}

/// Pairs the i-th value of `xs` with the i-th value of `ys`. Where one column is
/// longer, its extra values have no partner and are left out.
pub fn pair_up<T: Copy>(xs: &[T], ys: &[T]) -> (r: Vec<(T, T)>)
    ensures
        r@ == zip_spec(xs@, ys@),
{
    let n: usize = if xs.len() <= ys.len() { xs.len() } else { ys.len() };
    let mut r: Vec<(T, T)> = Vec::with_capacity(n);
    let mut i: usize = 0;
    while i < n
        invariant
            i <= n,
            n == zip_spec(xs@, ys@).len(),
            r@ == zip_spec(xs@, ys@).subrange(0, i as int),
        decreases n - i,
    {
        r.push((xs[i], ys[i]));
        i = i + 1;
        assert(r@ =~= zip_spec(xs@, ys@).subrange(0, i as int));
    }
    assert(r@ =~= zip_spec(xs@, ys@));
    r
}

/// The observations a regression model is fitted to: an ordered sequence that
/// the set owns and that is never empty.
pub struct ObservationSet<T> {
    items: Vec<T>,
}

impl<T: Copy> View for ObservationSet<T> {
    type V = Seq<T>;

    closed spec fn view(&self) -> Seq<T> {
        self.items@
    }
}

impl<T> ObservationSet<T> {
    #[verifier::type_invariant]
    spec fn non_empty(self) -> bool {
        self.items@.len() > 0
    }
}

impl<T: Copy> ObservationSet<T> {
    /// Takes ownership of `items`; fails exactly when there is none.
    pub fn new(items: Vec<T>) -> (r: Result<Self, EmptyInputError>)
        ensures
            r is Err <==> items@.len() == 0,
            r is Ok ==> r->Ok_0@ == items@,
    {
        if items.len() == 0 {
            Err(EmptyInputError)
        } else {
            Ok(ObservationSet { items })
        }
    }

    /// Replaces the whole sequence by a copy of `items`. On empty input the set
    /// is left as it was and the error is returned.
    pub fn update(&mut self, items: &[T]) -> (r: Result<(), EmptyInputError>)
        ensures
            r is Err <==> items@.len() == 0,
            r is Ok ==> final(self)@ == items@,
            r is Err ==> final(self)@ == old(self)@,
            final(self)@.len() > 0,
    {
        proof {
            use_type_invariant(&*self);
        }
        if items.len() == 0 {
            Err(EmptyInputError)
        } else {
            self.items = copy_of(items);
            Ok(())
        }
    }

    /// Appends a copy of `extra` after the present observations, in order.
    pub fn add(&mut self, extra: &[T])
        ensures
            final(self)@ == old(self)@ + extra@,
            final(self)@.len() > 0,
    {
        proof {
            use_type_invariant(&*self);
        }
        let mut joined: Vec<T> = copy_of(self.items.as_slice());
        let mut i: usize = 0;
        while i < extra.len()
            invariant
                i <= extra@.len(),
                joined@ == self.items@ + extra@.subrange(0, i as int),
            decreases extra@.len() - i,
        {
            joined.push(extra[i]);
            i = i + 1;
            assert(joined@ =~= self.items@ + extra@.subrange(0, i as int));
        }
        assert(joined@ =~= self.items@ + extra@);
        self.items = joined;
    }

    /// The number of observations, never zero.
    pub fn len(&self) -> (n: usize)
        ensures
            n == self@.len(),
            n > 0,
    {
        proof {
            use_type_invariant(self);
        }
        self.items.len()
    }

    /// The observations, in order, without copying them.
    pub fn as_slice(&self) -> (r: &[T])
        ensures
            r@ == self@,
    {
        self.items.as_slice()
    }

    /// A copy of the observations, in order.
    pub fn observations(&self) -> (r: Vec<T>)
        ensures
            r@ == self@,
    {
        copy_of(self.items.as_slice())
    }
}

impl<T: Copy> ObservationSet<(T, T)> {
    /// Builds the set from a column of x values and a column of y values, paired
    /// by index as `pair_up` does; fails exactly when no pair can be formed.
    pub fn from_columns(xs: &[T], ys: &[T]) -> (r: Result<Self, EmptyInputError>)
        ensures
            r is Err <==> zip_spec(xs@, ys@).len() == 0,
            r is Ok ==> r->Ok_0@ == zip_spec(xs@, ys@),
    {
        Self::new(pair_up(xs, ys))
    }
}

} // verus!
