//! The Izhikevich spiking-neuron model: a membrane potential and a recovery
//! variable, advanced one explicit Euler step at a time.

use vstd::prelude::*;

use crate::scalar::Scalar;

verus! {

/// The state of one Izhikevich neuron.
pub struct Izhikevich<T> {
    /// Membrane potential.
    v: T,
    /// Recovery variable.
    u: T,
}

/// `dv/dt = e * v^2 + f * v + g - u + i`.
pub open spec fn potential<T: Scalar>(e: T, f: T, g: T, v: T, u: T, i: T) -> T {
    T::spec_add(
        T::spec_sub(T::spec_add(T::spec_add(T::spec_mul(e, T::spec_mul(v, v)), T::spec_mul(f, v)), g), u),
        i,
    )
}

/// `du/dt = a * (b * v - u)`.
pub open spec fn recovery<T: Scalar>(a: T, b: T, v: T, u: T) -> T {
    T::spec_mul(a, T::spec_sub(T::spec_mul(b, v), u))
}

impl<T> Izhikevich<T> {
    pub closed spec fn spec_v(&self) -> T {
        self.v
    }

    pub closed spec fn spec_u(&self) -> T {
        self.u
    }

    /// A neuron with the given potential and recovery.
    pub fn new_const(v: T, u: T) -> (r: Self)
        ensures
            r.spec_v() == v,
            r.spec_u() == u,
    {
        Izhikevich { v, u }
    }

    /// A neuron with the given potential and recovery.
    pub fn new(v: T, u: T) -> (r: Self)
        ensures
            r.spec_v() == v,
            r.spec_u() == u,
    {
        Izhikevich { v, u }
    }

    /// The membrane potential.
    pub fn v(&self) -> (r: T)
        where
            T: Copy,
        ensures
            r == self.spec_v(),
    {
        self.v
    }

    /// The recovery variable.
    pub fn u(&self) -> (r: T)
        where
            T: Copy,
        ensures
            r == self.spec_u(),
    {
        self.u
    }
}

impl<T: Scalar> Izhikevich<T> {
    fn potential(e: T, f: T, g: T, v: T, u: T, i: T) -> (r: T)
        ensures
            r == potential(e, f, g, v, u, i),
    {
        e.mul(v.mul(v)).add(f.mul(v)).add(g).sub(u).add(i)
    }

    fn recovery(a: T, b: T, v: T, u: T) -> (r: T)
        ensures
            r == recovery(a, b, v, u),
    {
        a.mul(b.mul(v).sub(u))
    }

    /// One step of length `step`. Below the threshold `vt` the potential
    /// advances first and the recovery then advances from the new
    /// potential; at or above it the neuron fires: the potential resets to
    /// `c` and the recovery grows by `d`.
    pub fn update(&mut self, step: T, a: T, b: T, c: T, d: T, e: T, f: T, g: T, vt: T, i: T)
        ensures
            T::spec_lt(old(self).spec_v(), vt) ==> {
                let v1 = T::spec_add(
                    old(self).spec_v(),
                    T::spec_mul(step, potential(e, f, g, old(self).spec_v(), old(self).spec_u(), i)),
                );
                &&& final(self).spec_v() == v1
                &&& final(self).spec_u() == T::spec_add(
                    old(self).spec_u(),
                    T::spec_mul(step, recovery(a, b, v1, old(self).spec_u())),
                )
            },
            !T::spec_lt(old(self).spec_v(), vt) ==> final(self).spec_v() == c && final(self).spec_u()
                == T::spec_add(old(self).spec_u(), d),
    {
        if self.v.lt(vt) {
            self.v = self.v.add(step.mul(Self::potential(e, f, g, self.v, self.u, i)));
            self.u = self.u.add(step.mul(Self::recovery(a, b, self.v, self.u)));
        } else {
            self.v = c;
            self.u = self.u.add(d);
        }
    }
}

} // verus!
