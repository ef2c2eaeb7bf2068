//! The equilibrium solver of CEA, its solutions and their partial derivatives.
//!
//! As in [`crate::mixture`], each operation hands its one routine of the C library to a call
//! of the caller's, which receives the handles and prepared arguments and answers with the
//! routine's status and results.

use vstd::prelude::*;
use crate::args::{check_c_strings, fits_cea_int, has_nul, to_cea_int};
use crate::error::{
    answer, answered, check, fails_with, cea_error, length_error, nul_error, CeaResult, Error,
    CEA_SUCCESS,
};
use crate::handle::{created, Handle};
use crate::kinds::{EquilibriumType, PropertyType};
use crate::mixture::{overwrite, Mixture};

verus! {

/// Options of an equilibrium solver. `V` is the type of the library's real numbers.
pub struct SolverOptions<'a, V, M> {
    /// Threshold below which product amounts count as trace.
    pub trace: V,
    /// Whether ionized species are considered.
    pub ions: bool,
    /// Whether transport properties are computed.
    pub transport: bool,
    /// The reactant mixture, if the solver should know it.
    pub reactants: Option<&'a Mixture<M>>,
    /// Species to insert as condensed products from the start.
    pub insert: Vec<&'a str>,
}

impl<'a, V: Default, M> Default for SolverOptions<'a, V, M> {
    /// No trace threshold (the default real number, zero), no ions, no transport, no
    /// reactants and nothing inserted.
    fn default() -> (o: Self)
        ensures
            call_ensures(V::default, (), o.trace),
            !o.ions,
            !o.transport,
            o.reactants is None,
            o.insert@.len() == 0,
    {
        SolverOptions { trace: V::default(), ions: false, transport: false, reactants: None, insert: Vec::new() }
    }
}

/// An equilibrium solver over a set of product species.
pub struct EqSolver<H> {
    handle: Handle<H>,
}

/// A solution that an equilibrium solver writes into.
pub struct EqSolution<H> {
    handle: Handle<H>,
}

/// The partial derivatives of a solution.
pub struct EqPartials<H> {
    handle: Handle<H>,
}

/// `r` is what a create call that answered `reply` yields for `routine`: the solver on
/// success, else the CEA error.
pub open spec fn solver_created<H>(reply: (i32, Option<H>), routine: Seq<char>, r: CeaResult<EqSolver<H>>) -> bool {
    if reply.0 == CEA_SUCCESS {
        r matches Ok(s) && s.spec_handle()@ == reply.1
    } else {
        fails_with(r, cea_error(reply.0, routine))
    }
}

impl<H> EqSolver<H> {
    pub closed spec fn spec_handle(&self) -> Handle<H> {
        self.handle
    }

    /// The handle through which CEA knows the solver.
    pub fn handle(&self) -> (h: &Handle<H>)
        ensures
            *h == self.spec_handle(),
    {
        &self.handle
    }

    fn from_reply(reply: (i32, Option<H>), routine: &str) -> (r: CeaResult<EqSolver<H>>)
        ensures
            solver_created(reply, routine@, r),
    {
        match Handle::from_reply(reply, routine) {
            Ok(handle) => Ok(EqSolver { handle }),
            Err(e) => Err(e),
        }
    }

    /// A solver over the products, made by `create` (`cea_eqsolver_create`, handed the
    /// products' handle).
    pub fn new<M, F>(products: &Mixture<M>, create: F) -> (r: CeaResult<EqSolver<H>>)
        where
            F: Fn(&Handle<M>) -> (i32, Option<H>),
        requires
            create.requires((&products.spec_handle(),)),
        ensures
            exists|reply: (i32, Option<H>)|
                create.ensures((&products.spec_handle(),), reply) && solver_created(
                    reply,
                    "cea_eqsolver_create"@,
                    r,
                ),
    {
        let reply = create(products.handle());
        let r = Self::from_reply(reply, "cea_eqsolver_create");
        assert(create.ensures((&products.spec_handle(),), reply));
        r
    }

    /// A solver over the products that knows the reactants, made by `create`
    /// (`cea_eqsolver_create_with_reactants`, handed both handles).
    pub fn with_reactants<M, F>(products: &Mixture<M>, reactants: &Mixture<M>, create: F) -> (r: CeaResult<
        EqSolver<H>,
    >)
        where
            F: Fn(&Handle<M>, &Handle<M>) -> (i32, Option<H>),
        requires
            create.requires((&products.spec_handle(), &reactants.spec_handle())),
        ensures
            exists|reply: (i32, Option<H>)|
                create.ensures((&products.spec_handle(), &reactants.spec_handle()), reply)
                    && solver_created(reply, "cea_eqsolver_create_with_reactants"@, r),
    {
        let reply = create(products.handle(), reactants.handle());
        let r = Self::from_reply(reply, "cea_eqsolver_create_with_reactants");
        assert(create.ensures((&products.spec_handle(), &reactants.spec_handle()), reply));
        r
    }

    /// `r` is what making a solver with options gives once `cea_solver_opts_init` answered
    /// `init_reply`: its error; a NUL in a name to insert; a count of names that does not
    /// fit; else what `create` answered, handed the initialized options, the options and the
    /// count of names to insert (none when there are none).
    pub open spec fn options_applied<'a, V, M, O, F: Fn(&Handle<M>, O, &SolverOptions<'a, V, M>, Option<i32>) -> (i32, Option<H>)>(
        products: &Mixture<M>,
        options: &SolverOptions<'a, V, M>,
        create: F,
        init_reply: (i32, O),
        r: CeaResult<EqSolver<H>>,
    ) -> bool {
        if init_reply.0 != CEA_SUCCESS {
            fails_with(r, cea_error(init_reply.0, "cea_solver_opts_init"@))
        } else if has_nul(options.insert@) {
            fails_with(r, nul_error("SolverOptions insert"@))
        } else if !fits_cea_int(options.insert@.len() as int) {
            fails_with(r, length_error("SolverOptions insert"@))
        } else {
            exists|reply: (i32, Option<H>)|
                Self::options_created(products, options, create, init_reply, reply, r)
        }
    }

    pub open spec fn options_created<'a, V, M, O, F: Fn(&Handle<M>, O, &SolverOptions<'a, V, M>, Option<i32>) -> (i32, Option<H>)>(
        products: &Mixture<M>,
        options: &SolverOptions<'a, V, M>,
        create: F,
        init_reply: (i32, O),
        reply: (i32, Option<H>),
        r: CeaResult<EqSolver<H>>,
    ) -> bool {
        let count = if options.insert@.len() == 0 {
            None::<i32>
        } else {
            Some(options.insert@.len() as i32)
        };
        &&& create.ensures((&products.spec_handle(), init_reply.1, options, count), reply)
        &&& solver_created(reply, "cea_eqsolver_create_with_options"@, r)
    }

    /// A solver over the products with options. `init` (`cea_solver_opts_init`) answers
    /// with its status and the default options of the library; `create`
    /// (`cea_eqsolver_create_with_options`) is handed the products' handle, those defaults,
    /// the options to set on them and the number of names to insert.
    pub fn with_options<'a, V, M, O, I, F>(
        products: &Mixture<M>,
        options: SolverOptions<'a, V, M>,
        init: I,
        create: F,
    ) -> (r: CeaResult<EqSolver<H>>)
        where
            I: Fn() -> (i32, O),
            F: Fn(&Handle<M>, O, &SolverOptions<'a, V, M>, Option<i32>) -> (i32, Option<H>),
        requires
            init.requires(()),
            forall|o: O, n: Option<i32>| create.requires((&products.spec_handle(), o, &options, n)),
        ensures
            Self::options_solver(products, &options, init, create, r),
    {
        let init_reply = init();
        let r = Self::apply_options(products, &options, create, init_reply);
        assert(Self::options_init(products, &options, init, create, init_reply, r));
        r
    }

    /// `r` is what making a solver with options through `init` and `create` gives.
    pub open spec fn options_solver<'a, V, M, O, I: Fn() -> (i32, O), F: Fn(&Handle<M>, O, &SolverOptions<'a, V, M>, Option<i32>) -> (i32, Option<H>)>(
        products: &Mixture<M>,
        options: &SolverOptions<'a, V, M>,
        init: I,
        create: F,
        r: CeaResult<EqSolver<H>>,
    ) -> bool {
        exists|init_reply: (i32, O)| Self::options_init(products, options, init, create, init_reply, r)
    }

    pub open spec fn options_init<'a, V, M, O, I: Fn() -> (i32, O), F: Fn(&Handle<M>, O, &SolverOptions<'a, V, M>, Option<i32>) -> (i32, Option<H>)>(
        products: &Mixture<M>,
        options: &SolverOptions<'a, V, M>,
        init: I,
        create: F,
        init_reply: (i32, O),
        r: CeaResult<EqSolver<H>>,
    ) -> bool {
        &&& init.ensures((), init_reply)
        &&& Self::options_applied(products, options, create, init_reply, r)
    }

    fn apply_options<'a, V, M, O, F>(
        products: &Mixture<M>,
        options: &SolverOptions<'a, V, M>,
        create: F,
        init_reply: (i32, O),
    ) -> (r: CeaResult<EqSolver<H>>)
        where
            F: Fn(&Handle<M>, O, &SolverOptions<'a, V, M>, Option<i32>) -> (i32, Option<H>),
        requires
            forall|o: O, n: Option<i32>| create.requires((&products.spec_handle(), o, options, n)),
        ensures
            Self::options_applied(products, options, create, init_reply, r),
    {
        let (code, opts) = init_reply;
        if let Err(e) = check(code, "cea_solver_opts_init") {
            return Err(e);
        }
        if let Err(e) = check_c_strings(options.insert.as_slice(), "SolverOptions insert") {
            return Err(e);
        }
        let count: Option<i32> = if options.insert.len() == 0 {
            None
        } else {
            match to_cea_int(options.insert.len(), "SolverOptions insert") {
                Ok(n) => Some(n),
                Err(e) => return Err(e),
            }
        };
        let reply = create(products.handle(), opts, options, count);
        let r = Self::from_reply(reply, "cea_eqsolver_create_with_options");
        assert(Self::options_created(products, options, create, init_reply, reply, r));
        r
    }

    /// Destroys the solver's object through `destroy` (`cea_eqsolver_destroy`), unless it has
    /// none, and leaves the handle null.
    pub fn destroy<F>(&mut self, destroy: F) -> (r: Option<i32>)
        where
            F: Fn(H) -> i32,
        requires
            forall|h: H| old(self).spec_handle()@ == Some(h) ==> destroy.requires((h,)),
        ensures
            final(self).spec_handle()@ is None,
            old(self).spec_handle()@ is None ==> r is None,
            old(self).spec_handle()@ matches Some(h) ==> (r matches Some(c) && destroy.ensures((h,), c)),
    {
        self.handle.destroy(destroy)
    }
}

/// `amounts` after a solve whose routine answered `reply`, and `r` the result that reports
/// it: the amounts hold what the routine wrote back, whether it succeeded or not; the
/// result is success, or the CEA error.
pub open spec fn solved<V>(reply: (i32, Vec<V>), routine: Seq<char>, before: Seq<V>, after: Seq<V>, r: CeaResult<()>) -> bool {
    &&& after == overwrite(before, reply.1@)
    &&& if reply.0 == CEA_SUCCESS {
        r is Ok
    } else {
        fails_with(r, cea_error(reply.0, routine))
    }
}

fn write_amounts<V: Copy>(out: &mut [V], values: Vec<V>)
    ensures
        final(out)@ == overwrite(old(out)@, values@),
{
    let n = out.len();
    let ghost vals = values@;
    let mut i: usize = 0;
    while i < n && i < values.len()
        invariant
            n == old(out)@.len(),
            out@.len() == n,
            values@ == vals,
            i <= n,
            i <= vals.len(),
            forall|k: int| 0 <= k < i ==> out@[k] == vals[k],
            forall|k: int| i <= k < n ==> out@[k] == old(out)@[k],
        decreases n - i,
    {
        out[i] = values[i];
        i = i + 1;
    }
    assert(out@ =~= overwrite(old(out)@, vals));
}

fn finish_solve<V: Copy>(amounts: &mut [V], reply: (i32, Vec<V>), routine: &str) -> (r: CeaResult<()>)
    ensures
        solved(reply, routine@, old(amounts)@, final(amounts)@, r),
{
    let (code, values) = reply;
    write_amounts(amounts, values);
    check(code, routine)
}

impl<H> EqSolver<H> {
    /// Solves for equilibrium with the state variables of `eq_type` fixed at `state1` and
    /// `state2`, from the reactant amounts in `amounts`. `call` (`cea_eqsolver_solve`) is
    /// handed the solver's handle, the type, both states, the amounts and the solution's
    /// handle, and answers with its status and the amounts it wrote back.
    pub fn solve<V: Copy, S, F>(
        &self,
        eq_type: EquilibriumType,
        state1: V,
        state2: V,
        amounts: &mut [V],
        soln: &EqSolution<S>,
        call: F,
    ) -> (r: CeaResult<()>)
        where
            F: Fn(&Handle<H>, EquilibriumType, V, V, &[V], &Handle<S>) -> (i32, Vec<V>),
        requires
            call.requires((&self.spec_handle(), eq_type, state1, state2, &*old(amounts), &soln.spec_handle())),
        ensures
            exists|reply: (i32, Vec<V>)|
                call.ensures((&self.spec_handle(), eq_type, state1, state2, &*old(amounts), &soln.spec_handle()), reply)
                    && solved(reply, "cea_eqsolver_solve"@, old(amounts)@, final(amounts)@, r),
    {
        let reply = call(&self.handle, eq_type, state1, state2, amounts, soln.handle());
        let r = finish_solve(amounts, reply, "cea_eqsolver_solve");
        r
    }

    /// As [`EqSolver::solve`], also filling the partial derivatives
    /// (`cea_eqsolver_solve_with_partials`, handed the partials' handle last).
    pub fn solve_with_partials<V: Copy, S, P, F>(
        &self,
        eq_type: EquilibriumType,
        state1: V,
        state2: V,
        amounts: &mut [V],
        soln: &EqSolution<S>,
        partials: &EqPartials<P>,
        call: F,
    ) -> (r: CeaResult<()>)
        where
            F: Fn(&Handle<H>, EquilibriumType, V, V, &[V], &Handle<S>, &Handle<P>) -> (i32, Vec<V>),
        requires
            call.requires(
                (
                    &self.spec_handle(),
                    eq_type,
                    state1,
                    state2,
                    &*old(amounts),
                    &soln.spec_handle(),
                    &partials.spec_handle(),
                ),
            ),
        ensures
            exists|reply: (i32, Vec<V>)|
                call.ensures(
                    (
                        &self.spec_handle(),
                        eq_type,
                        state1,
                        state2,
                        &*old(amounts),
                        &soln.spec_handle(),
                        &partials.spec_handle(),
                    ),
                    reply,
                ) && solved(reply, "cea_eqsolver_solve_with_partials"@, old(amounts)@, final(amounts)@, r),
    {
        let reply = call(&self.handle, eq_type, state1, state2, amounts, soln.handle(), partials.handle());
        let r = finish_solve(amounts, reply, "cea_eqsolver_solve_with_partials");
        r
    }
}

/// `r` is what reading `len` species amounts gives: a length that does not fit, else what
/// `read` answered when handed the handle, the length and whether mass fractions are wanted:
/// on success `len` amounts, the routine's values written over a buffer of default values.
pub open spec fn amounts_read<H, V, F: Fn(&Handle<H>, i32, bool) -> (i32, Vec<V>)>(
    soln: &EqSolution<H>,
    read: F,
    len: usize,
    mass: bool,
    r: CeaResult<Vec<V>>,
) -> bool {
    if !fits_cea_int(len as int) {
        fails_with(r, length_error("species_amounts"@))
    } else {
        exists|reply: (i32, Vec<V>)| amounts_answered(soln, read, len, mass, reply, r)
    }
}

pub open spec fn amounts_answered<H, V, F: Fn(&Handle<H>, i32, bool) -> (i32, Vec<V>)>(
    soln: &EqSolution<H>,
    read: F,
    len: usize,
    mass: bool,
    reply: (i32, Vec<V>),
    r: CeaResult<Vec<V>>,
) -> bool {
    &&& read.ensures((&soln.spec_handle(), len as i32, mass), reply)
    &&& if reply.0 == CEA_SUCCESS {
        r matches Ok(v) && v@.len() == len && forall|i: int|
            0 <= i < len && i < reply.1@.len() ==> v@[i] == reply.1@[i]
    } else {
        fails_with(r, cea_error(reply.0, "cea_eqsolution_get_species_amounts"@))
    }
}

/// `r` is what reading `property` from the solution through `get` gives.
pub open spec fn property_read<H, V, F: Fn(&Handle<H>, PropertyType) -> (i32, V)>(
    soln: &EqSolution<H>,
    get: F,
    property: PropertyType,
    r: CeaResult<V>,
) -> bool {
    exists|reply: (i32, V)| property_answered(soln, get, property, reply, r)
}

/// `r` is what reading the total moles through `get` (`cea_eqsolution_get_moles`) gives.
pub open spec fn moles_read<H, V, F: Fn(&Handle<H>) -> (i32, V)>(soln: &EqSolution<H>, get: F, r: CeaResult<V>) -> bool {
    exists|reply: (i32, V)| moles_answered(soln, get, reply, r)
}

pub open spec fn moles_answered<H, V, F: Fn(&Handle<H>) -> (i32, V)>(
    soln: &EqSolution<H>,
    get: F,
    reply: (i32, V),
    r: CeaResult<V>,
) -> bool {
    &&& get.ensures((&soln.spec_handle(),), reply)
    &&& answered(reply, "cea_eqsolution_get_moles"@, r)
}

/// `r` is what reading the convergence flag through `get` (`cea_eqsolution_get_converged`)
/// gives: whether the flag is nonzero.
pub open spec fn converged_read<H, F: Fn(&Handle<H>) -> (i32, i32)>(soln: &EqSolution<H>, get: F, r: CeaResult<bool>) -> bool {
    exists|reply: (i32, i32)| converged_answered(soln, get, reply, r)
}

pub open spec fn converged_answered<H, F: Fn(&Handle<H>) -> (i32, i32)>(
    soln: &EqSolution<H>,
    get: F,
    reply: (i32, i32),
    r: CeaResult<bool>,
) -> bool {
    &&& get.ensures((&soln.spec_handle(),), reply)
    &&& answered((reply.0, reply.1 != 0), "cea_eqsolution_get_converged"@, r)
}

/// `r` is what reading `property` from the solution gives when `get` answered `reply`.
pub open spec fn property_answered<H, V, F: Fn(&Handle<H>, PropertyType) -> (i32, V)>(
    soln: &EqSolution<H>,
    get: F,
    property: PropertyType,
    reply: (i32, V),
    r: CeaResult<V>,
) -> bool {
    &&& get.ensures((&soln.spec_handle(), property), reply)
    &&& answered(reply, "cea_eqsolution_get_property"@, r)
}

/// `r` is what making a EqSolution for `solver` through `create` (`cea_eqsolution_create`) gives.
pub open spec fn solution_created<S, H, F: Fn(&Handle<S>) -> (i32, Option<H>)>(
    solver: &EqSolver<S>,
    create: F,
    r: CeaResult<EqSolution<H>>,
) -> bool {
    exists|reply: (i32, Option<H>)| solution_answered(solver, create, reply, r)
}

pub open spec fn solution_answered<S, H, F: Fn(&Handle<S>) -> (i32, Option<H>)>(
    solver: &EqSolver<S>,
    create: F,
    reply: (i32, Option<H>),
    r: CeaResult<EqSolution<H>>,
) -> bool {
    &&& create.ensures((&solver.spec_handle(),), reply)
    &&& if reply.0 == CEA_SUCCESS {
        r matches Ok(s) && s.spec_handle()@ == reply.1
    } else {
        fails_with(r, cea_error(reply.0, "cea_eqsolution_create"@))
    }
}

impl<H> EqSolution<H> {
    pub closed spec fn spec_handle(&self) -> Handle<H> {
        self.handle
    }

    /// The handle through which CEA knows the solution.
    pub fn handle(&self) -> (h: &Handle<H>)
        ensures
            *h == self.spec_handle(),
    {
        &self.handle
    }

    /// A solution for the solver, made by `create` (`cea_eqsolution_create`, handed the
    /// solver's handle).
    pub fn new<S, F>(solver: &EqSolver<S>, create: F) -> (r: CeaResult<EqSolution<H>>)
        where
            F: Fn(&Handle<S>) -> (i32, Option<H>),
        requires
            create.requires((&solver.spec_handle(),)),
        ensures
            solution_created(solver, create, r),
    {
        let reply = create(solver.handle());
        let r = match Handle::from_reply(reply, "cea_eqsolution_create") {
            Ok(handle) => Ok(EqSolution { handle }),
            Err(e) => Err(e),
        };
        assert(solution_answered(solver, create, reply, r));
        r
    }

    /// The value of a property of the solution, as `get` (`cea_eqsolution_get_property`,
    /// handed the handle and the property) answers it.
    pub fn get_property<V, F>(&self, property: PropertyType, get: F) -> (r: CeaResult<V>)
        where
            F: Fn(&Handle<H>, PropertyType) -> (i32, V),
        requires
            get.requires((&self.spec_handle(), property)),
        ensures
            property_read(self, get, property, r),
    {
        let reply = get(&self.handle, property);
        let r = answer(reply, "cea_eqsolution_get_property");
        assert(property_answered(self, get, property, reply, r));
        r
    }

    fn species_amounts<V: Copy + Default, F>(&self, len: usize, mass: bool, read: F) -> (r: CeaResult<Vec<V>>)
        where
            F: Fn(&Handle<H>, i32, bool) -> (i32, Vec<V>),
        requires
            read.requires((&self.spec_handle(), len as i32, mass)),
        ensures
            amounts_read(self, read, len, mass, r),
    {
        let n = match to_cea_int(len, "species_amounts") {
            Ok(n) => n,
            Err(e) => return Err(e),
        };
        let reply = read(&self.handle, n, mass);
        let (code, values) = reply;
        let r = if code == CEA_SUCCESS {
            let fill = V::default();
            let mut buffer: Vec<V> = Vec::new();
            while buffer.len() < len
                invariant
                    buffer@.len() <= len,
                decreases len - buffer@.len(),
            {
                buffer.push(fill);
            }
            write_amounts(buffer.as_mut_slice(), values);
            Ok(buffer)
        } else {
            Err(Error::Cea { code, context: "cea_eqsolution_get_species_amounts".to_owned() })
        };
        assert(amounts_answered(self, read, len, mass, reply, r));
        r
    }

    /// The mass fractions of the first `len` product species
    /// (`cea_eqsolution_get_species_amounts`, handed the handle, the length and `true`).
    pub fn species_mass_fractions<V: Copy + Default, F>(&self, len: usize, read: F) -> (r: CeaResult<Vec<V>>)
        where
            F: Fn(&Handle<H>, i32, bool) -> (i32, Vec<V>),
        requires
            read.requires((&self.spec_handle(), len as i32, true)),
        ensures
            amounts_read(self, read, len, true, r),
    {
        self.species_amounts(len, true, read)
    }

    /// The mole fractions of the first `len` product species (the same routine, handed
    /// `false`).
    pub fn species_mole_fractions<V: Copy + Default, F>(&self, len: usize, read: F) -> (r: CeaResult<Vec<V>>)
        where
            F: Fn(&Handle<H>, i32, bool) -> (i32, Vec<V>),
        requires
            read.requires((&self.spec_handle(), len as i32, false)),
        ensures
            amounts_read(self, read, len, false, r),
    {
        self.species_amounts(len, false, read)
    }

    /// The total moles of the solution (`cea_eqsolution_get_moles`).
    pub fn moles<V, F>(&self, get: F) -> (r: CeaResult<V>)
        where
            F: Fn(&Handle<H>) -> (i32, V),
        requires
            get.requires((&self.spec_handle(),)),
        ensures
            moles_read(self, get, r),
    {
        let reply = get(&self.handle);
        let r = answer(reply, "cea_eqsolution_get_moles");
        assert(moles_answered(self, get, reply, r));
        r
    }

    /// Whether the solver converged (`cea_eqsolution_get_converged`, which answers with a
    /// flag that is nonzero when it did).
    pub fn converged<F>(&self, get: F) -> (r: CeaResult<bool>)
        where
            F: Fn(&Handle<H>) -> (i32, i32),
        requires
            get.requires((&self.spec_handle(),)),
        ensures
            converged_read(self, get, r),
    {
        let reply = get(&self.handle);
        let r = answer((reply.0, reply.1 != 0), "cea_eqsolution_get_converged");
        assert(converged_answered(self, get, reply, r));
        r
    }

    /// Destroys the solution's object through `destroy` (`cea_eqsolution_destroy`), unless it
    /// has none, and leaves the handle null.
    pub fn destroy<F>(&mut self, destroy: F) -> (r: Option<i32>)
        where
            F: Fn(H) -> i32,
        requires
            forall|h: H| old(self).spec_handle()@ == Some(h) ==> destroy.requires((h,)),
        ensures
            final(self).spec_handle()@ is None,
            old(self).spec_handle()@ is None ==> r is None,
            old(self).spec_handle()@ matches Some(h) ==> (r matches Some(c) && destroy.ensures((h,), c)),
    {
        self.handle.destroy(destroy)
    }
}

/// `r` is what making a EqPartials for `solver` through `create` (`cea_eqpartials_create`) gives.
pub open spec fn partials_created<S, H, F: Fn(&Handle<S>) -> (i32, Option<H>)>(
    solver: &EqSolver<S>,
    create: F,
    r: CeaResult<EqPartials<H>>,
) -> bool {
    exists|reply: (i32, Option<H>)| partials_answered(solver, create, reply, r)
}

pub open spec fn partials_answered<S, H, F: Fn(&Handle<S>) -> (i32, Option<H>)>(
    solver: &EqSolver<S>,
    create: F,
    reply: (i32, Option<H>),
    r: CeaResult<EqPartials<H>>,
) -> bool {
    &&& create.ensures((&solver.spec_handle(),), reply)
    &&& if reply.0 == CEA_SUCCESS {
        r matches Ok(p) && p.spec_handle()@ == reply.1
    } else {
        fails_with(r, cea_error(reply.0, "cea_eqpartials_create"@))
    }
}

impl<H> EqPartials<H> {
    pub closed spec fn spec_handle(&self) -> Handle<H> {
        self.handle
    }

    /// The handle through which CEA knows the partials.
    pub fn handle(&self) -> (h: &Handle<H>)
        ensures
            *h == self.spec_handle(),
    {
        &self.handle
    }

    /// Partial derivatives for the solver, made by `create` (`cea_eqpartials_create`, handed
    /// the solver's handle).
    pub fn new<S, F>(solver: &EqSolver<S>, create: F) -> (r: CeaResult<EqPartials<H>>)
        where
            F: Fn(&Handle<S>) -> (i32, Option<H>),
        requires
            create.requires((&solver.spec_handle(),)),
        ensures
            partials_created(solver, create, r),
    {
        let reply = create(solver.handle());
        let r = match Handle::from_reply(reply, "cea_eqpartials_create") {
            Ok(handle) => Ok(EqPartials { handle }),
            Err(e) => Err(e),
        };
        assert(partials_answered(solver, create, reply, r));
        r
    }

    /// Destroys the partials' object through `destroy` (`cea_eqpartials_destroy`), unless
    /// they have none, and leaves the handle null.
    pub fn destroy<F>(&mut self, destroy: F) -> (r: Option<i32>)
        where
            F: Fn(H) -> i32,
        requires
            forall|h: H| old(self).spec_handle()@ == Some(h) ==> destroy.requires((h,)),
        ensures
            final(self).spec_handle()@ is None,
            old(self).spec_handle()@ is None ==> r is None,
            old(self).spec_handle()@ matches Some(h) ==> (r matches Some(c) && destroy.ensures((h,), c)),
    {
        self.handle.destroy(destroy)
    }
}

} // verus!
