//! A mixture of chemical species, as CEA holds it.
//!
//! Every operation hands the one routine of the C library that it needs to a call of the
//! caller's: the call receives the mixture's handle and the arguments this module prepared
//! and answers with the routine's status and results. What the module decides before and
//! after the call (which lengths are refused, which error a status becomes, how names are
//! read back) is verified here.

use vstd::prelude::*;
use vstd::slice::slice_to_vec;
use crate::args::{
    check_c_strings, check_len_match, fits_cea_int, has_nul, names_in, name_at, read_c_string,
    read_c_strings, stride_from_reply, stride_outcome, to_cea_int,
};
use crate::error::{
    answer, answered, check, checked, fails_with, cea_error, length_error, nul_error, CeaResult, Error,
    CEA_SUCCESS,
};
use crate::handle::{created, Handle};
use crate::kinds::PropertyType;

verus! {

/// A mixture of species, known to CEA through its handle.
pub struct Mixture<H> {
    handle: Handle<H>,
}

/// `dst` with its first positions replaced by `src`, as far as `src` reaches.
pub open spec fn overwrite<V>(dst: Seq<V>, src: Seq<V>) -> Seq<V> {
    Seq::new(dst.len(), |i: int| if i < src.len() { src[i] } else { dst[i] })
}

/// `r` propagates the error of `first`.
pub open spec fn propagates<T, U>(first: CeaResult<T>, r: CeaResult<U>) -> bool {
    first matches Err(e) && r matches Err(x) && x@ == e@
}

/// `r` is what a create call that answered `reply` yields for the routine `routine`.
pub open spec fn mixture_created<H>(reply: (i32, Option<H>), routine: Seq<char>, r: CeaResult<Mixture<H>>) -> bool {
    if reply.0 == CEA_SUCCESS {
        r matches Ok(m) && m.spec_handle()@ == reply.1
    } else {
        fails_with(r, cea_error(reply.0, routine))
    }
}

/// The outcome of making a mixture from a list of species through `create`: a refused name
/// or length, else what the create call answered.
pub open spec fn species_created<H, F: Fn(i32, &[&str]) -> (i32, Option<H>)>(
    create: F,
    species: &[&str],
    list: Seq<char>,
    routine: Seq<char>,
    r: CeaResult<Mixture<H>>,
) -> bool {
    if has_nul(species@) {
        fails_with(r, nul_error(list))
    } else if !fits_cea_int(species@.len() as int) {
        fails_with(r, length_error(list))
    } else {
        exists|reply: (i32, Option<H>)|
            create.ensures((species@.len() as i32, species), reply) && mixture_created(reply, routine, r)
    }
}

/// The outcome of making the products of `reactants`, less `omit`, through `create`.
pub open spec fn reactants_created<H, F: Fn(i32, &[&str], i32, &[&str]) -> (i32, Option<H>)>(
    create: F,
    reactants: &[&str],
    omit: &[&str],
    reactant_list: Seq<char>,
    omit_list: Seq<char>,
    routine: Seq<char>,
    r: CeaResult<Mixture<H>>,
) -> bool {
    if has_nul(reactants@) {
        fails_with(r, nul_error(reactant_list))
    } else if has_nul(omit@) {
        fails_with(r, nul_error(omit_list))
    } else if !fits_cea_int(reactants@.len() as int) {
        fails_with(r, length_error(reactant_list))
    } else if !fits_cea_int(omit@.len() as int) {
        fails_with(r, length_error(omit_list))
    } else {
        exists|reply: (i32, Option<H>)|
            create.ensures((reactants@.len() as i32, reactants, omit@.len() as i32, omit), reply)
                && mixture_created(reply, routine, r)
    }
}

impl<H> Mixture<H> {
    pub closed spec fn spec_handle(&self) -> Handle<H> {
        self.handle
    }

    /// The handle through which CEA knows the mixture.
    pub fn handle(&self) -> (h: &Handle<H>)
        ensures
            *h == self.spec_handle(),
    {
        &self.handle
    }

    fn from_species<F>(species: &[&str], create: F, list: &str, routine: &str) -> (r: CeaResult<Mixture<H>>)
        where
            F: Fn(i32, &[&str]) -> (i32, Option<H>),
        requires
            create.requires((species@.len() as i32, species)),
        ensures
            species_created(create, species, list@, routine@, r),
    {
        if let Err(e) = check_c_strings(species, list) {
            return Err(e);
        }
        let len = match to_cea_int(species.len(), list) {
            Ok(n) => n,
            Err(e) => return Err(e),
        };
        let reply = create(len, species);
        let r = match Handle::from_reply(reply, routine) {
            Ok(handle) => Ok(Mixture { handle }),
            Err(e) => Err(e),
        };
        assert(mixture_created(reply, routine@, r));
        r
    }

    /// A mixture of the given species, made by `create` (the library's `cea_mixture_create`,
    /// handed the number of species and their names).
    pub fn new<F>(species: &[&str], create: F) -> (r: CeaResult<Mixture<H>>)
        where
            F: Fn(i32, &[&str]) -> (i32, Option<H>),
        requires
            create.requires((species@.len() as i32, species)),
        ensures
            species_created(create, species, "Mixture::new species"@, "cea_mixture_create"@, r),
    {
        Self::from_species(species, create, "Mixture::new species", "cea_mixture_create")
    }

    /// A mixture of the given species with their ions, made by `create`
    /// (`cea_mixture_create_w_ions`).
    pub fn new_with_ions<F>(species: &[&str], create: F) -> (r: CeaResult<Mixture<H>>)
        where
            F: Fn(i32, &[&str]) -> (i32, Option<H>),
        requires
            create.requires((species@.len() as i32, species)),
        ensures
            species_created(
                create,
                species,
                "Mixture::new_with_ions species"@,
                "cea_mixture_create_w_ions"@,
                r,
            ),
    {
        Self::from_species(
            species,
            create,
            "Mixture::new_with_ions species",
            "cea_mixture_create_w_ions",
        )
    }

    fn from_reactant_list<F>(
        reactants: &[&str],
        omit: &[&str],
        create: F,
        reactant_list: &str,
        omit_list: &str,
        routine: &str,
    ) -> (r: CeaResult<Mixture<H>>)
        where
            F: Fn(i32, &[&str], i32, &[&str]) -> (i32, Option<H>),
        requires
            create.requires((reactants@.len() as i32, reactants, omit@.len() as i32, omit)),
        ensures
            reactants_created(create, reactants, omit, reactant_list@, omit_list@, routine@, r),
    {
        if let Err(e) = check_c_strings(reactants, reactant_list) {
            return Err(e);
        }
        if let Err(e) = check_c_strings(omit, omit_list) {
            return Err(e);
        }
        let nreactants = match to_cea_int(reactants.len(), reactant_list) {
            Ok(n) => n,
            Err(e) => return Err(e),
        };
        let nomit = match to_cea_int(omit.len(), omit_list) {
            Ok(n) => n,
            Err(e) => return Err(e),
        };
        let reply = create(nreactants, reactants, nomit, omit);
        let r = match Handle::from_reply(reply, routine) {
            Ok(handle) => Ok(Mixture { handle }),
            Err(e) => Err(e),
        };
        assert(mixture_created(reply, routine@, r));
        r
    }

    /// The products that the reactants can form, less those in `omit`, made by `create`
    /// (`cea_mixture_create_from_reactants`, handed both counts and both lists; an empty
    /// `omit` is handed as a null list).
    pub fn from_reactants<F>(reactants: &[&str], omit: &[&str], create: F) -> (r: CeaResult<Mixture<H>>)
        where
            F: Fn(i32, &[&str], i32, &[&str]) -> (i32, Option<H>),
        requires
            create.requires((reactants@.len() as i32, reactants, omit@.len() as i32, omit)),
        ensures
            reactants_created(
                create,
                reactants,
                omit,
                "Mixture::from_reactants reactants"@,
                "Mixture::from_reactants omit"@,
                "cea_mixture_create_from_reactants"@,
                r,
            ),
    {
        Self::from_reactant_list(
            reactants,
            omit,
            create,
            "Mixture::from_reactants reactants",
            "Mixture::from_reactants omit",
            "cea_mixture_create_from_reactants",
        )
    }

    /// As [`Mixture::from_reactants`], with ions (`cea_mixture_create_from_reactants_w_ions`).
    pub fn from_reactants_with_ions<F>(reactants: &[&str], omit: &[&str], create: F) -> (r: CeaResult<Mixture<H>>)
        where
            F: Fn(i32, &[&str], i32, &[&str]) -> (i32, Option<H>),
        requires
            create.requires((reactants@.len() as i32, reactants, omit@.len() as i32, omit)),
        ensures
            reactants_created(
                create,
                reactants,
                omit,
                "Mixture::from_reactants_with_ions reactants"@,
                "Mixture::from_reactants_with_ions omit"@,
                "cea_mixture_create_from_reactants_w_ions"@,
                r,
            ),
    {
        Self::from_reactant_list(
            reactants,
            omit,
            create,
            "Mixture::from_reactants_with_ions reactants",
            "Mixture::from_reactants_with_ions omit",
            "cea_mixture_create_from_reactants_w_ions",
        )
    }

    /// The number of species in the mixture, as `count` (`cea_mixture_get_num_species`)
    /// answers it.
    pub fn num_species<F>(&self, count: F) -> (r: CeaResult<usize>)
        where
            F: Fn(&Handle<H>) -> (i32, i32),
        requires
            count.requires((&self.spec_handle(),)),
        ensures
            exists|reply: (i32, i32)|
                count.ensures((&self.spec_handle(),), reply) && answered(
                    (reply.0, reply.1 as usize),
                    "cea_mixture_get_num_species"@,
                    r,
                ),
    {
        let reply = count(&self.handle);
        answer((reply.0, reply.1 as usize), "cea_mixture_get_num_species")
    }

    /// The name of the species at `index`. `name_len` (`cea_species_name_len`) gives the
    /// longest name; `read` (`cea_mixture_get_species_name_buf`) is handed the index and the
    /// stride of one name and answers with the buffer it filled.
    pub fn species_name<L, B>(&self, index: usize, name_len: L, read: B) -> (r: CeaResult<String>)
        where
            L: Fn() -> (i32, i32),
            B: Fn(&Handle<H>, i32, i32) -> (i32, Vec<u8>),
        requires
            name_len.requires(()),
            forall|i: i32, s: i32| read.requires((&self.spec_handle(), i, s)),
        ensures
            exists|lr: (i32, i32)| name_len.ensures((), lr) && self.name_read(read, index, lr, r),
    {
        let lr = name_len();
        let r = self.name_with_stride(read, index, lr);
        assert(name_len.ensures((), lr) && self.name_read(read, index, lr, r));
        r
    }

    fn name_with_stride<B>(&self, read: B, index: usize, lr: (i32, i32)) -> (r: CeaResult<String>)
        where
            B: Fn(&Handle<H>, i32, i32) -> (i32, Vec<u8>),
        requires
            forall|i: i32, s: i32| read.requires((&self.spec_handle(), i, s)),
        ensures
            self.name_read(read, index, lr, r),
    {
        let st = stride_from_reply(lr);
        let stride = match st {
            Ok(s) => s,
            Err(e) => return Err(e),
        };
        let index_i = match to_cea_int(index, "species_name") {
            Ok(n) => n,
            Err(e) => return Err(e),
        };
        let stride_i = match to_cea_int(stride, "species_name") {
            Ok(n) => n,
            Err(e) => return Err(e),
        };
        assert(read.requires((&self.spec_handle(), index_i, stride_i)));
        let br = read(&self.handle, index_i, stride_i);
        if br.0 == CEA_SUCCESS {
            let r = Ok(read_c_string(br.1.as_slice(), 0));
            assert(self.name_buffer_read(read, index, lr, br, r));
            r
        } else {
            let r = Err(Error::Cea { code: br.0, context: "cea_mixture_get_species_name_buf".to_owned() });
            assert(self.name_buffer_read(read, index, lr, br, r));
            r
        }
    }

    /// `r` is what reading the name at `index` gives when `cea_species_name_len` answered
    /// `lr`.
    pub open spec fn name_read<B: Fn(&Handle<H>, i32, i32) -> (i32, Vec<u8>)>(
        &self,
        read: B,
        index: usize,
        lr: (i32, i32),
        r: CeaResult<String>,
    ) -> bool {
        if lr.0 != CEA_SUCCESS {
            fails_with(r, cea_error(lr.0, "cea_species_name_len"@))
        } else if lr.1 + 1 < 0 {
            fails_with(r, length_error("species_name_len"@))
        } else if !fits_cea_int(index as int) || !fits_cea_int(lr.1 + 1) {
            fails_with(r, length_error("species_name"@))
        } else {
            exists|br: (i32, Vec<u8>)| self.name_buffer_read(read, index, lr, br, r)
        }
    }

    /// `r` is what reading the name at `index` from a buffer of names `stride` bytes apart
    /// gives when `cea_species_name_len` answered `lr` and `read`
    /// answered `br`.
    pub open spec fn name_buffer_read<B: Fn(&Handle<H>, i32, i32) -> (i32, Vec<u8>)>(
        &self,
        read: B,
        index: usize,
        lr: (i32, i32),
        br: (i32, Vec<u8>),
        r: CeaResult<String>,
    ) -> bool {
        let stride = (lr.1 + 1) as usize;
        &&& read.ensures((&self.spec_handle(), index as i32, stride as i32), br)
        &&& if br.0 == CEA_SUCCESS {
            r matches Ok(name) && name@ == name_at(br.1@, 0) && !name@.contains('\0')
        } else {
            fails_with(r, cea_error(br.0, "cea_mixture_get_species_name_buf"@))
        }
    }

    /// The names of all species of the mixture, in order. `count` gives their number
    /// (`cea_mixture_get_num_species`), `name_len` the longest name
    /// (`cea_species_name_len`); `read` (`cea_mixture_get_species_names_buf`) is handed the
    /// count and the stride and answers with the buffer of names it filled.
    pub fn species_names<C, L, B>(&self, count: C, name_len: L, read: B) -> (r: CeaResult<Vec<String>>)
        where
            C: Fn(&Handle<H>) -> (i32, i32),
            L: Fn() -> (i32, i32),
            B: Fn(&Handle<H>, i32, i32) -> (i32, Vec<u8>),
        requires
            count.requires((&self.spec_handle(),)),
            name_len.requires(()),
            forall|n: i32, s: i32| read.requires((&self.spec_handle(), n, s)),
        ensures
            self.names_listed(count, name_len, read, r),
    {
        let cr = count(&self.handle);
        let r = self.names_after_count(name_len, read, cr);
        assert(self.names_count_answered(count, name_len, read, cr, r));
        r
    }

    /// `r` is what reading the names of the mixture's species through `count`, `name_len`
    /// and `read` gives.
    pub open spec fn names_listed<C: Fn(&Handle<H>) -> (i32, i32), L: Fn() -> (i32, i32), B: Fn(&Handle<H>, i32, i32) -> (i32, Vec<u8>)>(
        &self,
        count: C,
        name_len: L,
        read: B,
        r: CeaResult<Vec<String>>,
    ) -> bool {
        exists|cr: (i32, i32)| self.names_count_answered(count, name_len, read, cr, r)
    }

    pub open spec fn names_count_answered<C: Fn(&Handle<H>) -> (i32, i32), L: Fn() -> (i32, i32), B: Fn(&Handle<H>, i32, i32) -> (i32, Vec<u8>)>(
        &self,
        count: C,
        name_len: L,
        read: B,
        cr: (i32, i32),
        r: CeaResult<Vec<String>>,
    ) -> bool {
        &&& count.ensures((&self.spec_handle(),), cr)
        &&& self.names_counted(name_len, read, cr, r)
    }

    /// `r` is what reading the species names gives when `cea_mixture_get_num_species`
    /// answered `cr`: its error, no names for a count of zero, else the names read.
    pub open spec fn names_counted<L: Fn() -> (i32, i32), B: Fn(&Handle<H>, i32, i32) -> (i32, Vec<u8>)>(
        &self,
        name_len: L,
        read: B,
        cr: (i32, i32),
        r: CeaResult<Vec<String>>,
    ) -> bool {
        if cr.0 != CEA_SUCCESS {
            fails_with(r, cea_error(cr.0, "cea_mixture_get_num_species"@))
        } else if cr.1 as usize == 0 {
            r matches Ok(names) && names@.len() == 0
        } else {
            exists|lr: (i32, i32)| name_len.ensures((), lr) && self.names_read(read, cr.1 as usize, lr, r)
        }
    }

    fn names_after_count<L, B>(&self, name_len: L, read: B, cr: (i32, i32)) -> (r: CeaResult<Vec<String>>)
        where
            L: Fn() -> (i32, i32),
            B: Fn(&Handle<H>, i32, i32) -> (i32, Vec<u8>),
        requires
            name_len.requires(()),
            forall|n: i32, s: i32| read.requires((&self.spec_handle(), n, s)),
        ensures
            self.names_counted(name_len, read, cr, r),
    {
        if cr.0 != CEA_SUCCESS {
            return Err(Error::Cea { code: cr.0, context: "cea_mixture_get_num_species".to_owned() });
        }
        let n: usize = #[verifier::truncate] (cr.1 as usize);
        if n == 0 {
            return Ok(Vec::new());
        }
        let lr = name_len();
        let r = self.names_with_stride(read, n, lr);
        assert(name_len.ensures((), lr) && self.names_read(read, n, lr, r));
        r
    }

    fn names_with_stride<B>(&self, read: B, n: usize, lr: (i32, i32)) -> (r: CeaResult<Vec<String>>)
        where
            B: Fn(&Handle<H>, i32, i32) -> (i32, Vec<u8>),
        requires
            forall|i: i32, s: i32| read.requires((&self.spec_handle(), i, s)),
        ensures
            self.names_read(read, n, lr, r),
    {
        let st = stride_from_reply(lr);
        let stride = match st {
            Ok(s) => s,
            Err(e) => return Err(e),
        };
        let n_i = match to_cea_int(n, "species_names") {
            Ok(v) => v,
            Err(e) => return Err(e),
        };
        let stride_i = match to_cea_int(stride, "species_names") {
            Ok(v) => v,
            Err(e) => return Err(e),
        };
        assert(read.requires((&self.spec_handle(), n_i, stride_i)));
        let br = read(&self.handle, n_i, stride_i);
        if br.0 == CEA_SUCCESS {
            let r = Ok(read_c_strings(br.1.as_slice(), n, stride));
            assert(self.names_buffer_read(read, n, lr, br, r));
            r
        } else {
            let r = Err(Error::Cea { code: br.0, context: "cea_mixture_get_species_names_buf".to_owned() });
            assert(self.names_buffer_read(read, n, lr, br, r));
            r
        }
    }

    /// `r` is what reading the names of `count` species gives when `cea_species_name_len`
    /// answered `lr`.
    pub open spec fn names_read<B: Fn(&Handle<H>, i32, i32) -> (i32, Vec<u8>)>(
        &self,
        read: B,
        count: usize,
        lr: (i32, i32),
        r: CeaResult<Vec<String>>,
    ) -> bool {
        if lr.0 != CEA_SUCCESS {
            fails_with(r, cea_error(lr.0, "cea_species_name_len"@))
        } else if lr.1 + 1 < 0 {
            fails_with(r, length_error("species_name_len"@))
        } else if !fits_cea_int(count as int) || !fits_cea_int(lr.1 + 1) {
            fails_with(r, length_error("species_names"@))
        } else {
            exists|br: (i32, Vec<u8>)| self.names_buffer_read(read, count, lr, br, r)
        }
    }

    /// `r` is what reading `count` names from a buffer of names `stride` bytes apart gives
    /// when `read` answered `br`.
    pub open spec fn names_buffer_read<B: Fn(&Handle<H>, i32, i32) -> (i32, Vec<u8>)>(
        &self,
        read: B,
        count: usize,
        lr: (i32, i32),
        br: (i32, Vec<u8>),
        r: CeaResult<Vec<String>>,
    ) -> bool {
        let stride = (lr.1 + 1) as usize;
        &&& read.ensures((&self.spec_handle(), count as i32, stride as i32), br)
        &&& if br.0 == CEA_SUCCESS {
            r matches Ok(names) && names@.map_values(|s: String| s@) == names_in(
                br.1@,
                count as int,
                stride as int,
            ) && forall|k: int| 0 <= k < names@.len() ==> !(#[trigger] names@[k])@.contains('\0')
        } else {
            fails_with(r, cea_error(br.0, "cea_mixture_get_species_names_buf"@))
        }
    }

    /// `r` is what handing `input` to a conversion routine through `call` gives: a refused
    /// length, else what the routine answered, its values written into a fresh buffer of
    /// the input's length, as [`Mixture::filled`] says.
    pub open spec fn converted<V, F: Fn(&Handle<H>, i32, &[V]) -> (i32, Vec<V>)>(
        &self,
        call: F,
        input: &[V],
        list: Seq<char>,
        routine: Seq<char>,
        r: CeaResult<Vec<V>>,
    ) -> bool {
        if !fits_cea_int(input@.len() as int) {
            fails_with(r, length_error(list))
        } else {
            exists|reply: (i32, Vec<V>)| self.conversion_answered(call, input, reply, routine, r)
        }
    }

    pub open spec fn conversion_answered<V, F: Fn(&Handle<H>, i32, &[V]) -> (i32, Vec<V>)>(
        &self,
        call: F,
        input: &[V],
        reply: (i32, Vec<V>),
        routine: Seq<char>,
        r: CeaResult<Vec<V>>,
    ) -> bool {
        &&& call.ensures((&self.spec_handle(), input@.len() as i32, input), reply)
        &&& Self::filled(reply, input@.len(), routine, r)
    }

    /// `r` is what a routine that answered `reply` gives when it writes into a fresh buffer
    /// of `n` default values: on success the `n` values of the buffer, the routine's own
    /// where it wrote them; else the CEA error.
    pub open spec fn filled<V>(reply: (i32, Vec<V>), n: nat, routine: Seq<char>, r: CeaResult<Vec<V>>) -> bool {
        if reply.0 == CEA_SUCCESS {
            r matches Ok(v) && v@.len() == n && forall|i: int|
                0 <= i < n && i < reply.1@.len() ==> v@[i] == reply.1@[i]
        } else {
            fails_with(r, cea_error(reply.0, routine))
        }
    }

    fn fill_answer<V: Copy + Default>(reply: (i32, Vec<V>), n: usize, routine: &str) -> (r: CeaResult<Vec<V>>)
        ensures
            Self::filled(reply, n as nat, routine@, r),
    {
        let (code, values) = reply;
        if code == CEA_SUCCESS {
            let fill = V::default();
            let mut out: Vec<V> = Vec::new();
            while out.len() < n
                invariant
                    out@.len() <= n,
                decreases n - out@.len(),
            {
                out.push(fill);
            }
            Self::write_values(out.as_mut_slice(), values);
            Ok(out)
        } else {
            Err(Error::Cea { code, context: routine.to_owned() })
        }
    }

    fn convert<V: Copy + Default, F>(&self, input: &[V], call: F, list: &str, routine: &str) -> (r: CeaResult<Vec<V>>)
        where
            F: Fn(&Handle<H>, i32, &[V]) -> (i32, Vec<V>),
        requires
            call.requires((&self.spec_handle(), input@.len() as i32, input)),
        ensures
            self.converted(call, input, list@, routine@, r),
    {
        let len = match to_cea_int(input.len(), list) {
            Ok(n) => n,
            Err(e) => return Err(e),
        };
        let reply = call(&self.handle, len, input);
        let r = Self::fill_answer(reply, input.len(), routine);
        assert(self.conversion_answered(call, input, reply, routine@, r));
        r
    }

    /// `out` after a routine that answered `reply` wrote into it, and `r` the result that
    /// reports it: the out-buffer holds what the routine wrote, whether it succeeded or not.
    pub open spec fn written<V>(reply: (i32, Vec<V>), routine: Seq<char>, before: Seq<V>, after: Seq<V>, r: CeaResult<()>) -> bool {
        &&& after == overwrite(before, reply.1@)
        &&& checked(r, reply.0, routine)
    }

    /// `out` and `r` after converting `input` into `out` through `call`: a refused length
    /// leaves `out` as it was; else the routine's values are written into `out`.
    pub open spec fn converted_in_place<V, F: Fn(&Handle<H>, i32, &[V]) -> (i32, Vec<V>)>(
        &self,
        call: F,
        input: &[V],
        list: Seq<char>,
        routine: Seq<char>,
        before: Seq<V>,
        after: Seq<V>,
        r: CeaResult<()>,
    ) -> bool {
        if input@.len() != before.len() || !fits_cea_int(input@.len() as int) {
            fails_with(r, length_error(list)) && after == before
        } else {
            exists|reply: (i32, Vec<V>)|
                call.ensures((&self.spec_handle(), input@.len() as i32, input), reply)
                    && #[trigger] Self::written(reply, routine, before, after, r)
        }
    }

    fn write_values<V: Copy>(out: &mut [V], values: Vec<V>)
        ensures
            final(out)@ == overwrite(old(out)@, values@),
    {
        let n = out.len();
        let ghost vals = values@;
        let mut i: usize = 0;
        while i < n && i < values.len()
            invariant
                n == old(out)@.len(),
                out@.len() == n,
                values@ == vals,
                i <= n,
                i <= vals.len(),
                forall|k: int| 0 <= k < i ==> out@[k] == vals[k],
                forall|k: int| i <= k < n ==> out@[k] == old(out)@[k],
            decreases n - i,
        {
            out[i] = values[i];
            i = i + 1;
        }
        assert(out@ =~= overwrite(old(out)@, vals));
    }

    fn converted_into<V: Copy, F>(
        &self,
        input: &[V],
        out: &mut [V],
        call: F,
        list: &str,
        routine: &str,
    ) -> (r: CeaResult<()>)
        where
            F: Fn(&Handle<H>, i32, &[V]) -> (i32, Vec<V>),
        requires
            call.requires((&self.spec_handle(), input@.len() as i32, input)),
        ensures
            self.converted_in_place(call, input, list@, routine@, old(out)@, final(out)@, r),
    {
        if let Err(e) = check_len_match(input.len(), out.len(), list) {
            return Err(e);
        }
        let len = match to_cea_int(input.len(), list) {
            Ok(n) => n,
            Err(e) => return Err(e),
        };
        let reply = call(&self.handle, len, input);
        let ghost before = out@;
        let (code, values) = reply;
        Self::write_values(out, values);
        let r = check(code, routine);
        assert(Self::written(reply, routine@, before, out@, r));
        r
    }

    /// Converts amounts in moles to weights (`cea_mixture_moles_to_weights`): `call` is handed the handle,
    /// the length and `moles`, and answers with its status and the values it wrote, which
    /// are copied into `weights`. Both slices must be of one length.
    pub fn moles_to_weights<V: Copy, F>(&self, moles: &[V], weights: &mut [V], call: F) -> (r: CeaResult<()>)
        where
            F: Fn(&Handle<H>, i32, &[V]) -> (i32, Vec<V>),
        requires
            call.requires((&self.spec_handle(), moles@.len() as i32, moles)),
        ensures
            self.converted_in_place(call, moles, "moles_to_weights"@, "cea_mixture_moles_to_weights"@, old(weights)@, final(weights)@, r),
    {
        self.converted_into(moles, weights, call, "moles_to_weights", "cea_mixture_moles_to_weights")
    }

    /// As [`Mixture::moles_to_weights`], answering with a new vector of the converted values, one per input value.
    pub fn moles_to_weights_vec<V: Copy + Default, F>(&self, moles: &[V], call: F) -> (r: CeaResult<Vec<V>>)
        where
            F: Fn(&Handle<H>, i32, &[V]) -> (i32, Vec<V>),
        requires
            call.requires((&self.spec_handle(), moles@.len() as i32, moles)),
        ensures
            self.converted(call, moles, "moles_to_weights"@, "cea_mixture_moles_to_weights"@, r),
    {
        self.convert(moles, call, "moles_to_weights", "cea_mixture_moles_to_weights")
    }

    /// Converts weights to amounts in moles (`cea_mixture_weights_to_moles`): `call` is handed the handle,
    /// the length and `weights`, and answers with its status and the values it wrote, which
    /// are copied into `moles`. Both slices must be of one length.
    pub fn weights_to_moles<V: Copy, F>(&self, weights: &[V], moles: &mut [V], call: F) -> (r: CeaResult<()>)
        where
            F: Fn(&Handle<H>, i32, &[V]) -> (i32, Vec<V>),
        requires
            call.requires((&self.spec_handle(), weights@.len() as i32, weights)),
        ensures
            self.converted_in_place(call, weights, "weights_to_moles"@, "cea_mixture_weights_to_moles"@, old(moles)@, final(moles)@, r),
    {
        self.converted_into(weights, moles, call, "weights_to_moles", "cea_mixture_weights_to_moles")
    }

    /// As [`Mixture::weights_to_moles`], answering with a new vector of the converted values, one per input value.
    pub fn weights_to_moles_vec<V: Copy + Default, F>(&self, weights: &[V], call: F) -> (r: CeaResult<Vec<V>>)
        where
            F: Fn(&Handle<H>, i32, &[V]) -> (i32, Vec<V>),
        requires
            call.requires((&self.spec_handle(), weights@.len() as i32, weights)),
        ensures
            self.converted(call, weights, "weights_to_moles"@, "cea_mixture_weights_to_moles"@, r),
    {
        self.convert(weights, call, "weights_to_moles", "cea_mixture_weights_to_moles")
    }

    /// Converts per-mole quantities to per-weight ones (`cea_mixture_per_mole_to_per_weight`): `call` is handed the handle,
    /// the length and `per_mole`, and answers with its status and the values it wrote, which
    /// are copied into `per_weight`. Both slices must be of one length.
    pub fn per_mole_to_per_weight<V: Copy, F>(&self, per_mole: &[V], per_weight: &mut [V], call: F) -> (r: CeaResult<()>)
        where
            F: Fn(&Handle<H>, i32, &[V]) -> (i32, Vec<V>),
        requires
            call.requires((&self.spec_handle(), per_mole@.len() as i32, per_mole)),
        ensures
            self.converted_in_place(call, per_mole, "per_mole_to_per_weight"@, "cea_mixture_per_mole_to_per_weight"@, old(per_weight)@, final(per_weight)@, r),
    {
        self.converted_into(per_mole, per_weight, call, "per_mole_to_per_weight", "cea_mixture_per_mole_to_per_weight")
    }

    /// As [`Mixture::per_mole_to_per_weight`], answering with a new vector of the converted values, one per input value.
    pub fn per_mole_to_per_weight_vec<V: Copy + Default, F>(&self, per_mole: &[V], call: F) -> (r: CeaResult<Vec<V>>)
        where
            F: Fn(&Handle<H>, i32, &[V]) -> (i32, Vec<V>),
        requires
            call.requires((&self.spec_handle(), per_mole@.len() as i32, per_mole)),
        ensures
            self.converted(call, per_mole, "per_mole_to_per_weight"@, "cea_mixture_per_mole_to_per_weight"@, r),
    {
        self.convert(per_mole, call, "per_mole_to_per_weight", "cea_mixture_per_mole_to_per_weight")
    }

    /// Converts per-weight quantities to per-mole ones (`cea_mixture_per_weight_to_per_mole`): `call` is handed the handle,
    /// the length and `per_weight`, and answers with its status and the values it wrote, which
    /// are copied into `per_mole`. Both slices must be of one length.
    pub fn per_weight_to_per_mole<V: Copy, F>(&self, per_weight: &[V], per_mole: &mut [V], call: F) -> (r: CeaResult<()>)
        where
            F: Fn(&Handle<H>, i32, &[V]) -> (i32, Vec<V>),
        requires
            call.requires((&self.spec_handle(), per_weight@.len() as i32, per_weight)),
        ensures
            self.converted_in_place(call, per_weight, "per_weight_to_per_mole"@, "cea_mixture_per_weight_to_per_mole"@, old(per_mole)@, final(per_mole)@, r),
    {
        self.converted_into(per_weight, per_mole, call, "per_weight_to_per_mole", "cea_mixture_per_weight_to_per_mole")
    }

    /// As [`Mixture::per_weight_to_per_mole`], answering with a new vector of the converted values, one per input value.
    pub fn per_weight_to_per_mole_vec<V: Copy + Default, F>(&self, per_weight: &[V], call: F) -> (r: CeaResult<Vec<V>>)
        where
            F: Fn(&Handle<H>, i32, &[V]) -> (i32, Vec<V>),
        requires
            call.requires((&self.spec_handle(), per_weight@.len() as i32, per_weight)),
        ensures
            self.converted(call, per_weight, "per_weight_to_per_mole"@, "cea_mixture_per_weight_to_per_mole"@, r),
    {
        self.convert(per_weight, call, "per_weight_to_per_mole", "cea_mixture_per_weight_to_per_mole")
    }

    /// `r` is what a routine taking an oxidant and a fuel composition and a ratio gives: the
    /// two compositions must be of one length that fits, else what the routine answered.
    pub open spec fn ratio_answered<V, T, F: Fn(&Handle<H>, i32, &[V], &[V], V) -> (i32, T)>(
        &self,
        call: F,
        oxidant: &[V],
        fuel: &[V],
        ratio: V,
        list: Seq<char>,
        routine: Seq<char>,
        r: CeaResult<T>,
    ) -> bool {
        if oxidant@.len() != fuel@.len() || !fits_cea_int(oxidant@.len() as int) {
            fails_with(r, length_error(list))
        } else {
            exists|reply: (i32, T)| self.ratio_reply(call, oxidant, fuel, ratio, reply, routine, r)
        }
    }

    pub open spec fn ratio_reply<V, T, F: Fn(&Handle<H>, i32, &[V], &[V], V) -> (i32, T)>(
        &self,
        call: F,
        oxidant: &[V],
        fuel: &[V],
        ratio: V,
        reply: (i32, T),
        routine: Seq<char>,
        r: CeaResult<T>,
    ) -> bool {
        &&& call.ensures((&self.spec_handle(), oxidant@.len() as i32, oxidant, fuel, ratio), reply)
        &&& answered(reply, routine, r)
    }

    fn ratio_call<V: Copy, T, F>(
        &self,
        oxidant: &[V],
        fuel: &[V],
        ratio: V,
        call: F,
        list: &str,
        routine: &str,
    ) -> (r: CeaResult<T>)
        where
            F: Fn(&Handle<H>, i32, &[V], &[V], V) -> (i32, T),
        requires
            call.requires((&self.spec_handle(), oxidant@.len() as i32, oxidant, fuel, ratio)),
        ensures
            self.ratio_answered(call, oxidant, fuel, ratio, list@, routine@, r),
    {
        if let Err(e) = check_len_match(oxidant.len(), fuel.len(), list) {
            return Err(e);
        }
        let len = match to_cea_int(oxidant.len(), list) {
            Ok(n) => n,
            Err(e) => return Err(e),
        };
        let reply = call(&self.handle, len, oxidant, fuel, ratio);
        let r = answer(reply, routine);
        assert(self.ratio_reply(call, oxidant, fuel, ratio, reply, routine@, r));
        r
    }

    /// The oxidant-to-fuel weight ratio for a chemical equivalence ratio
    /// (`cea_mixture_chem_eq_ratio_to_of_ratio`, handed the handle, the length, both
    /// compositions and the ratio).
    pub fn chem_eq_ratio_to_of_ratio<V: Copy, F>(
        &self,
        oxidant_weights: &[V],
        fuel_weights: &[V],
        chem_eq_ratio: V,
        call: F,
    ) -> (r: CeaResult<V>)
        where
            F: Fn(&Handle<H>, i32, &[V], &[V], V) -> (i32, V),
        requires
            call.requires(
                (&self.spec_handle(), oxidant_weights@.len() as i32, oxidant_weights, fuel_weights, chem_eq_ratio),
            ),
        ensures
            self.ratio_answered(
                call,
                oxidant_weights,
                fuel_weights,
                chem_eq_ratio,
                "chem_eq_ratio_to_of_ratio"@,
                "cea_mixture_chem_eq_ratio_to_of_ratio"@,
                r,
            ),
    {
        self.ratio_call(
            oxidant_weights,
            fuel_weights,
            chem_eq_ratio,
            call,
            "chem_eq_ratio_to_of_ratio",
            "cea_mixture_chem_eq_ratio_to_of_ratio",
        )
    }

    /// The oxidant-to-fuel weight ratio for a weight equivalence ratio
    /// (`cea_mixture_weight_eq_ratio_to_of_ratio`).
    pub fn weight_eq_ratio_to_of_ratio<V: Copy, F>(
        &self,
        oxidant_weights: &[V],
        fuel_weights: &[V],
        weight_eq_ratio: V,
        call: F,
    ) -> (r: CeaResult<V>)
        where
            F: Fn(&Handle<H>, i32, &[V], &[V], V) -> (i32, V),
        requires
            call.requires(
                (&self.spec_handle(), oxidant_weights@.len() as i32, oxidant_weights, fuel_weights, weight_eq_ratio),
            ),
        ensures
            self.ratio_answered(
                call,
                oxidant_weights,
                fuel_weights,
                weight_eq_ratio,
                "weight_eq_ratio_to_of_ratio"@,
                "cea_mixture_weight_eq_ratio_to_of_ratio"@,
                r,
            ),
    {
        self.ratio_call(
            oxidant_weights,
            fuel_weights,
            weight_eq_ratio,
            call,
            "weight_eq_ratio_to_of_ratio",
            "cea_mixture_weight_eq_ratio_to_of_ratio",
        )
    }

    /// `r` is what the reactant weights for an oxidant-to-fuel ratio come to: the two
    /// compositions must be of one length that fits; else what the routine answered, its
    /// values written into a fresh buffer of that length, as [`Mixture::filled`] says.
    pub open spec fn ratio_weights<V, F: Fn(&Handle<H>, i32, &[V], &[V], V) -> (i32, Vec<V>)>(
        &self,
        call: F,
        oxidant: &[V],
        fuel: &[V],
        ratio: V,
        r: CeaResult<Vec<V>>,
    ) -> bool {
        if oxidant@.len() != fuel@.len() || !fits_cea_int(oxidant@.len() as int) {
            fails_with(r, length_error("of_ratio_to_weights"@))
        } else {
            exists|reply: (i32, Vec<V>)|
                call.ensures((&self.spec_handle(), oxidant@.len() as i32, oxidant, fuel, ratio), reply)
                    && #[trigger] Self::filled(reply, oxidant@.len(), "cea_mixture_of_ratio_to_weights"@, r)
        }
    }

    /// `out` and `r` after writing the reactant weights for an oxidant-to-fuel ratio into
    /// `out`: all three compositions must be of one length that fits, which leaves `out` as
    /// it was; else the routine's values are written into `out`.
    pub open spec fn ratio_weights_in_place<V, F: Fn(&Handle<H>, i32, &[V], &[V], V) -> (i32, Vec<V>)>(
        &self,
        call: F,
        oxidant: &[V],
        fuel: &[V],
        ratio: V,
        before: Seq<V>,
        after: Seq<V>,
        r: CeaResult<()>,
    ) -> bool {
        if oxidant@.len() != fuel@.len() || oxidant@.len() != before.len() || !fits_cea_int(
            oxidant@.len() as int,
        ) {
            fails_with(r, length_error("of_ratio_to_weights"@)) && after == before
        } else {
            exists|reply: (i32, Vec<V>)|
                call.ensures((&self.spec_handle(), oxidant@.len() as i32, oxidant, fuel, ratio), reply)
                    && #[trigger] Self::written(reply, "cea_mixture_of_ratio_to_weights"@, before, after, r)
        }
    }

    /// The reactant weights for an oxidant-to-fuel ratio (`cea_mixture_of_ratio_to_weights`,
    /// handed the handle, the length, both compositions and the ratio), written into
    /// `reactant_weights`; all three compositions must be of one length.
    pub fn of_ratio_to_weights<V: Copy, F>(
        &self,
        oxidant_weights: &[V],
        fuel_weights: &[V],
        of_ratio: V,
        reactant_weights: &mut [V],
        call: F,
    ) -> (r: CeaResult<()>)
        where
            F: Fn(&Handle<H>, i32, &[V], &[V], V) -> (i32, Vec<V>),
        requires
            call.requires(
                (&self.spec_handle(), oxidant_weights@.len() as i32, oxidant_weights, fuel_weights, of_ratio),
            ),
        ensures
            self.ratio_weights_in_place(
                call,
                oxidant_weights,
                fuel_weights,
                of_ratio,
                old(reactant_weights)@,
                final(reactant_weights)@,
                r,
            ),
    {
        if let Err(e) = check_len_match(oxidant_weights.len(), fuel_weights.len(), "of_ratio_to_weights") {
            return Err(e);
        }
        if let Err(e) = check_len_match(oxidant_weights.len(), reactant_weights.len(), "of_ratio_to_weights") {
            return Err(e);
        }
        let len = match to_cea_int(oxidant_weights.len(), "of_ratio_to_weights") {
            Ok(n) => n,
            Err(e) => return Err(e),
        };
        let reply = call(&self.handle, len, oxidant_weights, fuel_weights, of_ratio);
        let ghost before = reactant_weights@;
        let (code, values) = reply;
        Self::write_values(reactant_weights, values);
        let r = check(code, "cea_mixture_of_ratio_to_weights");
        assert(Self::written(reply, "cea_mixture_of_ratio_to_weights"@, before, reactant_weights@, r));
        r
    }

    /// As [`Mixture::of_ratio_to_weights`], answering with a new vector of the weights, one
    /// per species of the compositions.
    pub fn weights_from_of_ratio<V: Copy + Default, F>(
        &self,
        oxidant_weights: &[V],
        fuel_weights: &[V],
        of_ratio: V,
        call: F,
    ) -> (r: CeaResult<Vec<V>>)
        where
            F: Fn(&Handle<H>, i32, &[V], &[V], V) -> (i32, Vec<V>),
        requires
            call.requires(
                (&self.spec_handle(), oxidant_weights@.len() as i32, oxidant_weights, fuel_weights, of_ratio),
            ),
        ensures
            self.ratio_weights(call, oxidant_weights, fuel_weights, of_ratio, r),
    {
        if let Err(e) = check_len_match(oxidant_weights.len(), fuel_weights.len(), "of_ratio_to_weights") {
            return Err(e);
        }
        let len = match to_cea_int(oxidant_weights.len(), "of_ratio_to_weights") {
            Ok(n) => n,
            Err(e) => return Err(e),
        };
        let reply = call(&self.handle, len, oxidant_weights, fuel_weights, of_ratio);
        let r = Self::fill_answer(reply, oxidant_weights.len(), "cea_mixture_of_ratio_to_weights");
        r
    }

    pub open spec fn property_reply<V, F: Fn(&Handle<H>, PropertyType, i32, &[V], V) -> (i32, V)>(
        &self,
        call: F,
        property: PropertyType,
        weights: &[V],
        temperature: V,
        reply: (i32, V),
        r: CeaResult<V>,
    ) -> bool {
        &&& call.ensures((&self.spec_handle(), property, weights@.len() as i32, weights, temperature), reply)
        &&& answered(reply, "cea_mixture_calc_property"@, r)
    }

    /// A property of the mixture with the given weights at one temperature
    /// (`cea_mixture_calc_property`, handed the handle, the property, the length, the
    /// weights and the temperature).
    pub fn calc_property<V: Copy, F>(&self, property: PropertyType, weights: &[V], temperature: V, call: F) -> (r: CeaResult<V>)
        where
            F: Fn(&Handle<H>, PropertyType, i32, &[V], V) -> (i32, V),
        requires
            call.requires((&self.spec_handle(), property, weights@.len() as i32, weights, temperature)),
        ensures
            !fits_cea_int(weights@.len() as int) ==> fails_with(r, length_error("calc_property"@)),
            fits_cea_int(weights@.len() as int) ==> exists|reply: (i32, V)|
                self.property_reply(call, property, weights, temperature, reply, r),
    {
        let len = match to_cea_int(weights.len(), "calc_property") {
            Ok(n) => n,
            Err(e) => return Err(e),
        };
        let reply = call(&self.handle, property, len, weights, temperature);
        let r = answer(reply, "cea_mixture_calc_property");
        assert(self.property_reply(call, property, weights, temperature, reply, r));
        r
    }

    pub open spec fn multitemp_reply<V, F: Fn(&Handle<H>, PropertyType, i32, &[V], i32, &[V]) -> (i32, V)>(
        &self,
        call: F,
        property: PropertyType,
        weights: &[V],
        temperatures: &[V],
        reply: (i32, V),
        r: CeaResult<V>,
    ) -> bool {
        &&& call.ensures(
            (
                &self.spec_handle(),
                property,
                weights@.len() as i32,
                weights,
                temperatures@.len() as i32,
                temperatures,
            ),
            reply,
        )
        &&& answered(reply, "cea_mixture_calc_property_multitemp"@, r)
    }

    /// A property of the mixture with one temperature per species
    /// (`cea_mixture_calc_property_multitemp`); weights and temperatures must be of one
    /// length.
    pub fn calc_property_multitemp<V: Copy, F>(
        &self,
        property: PropertyType,
        weights: &[V],
        temperatures: &[V],
        call: F,
    ) -> (r: CeaResult<V>)
        where
            F: Fn(&Handle<H>, PropertyType, i32, &[V], i32, &[V]) -> (i32, V),
        requires
            call.requires(
                (
                    &self.spec_handle(),
                    property,
                    weights@.len() as i32,
                    weights,
                    temperatures@.len() as i32,
                    temperatures,
                ),
            ),
        ensures
            weights@.len() != temperatures@.len() ==> fails_with(r, length_error("calc_property_multitemp"@)),
            weights@.len() == temperatures@.len() && !fits_cea_int(weights@.len() as int) ==> fails_with(
                r,
                length_error("calc_property_multitemp weights"@),
            ),
            weights@.len() == temperatures@.len() && fits_cea_int(weights@.len() as int) ==> exists|
                reply: (i32, V),
            | self.multitemp_reply(call, property, weights, temperatures, reply, r),
    {
        if let Err(e) = check_len_match(weights.len(), temperatures.len(), "calc_property_multitemp") {
            return Err(e);
        }
        let len = match to_cea_int(weights.len(), "calc_property_multitemp weights") {
            Ok(n) => n,
            Err(e) => return Err(e),
        };
        let temp_len = match to_cea_int(temperatures.len(), "calc_property_multitemp temperatures") {
            Ok(n) => n,
            Err(e) => return Err(e),
        };
        let reply = call(&self.handle, property, len, weights, temp_len, temperatures);
        let r = answer(reply, "cea_mixture_calc_property_multitemp");
        assert(self.multitemp_reply(call, property, weights, temperatures, reply, r));
        r
    }

    pub open spec fn tp_reply<V, F: Fn(&Handle<H>, PropertyType, i32, &[V], V, V) -> (i32, V)>(
        &self,
        call: F,
        property: PropertyType,
        weights: &[V],
        temperature: V,
        pressure: V,
        reply: (i32, V),
        r: CeaResult<V>,
    ) -> bool {
        &&& call.ensures(
            (&self.spec_handle(), property, weights@.len() as i32, weights, temperature, pressure),
            reply,
        )
        &&& answered(reply, "cea_mixture_calc_property_tp"@, r)
    }

    /// A property of the mixture at a temperature and a pressure
    /// (`cea_mixture_calc_property_tp`).
    pub fn calc_property_tp<V: Copy, F>(
        &self,
        property: PropertyType,
        weights: &[V],
        temperature: V,
        pressure: V,
        call: F,
    ) -> (r: CeaResult<V>)
        where
            F: Fn(&Handle<H>, PropertyType, i32, &[V], V, V) -> (i32, V),
        requires
            call.requires((&self.spec_handle(), property, weights@.len() as i32, weights, temperature, pressure)),
        ensures
            !fits_cea_int(weights@.len() as int) ==> fails_with(r, length_error("calc_property_tp"@)),
            fits_cea_int(weights@.len() as int) ==> exists|reply: (i32, V)|
                self.tp_reply(call, property, weights, temperature, pressure, reply, r),
    {
        let len = match to_cea_int(weights.len(), "calc_property_tp") {
            Ok(n) => n,
            Err(e) => return Err(e),
        };
        let reply = call(&self.handle, property, len, weights, temperature, pressure);
        let r = answer(reply, "cea_mixture_calc_property_tp");
        assert(self.tp_reply(call, property, weights, temperature, pressure, reply, r));
        r
    }

    pub open spec fn tp_multitemp_reply<
        V,
        F: Fn(&Handle<H>, PropertyType, i32, &[V], i32, &[V], V) -> (i32, V),
    >(
        &self,
        call: F,
        property: PropertyType,
        weights: &[V],
        temperatures: &[V],
        pressure: V,
        reply: (i32, V),
        r: CeaResult<V>,
    ) -> bool {
        &&& call.ensures(
            (
                &self.spec_handle(),
                property,
                weights@.len() as i32,
                weights,
                temperatures@.len() as i32,
                temperatures,
                pressure,
            ),
            reply,
        )
        &&& answered(reply, "cea_mixture_calc_property_tp_multitemp"@, r)
    }

    /// A property of the mixture with one temperature per species, at a pressure
    /// (`cea_mixture_calc_property_tp_multitemp`); weights and temperatures must be of one
    /// length.
    pub fn calc_property_tp_multitemp<V: Copy, F>(
        &self,
        property: PropertyType,
        weights: &[V],
        temperatures: &[V],
        pressure: V,
        call: F,
    ) -> (r: CeaResult<V>)
        where
            F: Fn(&Handle<H>, PropertyType, i32, &[V], i32, &[V], V) -> (i32, V),
        requires
            call.requires(
                (
                    &self.spec_handle(),
                    property,
                    weights@.len() as i32,
                    weights,
                    temperatures@.len() as i32,
                    temperatures,
                    pressure,
                ),
            ),
        ensures
            weights@.len() != temperatures@.len() ==> fails_with(r, length_error("calc_property_tp_multitemp"@)),
            weights@.len() == temperatures@.len() && !fits_cea_int(weights@.len() as int) ==> fails_with(
                r,
                length_error("calc_property_tp_multitemp weights"@),
            ),
            weights@.len() == temperatures@.len() && fits_cea_int(weights@.len() as int) ==> exists|
                reply: (i32, V),
            | self.tp_multitemp_reply(call, property, weights, temperatures, pressure, reply, r),
    {
        if let Err(e) = check_len_match(weights.len(), temperatures.len(), "calc_property_tp_multitemp") {
            return Err(e);
        }
        let len = match to_cea_int(weights.len(), "calc_property_tp_multitemp weights") {
            Ok(n) => n,
            Err(e) => return Err(e),
        };
        let temp_len = match to_cea_int(temperatures.len(), "calc_property_tp_multitemp temperatures") {
            Ok(n) => n,
            Err(e) => return Err(e),
        };
        let reply = call(&self.handle, property, len, weights, temp_len, temperatures, pressure);
        let r = answer(reply, "cea_mixture_calc_property_tp_multitemp");
        assert(self.tp_multitemp_reply(call, property, weights, temperatures, pressure, reply, r));
        r
    }

    /// Destroys the mixture's object in CEA through `destroy` (`cea_mixture_destroy`), unless
    /// it has none, and leaves the handle null.
    pub fn destroy<F>(&mut self, destroy: F) -> (r: Option<i32>)
        where
            F: Fn(H) -> i32,
        requires
            forall|h: H| old(self).spec_handle()@ == Some(h) ==> destroy.requires((h,)),
        ensures
            final(self).spec_handle()@ is None,
            old(self).spec_handle()@ is None ==> r is None,
            old(self).spec_handle()@ matches Some(h) ==> (r matches Some(c) && destroy.ensures((h,), c)),
    {
        self.handle.destroy(destroy)
    }
}

} // verus!
