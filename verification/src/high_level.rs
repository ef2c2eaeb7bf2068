//! The high-level interface: equilibrium problems set up once and solved for many states,
//! their results, and the planning of parallel runs.

use vstd::prelude::*;
use vstd::slice::slice_to_vec;
use crate::args::{fits_cea_int, has_nul};
use crate::error::{cea_error, check, fails_with, input_error, invalid_input, length_error, CeaResult, Error, CEA_SUCCESS};
use crate::eqsolver::{
    amounts_answered, amounts_read, converged_read, moles_read, partials_created, solution_created, EqPartials,
    EqSolution, EqSolver, SolverOptions,
};
use crate::handle::Handle;
use crate::kinds::{EquilibriumType, PropertyType};
use crate::mixture::{mixture_created, overwrite, propagates, reactants_created, species_created, Mixture};
use crate::parallel::{
    all_full, gathered, is_partition, lemma_full_delivery_in_case_order, lemma_no_failure_means_all_succeeded,
    lemma_none_short, lemma_partition_covers, lemma_partition_within, values_of, WorkerOutcome,
};

verus! {

/// The thermodynamic (and, with transport, transport) properties of an equilibrium state.
/// `V` is the type of the library's real numbers.
pub struct EquilibriumProperties<V> {
    pub temperature: V,
    pub pressure: V,
    pub volume: V,
    pub density: V,
    pub m: V,
    pub molecular_weight: V,
    pub enthalpy: V,
    pub internal_energy: V,
    pub entropy: V,
    pub gibbs_energy: V,
    pub gamma_s: V,
    pub frozen_cp: V,
    pub frozen_cv: V,
    pub equilibrium_cp: V,
    pub equilibrium_cv: V,
    pub viscosity: Option<V>,
    pub frozen_conductivity: Option<V>,
    pub equilibrium_conductivity: Option<V>,
    pub frozen_prandtl: Option<V>,
    pub equilibrium_prandtl: Option<V>,
}

impl<V: Copy> EquilibriumProperties<V> {
    /// The field that holds `property`.
    pub open spec fn spec_get(&self, property: PropertyType) -> Option<V> {
        match property {
            PropertyType::Temperature => Some(self.temperature),
            PropertyType::Pressure => Some(self.pressure),
            PropertyType::Volume => Some(self.volume),
            PropertyType::Density => Some(self.density),
            PropertyType::M => Some(self.m),
            PropertyType::Mw => Some(self.molecular_weight),
            PropertyType::Enthalpy => Some(self.enthalpy),
            PropertyType::Energy => Some(self.internal_energy),
            PropertyType::Entropy => Some(self.entropy),
            PropertyType::GibbsEnergy => Some(self.gibbs_energy),
            PropertyType::GammaS => Some(self.gamma_s),
            PropertyType::FrozenCp => Some(self.frozen_cp),
            PropertyType::FrozenCv => Some(self.frozen_cv),
            PropertyType::EquilibriumCp => Some(self.equilibrium_cp),
            PropertyType::EquilibriumCv => Some(self.equilibrium_cv),
            PropertyType::Viscosity => self.viscosity,
            PropertyType::FrozenConductivity => self.frozen_conductivity,
            PropertyType::EquilibriumConductivity => self.equilibrium_conductivity,
            PropertyType::FrozenPrandtl => self.frozen_prandtl,
            PropertyType::EquilibriumPrandtl => self.equilibrium_prandtl,
        }
    }

    /// The value of `property`; none for a transport property that was not computed.
    pub fn get(&self, property: PropertyType) -> (r: Option<V>)
        ensures
            r == self.spec_get(property),
    {
        match property {
            PropertyType::Temperature => Some(self.temperature),
            PropertyType::Pressure => Some(self.pressure),
            PropertyType::Volume => Some(self.volume),
            PropertyType::Density => Some(self.density),
            PropertyType::M => Some(self.m),
            PropertyType::Mw => Some(self.molecular_weight),
            PropertyType::Enthalpy => Some(self.enthalpy),
            PropertyType::Energy => Some(self.internal_energy),
            PropertyType::Entropy => Some(self.entropy),
            PropertyType::GibbsEnergy => Some(self.gibbs_energy),
            PropertyType::GammaS => Some(self.gamma_s),
            PropertyType::FrozenCp => Some(self.frozen_cp),
            PropertyType::FrozenCv => Some(self.frozen_cv),
            PropertyType::EquilibriumCp => Some(self.equilibrium_cp),
            PropertyType::EquilibriumCv => Some(self.equilibrium_cv),
            PropertyType::Viscosity => self.viscosity,
            PropertyType::FrozenConductivity => self.frozen_conductivity,
            PropertyType::EquilibriumConductivity => self.equilibrium_conductivity,
            PropertyType::FrozenPrandtl => self.frozen_prandtl,
            PropertyType::EquilibriumPrandtl => self.equilibrium_prandtl,
        }
    }
}

/// The order in which the properties of a solution are read: the fifteen thermodynamic
/// ones, then the five transport ones.
pub open spec fn property_order() -> Seq<PropertyType> {
    seq![
        PropertyType::Temperature,
        PropertyType::Pressure,
        PropertyType::Volume,
        PropertyType::Density,
        PropertyType::M,
        PropertyType::Mw,
        PropertyType::Enthalpy,
        PropertyType::Energy,
        PropertyType::Entropy,
        PropertyType::GibbsEnergy,
        PropertyType::GammaS,
        PropertyType::FrozenCp,
        PropertyType::FrozenCv,
        PropertyType::EquilibriumCp,
        PropertyType::EquilibriumCv,
        PropertyType::Viscosity,
        PropertyType::FrozenConductivity,
        PropertyType::EquilibriumConductivity,
        PropertyType::FrozenPrandtl,
        PropertyType::EquilibriumPrandtl,
    ]
}

/// How many properties are read from a solution.
pub open spec fn read_count(transport: bool) -> nat {
    if transport {
        20
    } else {
        15
    }
}

/// The properties whose values, read in [`property_order`], are `values`.
pub open spec fn props_from<V>(values: Seq<V>, transport: bool) -> EquilibriumProperties<V> {
    EquilibriumProperties {
        temperature: values[0],
        pressure: values[1],
        volume: values[2],
        density: values[3],
        m: values[4],
        molecular_weight: values[5],
        enthalpy: values[6],
        internal_energy: values[7],
        entropy: values[8],
        gibbs_energy: values[9],
        gamma_s: values[10],
        frozen_cp: values[11],
        frozen_cv: values[12],
        equilibrium_cp: values[13],
        equilibrium_cv: values[14],
        viscosity: if transport { Some(values[15]) } else { None },
        frozen_conductivity: if transport { Some(values[16]) } else { None },
        equilibrium_conductivity: if transport { Some(values[17]) } else { None },
        frozen_prandtl: if transport { Some(values[18]) } else { None },
        equilibrium_prandtl: if transport { Some(values[19]) } else { None },
    }
}

/// `r` is what reading the properties of `soln` gives when `get` answered `replies`, one
/// per property in [`property_order`]: the reads stop at the first failure, whose error is
/// the result; when none fails, the properties hold the values read.
pub open spec fn properties_read<H, V, F: Fn(&Handle<H>, PropertyType) -> (i32, V)>(
    soln: &EqSolution<H>,
    get: F,
    transport: bool,
    replies: Seq<(i32, V)>,
    r: CeaResult<EquilibriumProperties<V>>,
) -> bool {
    &&& replies.len() <= read_count(transport)
    &&& forall|i: int|
        0 <= i < replies.len() ==> #[trigger] get.ensures(
            (&soln.spec_handle(), property_order()[i]),
            replies[i],
        )
    &&& forall|i: int| 0 <= i < replies.len() - 1 ==> (#[trigger] replies[i]).0 == CEA_SUCCESS
    &&& match r {
        Ok(p) => replies.len() == read_count(transport) && (replies.len() == 0 || replies.last().0
            == CEA_SUCCESS) && p == props_from(replies.map_values(|x: (i32, V)| x.1), transport),
        Err(e) => replies.len() > 0 && replies.last().0 != CEA_SUCCESS && e@ == cea_error(
            replies.last().0,
            "cea_eqsolution_get_property"@,
        ),
    }
}

/// The position of `property` in [`property_order`].
pub open spec fn property_index(property: PropertyType) -> int {
    match property {
        PropertyType::Temperature => 0,
        PropertyType::Pressure => 1,
        PropertyType::Volume => 2,
        PropertyType::Density => 3,
        PropertyType::M => 4,
        PropertyType::Mw => 5,
        PropertyType::Enthalpy => 6,
        PropertyType::Energy => 7,
        PropertyType::Entropy => 8,
        PropertyType::GibbsEnergy => 9,
        PropertyType::GammaS => 10,
        PropertyType::FrozenCp => 11,
        PropertyType::FrozenCv => 12,
        PropertyType::EquilibriumCp => 13,
        PropertyType::EquilibriumCv => 14,
        PropertyType::Viscosity => 15,
        PropertyType::FrozenConductivity => 16,
        PropertyType::EquilibriumConductivity => 17,
        PropertyType::FrozenPrandtl => 18,
        PropertyType::EquilibriumPrandtl => 19,
    }
}

/// Every property is read from a solution, each at its own position, the transport ones
/// last; and the properties that a successful read gives back answer, through `get`, with
/// exactly the value that the solution gave for each property: the transport ones only when
/// they were read, none otherwise.
pub proof fn lemma_properties_read_back<H, V: Copy, F: Fn(&Handle<H>, PropertyType) -> (i32, V)>(
    soln: &EqSolution<H>,
    get: F,
    transport: bool,
    replies: Seq<(i32, V)>,
    props: EquilibriumProperties<V>,
    property: PropertyType,
)
    requires
        properties_read(soln, get, transport, replies, Ok(props)),
    ensures
        property_order().len() == 20,
        0 <= property_index(property) < 20,
        property_order()[property_index(property)] == property,
        property.spec_is_transport() <==> property_index(property) >= 15,
        !transport && property.spec_is_transport() ==> props.spec_get(property) is None,
        transport || !property.spec_is_transport() ==> {
            let reply = replies[property_index(property)];
            &&& get.ensures((&soln.spec_handle(), property), reply)
            &&& reply.0 == CEA_SUCCESS
            &&& props.spec_get(property) == Some(reply.1)
        },
{
    let i = property_index(property);
    assert(property_order()[i] == property);
    if transport || !property.spec_is_transport() {
        assert(i < replies.len());
        assert(get.ensures((&soln.spec_handle(), property_order()[i]), replies[i]));
        if i < replies.len() - 1 {
            assert(replies[i].0 == CEA_SUCCESS);
        }
    }
}

/// `value` is what `get` answered, with success, when asked for `property` of `soln`, in one
/// of `replies`.
pub open spec fn answered_for<H, V, F: Fn(&Handle<H>, PropertyType) -> (i32, V)>(
    soln: &EqSolution<H>,
    get: F,
    replies: Seq<(i32, V)>,
    property: PropertyType,
    value: V,
) -> bool {
    exists|i: int|
        0 <= i < replies.len() && replies[i].0 == CEA_SUCCESS && replies[i].1 == value
            && #[trigger] get.ensures((&soln.spec_handle(), property), replies[i])
}

/// Each named field of the properties read from a solution holds what the solution answered
/// for that field's own property: `enthalpy` the answer for `Enthalpy`, `internal_energy`
/// the answer for `Energy`, and so on; the transport fields hold the answers for their
/// properties when transport was read, and nothing otherwise.
pub proof fn lemma_property_fields_hold_their_own_replies<H, V: Copy, F: Fn(&Handle<H>, PropertyType) -> (i32, V)>(
    soln: &EqSolution<H>,
    get: F,
    transport: bool,
    replies: Seq<(i32, V)>,
    props: EquilibriumProperties<V>,
)
    requires
        properties_read(soln, get, transport, replies, Ok(props)),
    ensures
            answered_for(soln, get, replies, PropertyType::Temperature, props.temperature),
            answered_for(soln, get, replies, PropertyType::Pressure, props.pressure),
            answered_for(soln, get, replies, PropertyType::Volume, props.volume),
            answered_for(soln, get, replies, PropertyType::Density, props.density),
            answered_for(soln, get, replies, PropertyType::M, props.m),
            answered_for(soln, get, replies, PropertyType::Mw, props.molecular_weight),
            answered_for(soln, get, replies, PropertyType::Enthalpy, props.enthalpy),
            answered_for(soln, get, replies, PropertyType::Energy, props.internal_energy),
            answered_for(soln, get, replies, PropertyType::Entropy, props.entropy),
            answered_for(soln, get, replies, PropertyType::GibbsEnergy, props.gibbs_energy),
            answered_for(soln, get, replies, PropertyType::GammaS, props.gamma_s),
            answered_for(soln, get, replies, PropertyType::FrozenCp, props.frozen_cp),
            answered_for(soln, get, replies, PropertyType::FrozenCv, props.frozen_cv),
            answered_for(soln, get, replies, PropertyType::EquilibriumCp, props.equilibrium_cp),
            answered_for(soln, get, replies, PropertyType::EquilibriumCv, props.equilibrium_cv),
            transport ==> (props.viscosity matches Some(x) && answered_for(soln, get, replies, PropertyType::Viscosity, x)),
            !transport ==> props.viscosity is None,
            transport ==> (props.frozen_conductivity matches Some(x) && answered_for(soln, get, replies, PropertyType::FrozenConductivity, x)),
            !transport ==> props.frozen_conductivity is None,
            transport ==> (props.equilibrium_conductivity matches Some(x) && answered_for(soln, get, replies, PropertyType::EquilibriumConductivity, x)),
            !transport ==> props.equilibrium_conductivity is None,
            transport ==> (props.frozen_prandtl matches Some(x) && answered_for(soln, get, replies, PropertyType::FrozenPrandtl, x)),
            !transport ==> props.frozen_prandtl is None,
            transport ==> (props.equilibrium_prandtl matches Some(x) && answered_for(soln, get, replies, PropertyType::EquilibriumPrandtl, x)),
            !transport ==> props.equilibrium_prandtl is None,
{
    let values = replies.map_values(|x: (i32, V)| x.1);
    assert(props == props_from(values, transport));
    assert forall|i: int| 0 <= i < replies.len() implies (#[trigger] replies[i]).0 == CEA_SUCCESS by {
        if i < replies.len() - 1 {
            assert(replies[i].0 == CEA_SUCCESS);
        }
    }
        assert(property_order()[0] == PropertyType::Temperature);
        assert(get.ensures((&soln.spec_handle(), property_order()[0]), replies[0]));
        assert(values[0] == replies[0].1);
        assert(property_order()[1] == PropertyType::Pressure);
        assert(get.ensures((&soln.spec_handle(), property_order()[1]), replies[1]));
        assert(values[1] == replies[1].1);
        assert(property_order()[2] == PropertyType::Volume);
        assert(get.ensures((&soln.spec_handle(), property_order()[2]), replies[2]));
        assert(values[2] == replies[2].1);
        assert(property_order()[3] == PropertyType::Density);
        assert(get.ensures((&soln.spec_handle(), property_order()[3]), replies[3]));
        assert(values[3] == replies[3].1);
        assert(property_order()[4] == PropertyType::M);
        assert(get.ensures((&soln.spec_handle(), property_order()[4]), replies[4]));
        assert(values[4] == replies[4].1);
        assert(property_order()[5] == PropertyType::Mw);
        assert(get.ensures((&soln.spec_handle(), property_order()[5]), replies[5]));
        assert(values[5] == replies[5].1);
        assert(property_order()[6] == PropertyType::Enthalpy);
        assert(get.ensures((&soln.spec_handle(), property_order()[6]), replies[6]));
        assert(values[6] == replies[6].1);
        assert(property_order()[7] == PropertyType::Energy);
        assert(get.ensures((&soln.spec_handle(), property_order()[7]), replies[7]));
        assert(values[7] == replies[7].1);
        assert(property_order()[8] == PropertyType::Entropy);
        assert(get.ensures((&soln.spec_handle(), property_order()[8]), replies[8]));
        assert(values[8] == replies[8].1);
        assert(property_order()[9] == PropertyType::GibbsEnergy);
        assert(get.ensures((&soln.spec_handle(), property_order()[9]), replies[9]));
        assert(values[9] == replies[9].1);
        assert(property_order()[10] == PropertyType::GammaS);
        assert(get.ensures((&soln.spec_handle(), property_order()[10]), replies[10]));
        assert(values[10] == replies[10].1);
        assert(property_order()[11] == PropertyType::FrozenCp);
        assert(get.ensures((&soln.spec_handle(), property_order()[11]), replies[11]));
        assert(values[11] == replies[11].1);
        assert(property_order()[12] == PropertyType::FrozenCv);
        assert(get.ensures((&soln.spec_handle(), property_order()[12]), replies[12]));
        assert(values[12] == replies[12].1);
        assert(property_order()[13] == PropertyType::EquilibriumCp);
        assert(get.ensures((&soln.spec_handle(), property_order()[13]), replies[13]));
        assert(values[13] == replies[13].1);
        assert(property_order()[14] == PropertyType::EquilibriumCv);
        assert(get.ensures((&soln.spec_handle(), property_order()[14]), replies[14]));
        assert(values[14] == replies[14].1);
        if transport {
            assert(property_order()[15] == PropertyType::Viscosity);
            assert(get.ensures((&soln.spec_handle(), property_order()[15]), replies[15]));
            assert(values[15] == replies[15].1);
        }
        if transport {
            assert(property_order()[16] == PropertyType::FrozenConductivity);
            assert(get.ensures((&soln.spec_handle(), property_order()[16]), replies[16]));
            assert(values[16] == replies[16].1);
        }
        if transport {
            assert(property_order()[17] == PropertyType::EquilibriumConductivity);
            assert(get.ensures((&soln.spec_handle(), property_order()[17]), replies[17]));
            assert(values[17] == replies[17].1);
        }
        if transport {
            assert(property_order()[18] == PropertyType::FrozenPrandtl);
            assert(get.ensures((&soln.spec_handle(), property_order()[18]), replies[18]));
            assert(values[18] == replies[18].1);
        }
        if transport {
            assert(property_order()[19] == PropertyType::EquilibriumPrandtl);
            assert(get.ensures((&soln.spec_handle(), property_order()[19]), replies[19]));
            assert(values[19] == replies[19].1);
        }
}

/// Reading a property by its kind gives the field named for it.
pub proof fn lemma_get_reads_the_named_field<V: Copy>(props: EquilibriumProperties<V>)
    ensures
        props.spec_get(PropertyType::Temperature) == Some(props.temperature),
        props.spec_get(PropertyType::Pressure) == Some(props.pressure),
        props.spec_get(PropertyType::Volume) == Some(props.volume),
        props.spec_get(PropertyType::Density) == Some(props.density),
        props.spec_get(PropertyType::M) == Some(props.m),
        props.spec_get(PropertyType::Mw) == Some(props.molecular_weight),
        props.spec_get(PropertyType::Enthalpy) == Some(props.enthalpy),
        props.spec_get(PropertyType::Energy) == Some(props.internal_energy),
        props.spec_get(PropertyType::Entropy) == Some(props.entropy),
        props.spec_get(PropertyType::GibbsEnergy) == Some(props.gibbs_energy),
        props.spec_get(PropertyType::GammaS) == Some(props.gamma_s),
        props.spec_get(PropertyType::FrozenCp) == Some(props.frozen_cp),
        props.spec_get(PropertyType::FrozenCv) == Some(props.frozen_cv),
        props.spec_get(PropertyType::EquilibriumCp) == Some(props.equilibrium_cp),
        props.spec_get(PropertyType::EquilibriumCv) == Some(props.equilibrium_cv),
        props.spec_get(PropertyType::Viscosity) == props.viscosity,
        props.spec_get(PropertyType::FrozenConductivity) == props.frozen_conductivity,
        props.spec_get(PropertyType::EquilibriumConductivity) == props.equilibrium_conductivity,
        props.spec_get(PropertyType::FrozenPrandtl) == props.frozen_prandtl,
        props.spec_get(PropertyType::EquilibriumPrandtl) == props.equilibrium_prandtl,
{
}

fn property_order_vec() -> (v: Vec<PropertyType>)
    ensures
        v@ == property_order(),
{
    let v = vec![
        PropertyType::Temperature,
        PropertyType::Pressure,
        PropertyType::Volume,
        PropertyType::Density,
        PropertyType::M,
        PropertyType::Mw,
        PropertyType::Enthalpy,
        PropertyType::Energy,
        PropertyType::Entropy,
        PropertyType::GibbsEnergy,
        PropertyType::GammaS,
        PropertyType::FrozenCp,
        PropertyType::FrozenCv,
        PropertyType::EquilibriumCp,
        PropertyType::EquilibriumCv,
        PropertyType::Viscosity,
        PropertyType::FrozenConductivity,
        PropertyType::EquilibriumConductivity,
        PropertyType::FrozenPrandtl,
        PropertyType::EquilibriumPrandtl,
    ];
    assert(v@ =~= property_order());
    v
}

impl<V: Copy> EquilibriumProperties<V> {
    /// Reads the properties of a solution through `get` (`cea_eqsolution_get_property`):
    /// the thermodynamic ones always, the transport ones only with `transport`.
    pub fn from_solution<H, F>(solution: &EqSolution<H>, transport: bool, get: F) -> (r: CeaResult<
        EquilibriumProperties<V>,
    >)
        where
            F: Fn(&Handle<H>, PropertyType) -> (i32, V),
        requires
            forall|p: PropertyType| get.requires((&solution.spec_handle(), p)),
        ensures
            exists|replies: Seq<(i32, V)>| properties_read(solution, get, transport, replies, r),
    {
        let order = property_order_vec();
        let count: usize = if transport {
            20
        } else {
            15
        };
        let mut values: Vec<V> = Vec::new();
        let ghost mut replies: Seq<(i32, V)> = Seq::empty();
        let mut i: usize = 0;
        while i < count
            invariant
                i <= count,
                count == read_count(transport),
                order@ == property_order(),
                values@.len() == i,
                replies.len() == i,
                forall|p: PropertyType| get.requires((&solution.spec_handle(), p)),
                forall|k: int|
                    0 <= k < i ==> #[trigger] get.ensures(
                        (&solution.spec_handle(), property_order()[k]),
                        replies[k],
                    ),
                forall|k: int| 0 <= k < i ==> (#[trigger] replies[k]).0 == CEA_SUCCESS,
                forall|k: int| 0 <= k < i ==> values@[k] == (#[trigger] replies[k]).1,
            decreases count - i,
        {
            let reply = get(solution.handle(), order[i]);
            if reply.0 != CEA_SUCCESS {
                let r: CeaResult<EquilibriumProperties<V>> = Err(
                    Error::Cea { code: reply.0, context: "cea_eqsolution_get_property".to_owned() },
                );
                let ghost all = replies.push(reply);
                assert(all.last() == reply);
                assert(forall|k: int| 0 <= k < i ==> all[k] == replies[k]);
                assert(properties_read(solution, get, transport, all, r));
                return r;
            }
            values.push(reply.1);
            proof {
                replies = replies.push(reply);
            }
            i = i + 1;
        }
        let props = EquilibriumProperties {
            temperature: values[0],
            pressure: values[1],
            volume: values[2],
            density: values[3],
            m: values[4],
            molecular_weight: values[5],
            enthalpy: values[6],
            internal_energy: values[7],
            entropy: values[8],
            gibbs_energy: values[9],
            gamma_s: values[10],
            frozen_cp: values[11],
            frozen_cv: values[12],
            equilibrium_cp: values[13],
            equilibrium_cv: values[14],
            viscosity: if transport { Some(values[15]) } else { None },
            frozen_conductivity: if transport { Some(values[16]) } else { None },
            equilibrium_conductivity: if transport { Some(values[17]) } else { None },
            frozen_prandtl: if transport { Some(values[18]) } else { None },
            equilibrium_prandtl: if transport { Some(values[19]) } else { None },
        };
        let r: CeaResult<EquilibriumProperties<V>> = Ok(props);
        assert(values@ =~= replies.map_values(|x: (i32, V)| x.1));
        assert(properties_read(solution, get, transport, replies, r));
        r
    }
}

/// The outcome of one equilibrium solve.
pub struct EquilibriumResult<V> {
    pub converged: bool,
    pub total_moles: V,
    pub reactant_weights: Vec<V>,
    pub product_species: Vec<String>,
    pub product_mass_fractions: Vec<V>,
    pub product_mole_fractions: Vec<V>,
    pub properties: EquilibriumProperties<V>,
}

/// The position of the first name in `names` that equals `name`, if any.
pub open spec fn first_match(names: Seq<String>, name: Seq<char>) -> Option<int>
    decreases names.len(),
{
    if names.len() == 0 {
        None
    } else {
        match first_match(names.drop_last(), name) {
            Some(i) => Some(i),
            None => if names.last()@ == name {
                Some(names.len() - 1)
            } else {
                None
            },
        }
    }
}

/// The value at the position of the first name that equals `name`, if both exist.
pub open spec fn value_for<V>(names: Seq<String>, name: Seq<char>, values: Seq<V>) -> Option<V> {
    match first_match(names, name) {
        Some(i) => if i < values.len() {
            Some(values[i])
        } else {
            None
        },
        None => None,
    }
}

proof fn lemma_first_match_push(names: Seq<String>, s: String, name: Seq<char>)
    ensures
        first_match(names.push(s), name) == match first_match(names, name) {
            Some(i) => Some(i),
            None => if s@ == name {
                Some(names.len() as int)
            } else {
                None
            },
        },
{
    assert(names.push(s).drop_last() =~= names);
}

/// The position of the first of `names` that equals `name`.
pub fn position_of(names: &[String], name: &str) -> (r: Option<usize>)
    ensures
        r matches Some(i) ==> first_match(names@, name@) == Some(i as int),
        r is None ==> first_match(names@, name@) is None,
{
    let target = name.to_owned();
    let mut i: usize = 0;
    while i < names.len()
        invariant
            i <= names@.len(),
            target@ == name@,
            first_match(names@.take(i as int), name@) is None,
        decreases names@.len() - i,
    {
        proof {
            lemma_first_match_push(names@.take(i as int), names@[i as int], name@);
            assert(names@.take(i as int).push(names@[i as int]) =~= names@.take(i + 1));
        }
        if names[i] == target {
            proof {
                lemma_first_match_push(names@.take(i as int), names@[i as int], name@);
                lemma_prefix_match(names@, name@, i as int);
            }
            return Some(i);
        }
        i = i + 1;
    }
    assert(names@.take(i as int) =~= names@);
    None
}

/// A match found in a prefix is the first match of the whole sequence.
proof fn lemma_prefix_match(names: Seq<String>, name: Seq<char>, i: int)
    requires
        0 <= i < names.len(),
        first_match(names.take(i + 1), name) == Some(i),
    ensures
        first_match(names, name) == Some(i),
    decreases names.len(),
{
    if names.len() > i + 1 {
        assert(names.drop_last().take(i + 1) =~= names.take(i + 1));
        lemma_prefix_match(names.drop_last(), name, i);
    } else {
        assert(names.take(i + 1) =~= names);
    }
}

/// A product species is found at its first position in the list of products: the fraction
/// reported for it is the one at that position, if the fractions reach that far; a name
/// that is not a product has no fraction.
pub proof fn lemma_fraction_at_species_position<V>(names: Seq<String>, values: Seq<V>, name: Seq<char>, i: int)
    requires
        0 <= i < names.len(),
        names[i]@ == name,
        forall|j: int| 0 <= j < i ==> (#[trigger] names[j])@ != name,
    ensures
        first_match(names, name) == Some(i),
        value_for(names, name, values) == if i < values.len() {
            Some(values[i])
        } else {
            None::<V>
        },
{
    lemma_no_match(names.take(i), name, values);
    assert(names.take(i).push(names[i]) =~= names.take(i + 1));
    lemma_first_match_push(names.take(i), names[i], name);
    lemma_prefix_match(names, name, i);
}

/// A name that none of `names` equals has no match, and so no fraction.
pub proof fn lemma_no_match<V>(names: Seq<String>, name: Seq<char>, values: Seq<V>)
    requires
        forall|j: int| 0 <= j < names.len() ==> (#[trigger] names[j])@ != name,
    ensures
        first_match(names, name) is None,
        value_for(names, name, values) is None,
    decreases names.len(),
{
    if names.len() > 0 {
        lemma_no_match(names.drop_last(), name, values);
    }
}

impl<V: Copy> EquilibriumResult<V> {
    /// The value of a property of the equilibrium state.
    pub fn property(&self, property: PropertyType) -> (r: Option<V>)
        ensures
            r == self.properties.spec_get(property),
    {
        self.properties.get(property)
    }

    fn product_fraction(&self, species: &str, values: &[V]) -> (r: Option<V>)
        ensures
            r == value_for(self.product_species@, species@, values@),
    {
        match position_of(self.product_species.as_slice(), species) {
            Some(i) => if i < values.len() {
                Some(values[i])
            } else {
                None
            },
            None => None,
        }
    }

    /// The mass fraction of the named product species, if it is a product.
    pub fn product_mass_fraction(&self, species: &str) -> (r: Option<V>)
        ensures
            r == value_for(self.product_species@, species@, self.product_mass_fractions@),
    {
        self.product_fraction(species, self.product_mass_fractions.as_slice())
    }

    /// The mole fraction of the named product species, if it is a product.
    pub fn product_mole_fraction(&self, species: &str) -> (r: Option<V>)
        ensures
            r == value_for(self.product_species@, species@, self.product_mole_fractions@),
    {
        self.product_fraction(species, self.product_mole_fractions.as_slice())
    }
}

/// A temperature-pressure problem for a parallel run.
pub struct TpCase<V> {
    pub temperature: V,
    pub pressure: V,
    pub reactant_weights: Vec<V>,
}

impl<V> TpCase<V> {
    pub fn new(temperature: V, pressure: V, reactant_weights: Vec<V>) -> (c: TpCase<V>)
        ensures
            c.temperature == temperature,
            c.pressure == pressure,
            c.reactant_weights == reactant_weights,
    {
        TpCase { temperature, pressure, reactant_weights }
    }
}

/// A temperature-pressure problem given by fuel and oxidant moles and a chemical
/// equivalence ratio, for a parallel run.
pub struct TpEquivalenceMolesCase<V> {
    pub temperature: V,
    pub pressure: V,
    pub fuel_moles: Vec<V>,
    pub oxidant_moles: Vec<V>,
    pub chemical_equivalence_ratio: V,
}

impl<V> TpEquivalenceMolesCase<V> {
    pub fn new(
        temperature: V,
        pressure: V,
        fuel_moles: Vec<V>,
        oxidant_moles: Vec<V>,
        chemical_equivalence_ratio: V,
    ) -> (c: TpEquivalenceMolesCase<V>)
        ensures
            c.temperature == temperature,
            c.pressure == pressure,
            c.fuel_moles == fuel_moles,
            c.oxidant_moles == oxidant_moles,
            c.chemical_equivalence_ratio == chemical_equivalence_ratio,
    {
        TpEquivalenceMolesCase { temperature, pressure, fuel_moles, oxidant_moles, chemical_equivalence_ratio }
    }
}

/// Which products an equilibrium problem considers.
#[derive(Clone)]
pub enum ProductSelection {
    /// These species.
    Explicit(Vec<String>),
    /// All that the reactants can form, less these.
    FromReactants { omit: Vec<String> },
}

/// The settings of an equilibrium problem, gathered before the problem is built.
#[derive(Clone)]
pub struct EquilibriumBuilder<V> {
    reactants: Vec<String>,
    products: ProductSelection,
    trace: V,
    ions: bool,
    transport: bool,
    insert: Vec<String>,
}

impl<V> EquilibriumBuilder<V> {
    pub closed spec fn spec_reactants(&self) -> Seq<String> {
        self.reactants@
    }

    pub closed spec fn spec_products(&self) -> ProductSelection {
        self.products
    }

    pub closed spec fn spec_trace(&self) -> V {
        self.trace
    }

    pub closed spec fn spec_ions(&self) -> bool {
        self.ions
    }

    pub closed spec fn spec_transport(&self) -> bool {
        self.transport
    }

    pub closed spec fn spec_insert(&self) -> Seq<String> {
        self.insert@
    }
}

impl<V: Default> Default for EquilibriumBuilder<V> {
    /// No reactants, products from the reactants with nothing omitted, the default trace
    /// (zero for real numbers), no ions, no transport, nothing inserted.
    fn default() -> (b: Self)
        ensures
            call_ensures(V::default, (), b.spec_trace()),
            b.spec_reactants().len() == 0,
            (b.spec_products() matches ProductSelection::FromReactants { omit } && omit@.len() == 0),
            !b.spec_ions(),
            !b.spec_transport(),
            b.spec_insert().len() == 0,
    {
        EquilibriumBuilder {
            reactants: Vec::new(),
            products: ProductSelection::FromReactants { omit: Vec::new() },
            trace: V::default(),
            ions: false,
            transport: false,
            insert: Vec::new(),
        }
    }
}

impl<V: Default> EquilibriumBuilder<V> {
    /// A builder with the default settings.
    pub fn new() -> (b: Self)
        ensures
            call_ensures(V::default, (), b.spec_trace()),
            b.spec_reactants().len() == 0,
            (b.spec_products() matches ProductSelection::FromReactants { omit } && omit@.len() == 0),
            !b.spec_ions(),
            !b.spec_transport(),
            b.spec_insert().len() == 0,
    {
        Self::default()
    }
}

impl<V> EquilibriumBuilder<V> {
    /// Sets the reactant species.
    pub fn reactants(self, species: Vec<String>) -> (b: Self)
        ensures
            b.spec_reactants() == species@,
            b.spec_products() == self.spec_products(),
            b.spec_trace() == self.spec_trace(),
            b.spec_ions() == self.spec_ions(),
            b.spec_transport() == self.spec_transport(),
            b.spec_insert() == self.spec_insert(),
    {
        let mut b = self;
        b.reactants = species;
        b
    }

    /// Considers exactly these product species.
    pub fn products(self, species: Vec<String>) -> (b: Self)
        ensures
            b.spec_reactants() == self.spec_reactants(),
            b.spec_products() == ProductSelection::Explicit(species),
            b.spec_trace() == self.spec_trace(),
            b.spec_ions() == self.spec_ions(),
            b.spec_transport() == self.spec_transport(),
            b.spec_insert() == self.spec_insert(),
    {
        let mut b = self;
        b.products = ProductSelection::Explicit(species);
        b
    }

    /// Considers every product the reactants can form, less `omit`.
    pub fn products_from_reactants(self, omit: Vec<String>) -> (b: Self)
        ensures
            b.spec_reactants() == self.spec_reactants(),
            b.spec_products() == (ProductSelection::FromReactants { omit }),
            b.spec_trace() == self.spec_trace(),
            b.spec_ions() == self.spec_ions(),
            b.spec_transport() == self.spec_transport(),
            b.spec_insert() == self.spec_insert(),
    {
        let mut b = self;
        b.products = ProductSelection::FromReactants { omit };
        b
    }

    /// Sets the trace threshold.
    pub fn trace(self, trace: V) -> (b: Self)
        ensures
            b.spec_reactants() == self.spec_reactants(),
            b.spec_products() == self.spec_products(),
            b.spec_trace() == trace,
            b.spec_ions() == self.spec_ions(),
            b.spec_transport() == self.spec_transport(),
            b.spec_insert() == self.spec_insert(),
    {
        let mut b = self;
        b.trace = trace;
        b
    }

    /// Whether ionized species are considered.
    pub fn ions(self, ions: bool) -> (b: Self)
        ensures
            b.spec_reactants() == self.spec_reactants(),
            b.spec_products() == self.spec_products(),
            b.spec_trace() == self.spec_trace(),
            b.spec_ions() == ions,
            b.spec_transport() == self.spec_transport(),
            b.spec_insert() == self.spec_insert(),
    {
        let mut b = self;
        b.ions = ions;
        b
    }

    /// Whether transport properties are computed.
    pub fn transport(self, transport: bool) -> (b: Self)
        ensures
            b.spec_reactants() == self.spec_reactants(),
            b.spec_products() == self.spec_products(),
            b.spec_trace() == self.spec_trace(),
            b.spec_ions() == self.spec_ions(),
            b.spec_transport() == transport,
            b.spec_insert() == self.spec_insert(),
    {
        let mut b = self;
        b.transport = transport;
        b
    }

    /// Sets the species inserted as condensed products from the start.
    pub fn insert(self, species: Vec<String>) -> (b: Self)
        ensures
            b.spec_reactants() == self.spec_reactants(),
            b.spec_products() == self.spec_products(),
            b.spec_trace() == self.spec_trace(),
            b.spec_ions() == self.spec_ions(),
            b.spec_transport() == self.spec_transport(),
            b.spec_insert() == species@,
    {
        let mut b = self;
        b.insert = species;
        b
    }
}

/// The names as string slices.
pub fn borrowed_strings(values: &[String]) -> (r: Vec<&str>)
    ensures
        r@.len() == values@.len(),
        forall|i: int| 0 <= i < values@.len() ==> #[trigger] r@[i]@ == values@[i]@,
{
    let mut r: Vec<&str> = Vec::new();
    let mut i: usize = 0;
    while i < values.len()
        invariant
            i <= values@.len(),
            r@.len() == i,
            forall|k: int| 0 <= k < i ==> #[trigger] r@[k]@ == values@[k]@,
        decreases values@.len() - i,
    {
        r.push(values[i].as_str());
        i = i + 1;
    }
    r
}

/// `r` is what reading all properties of `soln` through `get` gives.
pub open spec fn properties_of<H, V, F: Fn(&Handle<H>, PropertyType) -> (i32, V)>(
    soln: &EqSolution<H>,
    get: F,
    transport: bool,
    r: CeaResult<EquilibriumProperties<V>>,
) -> bool {
    exists|replies: Seq<(i32, V)>| properties_read(soln, get, transport, replies, r)
}

/// The calls through which a solve reaches the library: `solve`
/// (`cea_eqsolver_solve_with_partials`), `amounts` (`cea_eqsolution_get_species_amounts`),
/// `property` (`cea_eqsolution_get_property`), `converged` (`cea_eqsolution_get_converged`)
/// and `moles` (`cea_eqsolution_get_moles`).
pub struct SolveCalls<S, A, P, C, M> {
    pub solve: S,
    pub amounts: A,
    pub property: P,
    pub converged: C,
    pub moles: M,
}

impl<S, A, P, C, M> SolveCalls<S, A, P, C, M> {
    /// Each call may be made on any arguments.
    pub open spec fn ready<H, V>(&self) -> bool
        where
            S: Fn(&Handle<H>, EquilibriumType, V, V, &[V], &Handle<H>, &Handle<H>) -> (i32, Vec<V>),
            A: Fn(&Handle<H>, i32, bool) -> (i32, Vec<V>),
            P: Fn(&Handle<H>, PropertyType) -> (i32, V),
            C: Fn(&Handle<H>) -> (i32, i32),
            M: Fn(&Handle<H>) -> (i32, V),
    {
        &&& forall|h: &Handle<H>, t: EquilibriumType, s1: V, s2: V, a: &[V], sh: &Handle<H>, ph: &Handle<H>|
            self.solve.requires((h, t, s1, s2, a, sh, ph))
        &&& forall|h: &Handle<H>, n: i32, mass: bool| self.amounts.requires((h, n, mass))
        &&& forall|h: &Handle<H>, p: PropertyType| self.property.requires((h, p))
        &&& forall|h: &Handle<H>| self.converged.requires((h,))
        &&& forall|h: &Handle<H>| self.moles.requires((h,))
    }
}

/// An equilibrium problem, set up once and solved for as many states as wanted.
pub struct Equilibrium<H> {
    partials: EqPartials<H>,
    solution: EqSolution<H>,
    solver: EqSolver<H>,
    products: Mixture<H>,
    reactants: Mixture<H>,
    reactant_species: Vec<String>,
    product_species: Vec<String>,
    transport: bool,
}

impl<H> Equilibrium<H> {
    pub closed spec fn spec_partials(&self) -> EqPartials<H> {
        self.partials
    }

    pub closed spec fn spec_solution(&self) -> EqSolution<H> {
        self.solution
    }

    pub closed spec fn spec_solver(&self) -> EqSolver<H> {
        self.solver
    }

    pub closed spec fn spec_products(&self) -> Mixture<H> {
        self.products
    }

    pub closed spec fn spec_reactants(&self) -> Mixture<H> {
        self.reactants
    }

    pub closed spec fn spec_reactant_species(&self) -> Seq<String> {
        self.reactant_species@
    }

    pub closed spec fn spec_product_species(&self) -> Seq<String> {
        self.product_species@
    }

    pub closed spec fn spec_transport(&self) -> bool {
        self.transport
    }

    /// The problem made of its parts: the objects of the library, the names of the reactants
    /// and products, and whether transport properties are computed.
    pub fn from_parts(
        partials: EqPartials<H>,
        solution: EqSolution<H>,
        solver: EqSolver<H>,
        products: Mixture<H>,
        reactants: Mixture<H>,
        reactant_species: Vec<String>,
        product_species: Vec<String>,
        transport: bool,
    ) -> (e: Equilibrium<H>)
        ensures
            e.spec_partials() == partials,
            e.spec_solution() == solution,
            e.spec_solver() == solver,
            e.spec_products() == products,
            e.spec_reactants() == reactants,
            e.spec_reactant_species() == reactant_species@,
            e.spec_product_species() == product_species@,
            e.spec_transport() == transport,
    {
        Equilibrium {
            partials,
            solution,
            solver,
            products,
            reactants,
            reactant_species,
            product_species,
            transport,
        }
    }

    /// A builder for an equilibrium problem.
    pub fn builder<V: Default>() -> (b: EquilibriumBuilder<V>)
        ensures
            call_ensures(V::default, (), b.spec_trace()),
            b.spec_reactants().len() == 0,
            (b.spec_products() matches ProductSelection::FromReactants { omit } && omit@.len() == 0),
            !b.spec_ions(),
            !b.spec_transport(),
            b.spec_insert().len() == 0,
    {
        EquilibriumBuilder::new()
    }

    /// The reactant species, in order.
    pub fn reactant_species(&self) -> (r: &[String])
        ensures
            r@ == self.spec_reactant_species(),
    {
        self.reactant_species.as_slice()
    }

    /// The product species, in order.
    pub fn product_species(&self) -> (r: &[String])
        ensures
            r@ == self.spec_product_species(),
    {
        self.product_species.as_slice()
    }

    /// A composition given per reactant must have one value per reactant species.
    fn check_reactant_len<V>(&self, values: &[V], context: &str) -> (r: CeaResult<()>)
        ensures
            values@.len() == self.spec_reactant_species().len() ==> r is Ok,
            values@.len() != self.spec_reactant_species().len() ==> fails_with(r, length_error(context@)),
    {
        if values.len() == self.reactant_species.len() {
            Ok(())
        } else {
            Err(Error::InvalidLength { context: context.to_owned() })
        }
    }

    /// The reactant weights for amounts in moles, one per reactant species, converted
    /// through `call` (`cea_mixture_moles_to_weights` on the reactants).
    pub fn reactant_weights_from_moles<V: Copy + Default, F>(&self, moles: &[V], call: F) -> (r: CeaResult<Vec<V>>)
        where
            F: Fn(&Handle<H>, i32, &[V]) -> (i32, Vec<V>),
        requires
            call.requires((&self.spec_reactants().spec_handle(), moles@.len() as i32, moles)),
        ensures
            self.weights_from_moles(call, moles, r),
    {
        if let Err(e) = self.check_reactant_len(moles, "reactant_weights_from_moles") {
            return Err(e);
        }
        self.reactants.moles_to_weights_vec(moles, call)
    }

    /// `r` is what converting reactant moles to weights through `call` gives.
    pub open spec fn weights_from_moles<V, F: Fn(&Handle<H>, i32, &[V]) -> (i32, Vec<V>)>(
        &self,
        call: F,
        moles: &[V],
        r: CeaResult<Vec<V>>,
    ) -> bool {
        if moles@.len() != self.spec_reactant_species().len() {
            fails_with(r, length_error("reactant_weights_from_moles"@))
        } else {
            self.spec_reactants().converted(call, moles, "moles_to_weights"@, "cea_mixture_moles_to_weights"@, r)
        }
    }

    /// The reactant amounts in moles for weights, one per reactant species
    /// (`cea_mixture_weights_to_moles` on the reactants).
    pub fn reactant_moles_from_weights<V: Copy + Default, F>(&self, weights: &[V], call: F) -> (r: CeaResult<Vec<V>>)
        where
            F: Fn(&Handle<H>, i32, &[V]) -> (i32, Vec<V>),
        requires
            call.requires((&self.spec_reactants().spec_handle(), weights@.len() as i32, weights)),
        ensures
            weights@.len() != self.spec_reactant_species().len() ==> fails_with(
                r,
                length_error("reactant_moles_from_weights"@),
            ),
            weights@.len() == self.spec_reactant_species().len() ==> self.spec_reactants().converted(
                call,
                weights,
                "weights_to_moles"@,
                "cea_mixture_weights_to_moles"@,
                r,
            ),
    {
        if let Err(e) = self.check_reactant_len(weights, "reactant_moles_from_weights") {
            return Err(e);
        }
        self.reactants.weights_to_moles_vec(weights, call)
    }

    /// `r` is what the oxidant-to-fuel ratio for a chemical equivalence ratio comes to:
    /// both compositions need one value per reactant species.
    pub open spec fn chem_eq_of_ratio<V, F: Fn(&Handle<H>, i32, &[V], &[V], V) -> (i32, V)>(
        &self,
        call: F,
        fuel_weights: &[V],
        oxidant_weights: &[V],
        ratio: V,
        r: CeaResult<V>,
    ) -> bool {
        if fuel_weights@.len() != self.spec_reactant_species().len() {
            fails_with(r, length_error("of_ratio_from_chemical_equivalence fuel"@))
        } else if oxidant_weights@.len() != self.spec_reactant_species().len() {
            fails_with(r, length_error("of_ratio_from_chemical_equivalence oxidant"@))
        } else {
            self.spec_reactants().ratio_answered(
                call,
                oxidant_weights,
                fuel_weights,
                ratio,
                "chem_eq_ratio_to_of_ratio"@,
                "cea_mixture_chem_eq_ratio_to_of_ratio"@,
                r,
            )
        }
    }

    /// The oxidant-to-fuel weight ratio for a chemical equivalence ratio, from fuel and
    /// oxidant weights per reactant (`cea_mixture_chem_eq_ratio_to_of_ratio`).
    pub fn of_ratio_from_chemical_equivalence<V: Copy, F>(
        &self,
        fuel_weights: &[V],
        oxidant_weights: &[V],
        chemical_equivalence_ratio: V,
        call: F,
    ) -> (r: CeaResult<V>)
        where
            F: Fn(&Handle<H>, i32, &[V], &[V], V) -> (i32, V),
        requires
            call.requires(
                (
                    &self.spec_reactants().spec_handle(),
                    oxidant_weights@.len() as i32,
                    oxidant_weights,
                    fuel_weights,
                    chemical_equivalence_ratio,
                ),
            ),
        ensures
            self.chem_eq_of_ratio(call, fuel_weights, oxidant_weights, chemical_equivalence_ratio, r),
    {
        if let Err(e) = self.check_reactant_len(fuel_weights, "of_ratio_from_chemical_equivalence fuel") {
            return Err(e);
        }
        if let Err(e) = self.check_reactant_len(oxidant_weights, "of_ratio_from_chemical_equivalence oxidant") {
            return Err(e);
        }
        self.reactants.chem_eq_ratio_to_of_ratio(oxidant_weights, fuel_weights, chemical_equivalence_ratio, call)
    }

    /// The oxidant-to-fuel weight ratio for a weight equivalence ratio
    /// (`cea_mixture_weight_eq_ratio_to_of_ratio`).
    pub fn of_ratio_from_weight_equivalence<V: Copy, F>(
        &self,
        fuel_weights: &[V],
        oxidant_weights: &[V],
        weight_equivalence_ratio: V,
        call: F,
    ) -> (r: CeaResult<V>)
        where
            F: Fn(&Handle<H>, i32, &[V], &[V], V) -> (i32, V),
        requires
            call.requires(
                (
                    &self.spec_reactants().spec_handle(),
                    oxidant_weights@.len() as i32,
                    oxidant_weights,
                    fuel_weights,
                    weight_equivalence_ratio,
                ),
            ),
        ensures
            fuel_weights@.len() != self.spec_reactant_species().len() ==> fails_with(
                r,
                length_error("of_ratio_from_weight_equivalence fuel"@),
            ),
            fuel_weights@.len() == self.spec_reactant_species().len() && oxidant_weights@.len()
                != self.spec_reactant_species().len() ==> fails_with(
                r,
                length_error("of_ratio_from_weight_equivalence oxidant"@),
            ),
            fuel_weights@.len() == self.spec_reactant_species().len() && oxidant_weights@.len()
                == self.spec_reactant_species().len() ==> self.spec_reactants().ratio_answered(
                call,
                oxidant_weights,
                fuel_weights,
                weight_equivalence_ratio,
                "weight_eq_ratio_to_of_ratio"@,
                "cea_mixture_weight_eq_ratio_to_of_ratio"@,
                r,
            ),
    {
        if let Err(e) = self.check_reactant_len(fuel_weights, "of_ratio_from_weight_equivalence fuel") {
            return Err(e);
        }
        if let Err(e) = self.check_reactant_len(oxidant_weights, "of_ratio_from_weight_equivalence oxidant") {
            return Err(e);
        }
        self.reactants.weight_eq_ratio_to_of_ratio(oxidant_weights, fuel_weights, weight_equivalence_ratio, call)
    }

    /// `r` is what the reactant weights for an oxidant-to-fuel ratio come to.
    pub open spec fn of_ratio_weights<V, F: Fn(&Handle<H>, i32, &[V], &[V], V) -> (i32, Vec<V>)>(
        &self,
        call: F,
        fuel_weights: &[V],
        oxidant_weights: &[V],
        of_ratio: V,
        r: CeaResult<Vec<V>>,
    ) -> bool {
        if fuel_weights@.len() != self.spec_reactant_species().len() {
            fails_with(r, length_error("reactant_weights_from_of_ratio fuel"@))
        } else if oxidant_weights@.len() != self.spec_reactant_species().len() {
            fails_with(r, length_error("reactant_weights_from_of_ratio oxidant"@))
        } else {
            self.spec_reactants().ratio_weights(call, oxidant_weights, fuel_weights, of_ratio, r)
        }
    }

    /// The reactant weights for an oxidant-to-fuel ratio (`cea_mixture_of_ratio_to_weights`).
    pub fn reactant_weights_from_of_ratio<V: Copy + Default, F>(
        &self,
        fuel_weights: &[V],
        oxidant_weights: &[V],
        of_ratio: V,
        call: F,
    ) -> (r: CeaResult<Vec<V>>)
        where
            F: Fn(&Handle<H>, i32, &[V], &[V], V) -> (i32, Vec<V>),
        requires
            call.requires(
                (
                    &self.spec_reactants().spec_handle(),
                    oxidant_weights@.len() as i32,
                    oxidant_weights,
                    fuel_weights,
                    of_ratio,
                ),
            ),
        ensures
            self.of_ratio_weights(call, fuel_weights, oxidant_weights, of_ratio, r),
    {
        if let Err(e) = self.check_reactant_len(fuel_weights, "reactant_weights_from_of_ratio fuel") {
            return Err(e);
        }
        if let Err(e) = self.check_reactant_len(oxidant_weights, "reactant_weights_from_of_ratio oxidant") {
            return Err(e);
        }
        self.reactants.weights_from_of_ratio(oxidant_weights, fuel_weights, of_ratio, call)
    }

    /// `r` is what the reactant weights for a chemical equivalence ratio come to when the
    /// oxidant-to-fuel ratio came to `of`.
    pub open spec fn chem_eq_weights_with<
        V,
        E: Fn(&Handle<H>, i32, &[V], &[V], V) -> (i32, V),
        W: Fn(&Handle<H>, i32, &[V], &[V], V) -> (i32, Vec<V>),
    >(
        &self,
        chem_eq: E,
        of_to_weights: W,
        fuel_weights: &[V],
        oxidant_weights: &[V],
        ratio: V,
        of: CeaResult<V>,
        r: CeaResult<Vec<V>>,
    ) -> bool {
        &&& self.chem_eq_of_ratio(chem_eq, fuel_weights, oxidant_weights, ratio, of)
        &&& match of {
            Err(_) => propagates(of, r),
            Ok(of_ratio) => self.of_ratio_weights(of_to_weights, fuel_weights, oxidant_weights, of_ratio, r),
        }
    }

    /// `r` is what the reactant weights for a chemical equivalence ratio come to: the
    /// oxidant-to-fuel ratio first, then the weights for it.
    pub open spec fn chem_eq_weights<
        V,
        E: Fn(&Handle<H>, i32, &[V], &[V], V) -> (i32, V),
        W: Fn(&Handle<H>, i32, &[V], &[V], V) -> (i32, Vec<V>),
    >(
        &self,
        chem_eq: E,
        of_to_weights: W,
        fuel_weights: &[V],
        oxidant_weights: &[V],
        ratio: V,
        r: CeaResult<Vec<V>>,
    ) -> bool {
        exists|of: CeaResult<V>|
            self.chem_eq_weights_with(chem_eq, of_to_weights, fuel_weights, oxidant_weights, ratio, of, r)
    }

    /// The reactant weights for a chemical equivalence ratio: the oxidant-to-fuel ratio
    /// through `chem_eq`, then the weights for it through `of_to_weights`.
    pub fn reactant_weights_from_chemical_equivalence<V: Copy + Default, E, W>(
        &self,
        fuel_weights: &[V],
        oxidant_weights: &[V],
        chemical_equivalence_ratio: V,
        chem_eq: E,
        of_to_weights: W,
    ) -> (r: CeaResult<Vec<V>>)
        where
            E: Fn(&Handle<H>, i32, &[V], &[V], V) -> (i32, V),
            W: Fn(&Handle<H>, i32, &[V], &[V], V) -> (i32, Vec<V>),
        requires
            forall|n: i32, v: V|
                chem_eq.requires((&self.spec_reactants().spec_handle(), n, oxidant_weights, fuel_weights, v)),
            forall|n: i32, v: V|
                of_to_weights.requires((&self.spec_reactants().spec_handle(), n, oxidant_weights, fuel_weights, v)),
        ensures
            self.chem_eq_weights(chem_eq, of_to_weights, fuel_weights, oxidant_weights, chemical_equivalence_ratio, r),
    {
        let of = self.of_ratio_from_chemical_equivalence(fuel_weights, oxidant_weights, chemical_equivalence_ratio, chem_eq);
        let r = match of {
            Err(e) => Err(e),
            Ok(of_ratio) => self.reactant_weights_from_of_ratio(fuel_weights, oxidant_weights, of_ratio, of_to_weights),
        };
        assert(self.chem_eq_weights_with(chem_eq, of_to_weights, fuel_weights, oxidant_weights, chemical_equivalence_ratio, of, r));
        r
    }
}

impl<H> Equilibrium<H> {
    /// `res` is the result of a solve from `weights` whose reads gave these values.
    pub open spec fn result_holds<V>(
        &self,
        weights: Seq<V>,
        mass: Seq<V>,
        mole: Seq<V>,
        props: EquilibriumProperties<V>,
        converged: bool,
        total_moles: V,
        res: EquilibriumResult<V>,
    ) -> bool {
        &&& res.converged == converged
        &&& res.total_moles == total_moles
        &&& res.reactant_weights@ == weights
        &&& res.product_species@ == self.spec_product_species()
        &&& res.product_mass_fractions@ == mass
        &&& res.product_mole_fractions@ == mole
        &&& res.properties == props
    }

    /// `r` is what reading a solution after a solve from `weights` gives: the mass
    /// fractions, the mole fractions, the properties, the convergence flag and the total
    /// moles are read in this order, the first failed read is the result, and when none
    /// fails the result holds what was read.
    pub open spec fn snapshot_taken<V, S, A, P, C, M>(
        &self,
        calls: &SolveCalls<S, A, P, C, M>,
        weights: Seq<V>,
        r: CeaResult<EquilibriumResult<V>>,
    ) -> bool
        where
            S: Fn(&Handle<H>, EquilibriumType, V, V, &[V], &Handle<H>, &Handle<H>) -> (i32, Vec<V>),
            A: Fn(&Handle<H>, i32, bool) -> (i32, Vec<V>),
            P: Fn(&Handle<H>, PropertyType) -> (i32, V),
            C: Fn(&Handle<H>) -> (i32, i32),
            M: Fn(&Handle<H>) -> (i32, V),
    {
        exists|ms: CeaResult<Vec<V>>| self.snapshot_mass(calls, weights, ms, r)
    }

    pub open spec fn snapshot_mass<V, S, A, P, C, M>(
        &self,
        calls: &SolveCalls<S, A, P, C, M>,
        weights: Seq<V>,
        ms: CeaResult<Vec<V>>,
        r: CeaResult<EquilibriumResult<V>>,
    ) -> bool
        where
            S: Fn(&Handle<H>, EquilibriumType, V, V, &[V], &Handle<H>, &Handle<H>) -> (i32, Vec<V>),
            A: Fn(&Handle<H>, i32, bool) -> (i32, Vec<V>),
            P: Fn(&Handle<H>, PropertyType) -> (i32, V),
            C: Fn(&Handle<H>) -> (i32, i32),
            M: Fn(&Handle<H>) -> (i32, V),
    {
        &&& amounts_read(
            &self.spec_solution(),
            calls.amounts,
            self.spec_product_species().len() as usize,
            true,
            ms,
        )
        &&& match ms {
            Err(_) => propagates(ms, r),
            Ok(mass) => exists|mo: CeaResult<Vec<V>>| self.snapshot_mole(calls, weights, mass@, mo, r),
        }
    }

    pub open spec fn snapshot_mole<V, S, A, P, C, M>(
        &self,
        calls: &SolveCalls<S, A, P, C, M>,
        weights: Seq<V>,
        mass: Seq<V>,
        mo: CeaResult<Vec<V>>,
        r: CeaResult<EquilibriumResult<V>>,
    ) -> bool
        where
            S: Fn(&Handle<H>, EquilibriumType, V, V, &[V], &Handle<H>, &Handle<H>) -> (i32, Vec<V>),
            A: Fn(&Handle<H>, i32, bool) -> (i32, Vec<V>),
            P: Fn(&Handle<H>, PropertyType) -> (i32, V),
            C: Fn(&Handle<H>) -> (i32, i32),
            M: Fn(&Handle<H>) -> (i32, V),
    {
        &&& amounts_read(
            &self.spec_solution(),
            calls.amounts,
            self.spec_product_species().len() as usize,
            false,
            mo,
        )
        &&& match mo {
            Err(_) => propagates(mo, r),
            Ok(mole) => exists|pr: CeaResult<EquilibriumProperties<V>>|
                self.snapshot_props(calls, weights, mass, mole@, pr, r),
        }
    }

    pub open spec fn snapshot_props<V, S, A, P, C, M>(
        &self,
        calls: &SolveCalls<S, A, P, C, M>,
        weights: Seq<V>,
        mass: Seq<V>,
        mole: Seq<V>,
        pr: CeaResult<EquilibriumProperties<V>>,
        r: CeaResult<EquilibriumResult<V>>,
    ) -> bool
        where
            S: Fn(&Handle<H>, EquilibriumType, V, V, &[V], &Handle<H>, &Handle<H>) -> (i32, Vec<V>),
            A: Fn(&Handle<H>, i32, bool) -> (i32, Vec<V>),
            P: Fn(&Handle<H>, PropertyType) -> (i32, V),
            C: Fn(&Handle<H>) -> (i32, i32),
            M: Fn(&Handle<H>) -> (i32, V),
    {
        &&& properties_of(&self.spec_solution(), calls.property, self.spec_transport(), pr)
        &&& match pr {
            Err(_) => propagates(pr, r),
            Ok(props) => exists|cv: CeaResult<bool>| self.snapshot_converged(calls, weights, mass, mole, props, cv, r),
        }
    }

    pub open spec fn snapshot_converged<V, S, A, P, C, M>(
        &self,
        calls: &SolveCalls<S, A, P, C, M>,
        weights: Seq<V>,
        mass: Seq<V>,
        mole: Seq<V>,
        props: EquilibriumProperties<V>,
        cv: CeaResult<bool>,
        r: CeaResult<EquilibriumResult<V>>,
    ) -> bool
        where
            S: Fn(&Handle<H>, EquilibriumType, V, V, &[V], &Handle<H>, &Handle<H>) -> (i32, Vec<V>),
            A: Fn(&Handle<H>, i32, bool) -> (i32, Vec<V>),
            P: Fn(&Handle<H>, PropertyType) -> (i32, V),
            C: Fn(&Handle<H>) -> (i32, i32),
            M: Fn(&Handle<H>) -> (i32, V),
    {
        &&& converged_read(&self.spec_solution(), calls.converged, cv)
        &&& match cv {
            Err(_) => propagates(cv, r),
            Ok(c) => exists|tm: CeaResult<V>| self.snapshot_moles(calls, weights, mass, mole, props, c, tm, r),
        }
    }

    pub open spec fn snapshot_moles<V, S, A, P, C, M>(
        &self,
        calls: &SolveCalls<S, A, P, C, M>,
        weights: Seq<V>,
        mass: Seq<V>,
        mole: Seq<V>,
        props: EquilibriumProperties<V>,
        converged: bool,
        tm: CeaResult<V>,
        r: CeaResult<EquilibriumResult<V>>,
    ) -> bool
        where
            S: Fn(&Handle<H>, EquilibriumType, V, V, &[V], &Handle<H>, &Handle<H>) -> (i32, Vec<V>),
            A: Fn(&Handle<H>, i32, bool) -> (i32, Vec<V>),
            P: Fn(&Handle<H>, PropertyType) -> (i32, V),
            C: Fn(&Handle<H>) -> (i32, i32),
            M: Fn(&Handle<H>) -> (i32, V),
    {
        &&& moles_read(&self.spec_solution(), calls.moles, tm)
        &&& match tm {
            Err(_) => propagates(tm, r),
            Ok(m) => r matches Ok(res) && self.result_holds(weights, mass, mole, props, converged, m, res),
        }
    }

    fn copy_species(&self) -> (names: Vec<String>)
        ensures
            names@ == self.spec_product_species(),
    {
        let mut names: Vec<String> = Vec::new();
        let mut i: usize = 0;
        while i < self.product_species.len()
            invariant
                i <= self.product_species@.len(),
                names@ == self.product_species@.take(i as int),
            decreases self.product_species@.len() - i,
        {
            names.push(self.product_species[i].clone());
            assert(self.product_species@.take(i + 1) =~= self.product_species@.take(i as int).push(self.product_species@[i as int]));
            i = i + 1;
        }
        assert(self.product_species@.take(i as int) =~= self.product_species@);
        names
    }

    /// Reads the result of a solve from the solution.
    fn snapshot<V: Copy + Default, S, A, P, C, M>(
        &self,
        reactant_weights: Vec<V>,
        calls: &SolveCalls<S, A, P, C, M>,
    ) -> (r: CeaResult<EquilibriumResult<V>>)
        where
            S: Fn(&Handle<H>, EquilibriumType, V, V, &[V], &Handle<H>, &Handle<H>) -> (i32, Vec<V>),
            A: Fn(&Handle<H>, i32, bool) -> (i32, Vec<V>) + Copy,
            P: Fn(&Handle<H>, PropertyType) -> (i32, V) + Copy,
            C: Fn(&Handle<H>) -> (i32, i32) + Copy,
            M: Fn(&Handle<H>) -> (i32, V) + Copy,
        requires
            calls.ready(),
        ensures
            self.snapshot_taken(calls, reactant_weights@, r),
    {
        let n = self.product_species.len();
        let ghost w = reactant_weights@;
        let ms = self.solution.species_mass_fractions(n, calls.amounts);
        let ghost g_ms = ms;
        let mass = match ms {
            Err(e) => {
                let r = Err(e);
                assert(self.snapshot_mass(calls, w, g_ms, r));
                return r;
            },
            Ok(v) => v,
        };
        let mo = self.solution.species_mole_fractions(n, calls.amounts);
        let ghost g_mo = mo;
        let mole = match mo {
            Err(e) => {
                let r = Err(e);
                assert(self.snapshot_mole(calls, w, mass@, g_mo, r));
                assert(self.snapshot_mass(calls, w, g_ms, r));
                return r;
            },
            Ok(v) => v,
        };
        let pr = EquilibriumProperties::from_solution(&self.solution, self.transport, calls.property);
        let ghost g_pr = pr;
        let props = match pr {
            Err(e) => {
                let r = Err(e);
                assert(self.snapshot_props(calls, w, mass@, mole@, g_pr, r));
                assert(self.snapshot_mole(calls, w, mass@, g_mo, r));
                assert(self.snapshot_mass(calls, w, g_ms, r));
                return r;
            },
            Ok(p) => p,
        };
        let cv = self.solution.converged(calls.converged);
        let ghost g_cv = cv;
        let converged = match cv {
            Err(e) => {
                let r = Err(e);
                assert(self.snapshot_converged(calls, w, mass@, mole@, props, g_cv, r));
                assert(self.snapshot_props(calls, w, mass@, mole@, g_pr, r));
                assert(self.snapshot_mole(calls, w, mass@, g_mo, r));
                assert(self.snapshot_mass(calls, w, g_ms, r));
                return r;
            },
            Ok(c) => c,
        };
        let tm = self.solution.moles(calls.moles);
        let ghost g_tm = tm;
        let total_moles = match tm {
            Err(e) => {
                let r = Err(e);
                assert(self.snapshot_moles(calls, w, mass@, mole@, props, converged, g_tm, r));
                assert(self.snapshot_converged(calls, w, mass@, mole@, props, g_cv, r));
                assert(self.snapshot_props(calls, w, mass@, mole@, g_pr, r));
                assert(self.snapshot_mole(calls, w, mass@, g_mo, r));
                assert(self.snapshot_mass(calls, w, g_ms, r));
                return r;
            },
            Ok(m) => m,
        };
        let ghost gm = mass@;
        let ghost gl = mole@;
        let res = EquilibriumResult {
            converged,
            total_moles,
            reactant_weights,
            product_species: self.copy_species(),
            product_mass_fractions: mass,
            product_mole_fractions: mole,
            properties: props,
        };
        let r = Ok(res);
        assert(self.snapshot_moles(calls, w, gm, gl, props, converged, g_tm, r));
        assert(self.snapshot_converged(calls, w, gm, gl, props, g_cv, r));
        assert(self.snapshot_props(calls, w, gm, gl, g_pr, r));
        assert(self.snapshot_mole(calls, w, gm, g_mo, r));
        assert(self.snapshot_mass(calls, w, g_ms, r));
        r
    }
}

impl<H> Equilibrium<H> {
    /// `r` is what solving from `weights` gives when the solve routine answered `sr`: its
    /// error, else the solution read after it, with the amounts it wrote back as the
    /// reactant weights.
    pub open spec fn solve_answered<V, S, A, P, C, M>(
        &self,
        calls: &SolveCalls<S, A, P, C, M>,
        eq_type: EquilibriumType,
        state1: V,
        state2: V,
        weights: Seq<V>,
        sr: (i32, Vec<V>),
        r: CeaResult<EquilibriumResult<V>>,
    ) -> bool
        where
            S: Fn(&Handle<H>, EquilibriumType, V, V, &[V], &Handle<H>, &Handle<H>) -> (i32, Vec<V>) + Copy,
            A: Fn(&Handle<H>, i32, bool) -> (i32, Vec<V>) + Copy,
            P: Fn(&Handle<H>, PropertyType) -> (i32, V) + Copy,
            C: Fn(&Handle<H>) -> (i32, i32) + Copy,
            M: Fn(&Handle<H>) -> (i32, V) + Copy,
    {
        &&& exists|a: &[V]|
            a@ == weights && #[trigger] calls.solve.ensures(
                (
                    &self.spec_solver().spec_handle(),
                    eq_type,
                    state1,
                    state2,
                    a,
                    &self.spec_solution().spec_handle(),
                    &self.spec_partials().spec_handle(),
                ),
                sr,
            )
        &&& if sr.0 != CEA_SUCCESS {
            fails_with(r, cea_error(sr.0, "cea_eqsolver_solve_with_partials"@))
        } else {
            self.snapshot_taken(calls, overwrite(weights, sr.1@), r)
        }
    }

    /// `r` is what solving for equilibrium from `reactant_weights` gives: one weight per
    /// reactant species, else a length error; then the solve and the reading of its
    /// solution.
    pub open spec fn solved_state<V, S, A, P, C, M>(
        &self,
        calls: &SolveCalls<S, A, P, C, M>,
        eq_type: EquilibriumType,
        state1: V,
        state2: V,
        reactant_weights: Seq<V>,
        r: CeaResult<EquilibriumResult<V>>,
    ) -> bool
        where
            S: Fn(&Handle<H>, EquilibriumType, V, V, &[V], &Handle<H>, &Handle<H>) -> (i32, Vec<V>) + Copy,
            A: Fn(&Handle<H>, i32, bool) -> (i32, Vec<V>) + Copy,
            P: Fn(&Handle<H>, PropertyType) -> (i32, V) + Copy,
            C: Fn(&Handle<H>) -> (i32, i32) + Copy,
            M: Fn(&Handle<H>) -> (i32, V) + Copy,
    {
        if reactant_weights.len() != self.spec_reactant_species().len() {
            fails_with(r, length_error("Equilibrium::solve reactant_weights"@))
        } else {
            exists|sr: (i32, Vec<V>)|
                self.solve_answered(calls, eq_type, state1, state2, reactant_weights, sr, r)
        }
    }

    /// A successful solve was handed one weight per reactant species, and reports one
    /// reactant weight per reactant species (the amounts the solve wrote back), the
    /// equilibrium's own product species, and one mass and one mole fraction per product
    /// species (a list of names held in memory, so never longer than `usize::MAX`).
    pub proof fn lemma_solved_result_shape<V, S, A, P, C, M>(
        &self,
        calls: &SolveCalls<S, A, P, C, M>,
        eq_type: EquilibriumType,
        state1: V,
        state2: V,
        reactant_weights: Seq<V>,
        res: EquilibriumResult<V>,
    )
        where
            S: Fn(&Handle<H>, EquilibriumType, V, V, &[V], &Handle<H>, &Handle<H>) -> (i32, Vec<V>) + Copy,
            A: Fn(&Handle<H>, i32, bool) -> (i32, Vec<V>) + Copy,
            P: Fn(&Handle<H>, PropertyType) -> (i32, V) + Copy,
            C: Fn(&Handle<H>) -> (i32, i32) + Copy,
            M: Fn(&Handle<H>) -> (i32, V) + Copy,
        requires
            self.solved_state(calls, eq_type, state1, state2, reactant_weights, Ok(res)),
        ensures
            reactant_weights.len() == self.spec_reactant_species().len(),
            res.reactant_weights@.len() == self.spec_reactant_species().len(),
            res.product_species@ == self.spec_product_species(),
            self.spec_product_species().len() <= usize::MAX ==> res.product_mass_fractions@.len()
                == self.spec_product_species().len(),
            self.spec_product_species().len() <= usize::MAX ==> res.product_mole_fractions@.len()
                == self.spec_product_species().len(),
    {
        let r: CeaResult<EquilibriumResult<V>> = Ok(res);
        let sr = choose|sr: (i32, Vec<V>)| self.solve_answered(calls, eq_type, state1, state2, reactant_weights, sr, r);
        let w = overwrite(reactant_weights, sr.1@);
        let ms = choose|ms: CeaResult<Vec<V>>| self.snapshot_mass(calls, w, ms, r);
        let mass = ms->Ok_0@;
        let n = self.spec_product_species().len() as usize;
        let mr = choose|reply: (i32, Vec<V>)| amounts_answered(&self.spec_solution(), calls.amounts, n, true, reply, ms);
        let mo = choose|mo: CeaResult<Vec<V>>| self.snapshot_mole(calls, w, mass, mo, r);
        let mole = mo->Ok_0@;
        let lr = choose|reply: (i32, Vec<V>)| amounts_answered(&self.spec_solution(), calls.amounts, n, false, reply, mo);
        let pr = choose|pr: CeaResult<EquilibriumProperties<V>>| self.snapshot_props(calls, w, mass, mole, pr, r);
        let props = pr->Ok_0;
        let cv = choose|cv: CeaResult<bool>| self.snapshot_converged(calls, w, mass, mole, props, cv, r);
        let c = cv->Ok_0;
        let tm = choose|tm: CeaResult<V>| self.snapshot_moles(calls, w, mass, mole, props, c, tm, r);
        assert(self.result_holds(w, mass, mole, props, c, tm->Ok_0, res));
    }

    /// A solve hands the solve routine the problem's solver, the equilibrium type, the first
    /// and the second state in that order, the reactant weights, and the problem's solution
    /// and partials. With a wrong number of weights it fails before any call; a failed solve
    /// routine gives its error; a successful solve reports as reactant weights what the
    /// routine wrote back over the given ones, the properties read from the problem's
    /// solution (the transport ones exactly when the problem computes transport), the mass
    /// fractions and the mole fractions of the product species read as such, the convergence
    /// flag and the total moles read from the solution, and the problem's product species.
    pub proof fn lemma_solve_hands_over_type_and_states<V, S, A, P, C, M>(
        &self,
        calls: &SolveCalls<S, A, P, C, M>,
        eq_type: EquilibriumType,
        state1: V,
        state2: V,
        reactant_weights: Seq<V>,
        r: CeaResult<EquilibriumResult<V>>,
    )
        where
            S: Fn(&Handle<H>, EquilibriumType, V, V, &[V], &Handle<H>, &Handle<H>) -> (i32, Vec<V>) + Copy,
            A: Fn(&Handle<H>, i32, bool) -> (i32, Vec<V>) + Copy,
            P: Fn(&Handle<H>, PropertyType) -> (i32, V) + Copy,
            C: Fn(&Handle<H>) -> (i32, i32) + Copy,
            M: Fn(&Handle<H>) -> (i32, V) + Copy,
        requires
            self.solved_state(calls, eq_type, state1, state2, reactant_weights, r),
        ensures
            reactant_weights.len() != self.spec_reactant_species().len() ==> fails_with(
                r,
                length_error("Equilibrium::solve reactant_weights"@),
            ),
            reactant_weights.len() == self.spec_reactant_species().len() ==> exists|a: &[V], sr: (i32, Vec<V>)|
                #![trigger calls.solve.ensures(
                    (
                        &self.spec_solver().spec_handle(),
                        eq_type,
                        state1,
                        state2,
                        a,
                        &self.spec_solution().spec_handle(),
                        &self.spec_partials().spec_handle(),
                    ),
                    sr,
                )]
                a@ == reactant_weights && calls.solve.ensures(
                    (
                        &self.spec_solver().spec_handle(),
                        eq_type,
                        state1,
                        state2,
                        a,
                        &self.spec_solution().spec_handle(),
                        &self.spec_partials().spec_handle(),
                    ),
                    sr,
                ) && (sr.0 != CEA_SUCCESS ==> fails_with(r, cea_error(sr.0, "cea_eqsolver_solve_with_partials"@)))
                    && (r matches Ok(res) ==> sr.0 == CEA_SUCCESS && res.reactant_weights@ == overwrite(
                    reactant_weights,
                    sr.1@,
                ) && properties_of(&self.spec_solution(), calls.property, self.spec_transport(), Ok(res.properties))),
            r matches Ok(res) ==> {
                &&& res.product_species@ == self.spec_product_species()
                &&& exists|fractions: Vec<V>|
                    fractions@ == res.product_mass_fractions@ && #[trigger] amounts_read(
                        &self.spec_solution(),
                        calls.amounts,
                        self.spec_product_species().len() as usize,
                        true,
                        Ok(fractions),
                    )
                &&& exists|fractions: Vec<V>|
                    fractions@ == res.product_mole_fractions@ && #[trigger] amounts_read(
                        &self.spec_solution(),
                        calls.amounts,
                        self.spec_product_species().len() as usize,
                        false,
                        Ok(fractions),
                    )
                &&& converged_read(&self.spec_solution(), calls.converged, Ok(res.converged))
                &&& moles_read(&self.spec_solution(), calls.moles, Ok(res.total_moles))
            },
    {
        if reactant_weights.len() == self.spec_reactant_species().len() {
            let sr = choose|sr: (i32, Vec<V>)| self.solve_answered(calls, eq_type, state1, state2, reactant_weights, sr, r);
            if r is Ok {
                let res = r->Ok_0;
                let w = overwrite(reactant_weights, sr.1@);
                let ms = choose|ms: CeaResult<Vec<V>>| self.snapshot_mass(calls, w, ms, r);
                let mass = ms->Ok_0@;
                let mo = choose|mo: CeaResult<Vec<V>>| self.snapshot_mole(calls, w, mass, mo, r);
                let mole = mo->Ok_0@;
                let pr = choose|pr: CeaResult<EquilibriumProperties<V>>| self.snapshot_props(calls, w, mass, mole, pr, r);
                let props = pr->Ok_0;
                let cv = choose|cv: CeaResult<bool>| self.snapshot_converged(calls, w, mass, mole, props, cv, r);
                let c = cv->Ok_0;
                let tm = choose|tm: CeaResult<V>| self.snapshot_moles(calls, w, mass, mole, props, c, tm, r);
                assert(self.result_holds(w, mass, mole, props, c, tm->Ok_0, res));
            }
        }
    }

    /// Solves for equilibrium with the state variables of `eq_type` fixed at `state1` and
    /// `state2`, from one weight per reactant species, and reads the result.
    pub fn solve<V: Copy + Default, S, A, P, C, M>(
        &mut self,
        eq_type: EquilibriumType,
        state1: V,
        state2: V,
        reactant_weights: &[V],
        calls: &SolveCalls<S, A, P, C, M>,
    ) -> (r: CeaResult<EquilibriumResult<V>>)
        where
            S: Fn(&Handle<H>, EquilibriumType, V, V, &[V], &Handle<H>, &Handle<H>) -> (i32, Vec<V>) + Copy,
            A: Fn(&Handle<H>, i32, bool) -> (i32, Vec<V>) + Copy,
            P: Fn(&Handle<H>, PropertyType) -> (i32, V) + Copy,
            C: Fn(&Handle<H>) -> (i32, i32) + Copy,
            M: Fn(&Handle<H>) -> (i32, V) + Copy,
        requires
            calls.ready(),
        ensures
            *final(self) == *old(self),
            old(self).solved_state(calls, eq_type, state1, state2, reactant_weights@, r),
    {
        if let Err(e) = self.check_reactant_len(reactant_weights, "Equilibrium::solve reactant_weights") {
            return Err(e);
        }
        let mut weights = slice_to_vec(reactant_weights);
        let sw = self.solver.solve_with_partials(
            eq_type,
            state1,
            state2,
            weights.as_mut_slice(),
            &self.solution,
            &self.partials,
            calls.solve,
        );
        let ghost sr = choose|sr: (i32, Vec<V>)|
            exists|a: &[V]|
                a@ == reactant_weights@ && #[trigger] calls.solve.ensures(
                    (
                        &self.solver.spec_handle(),
                        eq_type,
                        state1,
                        state2,
                        a,
                        &self.solution.spec_handle(),
                        &self.partials.spec_handle(),
                    ),
                    sr,
                ) && #[trigger] crate::eqsolver::solved(
                    sr,
                    "cea_eqsolver_solve_with_partials"@,
                    reactant_weights@,
                    weights@,
                    sw,
                );
        if let Err(e) = sw {
            let r = Err(e);
            assert(self.solve_answered(calls, eq_type, state1, state2, reactant_weights@, sr, r));
            return r;
        }
        let r = self.snapshot(weights, calls);
        assert(self.solve_answered(calls, eq_type, state1, state2, reactant_weights@, sr, r));
        r
    }
}

impl<H> Equilibrium<H> {
    /// Equilibrium at a fixed temperature and pressure.
    pub fn tp<V: Copy + Default, S, A, P, C, M>(
        &mut self,
        temperature: V,
        pressure: V,
        reactant_weights: &[V],
        calls: &SolveCalls<S, A, P, C, M>,
    ) -> (r: CeaResult<EquilibriumResult<V>>)
        where
            S: Fn(&Handle<H>, EquilibriumType, V, V, &[V], &Handle<H>, &Handle<H>) -> (i32, Vec<V>) + Copy,
            A: Fn(&Handle<H>, i32, bool) -> (i32, Vec<V>) + Copy,
            P: Fn(&Handle<H>, PropertyType) -> (i32, V) + Copy,
            C: Fn(&Handle<H>) -> (i32, i32) + Copy,
            M: Fn(&Handle<H>) -> (i32, V) + Copy,
        requires
            calls.ready(),
        ensures
            *final(self) == *old(self),
            old(self).solved_state(calls, EquilibriumType::Tp, temperature, pressure, reactant_weights@, r),
    {
        self.solve(EquilibriumType::Tp, temperature, pressure, reactant_weights, calls)
    }

    /// Equilibrium at a fixed enthalpy and pressure.
    pub fn hp<V: Copy + Default, S, A, P, C, M>(
        &mut self,
        enthalpy: V,
        pressure: V,
        reactant_weights: &[V],
        calls: &SolveCalls<S, A, P, C, M>,
    ) -> (r: CeaResult<EquilibriumResult<V>>)
        where
            S: Fn(&Handle<H>, EquilibriumType, V, V, &[V], &Handle<H>, &Handle<H>) -> (i32, Vec<V>) + Copy,
            A: Fn(&Handle<H>, i32, bool) -> (i32, Vec<V>) + Copy,
            P: Fn(&Handle<H>, PropertyType) -> (i32, V) + Copy,
            C: Fn(&Handle<H>) -> (i32, i32) + Copy,
            M: Fn(&Handle<H>) -> (i32, V) + Copy,
        requires
            calls.ready(),
        ensures
            *final(self) == *old(self),
            old(self).solved_state(calls, EquilibriumType::Hp, enthalpy, pressure, reactant_weights@, r),
    {
        self.solve(EquilibriumType::Hp, enthalpy, pressure, reactant_weights, calls)
    }

    /// Equilibrium at a fixed temperature and volume.
    pub fn tv<V: Copy + Default, S, A, P, C, M>(
        &mut self,
        temperature: V,
        volume: V,
        reactant_weights: &[V],
        calls: &SolveCalls<S, A, P, C, M>,
    ) -> (r: CeaResult<EquilibriumResult<V>>)
        where
            S: Fn(&Handle<H>, EquilibriumType, V, V, &[V], &Handle<H>, &Handle<H>) -> (i32, Vec<V>) + Copy,
            A: Fn(&Handle<H>, i32, bool) -> (i32, Vec<V>) + Copy,
            P: Fn(&Handle<H>, PropertyType) -> (i32, V) + Copy,
            C: Fn(&Handle<H>) -> (i32, i32) + Copy,
            M: Fn(&Handle<H>) -> (i32, V) + Copy,
        requires
            calls.ready(),
        ensures
            *final(self) == *old(self),
            old(self).solved_state(calls, EquilibriumType::Tv, temperature, volume, reactant_weights@, r),
    {
        self.solve(EquilibriumType::Tv, temperature, volume, reactant_weights, calls)
    }

    /// `r` is what solving at a temperature and pressure gives once the reactant weights
    /// came to `w`.
    pub open spec fn tp_after<V, S, A, P, C, M>(
        &self,
        calls: &SolveCalls<S, A, P, C, M>,
        temperature: V,
        pressure: V,
        w: CeaResult<Vec<V>>,
        r: CeaResult<EquilibriumResult<V>>,
    ) -> bool
        where
            S: Fn(&Handle<H>, EquilibriumType, V, V, &[V], &Handle<H>, &Handle<H>) -> (i32, Vec<V>) + Copy,
            A: Fn(&Handle<H>, i32, bool) -> (i32, Vec<V>) + Copy,
            P: Fn(&Handle<H>, PropertyType) -> (i32, V) + Copy,
            C: Fn(&Handle<H>) -> (i32, i32) + Copy,
            M: Fn(&Handle<H>) -> (i32, V) + Copy,
    {
        match w {
            Err(_) => propagates(w, r),
            Ok(weights) => self.solved_state(calls, EquilibriumType::Tp, temperature, pressure, weights@, r),
        }
    }

    /// `r` is what solving at a temperature and pressure for an oxidant-to-fuel ratio gives.
    pub open spec fn tp_of_ratio<V, W, S, A, P, C, M>(
        &self,
        of_to_weights: W,
        calls: &SolveCalls<S, A, P, C, M>,
        temperature: V,
        pressure: V,
        fuel_weights: &[V],
        oxidant_weights: &[V],
        of_ratio: V,
        r: CeaResult<EquilibriumResult<V>>,
    ) -> bool
        where
            W: Fn(&Handle<H>, i32, &[V], &[V], V) -> (i32, Vec<V>),
            S: Fn(&Handle<H>, EquilibriumType, V, V, &[V], &Handle<H>, &Handle<H>) -> (i32, Vec<V>) + Copy,
            A: Fn(&Handle<H>, i32, bool) -> (i32, Vec<V>) + Copy,
            P: Fn(&Handle<H>, PropertyType) -> (i32, V) + Copy,
            C: Fn(&Handle<H>) -> (i32, i32) + Copy,
            M: Fn(&Handle<H>) -> (i32, V) + Copy,
    {
        exists|w: CeaResult<Vec<V>>|
            self.of_ratio_weights(of_to_weights, fuel_weights, oxidant_weights, of_ratio, w)
                && #[trigger] self.tp_after(calls, temperature, pressure, w, r)
    }

    /// A successful solve for an oxidant-to-fuel ratio hands the oxidant weights first and
    /// the fuel weights second, with the ratio, to the routine giving the reactant weights,
    /// and solves a temperature-pressure problem at the given temperature and pressure from
    /// those weights.
    pub proof fn lemma_of_ratio_solve_keeps_fuel_and_oxidant_apart<V, W, S, A, P, C, M>(
        &self,
        of_to_weights: W,
        calls: &SolveCalls<S, A, P, C, M>,
        temperature: V,
        pressure: V,
        fuel_weights: &[V],
        oxidant_weights: &[V],
        of_ratio: V,
        res: EquilibriumResult<V>,
    )
        where
            W: Fn(&Handle<H>, i32, &[V], &[V], V) -> (i32, Vec<V>),
            S: Fn(&Handle<H>, EquilibriumType, V, V, &[V], &Handle<H>, &Handle<H>) -> (i32, Vec<V>) + Copy,
            A: Fn(&Handle<H>, i32, bool) -> (i32, Vec<V>) + Copy,
            P: Fn(&Handle<H>, PropertyType) -> (i32, V) + Copy,
            C: Fn(&Handle<H>) -> (i32, i32) + Copy,
            M: Fn(&Handle<H>) -> (i32, V) + Copy,
        requires
            self.tp_of_ratio(of_to_weights, calls, temperature, pressure, fuel_weights, oxidant_weights, of_ratio, Ok(res)),
        ensures
            exists|w: Vec<V>|
                #![trigger self.spec_reactants().ratio_weights(of_to_weights, oxidant_weights, fuel_weights, of_ratio, Ok(w))]
                self.spec_reactants().ratio_weights(of_to_weights, oxidant_weights, fuel_weights, of_ratio, Ok(w))
                    && self.solved_state(calls, EquilibriumType::Tp, temperature, pressure, w@, Ok(res)),
    {
        let r: CeaResult<EquilibriumResult<V>> = Ok(res);
        let wr = choose|w: CeaResult<Vec<V>>|
            self.of_ratio_weights(of_to_weights, fuel_weights, oxidant_weights, of_ratio, w)
                && #[trigger] self.tp_after(calls, temperature, pressure, w, r);
        let w = wr->Ok_0;
        assert(self.spec_reactants().ratio_weights(of_to_weights, oxidant_weights, fuel_weights, of_ratio, Ok(w)));
    }

    /// A successful solve for a chemical equivalence ratio hands the oxidant weights first
    /// and the fuel weights second to the routine giving the oxidant-to-fuel ratio for the
    /// equivalence ratio, and again, with that ratio, to the routine giving the reactant
    /// weights, and solves a temperature-pressure problem at the given temperature and
    /// pressure from those weights.
    pub proof fn lemma_weights_solve_keeps_fuel_and_oxidant_apart<V, E, W, S, A, P, C, M>(
        &self,
        chem_eq: E,
        of_to_weights: W,
        calls: &SolveCalls<S, A, P, C, M>,
        temperature: V,
        pressure: V,
        fuel_weights: &[V],
        oxidant_weights: &[V],
        ratio: V,
        res: EquilibriumResult<V>,
    )
        where
            E: Fn(&Handle<H>, i32, &[V], &[V], V) -> (i32, V),
            W: Fn(&Handle<H>, i32, &[V], &[V], V) -> (i32, Vec<V>),
            S: Fn(&Handle<H>, EquilibriumType, V, V, &[V], &Handle<H>, &Handle<H>) -> (i32, Vec<V>) + Copy,
            A: Fn(&Handle<H>, i32, bool) -> (i32, Vec<V>) + Copy,
            P: Fn(&Handle<H>, PropertyType) -> (i32, V) + Copy,
            C: Fn(&Handle<H>) -> (i32, i32) + Copy,
            M: Fn(&Handle<H>) -> (i32, V) + Copy,
        requires
            self.tp_chem_eq(chem_eq, of_to_weights, calls, temperature, pressure, fuel_weights, oxidant_weights, ratio, Ok(res)),
        ensures
            exists|of: V, w: Vec<V>|
                #![trigger self.spec_reactants().ratio_weights(of_to_weights, oxidant_weights, fuel_weights, of, Ok(w))]
                self.spec_reactants().ratio_answered(
                    chem_eq,
                    oxidant_weights,
                    fuel_weights,
                    ratio,
                    "chem_eq_ratio_to_of_ratio"@,
                    "cea_mixture_chem_eq_ratio_to_of_ratio"@,
                    Ok(of),
                ) && self.spec_reactants().ratio_weights(of_to_weights, oxidant_weights, fuel_weights, of, Ok(w))
                    && self.solved_state(calls, EquilibriumType::Tp, temperature, pressure, w@, Ok(res)),
    {
        let r: CeaResult<EquilibriumResult<V>> = Ok(res);
        let wr = choose|w: CeaResult<Vec<V>>|
            self.chem_eq_weights(chem_eq, of_to_weights, fuel_weights, oxidant_weights, ratio, w)
                && #[trigger] self.tp_after(calls, temperature, pressure, w, r);
        let w = wr->Ok_0;
        let ofr = choose|of: CeaResult<V>|
            self.chem_eq_weights_with(chem_eq, of_to_weights, fuel_weights, oxidant_weights, ratio, of, wr);
        let of = ofr->Ok_0;
        assert(self.spec_reactants().ratio_weights(of_to_weights, oxidant_weights, fuel_weights, of, Ok(w)));
    }

    /// Equilibrium at a temperature and pressure, with the reactant weights for an
    /// oxidant-to-fuel ratio of the given fuel and oxidant weights.
    pub fn tp_with_of_ratio<V: Copy + Default, W, S, A, P, C, M>(
        &mut self,
        temperature: V,
        pressure: V,
        fuel_weights: &[V],
        oxidant_weights: &[V],
        of_ratio: V,
        of_to_weights: W,
        calls: &SolveCalls<S, A, P, C, M>,
    ) -> (r: CeaResult<EquilibriumResult<V>>)
        where
            W: Fn(&Handle<H>, i32, &[V], &[V], V) -> (i32, Vec<V>),
            S: Fn(&Handle<H>, EquilibriumType, V, V, &[V], &Handle<H>, &Handle<H>) -> (i32, Vec<V>) + Copy,
            A: Fn(&Handle<H>, i32, bool) -> (i32, Vec<V>) + Copy,
            P: Fn(&Handle<H>, PropertyType) -> (i32, V) + Copy,
            C: Fn(&Handle<H>) -> (i32, i32) + Copy,
            M: Fn(&Handle<H>) -> (i32, V) + Copy,
        requires
            calls.ready(),
            forall|n: i32, v: V|
                of_to_weights.requires((&old(self).spec_reactants().spec_handle(), n, oxidant_weights, fuel_weights, v)),
        ensures
            *final(self) == *old(self),
            old(self).tp_of_ratio(of_to_weights, calls, temperature, pressure, fuel_weights, oxidant_weights, of_ratio, r),
            r matches Ok(res) ==> exists|w: Vec<V>|
                    #![trigger old(self).spec_reactants().ratio_weights(of_to_weights, oxidant_weights, fuel_weights, of_ratio, Ok(w))]
                    old(self).spec_reactants().ratio_weights(of_to_weights, oxidant_weights, fuel_weights, of_ratio, Ok(w))
                        && old(self).solved_state(calls, EquilibriumType::Tp, temperature, pressure, w@, Ok(res)),
    {
        let w = self.reactant_weights_from_of_ratio(fuel_weights, oxidant_weights, of_ratio, of_to_weights);
        let ghost gw = w;
        let r = match w {
            Err(e) => Err(e),
            Ok(weights) => self.tp(temperature, pressure, weights.as_slice(), calls),
        };
        assert(self.tp_after(calls, temperature, pressure, gw, r));
        proof {
            if r is Ok {
                self.lemma_of_ratio_solve_keeps_fuel_and_oxidant_apart(
                    of_to_weights,
                    calls,
                    temperature,
                    pressure,
                    fuel_weights,
                    oxidant_weights,
                    of_ratio,
                    r->Ok_0,
                );
            }
        }
        r
    }

    /// `r` is what solving at a temperature and pressure for a chemical equivalence ratio
    /// of the given fuel and oxidant weights gives.
    pub open spec fn tp_chem_eq<V, E, W, S, A, P, C, M>(
        &self,
        chem_eq: E,
        of_to_weights: W,
        calls: &SolveCalls<S, A, P, C, M>,
        temperature: V,
        pressure: V,
        fuel_weights: &[V],
        oxidant_weights: &[V],
        ratio: V,
        r: CeaResult<EquilibriumResult<V>>,
    ) -> bool
        where
            E: Fn(&Handle<H>, i32, &[V], &[V], V) -> (i32, V),
            W: Fn(&Handle<H>, i32, &[V], &[V], V) -> (i32, Vec<V>),
            S: Fn(&Handle<H>, EquilibriumType, V, V, &[V], &Handle<H>, &Handle<H>) -> (i32, Vec<V>) + Copy,
            A: Fn(&Handle<H>, i32, bool) -> (i32, Vec<V>) + Copy,
            P: Fn(&Handle<H>, PropertyType) -> (i32, V) + Copy,
            C: Fn(&Handle<H>) -> (i32, i32) + Copy,
            M: Fn(&Handle<H>) -> (i32, V) + Copy,
    {
        exists|w: CeaResult<Vec<V>>|
            self.chem_eq_weights(chem_eq, of_to_weights, fuel_weights, oxidant_weights, ratio, w)
                && #[trigger] self.tp_after(calls, temperature, pressure, w, r)
    }

    /// Equilibrium at a temperature and pressure, with the reactant weights for a chemical
    /// equivalence ratio of the given fuel and oxidant weights.
    pub fn tp_with_chemical_equivalence_weights<V: Copy + Default, E, W, S, A, P, C, M>(
        &mut self,
        temperature: V,
        pressure: V,
        fuel_weights: &[V],
        oxidant_weights: &[V],
        chemical_equivalence_ratio: V,
        chem_eq: E,
        of_to_weights: W,
        calls: &SolveCalls<S, A, P, C, M>,
    ) -> (r: CeaResult<EquilibriumResult<V>>)
        where
            E: Fn(&Handle<H>, i32, &[V], &[V], V) -> (i32, V),
            W: Fn(&Handle<H>, i32, &[V], &[V], V) -> (i32, Vec<V>),
            S: Fn(&Handle<H>, EquilibriumType, V, V, &[V], &Handle<H>, &Handle<H>) -> (i32, Vec<V>) + Copy,
            A: Fn(&Handle<H>, i32, bool) -> (i32, Vec<V>) + Copy,
            P: Fn(&Handle<H>, PropertyType) -> (i32, V) + Copy,
            C: Fn(&Handle<H>) -> (i32, i32) + Copy,
            M: Fn(&Handle<H>) -> (i32, V) + Copy,
        requires
            calls.ready(),
            forall|n: i32, v: V|
                chem_eq.requires((&old(self).spec_reactants().spec_handle(), n, oxidant_weights, fuel_weights, v)),
            forall|n: i32, v: V|
                of_to_weights.requires((&old(self).spec_reactants().spec_handle(), n, oxidant_weights, fuel_weights, v)),
        ensures
            *final(self) == *old(self),
            old(self).tp_chem_eq(
                chem_eq,
                of_to_weights,
                calls,
                temperature,
                pressure,
                fuel_weights,
                oxidant_weights,
                chemical_equivalence_ratio,
                r,
            ),
            r matches Ok(res) ==> exists|of: V, w: Vec<V>|
                    #![trigger old(self).spec_reactants().ratio_weights(of_to_weights, oxidant_weights, fuel_weights, of, Ok(w))]
                    old(self).spec_reactants().ratio_answered(
                        chem_eq,
                        oxidant_weights,
                        fuel_weights,
                        chemical_equivalence_ratio,
                        "chem_eq_ratio_to_of_ratio"@,
                        "cea_mixture_chem_eq_ratio_to_of_ratio"@,
                        Ok(of),
                    ) && old(self).spec_reactants().ratio_weights(of_to_weights, oxidant_weights, fuel_weights, of, Ok(w))
                        && old(self).solved_state(calls, EquilibriumType::Tp, temperature, pressure, w@, Ok(res)),
    {
        let w = self.reactant_weights_from_chemical_equivalence(
            fuel_weights,
            oxidant_weights,
            chemical_equivalence_ratio,
            chem_eq,
            of_to_weights,
        );
        let ghost gw = w;
        let r = match w {
            Err(e) => Err(e),
            Ok(weights) => self.tp(temperature, pressure, weights.as_slice(), calls),
        };
        assert(self.tp_after(calls, temperature, pressure, gw, r));
        proof {
            if r is Ok {
                self.lemma_weights_solve_keeps_fuel_and_oxidant_apart(
                    chem_eq,
                    of_to_weights,
                    calls,
                    temperature,
                    pressure,
                    fuel_weights,
                    oxidant_weights,
                    chemical_equivalence_ratio,
                    r->Ok_0,
                );
            }
        }
        r
    }

    /// `r` is what solving for a chemical equivalence ratio from fuel and oxidant moles
    /// gives once the oxidant weights came to `ow`.
    pub open spec fn tp_moles_oxidant<V, E, W, S, A, P, C, M>(
        &self,
        chem_eq: E,
        of_to_weights: W,
        calls: &SolveCalls<S, A, P, C, M>,
        temperature: V,
        pressure: V,
        fuel_weights: Seq<V>,
        ow: CeaResult<Vec<V>>,
        ratio: V,
        r: CeaResult<EquilibriumResult<V>>,
    ) -> bool
        where
            E: Fn(&Handle<H>, i32, &[V], &[V], V) -> (i32, V),
            W: Fn(&Handle<H>, i32, &[V], &[V], V) -> (i32, Vec<V>),
            S: Fn(&Handle<H>, EquilibriumType, V, V, &[V], &Handle<H>, &Handle<H>) -> (i32, Vec<V>) + Copy,
            A: Fn(&Handle<H>, i32, bool) -> (i32, Vec<V>) + Copy,
            P: Fn(&Handle<H>, PropertyType) -> (i32, V) + Copy,
            C: Fn(&Handle<H>) -> (i32, i32) + Copy,
            M: Fn(&Handle<H>) -> (i32, V) + Copy,
    {
        match ow {
            Err(_) => propagates(ow, r),
            Ok(oxidant) => exists|f: &[V], o: &[V]|
                f@ == fuel_weights && o@ == oxidant@ && #[trigger] self.tp_chem_eq(
                    chem_eq,
                    of_to_weights,
                    calls,
                    temperature,
                    pressure,
                    f,
                    o,
                    ratio,
                    r,
                ),
        }
    }

    /// `r` is what solving for a chemical equivalence ratio from fuel and oxidant moles
    /// gives once the fuel weights came to `fw`.
    pub open spec fn tp_moles_fuel<V, T, E, W, S, A, P, C, M>(
        &self,
        to_weights: T,
        chem_eq: E,
        of_to_weights: W,
        calls: &SolveCalls<S, A, P, C, M>,
        temperature: V,
        pressure: V,
        fw: CeaResult<Vec<V>>,
        oxidant_moles: &[V],
        ratio: V,
        r: CeaResult<EquilibriumResult<V>>,
    ) -> bool
        where
            T: Fn(&Handle<H>, i32, &[V]) -> (i32, Vec<V>),
            E: Fn(&Handle<H>, i32, &[V], &[V], V) -> (i32, V),
            W: Fn(&Handle<H>, i32, &[V], &[V], V) -> (i32, Vec<V>),
            S: Fn(&Handle<H>, EquilibriumType, V, V, &[V], &Handle<H>, &Handle<H>) -> (i32, Vec<V>) + Copy,
            A: Fn(&Handle<H>, i32, bool) -> (i32, Vec<V>) + Copy,
            P: Fn(&Handle<H>, PropertyType) -> (i32, V) + Copy,
            C: Fn(&Handle<H>) -> (i32, i32) + Copy,
            M: Fn(&Handle<H>) -> (i32, V) + Copy,
    {
        match fw {
            Err(_) => propagates(fw, r),
            Ok(fuel) => exists|ow: CeaResult<Vec<V>>|
                self.weights_from_moles(to_weights, oxidant_moles, ow) && #[trigger] self.tp_moles_oxidant(
                    chem_eq,
                    of_to_weights,
                    calls,
                    temperature,
                    pressure,
                    fuel@,
                    ow,
                    ratio,
                    r,
                ),
        }
    }

    /// `r` is what solving at a temperature and pressure for a chemical equivalence ratio
    /// of fuel and oxidant given in moles gives: the fuel moles to weights, the oxidant
    /// moles to weights, then as for weights.
    pub open spec fn tp_chem_eq_moles<V, T, E, W, S, A, P, C, M>(
        &self,
        to_weights: T,
        chem_eq: E,
        of_to_weights: W,
        calls: &SolveCalls<S, A, P, C, M>,
        temperature: V,
        pressure: V,
        fuel_moles: &[V],
        oxidant_moles: &[V],
        ratio: V,
        r: CeaResult<EquilibriumResult<V>>,
    ) -> bool
        where
            T: Fn(&Handle<H>, i32, &[V]) -> (i32, Vec<V>),
            E: Fn(&Handle<H>, i32, &[V], &[V], V) -> (i32, V),
            W: Fn(&Handle<H>, i32, &[V], &[V], V) -> (i32, Vec<V>),
            S: Fn(&Handle<H>, EquilibriumType, V, V, &[V], &Handle<H>, &Handle<H>) -> (i32, Vec<V>) + Copy,
            A: Fn(&Handle<H>, i32, bool) -> (i32, Vec<V>) + Copy,
            P: Fn(&Handle<H>, PropertyType) -> (i32, V) + Copy,
            C: Fn(&Handle<H>) -> (i32, i32) + Copy,
            M: Fn(&Handle<H>) -> (i32, V) + Copy,
    {
        exists|fw: CeaResult<Vec<V>>|
            self.weights_from_moles(to_weights, fuel_moles, fw) && #[trigger] self.tp_moles_fuel(
                to_weights,
                chem_eq,
                of_to_weights,
                calls,
                temperature,
                pressure,
                fw,
                oxidant_moles,
                ratio,
                r,
            )
    }

    /// A successful solve from fuel and oxidant moles converts the fuel moles and the
    /// oxidant moles to weights, each with the moles-to-weights routine; hands the oxidant
    /// weights first and the fuel weights second to the routine that gives the
    /// oxidant-to-fuel ratio for the equivalence ratio, and again, with that ratio, to the
    /// routine that gives the reactant weights; and solves a temperature-pressure problem at
    /// the given temperature and pressure from those weights.
    pub proof fn lemma_moles_solve_keeps_fuel_and_oxidant_apart<V, T, E, W, S, A, P, C, M>(
        &self,
        to_weights: T,
        chem_eq: E,
        of_to_weights: W,
        calls: &SolveCalls<S, A, P, C, M>,
        temperature: V,
        pressure: V,
        fuel_moles: &[V],
        oxidant_moles: &[V],
        ratio: V,
        res: EquilibriumResult<V>,
    )
        where
            T: Fn(&Handle<H>, i32, &[V]) -> (i32, Vec<V>),
            E: Fn(&Handle<H>, i32, &[V], &[V], V) -> (i32, V),
            W: Fn(&Handle<H>, i32, &[V], &[V], V) -> (i32, Vec<V>),
            S: Fn(&Handle<H>, EquilibriumType, V, V, &[V], &Handle<H>, &Handle<H>) -> (i32, Vec<V>) + Copy,
            A: Fn(&Handle<H>, i32, bool) -> (i32, Vec<V>) + Copy,
            P: Fn(&Handle<H>, PropertyType) -> (i32, V) + Copy,
            C: Fn(&Handle<H>) -> (i32, i32) + Copy,
            M: Fn(&Handle<H>) -> (i32, V) + Copy,
        requires
            self.tp_chem_eq_moles(
                to_weights,
                chem_eq,
                of_to_weights,
                calls,
                temperature,
                pressure,
                fuel_moles,
                oxidant_moles,
                ratio,
                Ok(res),
            ),
        ensures
            exists|fw: Vec<V>, ow: Vec<V>, f: &[V], o: &[V], of: V, w: Vec<V>|
                #![trigger self.spec_reactants().converted(to_weights, fuel_moles, "moles_to_weights"@, "cea_mixture_moles_to_weights"@, Ok(fw)), self.spec_reactants().converted(to_weights, oxidant_moles, "moles_to_weights"@, "cea_mixture_moles_to_weights"@, Ok(ow)), self.spec_reactants().ratio_weights(of_to_weights, o, f, of, Ok(w))]
                self.spec_reactants().converted(to_weights, fuel_moles, "moles_to_weights"@, "cea_mixture_moles_to_weights"@, Ok(fw))
                    && self.spec_reactants().converted(to_weights, oxidant_moles, "moles_to_weights"@, "cea_mixture_moles_to_weights"@, Ok(ow))
                    && f@ == fw@ && o@ == ow@
                    && self.spec_reactants().ratio_answered(
                        chem_eq,
                        o,
                        f,
                        ratio,
                        "chem_eq_ratio_to_of_ratio"@,
                        "cea_mixture_chem_eq_ratio_to_of_ratio"@,
                        Ok(of),
                    ) && self.spec_reactants().ratio_weights(of_to_weights, o, f, of, Ok(w))
                    && self.solved_state(calls, EquilibriumType::Tp, temperature, pressure, w@, Ok(res)),
    {
        let r: CeaResult<EquilibriumResult<V>> = Ok(res);
        let fwr = choose|fw: CeaResult<Vec<V>>|
            self.weights_from_moles(to_weights, fuel_moles, fw) && #[trigger] self.tp_moles_fuel(
                to_weights,
                chem_eq,
                of_to_weights,
                calls,
                temperature,
                pressure,
                fw,
                oxidant_moles,
                ratio,
                r,
            );
        let fw = fwr->Ok_0;
        let owr = choose|ow: CeaResult<Vec<V>>|
            self.weights_from_moles(to_weights, oxidant_moles, ow) && #[trigger] self.tp_moles_oxidant(
                chem_eq,
                of_to_weights,
                calls,
                temperature,
                pressure,
                fw@,
                ow,
                ratio,
                r,
            );
        let ow = owr->Ok_0;
        let (f, o) = choose|f: &[V], o: &[V]|
            f@ == fw@ && o@ == ow@ && #[trigger] self.tp_chem_eq(
                chem_eq,
                of_to_weights,
                calls,
                temperature,
                pressure,
                f,
                o,
                ratio,
                r,
            );
        let wr = choose|w: CeaResult<Vec<V>>|
            self.chem_eq_weights(chem_eq, of_to_weights, f, o, ratio, w) && #[trigger] self.tp_after(
                calls,
                temperature,
                pressure,
                w,
                r,
            );
        let w = wr->Ok_0;
        let ofr = choose|of: CeaResult<V>| self.chem_eq_weights_with(chem_eq, of_to_weights, f, o, ratio, of, wr);
        let of = ofr->Ok_0;
        assert(self.spec_reactants().ratio_weights(of_to_weights, o, f, of, Ok(w)));
        assert(self.spec_reactants().converted(to_weights, fuel_moles, "moles_to_weights"@, "cea_mixture_moles_to_weights"@, Ok(fw)));
        assert(self.spec_reactants().converted(to_weights, oxidant_moles, "moles_to_weights"@, "cea_mixture_moles_to_weights"@, Ok(ow)));
    }

    /// Equilibrium at a temperature and pressure, with fuel and oxidant given in moles per
    /// reactant and mixed at a chemical equivalence ratio: `to_weights`
    /// (`cea_mixture_moles_to_weights`) converts both, `chem_eq` and `of_to_weights` give the
    /// reactant weights, and `calls` solve.
    pub fn tp_with_chemical_equivalence_moles<V: Copy + Default, T, E, W, S, A, P, C, M>(
        &mut self,
        temperature: V,
        pressure: V,
        fuel_moles: &[V],
        oxidant_moles: &[V],
        chemical_equivalence_ratio: V,
        to_weights: T,
        chem_eq: E,
        of_to_weights: W,
        calls: &SolveCalls<S, A, P, C, M>,
    ) -> (r: CeaResult<EquilibriumResult<V>>)
        where
            T: Fn(&Handle<H>, i32, &[V]) -> (i32, Vec<V>) + Copy,
            E: Fn(&Handle<H>, i32, &[V], &[V], V) -> (i32, V),
            W: Fn(&Handle<H>, i32, &[V], &[V], V) -> (i32, Vec<V>),
            S: Fn(&Handle<H>, EquilibriumType, V, V, &[V], &Handle<H>, &Handle<H>) -> (i32, Vec<V>) + Copy,
            A: Fn(&Handle<H>, i32, bool) -> (i32, Vec<V>) + Copy,
            P: Fn(&Handle<H>, PropertyType) -> (i32, V) + Copy,
            C: Fn(&Handle<H>) -> (i32, i32) + Copy,
            M: Fn(&Handle<H>) -> (i32, V) + Copy,
        requires
            calls.ready(),
            forall|h: &Handle<H>, n: i32, x: &[V]| to_weights.requires((h, n, x)),
            forall|h: &Handle<H>, n: i32, o: &[V], f: &[V], v: V| chem_eq.requires((h, n, o, f, v)),
            forall|h: &Handle<H>, n: i32, o: &[V], f: &[V], v: V| of_to_weights.requires((h, n, o, f, v)),
        ensures
            *final(self) == *old(self),
            old(self).tp_chem_eq_moles(
                to_weights,
                chem_eq,
                of_to_weights,
                calls,
                temperature,
                pressure,
                fuel_moles,
                oxidant_moles,
                chemical_equivalence_ratio,
                r,
            ),
            r matches Ok(res) ==> exists|fw: Vec<V>, ow: Vec<V>, f: &[V], o: &[V], of: V, w: Vec<V>|
                #![trigger old(self).spec_reactants().converted(to_weights, fuel_moles, "moles_to_weights"@, "cea_mixture_moles_to_weights"@, Ok(fw)), old(self).spec_reactants().converted(to_weights, oxidant_moles, "moles_to_weights"@, "cea_mixture_moles_to_weights"@, Ok(ow)), old(self).spec_reactants().ratio_weights(of_to_weights, o, f, of, Ok(w))]
                old(self).spec_reactants().converted(to_weights, fuel_moles, "moles_to_weights"@, "cea_mixture_moles_to_weights"@, Ok(fw))
                    && old(self).spec_reactants().converted(to_weights, oxidant_moles, "moles_to_weights"@, "cea_mixture_moles_to_weights"@, Ok(ow))
                    && f@ == fw@ && o@ == ow@
                    && old(self).spec_reactants().ratio_answered(
                        chem_eq,
                        o,
                        f,
                        chemical_equivalence_ratio,
                        "chem_eq_ratio_to_of_ratio"@,
                        "cea_mixture_chem_eq_ratio_to_of_ratio"@,
                        Ok(of),
                    ) && old(self).spec_reactants().ratio_weights(of_to_weights, o, f, of, Ok(w))
                    && old(self).solved_state(calls, EquilibriumType::Tp, temperature, pressure, w@, Ok(res)),
    {
        let fw = self.reactant_weights_from_moles(fuel_moles, to_weights);
        let ghost gfw = fw;
        let fuel = match fw {
            Err(e) => {
                let r = Err(e);
                assert(self.tp_moles_fuel(to_weights, chem_eq, of_to_weights, calls, temperature, pressure, gfw, oxidant_moles, chemical_equivalence_ratio, r));
                return r;
            },
            Ok(w) => w,
        };
        let ow = self.reactant_weights_from_moles(oxidant_moles, to_weights);
        let ghost gow = ow;
        let oxidant = match ow {
            Err(e) => {
                let r = Err(e);
                assert(self.tp_moles_oxidant(chem_eq, of_to_weights, calls, temperature, pressure, fuel@, gow, chemical_equivalence_ratio, r));
                assert(self.tp_moles_fuel(to_weights, chem_eq, of_to_weights, calls, temperature, pressure, gfw, oxidant_moles, chemical_equivalence_ratio, r));
                return r;
            },
            Ok(w) => w,
        };
        let ghost s0 = *self;
        let fs = fuel.as_slice();
        let os = oxidant.as_slice();
        let r = self.tp_with_chemical_equivalence_weights(
            temperature,
            pressure,
            fs,
            os,
            chemical_equivalence_ratio,
            chem_eq,
            of_to_weights,
            calls,
        );
        assert(s0.tp_chem_eq(chem_eq, of_to_weights, calls, temperature, pressure, fs, os, chemical_equivalence_ratio, r));
        assert(self.tp_moles_oxidant(chem_eq, of_to_weights, calls, temperature, pressure, fuel@, gow, chemical_equivalence_ratio, r));
        assert(self.tp_moles_fuel(to_weights, chem_eq, of_to_weights, calls, temperature, pressure, gfw, oxidant_moles, chemical_equivalence_ratio, r));
        proof {
            if r is Ok {
                s0.lemma_moles_solve_keeps_fuel_and_oxidant_apart(
                    to_weights,
                    chem_eq,
                    of_to_weights,
                    calls,
                    temperature,
                    pressure,
                    fuel_moles,
                    oxidant_moles,
                    chemical_equivalence_ratio,
                    r->Ok_0,
                );
            }
        }
        r
    }
}

/// The calls through which building an equilibrium problem reaches the library: `init`
/// (`cea_init`, run once per process), `mixture` and `mixture_with_ions`
/// (`cea_mixture_create`, `cea_mixture_create_w_ions`), `from_reactants` and
/// `from_reactants_with_ions` (`cea_mixture_create_from_reactants`, and with ions),
/// `solver_options` (`cea_solver_opts_init`), `solver` (`cea_eqsolver_create_with_options`),
/// `solution` (`cea_eqsolution_create`), `partials` (`cea_eqpartials_create`), and
/// `species_count`, `name_len` and `species_names` (`cea_mixture_get_num_species`,
/// `cea_species_name_len`, `cea_mixture_get_species_names_buf`).
pub struct BuildCalls<I, MC, MI, RC, RI, OI, SC, LC, PC, NC, NL, NB> {
    pub init: I,
    pub mixture: MC,
    pub mixture_with_ions: MI,
    pub from_reactants: RC,
    pub from_reactants_with_ions: RI,
    pub solver_options: OI,
    pub solver: SC,
    pub solution: LC,
    pub partials: PC,
    pub species_count: NC,
    pub name_len: NL,
    pub species_names: NB,
}

impl<I, MC, MI, RC, RI, OI, SC, LC, PC, NC, NL, NB> BuildCalls<I, MC, MI, RC, RI, OI, SC, LC, PC, NC, NL, NB> {
    /// Each call may be made on any arguments.
    pub open spec fn ready<H, V, O>(&self) -> bool
        where
            I: Fn() -> i32 + Copy,
            MC: Fn(i32, &[&str]) -> (i32, Option<H>) + Copy,
            MI: Fn(i32, &[&str]) -> (i32, Option<H>) + Copy,
            RC: Fn(i32, &[&str], i32, &[&str]) -> (i32, Option<H>) + Copy,
            RI: Fn(i32, &[&str], i32, &[&str]) -> (i32, Option<H>) + Copy,
            OI: Fn() -> (i32, O) + Copy,
            SC: for<'b> Fn(&Handle<H>, O, &SolverOptions<'b, V, H>, Option<i32>) -> (i32, Option<H>) + Copy,
            LC: Fn(&Handle<H>) -> (i32, Option<H>) + Copy,
            PC: Fn(&Handle<H>) -> (i32, Option<H>) + Copy,
            NC: Fn(&Handle<H>) -> (i32, i32) + Copy,
            NL: Fn() -> (i32, i32) + Copy,
            NB: Fn(&Handle<H>, i32, i32) -> (i32, Vec<u8>) + Copy,
    {
        &&& self.init.requires(())
        &&& forall|n: i32, s: &[&str]| self.mixture.requires((n, s))
        &&& forall|n: i32, s: &[&str]| self.mixture_with_ions.requires((n, s))
        &&& forall|n: i32, s: &[&str], m: i32, t: &[&str]| self.from_reactants.requires((n, s, m, t))
        &&& forall|n: i32, s: &[&str], m: i32, t: &[&str]| self.from_reactants_with_ions.requires((n, s, m, t))
        &&& self.solver_options.requires(())
        &&& forall|h: &Handle<H>, o: O, opts: &SolverOptions<V, H>, n: Option<i32>| self.solver.requires((h, o, opts, n))
        &&& forall|h: &Handle<H>| self.solution.requires((h,))
        &&& forall|h: &Handle<H>| self.partials.requires((h,))
        &&& forall|h: &Handle<H>| self.species_count.requires((h,))
        &&& self.name_len.requires(())
        &&& forall|h: &Handle<H>, n: i32, m: i32| self.species_names.requires((h, n, m))
    }
}

/// `refs` hold the texts of `names`, in order.
pub open spec fn names_match(refs: Seq<&str>, names: Seq<String>) -> bool {
    &&& refs.len() == names.len()
    &&& forall|i: int| 0 <= i < refs.len() ==> #[trigger] refs[i]@ == names[i]@
}

impl<V: Copy> EquilibriumBuilder<V> {
    /// `m` is what making a mixture of `names` gives, with or without ions as set.
    pub open spec fn species_made<H, O, I, MC, MI, RC, RI, OI, SC, LC, PC, NC, NL, NB>(
        &self,
        calls: &BuildCalls<I, MC, MI, RC, RI, OI, SC, LC, PC, NC, NL, NB>,
        names: &[&str],
        m: CeaResult<Mixture<H>>,
    ) -> bool
        where
            I: Fn() -> i32 + Copy,
            MC: Fn(i32, &[&str]) -> (i32, Option<H>) + Copy,
            MI: Fn(i32, &[&str]) -> (i32, Option<H>) + Copy,
            RC: Fn(i32, &[&str], i32, &[&str]) -> (i32, Option<H>) + Copy,
            RI: Fn(i32, &[&str], i32, &[&str]) -> (i32, Option<H>) + Copy,
            OI: Fn() -> (i32, O) + Copy,
            SC: for<'b> Fn(&Handle<H>, O, &SolverOptions<'b, V, H>, Option<i32>) -> (i32, Option<H>) + Copy,
            LC: Fn(&Handle<H>) -> (i32, Option<H>) + Copy,
            PC: Fn(&Handle<H>) -> (i32, Option<H>) + Copy,
            NC: Fn(&Handle<H>) -> (i32, i32) + Copy,
            NL: Fn() -> (i32, i32) + Copy,
            NB: Fn(&Handle<H>, i32, i32) -> (i32, Vec<u8>) + Copy,
    {
        if self.spec_ions() {
            species_created(
                calls.mixture_with_ions,
                names,
                "Mixture::new_with_ions species"@,
                "cea_mixture_create_w_ions"@,
                m,
            )
        } else {
            species_created(calls.mixture, names, "Mixture::new species"@, "cea_mixture_create"@, m)
        }
    }

    /// `m` is what making the products of `reactants` less `omit` gives.
    pub open spec fn omitted_made<H, O, I, MC, MI, RC, RI, OI, SC, LC, PC, NC, NL, NB>(
        &self,
        calls: &BuildCalls<I, MC, MI, RC, RI, OI, SC, LC, PC, NC, NL, NB>,
        reactants: &[&str],
        omit: &[&str],
        m: CeaResult<Mixture<H>>,
    ) -> bool
        where
            I: Fn() -> i32 + Copy,
            MC: Fn(i32, &[&str]) -> (i32, Option<H>) + Copy,
            MI: Fn(i32, &[&str]) -> (i32, Option<H>) + Copy,
            RC: Fn(i32, &[&str], i32, &[&str]) -> (i32, Option<H>) + Copy,
            RI: Fn(i32, &[&str], i32, &[&str]) -> (i32, Option<H>) + Copy,
            OI: Fn() -> (i32, O) + Copy,
            SC: for<'b> Fn(&Handle<H>, O, &SolverOptions<'b, V, H>, Option<i32>) -> (i32, Option<H>) + Copy,
            LC: Fn(&Handle<H>) -> (i32, Option<H>) + Copy,
            PC: Fn(&Handle<H>) -> (i32, Option<H>) + Copy,
            NC: Fn(&Handle<H>) -> (i32, i32) + Copy,
            NL: Fn() -> (i32, i32) + Copy,
            NB: Fn(&Handle<H>, i32, i32) -> (i32, Vec<u8>) + Copy,
    {
        if self.spec_ions() {
            reactants_created(
                calls.from_reactants_with_ions,
                reactants,
                omit,
                "Mixture::from_reactants_with_ions reactants"@,
                "Mixture::from_reactants_with_ions omit"@,
                "cea_mixture_create_from_reactants_w_ions"@,
                m,
            )
        } else {
            reactants_created(
                calls.from_reactants,
                reactants,
                omit,
                "Mixture::from_reactants reactants"@,
                "Mixture::from_reactants omit"@,
                "cea_mixture_create_from_reactants"@,
                m,
            )
        }
    }

    /// `rm` is what making the reactant mixture gives.
    pub open spec fn reactants_made<H, O, I, MC, MI, RC, RI, OI, SC, LC, PC, NC, NL, NB>(
        &self,
        calls: &BuildCalls<I, MC, MI, RC, RI, OI, SC, LC, PC, NC, NL, NB>,
        rm: CeaResult<Mixture<H>>,
    ) -> bool
        where
            I: Fn() -> i32 + Copy,
            MC: Fn(i32, &[&str]) -> (i32, Option<H>) + Copy,
            MI: Fn(i32, &[&str]) -> (i32, Option<H>) + Copy,
            RC: Fn(i32, &[&str], i32, &[&str]) -> (i32, Option<H>) + Copy,
            RI: Fn(i32, &[&str], i32, &[&str]) -> (i32, Option<H>) + Copy,
            OI: Fn() -> (i32, O) + Copy,
            SC: for<'b> Fn(&Handle<H>, O, &SolverOptions<'b, V, H>, Option<i32>) -> (i32, Option<H>) + Copy,
            LC: Fn(&Handle<H>) -> (i32, Option<H>) + Copy,
            PC: Fn(&Handle<H>) -> (i32, Option<H>) + Copy,
            NC: Fn(&Handle<H>) -> (i32, i32) + Copy,
            NL: Fn() -> (i32, i32) + Copy,
            NB: Fn(&Handle<H>, i32, i32) -> (i32, Vec<u8>) + Copy,
    {
        exists|refs: &[&str]| names_match(refs@, self.spec_reactants()) && #[trigger] self.species_made(calls, refs, rm)
    }

    /// `pm` is what making the product mixture gives: explicit products must not be empty.
    pub open spec fn products_made<H, O, I, MC, MI, RC, RI, OI, SC, LC, PC, NC, NL, NB>(
        &self,
        calls: &BuildCalls<I, MC, MI, RC, RI, OI, SC, LC, PC, NC, NL, NB>,
        pm: CeaResult<Mixture<H>>,
    ) -> bool
        where
            I: Fn() -> i32 + Copy,
            MC: Fn(i32, &[&str]) -> (i32, Option<H>) + Copy,
            MI: Fn(i32, &[&str]) -> (i32, Option<H>) + Copy,
            RC: Fn(i32, &[&str], i32, &[&str]) -> (i32, Option<H>) + Copy,
            RI: Fn(i32, &[&str], i32, &[&str]) -> (i32, Option<H>) + Copy,
            OI: Fn() -> (i32, O) + Copy,
            SC: for<'b> Fn(&Handle<H>, O, &SolverOptions<'b, V, H>, Option<i32>) -> (i32, Option<H>) + Copy,
            LC: Fn(&Handle<H>) -> (i32, Option<H>) + Copy,
            PC: Fn(&Handle<H>) -> (i32, Option<H>) + Copy,
            NC: Fn(&Handle<H>) -> (i32, i32) + Copy,
            NL: Fn() -> (i32, i32) + Copy,
            NB: Fn(&Handle<H>, i32, i32) -> (i32, Vec<u8>) + Copy,
    {
        match self.spec_products() {
            ProductSelection::Explicit(species) => if species@.len() == 0 {
                fails_with(pm, input_error("EquilibriumBuilder::build"@, "products cannot be empty"@))
            } else {
                exists|refs: &[&str]| names_match(refs@, species@) && #[trigger] self.species_made(calls, refs, pm)
            },
            ProductSelection::FromReactants { omit } => exists|rr: &[&str], oo: &[&str]|
                names_match(rr@, self.spec_reactants()) && names_match(oo@, omit@)
                    && #[trigger] self.omitted_made(calls, rr, oo, pm),
        }
    }

    /// `opts` are the solver options the builder's settings give, with `reactants`.
    pub open spec fn options_for<'a, H>(&self, opts: SolverOptions<'a, V, H>, reactants: &'a Mixture<H>) -> bool {
        &&& opts.trace == self.spec_trace()
        &&& opts.ions == self.spec_ions()
        &&& opts.transport == self.spec_transport()
        &&& opts.reactants == Some(reactants)
        &&& names_match(opts.insert@, self.spec_insert())
    }

    /// `sr` is what making the solver with the builder's options gives.
    pub open spec fn solver_made<H, O, I, MC, MI, RC, RI, OI, SC, LC, PC, NC, NL, NB>(
        &self,
        calls: &BuildCalls<I, MC, MI, RC, RI, OI, SC, LC, PC, NC, NL, NB>,
        reactants: &Mixture<H>,
        products: &Mixture<H>,
        sr: CeaResult<EqSolver<H>>,
    ) -> bool
        where
            I: Fn() -> i32 + Copy,
            MC: Fn(i32, &[&str]) -> (i32, Option<H>) + Copy,
            MI: Fn(i32, &[&str]) -> (i32, Option<H>) + Copy,
            RC: Fn(i32, &[&str], i32, &[&str]) -> (i32, Option<H>) + Copy,
            RI: Fn(i32, &[&str], i32, &[&str]) -> (i32, Option<H>) + Copy,
            OI: Fn() -> (i32, O) + Copy,
            SC: for<'b> Fn(&Handle<H>, O, &SolverOptions<'b, V, H>, Option<i32>) -> (i32, Option<H>) + Copy,
            LC: Fn(&Handle<H>) -> (i32, Option<H>) + Copy,
            PC: Fn(&Handle<H>) -> (i32, Option<H>) + Copy,
            NC: Fn(&Handle<H>) -> (i32, i32) + Copy,
            NL: Fn() -> (i32, i32) + Copy,
            NB: Fn(&Handle<H>, i32, i32) -> (i32, Vec<u8>) + Copy,
    {
        exists|opts: SolverOptions<V, H>|
            self.options_for(opts, reactants) && #[trigger] EqSolver::<H>::options_solver(
                products,
                &opts,
                calls.solver_options,
                calls.solver,
                sr,
            )
    }

    pub open spec fn built_from_names<H, O, I, MC, MI, RC, RI, OI, SC, LC, PC, NC, NL, NB>(
        &self,
        calls: &BuildCalls<I, MC, MI, RC, RI, OI, SC, LC, PC, NC, NL, NB>,
        reac: Mixture<H>,
        prod: Mixture<H>,
        solver: EqSolver<H>,
        soln: EqSolution<H>,
        partials: EqPartials<H>,
        nr: CeaResult<Vec<String>>,
        r: CeaResult<Equilibrium<H>>,
    ) -> bool
        where
            I: Fn() -> i32 + Copy,
            MC: Fn(i32, &[&str]) -> (i32, Option<H>) + Copy,
            MI: Fn(i32, &[&str]) -> (i32, Option<H>) + Copy,
            RC: Fn(i32, &[&str], i32, &[&str]) -> (i32, Option<H>) + Copy,
            RI: Fn(i32, &[&str], i32, &[&str]) -> (i32, Option<H>) + Copy,
            OI: Fn() -> (i32, O) + Copy,
            SC: for<'b> Fn(&Handle<H>, O, &SolverOptions<'b, V, H>, Option<i32>) -> (i32, Option<H>) + Copy,
            LC: Fn(&Handle<H>) -> (i32, Option<H>) + Copy,
            PC: Fn(&Handle<H>) -> (i32, Option<H>) + Copy,
            NC: Fn(&Handle<H>) -> (i32, i32) + Copy,
            NL: Fn() -> (i32, i32) + Copy,
            NB: Fn(&Handle<H>, i32, i32) -> (i32, Vec<u8>) + Copy,
    {
        &&& prod.names_listed(calls.species_count, calls.name_len, calls.species_names, nr)
        &&& match nr {
            Err(_) => propagates(nr, r),
            Ok(names) => r matches Ok(eq) && {
                &&& eq.spec_reactants() == reac
                &&& eq.spec_products() == prod
                &&& eq.spec_solver() == solver
                &&& eq.spec_solution() == soln
                &&& eq.spec_partials() == partials
                &&& eq.spec_reactant_species() == self.spec_reactants()
                &&& eq.spec_product_species() == names@
                &&& eq.spec_transport() == self.spec_transport()
            },
        }
    }

    pub open spec fn built_from_partials<H, O, I, MC, MI, RC, RI, OI, SC, LC, PC, NC, NL, NB>(
        &self,
        calls: &BuildCalls<I, MC, MI, RC, RI, OI, SC, LC, PC, NC, NL, NB>,
        reac: Mixture<H>,
        prod: Mixture<H>,
        solver: EqSolver<H>,
        soln: EqSolution<H>,
        pa: CeaResult<EqPartials<H>>,
        r: CeaResult<Equilibrium<H>>,
    ) -> bool
        where
            I: Fn() -> i32 + Copy,
            MC: Fn(i32, &[&str]) -> (i32, Option<H>) + Copy,
            MI: Fn(i32, &[&str]) -> (i32, Option<H>) + Copy,
            RC: Fn(i32, &[&str], i32, &[&str]) -> (i32, Option<H>) + Copy,
            RI: Fn(i32, &[&str], i32, &[&str]) -> (i32, Option<H>) + Copy,
            OI: Fn() -> (i32, O) + Copy,
            SC: for<'b> Fn(&Handle<H>, O, &SolverOptions<'b, V, H>, Option<i32>) -> (i32, Option<H>) + Copy,
            LC: Fn(&Handle<H>) -> (i32, Option<H>) + Copy,
            PC: Fn(&Handle<H>) -> (i32, Option<H>) + Copy,
            NC: Fn(&Handle<H>) -> (i32, i32) + Copy,
            NL: Fn() -> (i32, i32) + Copy,
            NB: Fn(&Handle<H>, i32, i32) -> (i32, Vec<u8>) + Copy,
    {
        &&& partials_created(&solver, calls.partials, pa)
        &&& match pa {
            Err(_) => propagates(pa, r),
            Ok(partials) => exists|nr: CeaResult<Vec<String>>|
                self.built_from_names(calls, reac, prod, solver, soln, partials, nr, r),
        }
    }

    pub open spec fn built_from_solution<H, O, I, MC, MI, RC, RI, OI, SC, LC, PC, NC, NL, NB>(
        &self,
        calls: &BuildCalls<I, MC, MI, RC, RI, OI, SC, LC, PC, NC, NL, NB>,
        reac: Mixture<H>,
        prod: Mixture<H>,
        solver: EqSolver<H>,
        so: CeaResult<EqSolution<H>>,
        r: CeaResult<Equilibrium<H>>,
    ) -> bool
        where
            I: Fn() -> i32 + Copy,
            MC: Fn(i32, &[&str]) -> (i32, Option<H>) + Copy,
            MI: Fn(i32, &[&str]) -> (i32, Option<H>) + Copy,
            RC: Fn(i32, &[&str], i32, &[&str]) -> (i32, Option<H>) + Copy,
            RI: Fn(i32, &[&str], i32, &[&str]) -> (i32, Option<H>) + Copy,
            OI: Fn() -> (i32, O) + Copy,
            SC: for<'b> Fn(&Handle<H>, O, &SolverOptions<'b, V, H>, Option<i32>) -> (i32, Option<H>) + Copy,
            LC: Fn(&Handle<H>) -> (i32, Option<H>) + Copy,
            PC: Fn(&Handle<H>) -> (i32, Option<H>) + Copy,
            NC: Fn(&Handle<H>) -> (i32, i32) + Copy,
            NL: Fn() -> (i32, i32) + Copy,
            NB: Fn(&Handle<H>, i32, i32) -> (i32, Vec<u8>) + Copy,
    {
        &&& solution_created(&solver, calls.solution, so)
        &&& match so {
            Err(_) => propagates(so, r),
            Ok(soln) => exists|pa: CeaResult<EqPartials<H>>|
                self.built_from_partials(calls, reac, prod, solver, soln, pa, r),
        }
    }

    pub open spec fn built_from_solver<H, O, I, MC, MI, RC, RI, OI, SC, LC, PC, NC, NL, NB>(
        &self,
        calls: &BuildCalls<I, MC, MI, RC, RI, OI, SC, LC, PC, NC, NL, NB>,
        reac: Mixture<H>,
        prod: Mixture<H>,
        sr: CeaResult<EqSolver<H>>,
        r: CeaResult<Equilibrium<H>>,
    ) -> bool
        where
            I: Fn() -> i32 + Copy,
            MC: Fn(i32, &[&str]) -> (i32, Option<H>) + Copy,
            MI: Fn(i32, &[&str]) -> (i32, Option<H>) + Copy,
            RC: Fn(i32, &[&str], i32, &[&str]) -> (i32, Option<H>) + Copy,
            RI: Fn(i32, &[&str], i32, &[&str]) -> (i32, Option<H>) + Copy,
            OI: Fn() -> (i32, O) + Copy,
            SC: for<'b> Fn(&Handle<H>, O, &SolverOptions<'b, V, H>, Option<i32>) -> (i32, Option<H>) + Copy,
            LC: Fn(&Handle<H>) -> (i32, Option<H>) + Copy,
            PC: Fn(&Handle<H>) -> (i32, Option<H>) + Copy,
            NC: Fn(&Handle<H>) -> (i32, i32) + Copy,
            NL: Fn() -> (i32, i32) + Copy,
            NB: Fn(&Handle<H>, i32, i32) -> (i32, Vec<u8>) + Copy,
    {
        &&& self.solver_made(calls, &reac, &prod, sr)
        &&& match sr {
            Err(_) => propagates(sr, r),
            Ok(solver) => exists|so: CeaResult<EqSolution<H>>|
                self.built_from_solution(calls, reac, prod, solver, so, r),
        }
    }

    pub open spec fn built_from_products<H, O, I, MC, MI, RC, RI, OI, SC, LC, PC, NC, NL, NB>(
        &self,
        calls: &BuildCalls<I, MC, MI, RC, RI, OI, SC, LC, PC, NC, NL, NB>,
        reac: Mixture<H>,
        pm: CeaResult<Mixture<H>>,
        r: CeaResult<Equilibrium<H>>,
    ) -> bool
        where
            I: Fn() -> i32 + Copy,
            MC: Fn(i32, &[&str]) -> (i32, Option<H>) + Copy,
            MI: Fn(i32, &[&str]) -> (i32, Option<H>) + Copy,
            RC: Fn(i32, &[&str], i32, &[&str]) -> (i32, Option<H>) + Copy,
            RI: Fn(i32, &[&str], i32, &[&str]) -> (i32, Option<H>) + Copy,
            OI: Fn() -> (i32, O) + Copy,
            SC: for<'b> Fn(&Handle<H>, O, &SolverOptions<'b, V, H>, Option<i32>) -> (i32, Option<H>) + Copy,
            LC: Fn(&Handle<H>) -> (i32, Option<H>) + Copy,
            PC: Fn(&Handle<H>) -> (i32, Option<H>) + Copy,
            NC: Fn(&Handle<H>) -> (i32, i32) + Copy,
            NL: Fn() -> (i32, i32) + Copy,
            NB: Fn(&Handle<H>, i32, i32) -> (i32, Vec<u8>) + Copy,
    {
        &&& self.products_made(calls, pm)
        &&& match pm {
            Err(_) => propagates(pm, r),
            Ok(prod) => exists|sr: CeaResult<EqSolver<H>>| self.built_from_solver(calls, reac, prod, sr, r),
        }
    }

    pub open spec fn built_from_reactants<H, O, I, MC, MI, RC, RI, OI, SC, LC, PC, NC, NL, NB>(
        &self,
        calls: &BuildCalls<I, MC, MI, RC, RI, OI, SC, LC, PC, NC, NL, NB>,
        rm: CeaResult<Mixture<H>>,
        r: CeaResult<Equilibrium<H>>,
    ) -> bool
        where
            I: Fn() -> i32 + Copy,
            MC: Fn(i32, &[&str]) -> (i32, Option<H>) + Copy,
            MI: Fn(i32, &[&str]) -> (i32, Option<H>) + Copy,
            RC: Fn(i32, &[&str], i32, &[&str]) -> (i32, Option<H>) + Copy,
            RI: Fn(i32, &[&str], i32, &[&str]) -> (i32, Option<H>) + Copy,
            OI: Fn() -> (i32, O) + Copy,
            SC: for<'b> Fn(&Handle<H>, O, &SolverOptions<'b, V, H>, Option<i32>) -> (i32, Option<H>) + Copy,
            LC: Fn(&Handle<H>) -> (i32, Option<H>) + Copy,
            PC: Fn(&Handle<H>) -> (i32, Option<H>) + Copy,
            NC: Fn(&Handle<H>) -> (i32, i32) + Copy,
            NL: Fn() -> (i32, i32) + Copy,
            NB: Fn(&Handle<H>, i32, i32) -> (i32, Vec<u8>) + Copy,
    {
        &&& self.reactants_made(calls, rm)
        &&& match rm {
            Err(_) => propagates(rm, r),
            Ok(reac) => exists|pm: CeaResult<Mixture<H>>| self.built_from_products(calls, reac, pm, r),
        }
    }

    pub open spec fn built_from_init<H, O, I, MC, MI, RC, RI, OI, SC, LC, PC, NC, NL, NB>(
        &self,
        calls: &BuildCalls<I, MC, MI, RC, RI, OI, SC, LC, PC, NC, NL, NB>,
        code: i32,
        r: CeaResult<Equilibrium<H>>,
    ) -> bool
        where
            I: Fn() -> i32 + Copy,
            MC: Fn(i32, &[&str]) -> (i32, Option<H>) + Copy,
            MI: Fn(i32, &[&str]) -> (i32, Option<H>) + Copy,
            RC: Fn(i32, &[&str], i32, &[&str]) -> (i32, Option<H>) + Copy,
            RI: Fn(i32, &[&str], i32, &[&str]) -> (i32, Option<H>) + Copy,
            OI: Fn() -> (i32, O) + Copy,
            SC: for<'b> Fn(&Handle<H>, O, &SolverOptions<'b, V, H>, Option<i32>) -> (i32, Option<H>) + Copy,
            LC: Fn(&Handle<H>) -> (i32, Option<H>) + Copy,
            PC: Fn(&Handle<H>) -> (i32, Option<H>) + Copy,
            NC: Fn(&Handle<H>) -> (i32, i32) + Copy,
            NL: Fn() -> (i32, i32) + Copy,
            NB: Fn(&Handle<H>, i32, i32) -> (i32, Vec<u8>) + Copy,
    {
        &&& calls.init.ensures((), code)
        &&& if code != CEA_SUCCESS {
            fails_with(r, cea_error(code, "cea_init"@))
        } else if self.spec_reactants().len() == 0 {
            fails_with(r, input_error("EquilibriumBuilder::build"@, "reactants are required"@))
        } else {
            exists|rm: CeaResult<Mixture<H>>| self.built_from_reactants(calls, rm, r)
        }
    }

    /// `r` is what building the problem gives: the library started, the reactants given, the reactant and product mixtures, the solver with the builder's options, its solution and partials made and the product names read, in this order, the first failure being the result.
    pub open spec fn built<H, O, I, MC, MI, RC, RI, OI, SC, LC, PC, NC, NL, NB>(
        &self,
        calls: &BuildCalls<I, MC, MI, RC, RI, OI, SC, LC, PC, NC, NL, NB>,
        r: CeaResult<Equilibrium<H>>,
    ) -> bool
        where
            I: Fn() -> i32 + Copy,
            MC: Fn(i32, &[&str]) -> (i32, Option<H>) + Copy,
            MI: Fn(i32, &[&str]) -> (i32, Option<H>) + Copy,
            RC: Fn(i32, &[&str], i32, &[&str]) -> (i32, Option<H>) + Copy,
            RI: Fn(i32, &[&str], i32, &[&str]) -> (i32, Option<H>) + Copy,
            OI: Fn() -> (i32, O) + Copy,
            SC: for<'b> Fn(&Handle<H>, O, &SolverOptions<'b, V, H>, Option<i32>) -> (i32, Option<H>) + Copy,
            LC: Fn(&Handle<H>) -> (i32, Option<H>) + Copy,
            PC: Fn(&Handle<H>) -> (i32, Option<H>) + Copy,
            NC: Fn(&Handle<H>) -> (i32, i32) + Copy,
            NL: Fn() -> (i32, i32) + Copy,
            NB: Fn(&Handle<H>, i32, i32) -> (i32, Vec<u8>) + Copy,
    {
        exists|code: i32| self.built_from_init(calls, code, r)
    }

    /// A problem is built only from a builder with reactants, and with products when they
    /// are listed explicitly; the built problem keeps the builder's reactant species and
    /// transport setting, and its product species are the names CEA listed for its product
    /// mixture.
    pub proof fn lemma_built_keeps_settings<H, O, I, MC, MI, RC, RI, OI, SC, LC, PC, NC, NL, NB>(
        &self,
        calls: &BuildCalls<I, MC, MI, RC, RI, OI, SC, LC, PC, NC, NL, NB>,
        eq: Equilibrium<H>,
    )
        where
            I: Fn() -> i32 + Copy,
            MC: Fn(i32, &[&str]) -> (i32, Option<H>) + Copy,
            MI: Fn(i32, &[&str]) -> (i32, Option<H>) + Copy,
            RC: Fn(i32, &[&str], i32, &[&str]) -> (i32, Option<H>) + Copy,
            RI: Fn(i32, &[&str], i32, &[&str]) -> (i32, Option<H>) + Copy,
            OI: Fn() -> (i32, O) + Copy,
            SC: for<'b> Fn(&Handle<H>, O, &SolverOptions<'b, V, H>, Option<i32>) -> (i32, Option<H>) + Copy,
            LC: Fn(&Handle<H>) -> (i32, Option<H>) + Copy,
            PC: Fn(&Handle<H>) -> (i32, Option<H>) + Copy,
            NC: Fn(&Handle<H>) -> (i32, i32) + Copy,
            NL: Fn() -> (i32, i32) + Copy,
            NB: Fn(&Handle<H>, i32, i32) -> (i32, Vec<u8>) + Copy,
        requires
            self.built(calls, Ok(eq)),
        ensures
            self.spec_reactants().len() > 0,
            self.spec_products() matches ProductSelection::Explicit(species) ==> species@.len() > 0,
            eq.spec_reactant_species() == self.spec_reactants(),
            eq.spec_transport() == self.spec_transport(),
            exists|names: Vec<String>|
                names@ == eq.spec_product_species() && #[trigger] eq.spec_products().names_listed(
                    calls.species_count,
                    calls.name_len,
                    calls.species_names,
                    Ok(names),
                ),
    {
        let r: CeaResult<Equilibrium<H>> = Ok(eq);
        let code = choose|code: i32| self.built_from_init(calls, code, r);
        let rm = choose|rm: CeaResult<Mixture<H>>| self.built_from_reactants(calls, rm, r);
        let reac = rm->Ok_0;
        let pm = choose|pm: CeaResult<Mixture<H>>| self.built_from_products(calls, reac, pm, r);
        let prod = pm->Ok_0;
        let sr = choose|sr: CeaResult<EqSolver<H>>| self.built_from_solver(calls, reac, prod, sr, r);
        let solver = sr->Ok_0;
        let so = choose|so: CeaResult<EqSolution<H>>| self.built_from_solution(calls, reac, prod, solver, so, r);
        let soln = so->Ok_0;
        let pa = choose|pa: CeaResult<EqPartials<H>>| self.built_from_partials(calls, reac, prod, solver, soln, pa, r);
        let partials = pa->Ok_0;
        let nr = choose|nr: CeaResult<Vec<String>>| self.built_from_names(calls, reac, prod, solver, soln, partials, nr, r);
        assert(nr is Ok);
        assert(eq.spec_products().names_listed(calls.species_count, calls.name_len, calls.species_names, nr));
    }

    /// The ions setting decides which routines make the mixtures of a built problem: with
    /// ions, the reactant mixture is made by the with-ions create routine, and the product
    /// mixture by the with-ions create routine (explicit products) or the with-ions
    /// from-reactants routine (products from the reactants, less the omitted ones); without
    /// ions, by the plain ones. Each is handed the builder's names and answered with success
    /// and the mixture the problem holds.
    pub proof fn lemma_built_mixtures_follow_ions<H, O, I, MC, MI, RC, RI, OI, SC, LC, PC, NC, NL, NB>(
        &self,
        calls: &BuildCalls<I, MC, MI, RC, RI, OI, SC, LC, PC, NC, NL, NB>,
        eq: Equilibrium<H>,
    )
        where
            I: Fn() -> i32 + Copy,
            MC: Fn(i32, &[&str]) -> (i32, Option<H>) + Copy,
            MI: Fn(i32, &[&str]) -> (i32, Option<H>) + Copy,
            RC: Fn(i32, &[&str], i32, &[&str]) -> (i32, Option<H>) + Copy,
            RI: Fn(i32, &[&str], i32, &[&str]) -> (i32, Option<H>) + Copy,
            OI: Fn() -> (i32, O) + Copy,
            SC: for<'b> Fn(&Handle<H>, O, &SolverOptions<'b, V, H>, Option<i32>) -> (i32, Option<H>) + Copy,
            LC: Fn(&Handle<H>) -> (i32, Option<H>) + Copy,
            PC: Fn(&Handle<H>) -> (i32, Option<H>) + Copy,
            NC: Fn(&Handle<H>) -> (i32, i32) + Copy,
            NL: Fn() -> (i32, i32) + Copy,
            NB: Fn(&Handle<H>, i32, i32) -> (i32, Vec<u8>) + Copy,
        requires
            self.built(calls, Ok(eq)),
        ensures
            exists|refs: &[&str], reply: (i32, Option<H>)|
                names_match(refs@, self.spec_reactants()) && reply.0 == CEA_SUCCESS
                    && eq.spec_reactants().spec_handle()@ == reply.1 && (if self.spec_ions() {
                    calls.mixture_with_ions.ensures((refs@.len() as i32, refs), reply)
                } else {
                    calls.mixture.ensures((refs@.len() as i32, refs), reply)
                }),
            self.spec_products() matches ProductSelection::Explicit(species) ==> exists|
                refs: &[&str],
                reply: (i32, Option<H>),
            |
                names_match(refs@, species@) && reply.0 == CEA_SUCCESS && eq.spec_products().spec_handle()@
                    == reply.1 && (if self.spec_ions() {
                    calls.mixture_with_ions.ensures((refs@.len() as i32, refs), reply)
                } else {
                    calls.mixture.ensures((refs@.len() as i32, refs), reply)
                }),
            self.spec_products() matches ProductSelection::FromReactants { omit } ==> exists|
                rr: &[&str],
                oo: &[&str],
                reply: (i32, Option<H>),
            |
                names_match(rr@, self.spec_reactants()) && names_match(oo@, omit@) && reply.0 == CEA_SUCCESS
                    && eq.spec_products().spec_handle()@ == reply.1 && (if self.spec_ions() {
                    calls.from_reactants_with_ions.ensures((rr@.len() as i32, rr, oo@.len() as i32, oo), reply)
                } else {
                    calls.from_reactants.ensures((rr@.len() as i32, rr, oo@.len() as i32, oo), reply)
                }),
    {
        let r: CeaResult<Equilibrium<H>> = Ok(eq);
        let code = choose|code: i32| self.built_from_init(calls, code, r);
        let rm = choose|rm: CeaResult<Mixture<H>>| self.built_from_reactants(calls, rm, r);
        let reac = rm->Ok_0;
        let pm = choose|pm: CeaResult<Mixture<H>>| self.built_from_products(calls, reac, pm, r);
        let prod = pm->Ok_0;
        let sr = choose|sr: CeaResult<EqSolver<H>>| self.built_from_solver(calls, reac, prod, sr, r);
        let solver = sr->Ok_0;
        let so = choose|so: CeaResult<EqSolution<H>>| self.built_from_solution(calls, reac, prod, solver, so, r);
        let soln = so->Ok_0;
        let pa = choose|pa: CeaResult<EqPartials<H>>| self.built_from_partials(calls, reac, prod, solver, soln, pa, r);
        let partials = pa->Ok_0;
        let nr = choose|nr: CeaResult<Vec<String>>| self.built_from_names(calls, reac, prod, solver, soln, partials, nr, r);
        assert(nr is Ok);
        assert(eq.spec_reactants() == reac && eq.spec_products() == prod);
        let refs = choose|refs: &[&str]| names_match(refs@, self.spec_reactants()) && #[trigger] self.species_made(calls, refs, rm);
        if self.spec_ions() {
            let reply = choose|reply: (i32, Option<H>)|
                calls.mixture_with_ions.ensures((refs@.len() as i32, refs), reply)
                    && mixture_created(reply, "cea_mixture_create_w_ions"@, rm);
            assert(reply.0 == CEA_SUCCESS);
        } else {
            let reply = choose|reply: (i32, Option<H>)|
                calls.mixture.ensures((refs@.len() as i32, refs), reply)
                    && mixture_created(reply, "cea_mixture_create"@, rm);
            assert(reply.0 == CEA_SUCCESS);
        }
        match self.spec_products() {
            ProductSelection::Explicit(species) => {
                let prefs = choose|prefs: &[&str]| names_match(prefs@, species@) && #[trigger] self.species_made(calls, prefs, pm);
                if self.spec_ions() {
                    let reply = choose|reply: (i32, Option<H>)|
                        calls.mixture_with_ions.ensures((prefs@.len() as i32, prefs), reply)
                            && mixture_created(reply, "cea_mixture_create_w_ions"@, pm);
                    assert(reply.0 == CEA_SUCCESS);
                } else {
                    let reply = choose|reply: (i32, Option<H>)|
                        calls.mixture.ensures((prefs@.len() as i32, prefs), reply)
                            && mixture_created(reply, "cea_mixture_create"@, pm);
                    assert(reply.0 == CEA_SUCCESS);
                }
            },
            ProductSelection::FromReactants { omit } => {
                let (rr, oo) = choose|rr: &[&str], oo: &[&str]|
                    names_match(rr@, self.spec_reactants()) && names_match(oo@, omit@)
                        && #[trigger] self.omitted_made(calls, rr, oo, pm);
                if self.spec_ions() {
                    let reply = choose|reply: (i32, Option<H>)|
                        calls.from_reactants_with_ions.ensures((rr@.len() as i32, rr, oo@.len() as i32, oo), reply)
                            && mixture_created(reply, "cea_mixture_create_from_reactants_w_ions"@, pm);
                    assert(reply.0 == CEA_SUCCESS);
                } else {
                    let reply = choose|reply: (i32, Option<H>)|
                        calls.from_reactants.ensures((rr@.len() as i32, rr, oo@.len() as i32, oo), reply)
                            && mixture_created(reply, "cea_mixture_create_from_reactants"@, pm);
                    assert(reply.0 == CEA_SUCCESS);
                }
            },
        }
    }

    /// A built problem's solver was made by the options routine's defaults and the
    /// with-options create routine, handed the problem's product mixture, those defaults,
    /// options carrying the builder's trace, ions, transport and inserted species and the
    /// problem's reactant mixture, and the number of inserted species (none when there are
    /// none); both routines answered with success, and the solver is the one created.
    pub proof fn lemma_built_solver_has_the_builder_options<H, O, I, MC, MI, RC, RI, OI, SC, LC, PC, NC, NL, NB>(
        &self,
        calls: &BuildCalls<I, MC, MI, RC, RI, OI, SC, LC, PC, NC, NL, NB>,
        eq: Equilibrium<H>,
    )
        where
            I: Fn() -> i32 + Copy,
            MC: Fn(i32, &[&str]) -> (i32, Option<H>) + Copy,
            MI: Fn(i32, &[&str]) -> (i32, Option<H>) + Copy,
            RC: Fn(i32, &[&str], i32, &[&str]) -> (i32, Option<H>) + Copy,
            RI: Fn(i32, &[&str], i32, &[&str]) -> (i32, Option<H>) + Copy,
            OI: Fn() -> (i32, O) + Copy,
            SC: for<'b> Fn(&Handle<H>, O, &SolverOptions<'b, V, H>, Option<i32>) -> (i32, Option<H>) + Copy,
            LC: Fn(&Handle<H>) -> (i32, Option<H>) + Copy,
            PC: Fn(&Handle<H>) -> (i32, Option<H>) + Copy,
            NC: Fn(&Handle<H>) -> (i32, i32) + Copy,
            NL: Fn() -> (i32, i32) + Copy,
            NB: Fn(&Handle<H>, i32, i32) -> (i32, Vec<u8>) + Copy,
        requires
            self.built(calls, Ok(eq)),
        ensures
            exists|opts: SolverOptions<V, H>, init_reply: (i32, O), count: Option<i32>, reply: (i32, Option<H>)|
                #![trigger calls.solver.ensures((&eq.spec_products().spec_handle(), init_reply.1, &opts, count), reply)]
                opts.trace == self.spec_trace() && opts.ions == self.spec_ions() && opts.transport
                    == self.spec_transport() && opts.reactants == Some(&eq.spec_reactants()) && names_match(
                    opts.insert@,
                    self.spec_insert(),
                ) && calls.solver_options.ensures((), init_reply) && init_reply.0 == CEA_SUCCESS && count == (
                if opts.insert@.len() == 0 {
                    None::<i32>
                } else {
                    Some(opts.insert@.len() as i32)
                }) && calls.solver.ensures((&eq.spec_products().spec_handle(), init_reply.1, &opts, count), reply)
                    && reply.0 == CEA_SUCCESS && eq.spec_solver().spec_handle()@ == reply.1,
    {
        let r: CeaResult<Equilibrium<H>> = Ok(eq);
        let code = choose|code: i32| self.built_from_init(calls, code, r);
        let rm = choose|rm: CeaResult<Mixture<H>>| self.built_from_reactants(calls, rm, r);
        let reac = rm->Ok_0;
        let pm = choose|pm: CeaResult<Mixture<H>>| self.built_from_products(calls, reac, pm, r);
        let prod = pm->Ok_0;
        let sr = choose|sr: CeaResult<EqSolver<H>>| self.built_from_solver(calls, reac, prod, sr, r);
        let solver = sr->Ok_0;
        let so = choose|so: CeaResult<EqSolution<H>>| self.built_from_solution(calls, reac, prod, solver, so, r);
        let soln = so->Ok_0;
        let pa = choose|pa: CeaResult<EqPartials<H>>| self.built_from_partials(calls, reac, prod, solver, soln, pa, r);
        let partials = pa->Ok_0;
        let nr = choose|nr: CeaResult<Vec<String>>| self.built_from_names(calls, reac, prod, solver, soln, partials, nr, r);
        assert(nr is Ok);
        assert(eq.spec_reactants() == reac && eq.spec_products() == prod && eq.spec_solver() == solver);
        let opts = choose|opts: SolverOptions<V, H>|
            self.options_for(opts, &reac) && #[trigger] EqSolver::<H>::options_solver(
                &prod,
                &opts,
                calls.solver_options,
                calls.solver,
                sr,
            );
        let init_reply = choose|init_reply: (i32, O)|
            EqSolver::<H>::options_init(&prod, &opts, calls.solver_options, calls.solver, init_reply, sr);
        assert(init_reply.0 == CEA_SUCCESS);
        assert(!has_nul(opts.insert@));
        assert(fits_cea_int(opts.insert@.len() as int));
        let reply = choose|reply: (i32, Option<H>)|
            EqSolver::<H>::options_created(&prod, &opts, calls.solver, init_reply, reply, sr);
        assert(reply.0 == CEA_SUCCESS);
    }

    /// Builds the equilibrium problem: starts the library, makes the reactant mixture (with
    /// ions if set), the product mixture (the explicit products, or those the reactants can
    /// form less the omitted ones), a solver with the builder's options, its solution and
    /// partials, and reads the product names.
    pub fn build<H, O, I, MC, MI, RC, RI, OI, SC, LC, PC, NC, NL, NB>(self, calls: &BuildCalls<I, MC, MI, RC, RI, OI, SC, LC, PC, NC, NL, NB>) -> (r: CeaResult<Equilibrium<H>>)
        where
            I: Fn() -> i32 + Copy,
            MC: Fn(i32, &[&str]) -> (i32, Option<H>) + Copy,
            MI: Fn(i32, &[&str]) -> (i32, Option<H>) + Copy,
            RC: Fn(i32, &[&str], i32, &[&str]) -> (i32, Option<H>) + Copy,
            RI: Fn(i32, &[&str], i32, &[&str]) -> (i32, Option<H>) + Copy,
            OI: Fn() -> (i32, O) + Copy,
            SC: for<'b> Fn(&Handle<H>, O, &SolverOptions<'b, V, H>, Option<i32>) -> (i32, Option<H>) + Copy,
            LC: Fn(&Handle<H>) -> (i32, Option<H>) + Copy,
            PC: Fn(&Handle<H>) -> (i32, Option<H>) + Copy,
            NC: Fn(&Handle<H>) -> (i32, i32) + Copy,
            NL: Fn() -> (i32, i32) + Copy,
            NB: Fn(&Handle<H>, i32, i32) -> (i32, Vec<u8>) + Copy,
        requires
            calls.ready(),
        ensures
            self.built(calls, r),
    {
        let ghost b = self;
        let code = (calls.init)();
        if let Err(e) = check(code, "cea_init") {
            let r = Err(e);
            assert(b.built_from_init(calls, code, r));
            return r;
        }
        if self.reactants.len() == 0 {
            let r = Err(invalid_input("EquilibriumBuilder::build", "reactants are required"));
            assert(b.built_from_init(calls, code, r));
            return r;
        }
        let refs = borrowed_strings(self.reactants.as_slice());
        let rs = refs.as_slice();
        let rm = if self.ions {
            Mixture::new_with_ions(rs, calls.mixture_with_ions)
        } else {
            Mixture::new(rs, calls.mixture)
        };
        assert(names_match(rs@, b.spec_reactants()));
        assert(b.species_made(calls, rs, rm));
        assert(b.reactants_made(calls, rm));
        let ghost g_rm = rm;
        let reac = match rm {
            Err(e) => {
                let r = Err(e);
                assert(b.built_from_reactants(calls, g_rm, r));
                assert(b.built_from_init(calls, code, r));
                return r;
            },
            Ok(m) => m,
        };
        let ghost g_reac = reac;
        let pm = match &self.products {
            ProductSelection::Explicit(species) => {
                if species.len() == 0 {
                    let pm = Err(invalid_input("EquilibriumBuilder::build", "products cannot be empty"));
                    assert(b.products_made(calls, pm));
                    pm
                } else {
                    let prefs = borrowed_strings(species.as_slice());
                    let ps = prefs.as_slice();
                    let pm = if self.ions {
                        Mixture::new_with_ions(ps, calls.mixture_with_ions)
                    } else {
                        Mixture::new(ps, calls.mixture)
                    };
                    assert(names_match(ps@, species@));
                    assert(b.species_made(calls, ps, pm));
                    assert(b.products_made(calls, pm));
                    pm
                }
            },
            ProductSelection::FromReactants { omit } => {
                let orefs = borrowed_strings(omit.as_slice());
                let os = orefs.as_slice();
                let pm = if self.ions {
                    Mixture::from_reactants_with_ions(rs, os, calls.from_reactants_with_ions)
                } else {
                    Mixture::from_reactants(rs, os, calls.from_reactants)
                };
                assert(names_match(os@, omit@));
                assert(b.omitted_made(calls, rs, os, pm));
                assert(b.products_made(calls, pm));
                pm
            },
        };
        let ghost g_pm = pm;
        let prod = match pm {
            Err(e) => {
                let r = Err(e);
                assert(b.built_from_products(calls, g_reac, g_pm, r));
                assert(b.built_from_reactants(calls, g_rm, r));
                assert(b.built_from_init(calls, code, r));
                return r;
            },
            Ok(m) => m,
        };
        let ghost g_prod = prod;
        let insert_refs = borrowed_strings(self.insert.as_slice());
        let opts = SolverOptions {
            trace: self.trace,
            ions: self.ions,
            transport: self.transport,
            reactants: Some(&reac),
            insert: insert_refs,
        };
        let ghost g_opts = opts;
        assert(b.options_for(g_opts, &reac));
        let sr = EqSolver::with_options(&prod, opts, calls.solver_options, calls.solver);
        assert(b.solver_made(calls, &g_reac, &g_prod, sr));
        let ghost g_sr = sr;
        let solver = match sr {
            Err(e) => {
                let r = Err(e);
                assert(b.built_from_solver(calls, g_reac, g_prod, g_sr, r));
                assert(b.built_from_products(calls, g_reac, g_pm, r));
                assert(b.built_from_reactants(calls, g_rm, r));
                assert(b.built_from_init(calls, code, r));
                return r;
            },
            Ok(v) => v,
        };
        let ghost g_solver = solver;
        let so = EqSolution::new(&solver, calls.solution);
        let ghost g_so = so;
        let soln = match so {
            Err(e) => {
                let r = Err(e);
                assert(b.built_from_solution(calls, g_reac, g_prod, g_solver, g_so, r));
                assert(b.built_from_solver(calls, g_reac, g_prod, g_sr, r));
                assert(b.built_from_products(calls, g_reac, g_pm, r));
                assert(b.built_from_reactants(calls, g_rm, r));
                assert(b.built_from_init(calls, code, r));
                return r;
            },
            Ok(v) => v,
        };
        let ghost g_soln = soln;
        let pa = EqPartials::new(&solver, calls.partials);
        let ghost g_pa = pa;
        let partials = match pa {
            Err(e) => {
                let r = Err(e);
                assert(b.built_from_partials(calls, g_reac, g_prod, g_solver, g_soln, g_pa, r));
                assert(b.built_from_solution(calls, g_reac, g_prod, g_solver, g_so, r));
                assert(b.built_from_solver(calls, g_reac, g_prod, g_sr, r));
                assert(b.built_from_products(calls, g_reac, g_pm, r));
                assert(b.built_from_reactants(calls, g_rm, r));
                assert(b.built_from_init(calls, code, r));
                return r;
            },
            Ok(v) => v,
        };
        let ghost g_partials = partials;
        let nr = prod.species_names(calls.species_count, calls.name_len, calls.species_names);
        let ghost g_nr = nr;
        let names = match nr {
            Err(e) => {
                let r = Err(e);
                assert(b.built_from_names(calls, g_reac, g_prod, g_solver, g_soln, g_partials, g_nr, r));
                assert(b.built_from_partials(calls, g_reac, g_prod, g_solver, g_soln, g_pa, r));
                assert(b.built_from_solution(calls, g_reac, g_prod, g_solver, g_so, r));
                assert(b.built_from_solver(calls, g_reac, g_prod, g_sr, r));
                assert(b.built_from_products(calls, g_reac, g_pm, r));
                assert(b.built_from_reactants(calls, g_rm, r));
                assert(b.built_from_init(calls, code, r));
                return r;
            },
            Ok(v) => v,
        };
        let r = Ok(
            Equilibrium::from_parts(partials, soln, solver, prod, reac, self.reactants, names, self.transport),
        );
        assert(b.built_from_names(calls, g_reac, g_prod, g_solver, g_soln, g_partials, g_nr, r));
        assert(b.built_from_partials(calls, g_reac, g_prod, g_solver, g_soln, g_pa, r));
        assert(b.built_from_solution(calls, g_reac, g_prod, g_solver, g_so, r));
        assert(b.built_from_solver(calls, g_reac, g_prod, g_sr, r));
        assert(b.built_from_products(calls, g_reac, g_pm, r));
        assert(b.built_from_reactants(calls, g_rm, r));
        assert(b.built_from_init(calls, code, r));
        r
    }

}

/// The names as owned strings.
pub fn collect_strings(values: &[&str]) -> (r: Vec<String>)
    ensures
        names_match(values@, r@),
{
    let mut r: Vec<String> = Vec::new();
    let mut i: usize = 0;
    while i < values.len()
        invariant
            i <= values@.len(),
            r@.len() == i,
            forall|k: int| 0 <= k < i ==> #[trigger] values@[k]@ == r@[k]@,
        decreases values@.len() - i,
    {
        r.push(values[i].to_owned());
        i = i + 1;
    }
    r
}

/// `b` is the builder of a one-shot problem: these reactants, exactly these products, no
/// ions, no transport, nothing inserted, the default trace.
pub open spec fn one_shot_builder<V: Default>(b: EquilibriumBuilder<V>, reactants: &[&str], products: &[&str]) -> bool {
    &&& call_ensures(V::default, (), b.spec_trace())
    &&& names_match(reactants@, b.spec_reactants())
    &&& b.spec_products() matches ProductSelection::Explicit(p) && names_match(products@, p@)
    &&& !b.spec_ions()
    &&& !b.spec_transport()
    &&& b.spec_insert().len() == 0
}

/// `r` is what a one-shot problem whose build gave `er` gives once solved at a
/// temperature and pressure.
pub open spec fn tp_after_build<H, V, S, A, P, C, M>(
    er: CeaResult<Equilibrium<H>>,
    calls: &SolveCalls<S, A, P, C, M>,
    temperature: V,
    pressure: V,
    reactant_weights: Seq<V>,
    r: CeaResult<EquilibriumResult<V>>,
) -> bool
    where
        S: Fn(&Handle<H>, EquilibriumType, V, V, &[V], &Handle<H>, &Handle<H>) -> (i32, Vec<V>) + Copy,
        A: Fn(&Handle<H>, i32, bool) -> (i32, Vec<V>) + Copy,
        P: Fn(&Handle<H>, PropertyType) -> (i32, V) + Copy,
        C: Fn(&Handle<H>) -> (i32, i32) + Copy,
        M: Fn(&Handle<H>) -> (i32, V) + Copy,
{
    match er {
        Err(_) => propagates(er, r),
        Ok(eq) => eq.solved_state(calls, EquilibriumType::Tp, temperature, pressure, reactant_weights, r),
    }
}

/// A one-shot temperature-pressure solve on a built problem is the problem's solve as a
/// temperature-pressure problem, the temperature as the first state and the pressure as
/// the second.
pub proof fn lemma_one_shot_tp_solves_at_the_given_state<H, V, S, A, P, C, M>(
    eq: Equilibrium<H>,
    calls: &SolveCalls<S, A, P, C, M>,
    temperature: V,
    pressure: V,
    reactant_weights: Seq<V>,
    r: CeaResult<EquilibriumResult<V>>,
)
    where
        S: Fn(&Handle<H>, EquilibriumType, V, V, &[V], &Handle<H>, &Handle<H>) -> (i32, Vec<V>) + Copy,
        A: Fn(&Handle<H>, i32, bool) -> (i32, Vec<V>) + Copy,
        P: Fn(&Handle<H>, PropertyType) -> (i32, V) + Copy,
        C: Fn(&Handle<H>) -> (i32, i32) + Copy,
        M: Fn(&Handle<H>) -> (i32, V) + Copy,
    requires
        tp_after_build(Ok(eq), calls, temperature, pressure, reactant_weights, r),
    ensures
        eq.solved_state(calls, EquilibriumType::Tp, temperature, pressure, reactant_weights, r),
{
}

/// `r` is what a one-shot problem whose build gave `er` gives once solved at a
/// temperature and pressure for fuel and oxidant in moles.
pub open spec fn tp_moles_after_build<H, V, T, E, W, S, A, P, C, M>(
    er: CeaResult<Equilibrium<H>>,
    to_weights: T,
    chem_eq: E,
    of_to_weights: W,
    calls: &SolveCalls<S, A, P, C, M>,
    temperature: V,
    pressure: V,
    fuel_moles: &[V],
    oxidant_moles: &[V],
    ratio: V,
    r: CeaResult<EquilibriumResult<V>>,
) -> bool
    where
        S: Fn(&Handle<H>, EquilibriumType, V, V, &[V], &Handle<H>, &Handle<H>) -> (i32, Vec<V>) + Copy,
        A: Fn(&Handle<H>, i32, bool) -> (i32, Vec<V>) + Copy,
        P: Fn(&Handle<H>, PropertyType) -> (i32, V) + Copy,
        C: Fn(&Handle<H>) -> (i32, i32) + Copy,
        M: Fn(&Handle<H>) -> (i32, V) + Copy,
        T: Fn(&Handle<H>, i32, &[V]) -> (i32, Vec<V>),
        E: Fn(&Handle<H>, i32, &[V], &[V], V) -> (i32, V),
        W: Fn(&Handle<H>, i32, &[V], &[V], V) -> (i32, Vec<V>),
{
    match er {
        Err(_) => propagates(er, r),
        Ok(eq) => eq.tp_chem_eq_moles(
            to_weights,
            chem_eq,
            of_to_weights,
            calls,
            temperature,
            pressure,
            fuel_moles,
            oxidant_moles,
            ratio,
            r,
        ),
    }
}

/// Sets up the problem of these reactants and products and solves it once at a
/// temperature and pressure.
pub fn solve_tp<H, V: Copy + Default, O, I, MC, MI, RC, RI, OI, SC, LC, PC, NC, NL, NB, S, A, P, C, M>(
    reactants: &[&str],
    products: &[&str],
    temperature: V,
    pressure: V,
    reactant_weights: &[V],
    build: &BuildCalls<I, MC, MI, RC, RI, OI, SC, LC, PC, NC, NL, NB>,
    calls: &SolveCalls<S, A, P, C, M>,
) -> (r: CeaResult<EquilibriumResult<V>>)
    where
        I: Fn() -> i32 + Copy,
        MC: Fn(i32, &[&str]) -> (i32, Option<H>) + Copy,
        MI: Fn(i32, &[&str]) -> (i32, Option<H>) + Copy,
        RC: Fn(i32, &[&str], i32, &[&str]) -> (i32, Option<H>) + Copy,
        RI: Fn(i32, &[&str], i32, &[&str]) -> (i32, Option<H>) + Copy,
        OI: Fn() -> (i32, O) + Copy,
        SC: for<'b> Fn(&Handle<H>, O, &SolverOptions<'b, V, H>, Option<i32>) -> (i32, Option<H>) + Copy,
        LC: Fn(&Handle<H>) -> (i32, Option<H>) + Copy,
        PC: Fn(&Handle<H>) -> (i32, Option<H>) + Copy,
        NC: Fn(&Handle<H>) -> (i32, i32) + Copy,
        NL: Fn() -> (i32, i32) + Copy,
        NB: Fn(&Handle<H>, i32, i32) -> (i32, Vec<u8>) + Copy,
        S: Fn(&Handle<H>, EquilibriumType, V, V, &[V], &Handle<H>, &Handle<H>) -> (i32, Vec<V>) + Copy,
        A: Fn(&Handle<H>, i32, bool) -> (i32, Vec<V>) + Copy,
        P: Fn(&Handle<H>, PropertyType) -> (i32, V) + Copy,
        C: Fn(&Handle<H>) -> (i32, i32) + Copy,
        M: Fn(&Handle<H>) -> (i32, V) + Copy,
    requires
        build.ready(),
        calls.ready(),
    ensures
        exists|b: EquilibriumBuilder<V>, er: CeaResult<Equilibrium<H>>|
            one_shot_builder(b, reactants, products) && #[trigger] b.built(build, er) && #[trigger] tp_after_build(er, calls, temperature, pressure, reactant_weights@, r),
        exists|b: EquilibriumBuilder<V>, er: CeaResult<Equilibrium<H>>|
            one_shot_builder(b, reactants, products) && #[trigger] b.built(build, er) && (er is Err
                ==> propagates(er, r)) && (er matches Ok(eq) ==> eq.solved_state(
                calls,
                EquilibriumType::Tp,
                temperature,
                pressure,
                reactant_weights@,
                r,
            )),
{
    let b = Equilibrium::<H>::builder::<V>().reactants(collect_strings(reactants)).products(collect_strings(products));
    let ghost gb = b;
    let er = b.build(build);
    let ghost ger = er;
    let r = match er {
        Err(e) => Err(e),
        Ok(eq) => {
            let mut eq = eq;
            eq.tp(temperature, pressure, reactant_weights, calls)
        },
    };
    assert(tp_after_build(ger, calls, temperature, pressure, reactant_weights@, r));
    assert(one_shot_builder(gb, reactants, products));
    assert(gb.built(build, ger));
    r
}

/// Sets up the problem of these reactants and products and solves it once at a
/// temperature and pressure, for fuel and oxidant in moles at a chemical equivalence ratio.
pub fn solve_tp_equivalence_moles<H, V: Copy + Default, O, I, MC, MI, RC, RI, OI, SC, LC, PC, NC, NL, NB, T, E, W, S, A, P, C, M>(
    reactants: &[&str],
    products: &[&str],
    temperature: V,
    pressure: V,
    fuel_moles: &[V],
    oxidant_moles: &[V],
    chemical_equivalence_ratio: V,
    build: &BuildCalls<I, MC, MI, RC, RI, OI, SC, LC, PC, NC, NL, NB>,
    to_weights: T,
    chem_eq: E,
    of_to_weights: W,
    calls: &SolveCalls<S, A, P, C, M>,
) -> (r: CeaResult<EquilibriumResult<V>>)
    where
        I: Fn() -> i32 + Copy,
        MC: Fn(i32, &[&str]) -> (i32, Option<H>) + Copy,
        MI: Fn(i32, &[&str]) -> (i32, Option<H>) + Copy,
        RC: Fn(i32, &[&str], i32, &[&str]) -> (i32, Option<H>) + Copy,
        RI: Fn(i32, &[&str], i32, &[&str]) -> (i32, Option<H>) + Copy,
        OI: Fn() -> (i32, O) + Copy,
        SC: for<'b> Fn(&Handle<H>, O, &SolverOptions<'b, V, H>, Option<i32>) -> (i32, Option<H>) + Copy,
        LC: Fn(&Handle<H>) -> (i32, Option<H>) + Copy,
        PC: Fn(&Handle<H>) -> (i32, Option<H>) + Copy,
        NC: Fn(&Handle<H>) -> (i32, i32) + Copy,
        NL: Fn() -> (i32, i32) + Copy,
        NB: Fn(&Handle<H>, i32, i32) -> (i32, Vec<u8>) + Copy,
        S: Fn(&Handle<H>, EquilibriumType, V, V, &[V], &Handle<H>, &Handle<H>) -> (i32, Vec<V>) + Copy,
        A: Fn(&Handle<H>, i32, bool) -> (i32, Vec<V>) + Copy,
        P: Fn(&Handle<H>, PropertyType) -> (i32, V) + Copy,
        C: Fn(&Handle<H>) -> (i32, i32) + Copy,
        M: Fn(&Handle<H>) -> (i32, V) + Copy,
        T: Fn(&Handle<H>, i32, &[V]) -> (i32, Vec<V>) + Copy,
        E: Fn(&Handle<H>, i32, &[V], &[V], V) -> (i32, V),
        W: Fn(&Handle<H>, i32, &[V], &[V], V) -> (i32, Vec<V>),
    requires
        build.ready(),
        calls.ready(),
        forall|h: &Handle<H>, n: i32, x: &[V]| to_weights.requires((h, n, x)),
        forall|h: &Handle<H>, n: i32, o: &[V], f: &[V], v: V| chem_eq.requires((h, n, o, f, v)),
        forall|h: &Handle<H>, n: i32, o: &[V], f: &[V], v: V| of_to_weights.requires((h, n, o, f, v)),
    ensures
        exists|b: EquilibriumBuilder<V>, er: CeaResult<Equilibrium<H>>|
            one_shot_builder(b, reactants, products) && #[trigger] b.built(build, er) && #[trigger] tp_moles_after_build(
                er,
                to_weights,
                chem_eq,
                of_to_weights,
                calls,
                temperature,
                pressure,
                fuel_moles,
                oxidant_moles,
                chemical_equivalence_ratio,
                r,
            ),
        r matches Ok(res) ==> exists|b: EquilibriumBuilder<V>, eq: Equilibrium<H>|
            one_shot_builder(b, reactants, products) && #[trigger] b.built(build, Ok(eq)) && exists|fw: Vec<V>, ow: Vec<V>, f: &[V], o: &[V], of: V, w: Vec<V>|
                #![trigger eq.spec_reactants().converted(to_weights, fuel_moles, "moles_to_weights"@, "cea_mixture_moles_to_weights"@, Ok(fw)), eq.spec_reactants().converted(to_weights, oxidant_moles, "moles_to_weights"@, "cea_mixture_moles_to_weights"@, Ok(ow)), eq.spec_reactants().ratio_weights(of_to_weights, o, f, of, Ok(w))]
                eq.spec_reactants().converted(to_weights, fuel_moles, "moles_to_weights"@, "cea_mixture_moles_to_weights"@, Ok(fw))
                    && eq.spec_reactants().converted(to_weights, oxidant_moles, "moles_to_weights"@, "cea_mixture_moles_to_weights"@, Ok(ow))
                    && f@ == fw@ && o@ == ow@
                    && eq.spec_reactants().ratio_answered(
                        chem_eq,
                        o,
                        f,
                        chemical_equivalence_ratio,
                        "chem_eq_ratio_to_of_ratio"@,
                        "cea_mixture_chem_eq_ratio_to_of_ratio"@,
                        Ok(of),
                    ) && eq.spec_reactants().ratio_weights(of_to_weights, o, f, of, Ok(w))
                    && eq.solved_state(calls, EquilibriumType::Tp, temperature, pressure, w@, Ok(res)),
{
    let b = Equilibrium::<H>::builder::<V>().reactants(collect_strings(reactants)).products(collect_strings(products));
    let ghost gb = b;
    let er = b.build(build);
    let ghost ger = er;
    let r = match er {
        Err(e) => Err(e),
        Ok(eq) => {
            let mut eq = eq;
            eq.tp_with_chemical_equivalence_moles(
                temperature,
                pressure,
                fuel_moles,
                oxidant_moles,
                chemical_equivalence_ratio,
                to_weights,
                chem_eq,
                of_to_weights,
                calls,
            )
        },
    };
    assert(tp_moles_after_build(
        ger,
        to_weights,
        chem_eq,
        of_to_weights,
        calls,
        temperature,
        pressure,
        fuel_moles,
        oxidant_moles,
        chemical_equivalence_ratio,
        r,
    ));
    assert(one_shot_builder(gb, reactants, products));
    proof {
        if r is Ok {
            let eq = ger->Ok_0;
            eq.lemma_moles_solve_keeps_fuel_and_oxidant_apart(
                to_weights,
                chem_eq,
                of_to_weights,
                calls,
                temperature,
                pressure,
                fuel_moles,
                oxidant_moles,
                chemical_equivalence_ratio,
                r->Ok_0,
            );
            assert(gb.built(build, Ok(eq)));
        }
    }
    r
}

/// `r` is what solving `n` cases one after another gives when the solves answered `outs`,
/// in order: the solves stop at the first failure, whose error is the result; when none
/// fails, the results of all cases, in case order.
pub open spec fn cases_outcome<V>(
    outs: Seq<CeaResult<EquilibriumResult<V>>>,
    n: nat,
    r: CeaResult<Vec<EquilibriumResult<V>>>,
) -> bool {
    &&& outs.len() <= n
    &&& forall|i: int| 0 <= i < outs.len() - 1 ==> (#[trigger] outs[i]) is Ok
    &&& match r {
        Ok(v) => outs.len() == n && v@.len() == n && forall|i: int|
            0 <= i < n ==> ((#[trigger] outs[i]) matches Ok(x) && v@[i] == x),
        Err(e) => outs.len() > 0 && (outs.last() matches Err(x) && x@ == e@),
    }
}

impl<H> Equilibrium<H> {
    /// `outs` are what solving the first temperature-pressure cases gives, each in turn.
    pub open spec fn tp_cases_solved<V, S, A, P, C, M>(
        &self,
        calls: &SolveCalls<S, A, P, C, M>,
        cases: Seq<TpCase<V>>,
        outs: Seq<CeaResult<EquilibriumResult<V>>>,
    ) -> bool
        where
            S: Fn(&Handle<H>, EquilibriumType, V, V, &[V], &Handle<H>, &Handle<H>) -> (i32, Vec<V>) + Copy,
            A: Fn(&Handle<H>, i32, bool) -> (i32, Vec<V>) + Copy,
            P: Fn(&Handle<H>, PropertyType) -> (i32, V) + Copy,
            C: Fn(&Handle<H>) -> (i32, i32) + Copy,
            M: Fn(&Handle<H>) -> (i32, V) + Copy,
    {
        forall|i: int|
            0 <= i < outs.len() ==> self.solved_state(
                calls,
                EquilibriumType::Tp,
                cases[i].temperature,
                cases[i].pressure,
                cases[i].reactant_weights@,
                #[trigger] outs[i],
            )
    }

    /// `r` is what solving the temperature-pressure cases in turn gives.
    pub open spec fn tp_cases_run<V, S, A, P, C, M>(
        &self,
        calls: &SolveCalls<S, A, P, C, M>,
        cases: Seq<TpCase<V>>,
        r: CeaResult<Vec<EquilibriumResult<V>>>,
    ) -> bool
        where
            S: Fn(&Handle<H>, EquilibriumType, V, V, &[V], &Handle<H>, &Handle<H>) -> (i32, Vec<V>) + Copy,
            A: Fn(&Handle<H>, i32, bool) -> (i32, Vec<V>) + Copy,
            P: Fn(&Handle<H>, PropertyType) -> (i32, V) + Copy,
            C: Fn(&Handle<H>) -> (i32, i32) + Copy,
            M: Fn(&Handle<H>) -> (i32, V) + Copy,
    {
        exists|outs: Seq<CeaResult<EquilibriumResult<V>>>|
            self.tp_cases_solved(calls, cases, outs) && #[trigger] cases_outcome(outs, cases.len(), r)
    }

    /// Each case of a temperature-pressure run is solved as a temperature-pressure problem
    /// at its own temperature, pressure and reactant weights: on success the `i`-th result
    /// is that solve's result for the `i`-th case, one result per case; a failure is the
    /// failure of that solve for one of the cases.
    pub proof fn lemma_tp_cases_solve_each_case_at_its_state<V, S, A, P, C, M>(
        &self,
        calls: &SolveCalls<S, A, P, C, M>,
        cases: Seq<TpCase<V>>,
        r: CeaResult<Vec<EquilibriumResult<V>>>,
    )
        where
            S: Fn(&Handle<H>, EquilibriumType, V, V, &[V], &Handle<H>, &Handle<H>) -> (i32, Vec<V>) + Copy,
            A: Fn(&Handle<H>, i32, bool) -> (i32, Vec<V>) + Copy,
            P: Fn(&Handle<H>, PropertyType) -> (i32, V) + Copy,
            C: Fn(&Handle<H>) -> (i32, i32) + Copy,
            M: Fn(&Handle<H>) -> (i32, V) + Copy,
        requires
            self.tp_cases_run(calls, cases, r),
        ensures
            r matches Ok(v) ==> v@.len() == cases.len() && forall|i: int|
                0 <= i < cases.len() ==> #[trigger] self.solved_state(
                    calls,
                    EquilibriumType::Tp,
                    cases[i].temperature,
                    cases[i].pressure,
                    cases[i].reactant_weights@,
                    Ok(v@[i]),
                ),
            r matches Err(e) ==> exists|k: int, x: Error|
                0 <= k < cases.len() && x@ == e@ && #[trigger] self.solved_state(
                    calls,
                    EquilibriumType::Tp,
                    cases[k].temperature,
                    cases[k].pressure,
                    cases[k].reactant_weights@,
                    Err(x),
                ),
    {
        let outs = choose|outs: Seq<CeaResult<EquilibriumResult<V>>>|
            self.tp_cases_solved(calls, cases, outs) && #[trigger] cases_outcome(outs, cases.len(), r);
        if r is Ok {
            let v = r->Ok_0;
            assert forall|i: int| 0 <= i < cases.len() implies #[trigger] self.solved_state(
                calls,
                EquilibriumType::Tp,
                cases[i].temperature,
                cases[i].pressure,
                cases[i].reactant_weights@,
                Ok(v@[i]),
            ) by {
                assert(outs[i] matches Ok(x) && v@[i] == x);
                assert(outs[i] == Ok::<EquilibriumResult<V>, Error>(v@[i]));
            }
        } else {
            let k = outs.len() - 1;
            let x = outs[k]->Err_0;
            assert(self.solved_state(
                calls,
                EquilibriumType::Tp,
                cases[k].temperature,
                cases[k].pressure,
                cases[k].reactant_weights@,
                Err(x),
            ));
        }
    }

    /// Solves the temperature-pressure cases one after another, in order, stopping at the
    /// first failure; the problem is left as it was.
    pub fn tp_cases<V: Copy + Default, S, A, P, C, M>(
        &mut self,
        cases: &[TpCase<V>],
        calls: &SolveCalls<S, A, P, C, M>,
    ) -> (r: CeaResult<Vec<EquilibriumResult<V>>>)
        where
            S: Fn(&Handle<H>, EquilibriumType, V, V, &[V], &Handle<H>, &Handle<H>) -> (i32, Vec<V>) + Copy,
            A: Fn(&Handle<H>, i32, bool) -> (i32, Vec<V>) + Copy,
            P: Fn(&Handle<H>, PropertyType) -> (i32, V) + Copy,
            C: Fn(&Handle<H>) -> (i32, i32) + Copy,
            M: Fn(&Handle<H>) -> (i32, V) + Copy,
        requires
            calls.ready(),
        ensures
            *final(self) == *old(self),
            old(self).tp_cases_run(calls, cases@, r),
            r matches Ok(v) ==> v@.len() == cases@.len() && forall|i: int|
                0 <= i < cases@.len() ==> #[trigger] old(self).solved_state(
                    calls,
                    EquilibriumType::Tp,
                    cases@[i].temperature,
                    cases@[i].pressure,
                    cases@[i].reactant_weights@,
                    Ok(v@[i]),
                ),
            r matches Err(e) ==> exists|k: int, x: Error|
                0 <= k < cases@.len() && x@ == e@ && #[trigger] old(self).solved_state(
                    calls,
                    EquilibriumType::Tp,
                    cases@[k].temperature,
                    cases@[k].pressure,
                    cases@[k].reactant_weights@,
                    Err(x),
                ),
    {
        let ghost start = *self;
        let ghost mut outs: Seq<CeaResult<EquilibriumResult<V>>> = Seq::empty();
        let mut results: Vec<EquilibriumResult<V>> = Vec::new();
        let mut i: usize = 0;
        while i < cases.len()
            invariant
                *self == start,
                start == *old(self),
                calls.ready(),
                i <= cases@.len(),
                outs.len() == i,
                results@.len() == i,
                start.tp_cases_solved(calls, cases@, outs),
                forall|k: int| 0 <= k < i ==> ((#[trigger] outs[k]) matches Ok(x) && results@[k] == x),
            decreases cases@.len() - i,
        {
            let case = &cases[i];
            let o = self.tp(case.temperature, case.pressure, case.reactant_weights.as_slice(), calls);
            proof {
                outs = outs.push(o);
                assert(outs[i as int] == o);
            }
            match o {
                Err(e) => {
                    let r: CeaResult<Vec<EquilibriumResult<V>>> = Err(e);
                    assert(cases_outcome(outs, cases@.len(), r));
                    assert(start.tp_cases_solved(calls, cases@, outs));
                    proof {
                        start.lemma_tp_cases_solve_each_case_at_its_state(calls, cases@, r);
                    }
                    return r;
                },
                Ok(x) => {
                    results.push(x);
                },
            }
            i = i + 1;
        }
        let r: CeaResult<Vec<EquilibriumResult<V>>> = Ok(results);
        assert(cases_outcome(outs, cases@.len(), r));
        proof {
            start.lemma_tp_cases_solve_each_case_at_its_state(calls, cases@, r);
        }
        r
    }

    /// `outs` are what solving the first cases given by fuel and oxidant moles at a chemical
    /// equivalence ratio gives, each in turn.
    pub open spec fn tp_moles_cases_solved<V, T, E, W, S, A, P, C, M>(
        &self,
        to_weights: T,
        chem_eq: E,
        of_to_weights: W,
        calls: &SolveCalls<S, A, P, C, M>,
        cases: Seq<TpEquivalenceMolesCase<V>>,
        outs: Seq<CeaResult<EquilibriumResult<V>>>,
    ) -> bool
        where
            T: Fn(&Handle<H>, i32, &[V]) -> (i32, Vec<V>) + Copy,
            E: Fn(&Handle<H>, i32, &[V], &[V], V) -> (i32, V) + Copy,
            W: Fn(&Handle<H>, i32, &[V], &[V], V) -> (i32, Vec<V>) + Copy,
            S: Fn(&Handle<H>, EquilibriumType, V, V, &[V], &Handle<H>, &Handle<H>) -> (i32, Vec<V>) + Copy,
            A: Fn(&Handle<H>, i32, bool) -> (i32, Vec<V>) + Copy,
            P: Fn(&Handle<H>, PropertyType) -> (i32, V) + Copy,
            C: Fn(&Handle<H>) -> (i32, i32) + Copy,
            M: Fn(&Handle<H>) -> (i32, V) + Copy,
    {
        forall|i: int| 0 <= i < outs.len() ==> #[trigger] self.tp_moles_case_solved(
            to_weights,
            chem_eq,
            of_to_weights,
            calls,
            cases[i],
            outs[i],
        )
    }

    /// `o` is what solving one case given by moles gives.
    pub open spec fn tp_moles_case_solved<V, T, E, W, S, A, P, C, M>(
        &self,
        to_weights: T,
        chem_eq: E,
        of_to_weights: W,
        calls: &SolveCalls<S, A, P, C, M>,
        case: TpEquivalenceMolesCase<V>,
        o: CeaResult<EquilibriumResult<V>>,
    ) -> bool
        where
            T: Fn(&Handle<H>, i32, &[V]) -> (i32, Vec<V>) + Copy,
            E: Fn(&Handle<H>, i32, &[V], &[V], V) -> (i32, V) + Copy,
            W: Fn(&Handle<H>, i32, &[V], &[V], V) -> (i32, Vec<V>) + Copy,
            S: Fn(&Handle<H>, EquilibriumType, V, V, &[V], &Handle<H>, &Handle<H>) -> (i32, Vec<V>) + Copy,
            A: Fn(&Handle<H>, i32, bool) -> (i32, Vec<V>) + Copy,
            P: Fn(&Handle<H>, PropertyType) -> (i32, V) + Copy,
            C: Fn(&Handle<H>) -> (i32, i32) + Copy,
            M: Fn(&Handle<H>) -> (i32, V) + Copy,
    {
        exists|fuel: &[V], oxidant: &[V]|
            fuel@ == case.fuel_moles@ && oxidant@ == case.oxidant_moles@ && #[trigger] self.tp_chem_eq_moles(
                to_weights,
                chem_eq,
                of_to_weights,
                calls,
                case.temperature,
                case.pressure,
                fuel,
                oxidant,
                case.chemical_equivalence_ratio,
                o,
            )
    }

    /// `r` is what solving the cases given by moles in turn gives.
    pub open spec fn tp_moles_cases_run<V, T, E, W, S, A, P, C, M>(
        &self,
        to_weights: T,
        chem_eq: E,
        of_to_weights: W,
        calls: &SolveCalls<S, A, P, C, M>,
        cases: Seq<TpEquivalenceMolesCase<V>>,
        r: CeaResult<Vec<EquilibriumResult<V>>>,
    ) -> bool
        where
            T: Fn(&Handle<H>, i32, &[V]) -> (i32, Vec<V>) + Copy,
            E: Fn(&Handle<H>, i32, &[V], &[V], V) -> (i32, V) + Copy,
            W: Fn(&Handle<H>, i32, &[V], &[V], V) -> (i32, Vec<V>) + Copy,
            S: Fn(&Handle<H>, EquilibriumType, V, V, &[V], &Handle<H>, &Handle<H>) -> (i32, Vec<V>) + Copy,
            A: Fn(&Handle<H>, i32, bool) -> (i32, Vec<V>) + Copy,
            P: Fn(&Handle<H>, PropertyType) -> (i32, V) + Copy,
            C: Fn(&Handle<H>) -> (i32, i32) + Copy,
            M: Fn(&Handle<H>) -> (i32, V) + Copy,
    {
        exists|outs: Seq<CeaResult<EquilibriumResult<V>>>|
            self.tp_moles_cases_solved(to_weights, chem_eq, of_to_weights, calls, cases, outs)
                && #[trigger] cases_outcome(outs, cases.len(), r)
    }

    /// `res` is the result of solving `case` with its fuel and its oxidant kept apart: its
    /// fuel moles and its oxidant moles are each converted to weights by the moles-to-weights
    /// routine; the oxidant weights are handed first and the fuel weights second to the
    /// routine giving the oxidant-to-fuel ratio for the case's equivalence ratio, and again,
    /// with that ratio, to the routine giving the reactant weights; and a
    /// temperature-pressure problem is solved at the case's temperature and pressure from
    /// those weights.
    pub open spec fn fuel_and_oxidant_solved<V, T, E, W, S, A, P, C, M>(
        &self,
        to_weights: T,
        chem_eq: E,
        of_to_weights: W,
        calls: &SolveCalls<S, A, P, C, M>,
        case: TpEquivalenceMolesCase<V>,
        res: EquilibriumResult<V>,
    ) -> bool
        where
            T: Fn(&Handle<H>, i32, &[V]) -> (i32, Vec<V>) + Copy,
            E: Fn(&Handle<H>, i32, &[V], &[V], V) -> (i32, V) + Copy,
            W: Fn(&Handle<H>, i32, &[V], &[V], V) -> (i32, Vec<V>) + Copy,
            S: Fn(&Handle<H>, EquilibriumType, V, V, &[V], &Handle<H>, &Handle<H>) -> (i32, Vec<V>) + Copy,
            A: Fn(&Handle<H>, i32, bool) -> (i32, Vec<V>) + Copy,
            P: Fn(&Handle<H>, PropertyType) -> (i32, V) + Copy,
            C: Fn(&Handle<H>) -> (i32, i32) + Copy,
            M: Fn(&Handle<H>) -> (i32, V) + Copy,
    {
        exists|fm: &[V], om: &[V], fw: Vec<V>, ow: Vec<V>, f: &[V], o: &[V], of: V, w: Vec<V>|
            #![trigger self.spec_reactants().converted(to_weights, fm, "moles_to_weights"@, "cea_mixture_moles_to_weights"@, Ok(fw)), self.spec_reactants().converted(to_weights, om, "moles_to_weights"@, "cea_mixture_moles_to_weights"@, Ok(ow)), self.spec_reactants().ratio_weights(of_to_weights, o, f, of, Ok(w))]
            fm@ == case.fuel_moles@ && om@ == case.oxidant_moles@
                && self.spec_reactants().converted(to_weights, fm, "moles_to_weights"@, "cea_mixture_moles_to_weights"@, Ok(fw))
                && self.spec_reactants().converted(to_weights, om, "moles_to_weights"@, "cea_mixture_moles_to_weights"@, Ok(ow))
                && f@ == fw@ && o@ == ow@
                && self.spec_reactants().ratio_answered(
                chem_eq,
                o,
                f,
                case.chemical_equivalence_ratio,
                "chem_eq_ratio_to_of_ratio"@,
                "cea_mixture_chem_eq_ratio_to_of_ratio"@,
                Ok(of),
            ) && self.spec_reactants().ratio_weights(of_to_weights, o, f, of, Ok(w))
                && self.solved_state(calls, EquilibriumType::Tp, case.temperature, case.pressure, w@, Ok(res))
    }

    /// Each case of a run of cases given by moles is solved from its own fuel moles as the
    /// fuel and its own oxidant moles as the oxidant, at its own temperature, pressure and
    /// equivalence ratio: on success the `i`-th result is that solve's result for the `i`-th
    /// case, one result per case.
    pub proof fn lemma_moles_cases_keep_each_case_in_order<V, T, E, W, S, A, P, C, M>(
        &self,
        to_weights: T,
        chem_eq: E,
        of_to_weights: W,
        calls: &SolveCalls<S, A, P, C, M>,
        cases: Seq<TpEquivalenceMolesCase<V>>,
        r: CeaResult<Vec<EquilibriumResult<V>>>,
    )
        where
            T: Fn(&Handle<H>, i32, &[V]) -> (i32, Vec<V>) + Copy,
            E: Fn(&Handle<H>, i32, &[V], &[V], V) -> (i32, V) + Copy,
            W: Fn(&Handle<H>, i32, &[V], &[V], V) -> (i32, Vec<V>) + Copy,
            S: Fn(&Handle<H>, EquilibriumType, V, V, &[V], &Handle<H>, &Handle<H>) -> (i32, Vec<V>) + Copy,
            A: Fn(&Handle<H>, i32, bool) -> (i32, Vec<V>) + Copy,
            P: Fn(&Handle<H>, PropertyType) -> (i32, V) + Copy,
            C: Fn(&Handle<H>) -> (i32, i32) + Copy,
            M: Fn(&Handle<H>) -> (i32, V) + Copy,
        requires
            self.tp_moles_cases_run(to_weights, chem_eq, of_to_weights, calls, cases, r),
        ensures
            r matches Ok(v) ==> v@.len() == cases.len() && forall|i: int|
                0 <= i < cases.len() ==> #[trigger] self.fuel_and_oxidant_solved(
                    to_weights,
                    chem_eq,
                    of_to_weights,
                    calls,
                    cases[i],
                    v@[i],
                ),
    {
        let outs = choose|outs: Seq<CeaResult<EquilibriumResult<V>>>|
            self.tp_moles_cases_solved(to_weights, chem_eq, of_to_weights, calls, cases, outs)
                && #[trigger] cases_outcome(outs, cases.len(), r);
        if r is Ok {
            let v = r->Ok_0;
            assert forall|k: int| 0 <= k < cases.len() implies #[trigger] self.fuel_and_oxidant_solved(
                to_weights,
                chem_eq,
                of_to_weights,
                calls,
                cases[k],
                v@[k],
            ) by {
                let case = cases[k];
                assert(self.tp_moles_case_solved(to_weights, chem_eq, of_to_weights, calls, case, outs[k]));
                assert(outs[k] matches Ok(x) && v@[k] == x);
                assert(outs[k] == Ok::<EquilibriumResult<V>, Error>(v@[k]));
                let (fm, om) = choose|fuel: &[V], oxidant: &[V]|
                    fuel@ == case.fuel_moles@ && oxidant@ == case.oxidant_moles@ && #[trigger] self.tp_chem_eq_moles(
                        to_weights,
                        chem_eq,
                        of_to_weights,
                        calls,
                        case.temperature,
                        case.pressure,
                        fuel,
                        oxidant,
                        case.chemical_equivalence_ratio,
                        outs[k],
                    );
                self.lemma_moles_solve_keeps_fuel_and_oxidant_apart(
                    to_weights,
                    chem_eq,
                    of_to_weights,
                    calls,
                    case.temperature,
                    case.pressure,
                    fm,
                    om,
                    case.chemical_equivalence_ratio,
                    v@[k],
                );
            }
        }
    }

    /// Solves the cases given by fuel and oxidant moles at a chemical equivalence ratio one
    /// after another, in order, stopping at the first failure; the problem is left as it
    /// was.
    pub fn tp_equivalence_moles_cases<V: Copy + Default, T, E, W, S, A, P, C, M>(
        &mut self,
        cases: &[TpEquivalenceMolesCase<V>],
        to_weights: T,
        chem_eq: E,
        of_to_weights: W,
        calls: &SolveCalls<S, A, P, C, M>,
    ) -> (r: CeaResult<Vec<EquilibriumResult<V>>>)
        where
            T: Fn(&Handle<H>, i32, &[V]) -> (i32, Vec<V>) + Copy,
            E: Fn(&Handle<H>, i32, &[V], &[V], V) -> (i32, V) + Copy,
            W: Fn(&Handle<H>, i32, &[V], &[V], V) -> (i32, Vec<V>) + Copy,
            S: Fn(&Handle<H>, EquilibriumType, V, V, &[V], &Handle<H>, &Handle<H>) -> (i32, Vec<V>) + Copy,
            A: Fn(&Handle<H>, i32, bool) -> (i32, Vec<V>) + Copy,
            P: Fn(&Handle<H>, PropertyType) -> (i32, V) + Copy,
            C: Fn(&Handle<H>) -> (i32, i32) + Copy,
            M: Fn(&Handle<H>) -> (i32, V) + Copy,
        requires
            calls.ready(),
            forall|h: &Handle<H>, n: i32, x: &[V]| to_weights.requires((h, n, x)),
            forall|h: &Handle<H>, n: i32, o: &[V], f: &[V], v: V| chem_eq.requires((h, n, o, f, v)),
            forall|h: &Handle<H>, n: i32, o: &[V], f: &[V], v: V| of_to_weights.requires((h, n, o, f, v)),
        ensures
            *final(self) == *old(self),
            old(self).tp_moles_cases_run(to_weights, chem_eq, of_to_weights, calls, cases@, r),
            r matches Ok(v) ==> v@.len() == cases@.len() && forall|i: int|
                0 <= i < cases@.len() ==> #[trigger] old(self).fuel_and_oxidant_solved(
                    to_weights,
                    chem_eq,
                    of_to_weights,
                    calls,
                    cases@[i],
                    v@[i],
                ),
    {
        let ghost start = *self;
        let ghost mut outs: Seq<CeaResult<EquilibriumResult<V>>> = Seq::empty();
        let mut results: Vec<EquilibriumResult<V>> = Vec::new();
        let mut i: usize = 0;
        while i < cases.len()
            invariant
                *self == start,
                start == *old(self),
                calls.ready(),
                forall|h: &Handle<H>, n: i32, x: &[V]| to_weights.requires((h, n, x)),
                forall|h: &Handle<H>, n: i32, o: &[V], f: &[V], v: V| chem_eq.requires((h, n, o, f, v)),
                forall|h: &Handle<H>, n: i32, o: &[V], f: &[V], v: V| of_to_weights.requires((h, n, o, f, v)),
                i <= cases@.len(),
                outs.len() == i,
                results@.len() == i,
                start.tp_moles_cases_solved(to_weights, chem_eq, of_to_weights, calls, cases@, outs),
                forall|k: int| 0 <= k < i ==> ((#[trigger] outs[k]) matches Ok(x) && results@[k] == x),
            decreases cases@.len() - i,
        {
            let case = &cases[i];
            let fuel = case.fuel_moles.as_slice();
            let oxidant = case.oxidant_moles.as_slice();
            let o = self.tp_with_chemical_equivalence_moles(
                case.temperature,
                case.pressure,
                fuel,
                oxidant,
                case.chemical_equivalence_ratio,
                to_weights,
                chem_eq,
                of_to_weights,
                calls,
            );
            proof {
                assert(start.tp_moles_case_solved(to_weights, chem_eq, of_to_weights, calls, cases@[i as int], o));
                outs = outs.push(o);
                assert(outs[i as int] == o);
            }
            match o {
                Err(e) => {
                    let r: CeaResult<Vec<EquilibriumResult<V>>> = Err(e);
                    assert(cases_outcome(outs, cases@.len(), r));
                    assert(start.tp_moles_cases_solved(to_weights, chem_eq, of_to_weights, calls, cases@, outs));
                    return r;
                },
                Ok(x) => {
                    results.push(x);
                },
            }
            i = i + 1;
        }
        let r: CeaResult<Vec<EquilibriumResult<V>>> = Ok(results);
        assert(cases_outcome(outs, cases@.len(), r));
        proof {
            start.lemma_moles_cases_keep_each_case_in_order(to_weights, chem_eq, of_to_weights, calls, cases@, r);
        }
        r
    }
}


/// `r` is what building a problem from `builder` and solving the temperature-pressure
/// cases on it in turn gives, when the build gave `er`: the build's error, else the run of
/// the cases.
pub open spec fn tp_chunk_built<H, V: Copy, O, I, MC, MI, RC, RI, OI, SC, LC, PC, NC, NL, NB, S, A, P, C, M>(
    builder: EquilibriumBuilder<V>,
    build: &BuildCalls<I, MC, MI, RC, RI, OI, SC, LC, PC, NC, NL, NB>,
    calls: &SolveCalls<S, A, P, C, M>,
    cases: Seq<TpCase<V>>,
    er: CeaResult<Equilibrium<H>>,
    r: CeaResult<Vec<EquilibriumResult<V>>>,
) -> bool
    where
        I: Fn() -> i32 + Copy,
        MC: Fn(i32, &[&str]) -> (i32, Option<H>) + Copy,
        MI: Fn(i32, &[&str]) -> (i32, Option<H>) + Copy,
        RC: Fn(i32, &[&str], i32, &[&str]) -> (i32, Option<H>) + Copy,
        RI: Fn(i32, &[&str], i32, &[&str]) -> (i32, Option<H>) + Copy,
        OI: Fn() -> (i32, O) + Copy,
        SC: for<'b> Fn(&Handle<H>, O, &SolverOptions<'b, V, H>, Option<i32>) -> (i32, Option<H>) + Copy,
        LC: Fn(&Handle<H>) -> (i32, Option<H>) + Copy,
        PC: Fn(&Handle<H>) -> (i32, Option<H>) + Copy,
        NC: Fn(&Handle<H>) -> (i32, i32) + Copy,
        NL: Fn() -> (i32, i32) + Copy,
        NB: Fn(&Handle<H>, i32, i32) -> (i32, Vec<u8>) + Copy,
        S: Fn(&Handle<H>, EquilibriumType, V, V, &[V], &Handle<H>, &Handle<H>) -> (i32, Vec<V>) + Copy,
        A: Fn(&Handle<H>, i32, bool) -> (i32, Vec<V>) + Copy,
        P: Fn(&Handle<H>, PropertyType) -> (i32, V) + Copy,
        C: Fn(&Handle<H>) -> (i32, i32) + Copy,
        M: Fn(&Handle<H>) -> (i32, V) + Copy,
{
    &&& builder.built(build, er)
    &&& match er {
        Err(_) => propagates(er, r),
        Ok(eq) => eq.tp_cases_run(calls, cases, r),
    }
}

/// The work of one worker of a parallel run: builds its own problem from the builder and
/// solves its chunk of temperature-pressure cases in order, stopping at the first failure.
pub fn solve_tp_chunk<H, V: Copy + Default, O, I, MC, MI, RC, RI, OI, SC, LC, PC, NC, NL, NB, S, A, P, C, M>(
    builder: EquilibriumBuilder<V>,
    cases: &[TpCase<V>],
    build: &BuildCalls<I, MC, MI, RC, RI, OI, SC, LC, PC, NC, NL, NB>,
    calls: &SolveCalls<S, A, P, C, M>,
) -> (r: CeaResult<Vec<EquilibriumResult<V>>>)
    where
        I: Fn() -> i32 + Copy,
        MC: Fn(i32, &[&str]) -> (i32, Option<H>) + Copy,
        MI: Fn(i32, &[&str]) -> (i32, Option<H>) + Copy,
        RC: Fn(i32, &[&str], i32, &[&str]) -> (i32, Option<H>) + Copy,
        RI: Fn(i32, &[&str], i32, &[&str]) -> (i32, Option<H>) + Copy,
        OI: Fn() -> (i32, O) + Copy,
        SC: for<'b> Fn(&Handle<H>, O, &SolverOptions<'b, V, H>, Option<i32>) -> (i32, Option<H>) + Copy,
        LC: Fn(&Handle<H>) -> (i32, Option<H>) + Copy,
        PC: Fn(&Handle<H>) -> (i32, Option<H>) + Copy,
        NC: Fn(&Handle<H>) -> (i32, i32) + Copy,
        NL: Fn() -> (i32, i32) + Copy,
        NB: Fn(&Handle<H>, i32, i32) -> (i32, Vec<u8>) + Copy,
        S: Fn(&Handle<H>, EquilibriumType, V, V, &[V], &Handle<H>, &Handle<H>) -> (i32, Vec<V>) + Copy,
        A: Fn(&Handle<H>, i32, bool) -> (i32, Vec<V>) + Copy,
        P: Fn(&Handle<H>, PropertyType) -> (i32, V) + Copy,
        C: Fn(&Handle<H>) -> (i32, i32) + Copy,
        M: Fn(&Handle<H>) -> (i32, V) + Copy,
    requires
        build.ready(),
        calls.ready(),
    ensures
        exists|er: CeaResult<Equilibrium<H>>| #[trigger] tp_chunk_built(builder, build, calls, cases@, er, r),
        tp_chunk_delivered(builder, build, calls, cases@, r),
        exists|er: CeaResult<Equilibrium<H>>|
            #[trigger] builder.built(build, er) && (er is Err ==> propagates(er, r)) && (er matches Ok(eq) ==> (
            (r matches Ok(v) ==> v@.len() == cases@.len() && forall|i: int|
                0 <= i < cases@.len() ==> #[trigger] eq.solved_state(
                    calls,
                    EquilibriumType::Tp,
                    cases@[i].temperature,
                    cases@[i].pressure,
                    cases@[i].reactant_weights@,
                    Ok(v@[i]),
                )) && (r matches Err(e) ==> exists|k: int, x: Error|
                0 <= k < cases@.len() && x@ == e@ && #[trigger] eq.solved_state(
                    calls,
                    EquilibriumType::Tp,
                    cases@[k].temperature,
                    cases@[k].pressure,
                    cases@[k].reactant_weights@,
                    Err(x),
                )))),
{
    let ghost gb = builder;
    let er = builder.build(build);
    let ghost ger = er;
    let r = match er {
        Err(e) => Err(e),
        Ok(eq) => {
            let mut eq = eq;
            eq.tp_cases(cases, calls)
        },
    };
    assert(tp_chunk_built(gb, build, calls, cases@, ger, r));
    proof {
        if ger is Ok {
            ger->Ok_0.lemma_tp_cases_solve_each_case_at_its_state(calls, cases@, r);
        }
    }
    assert(gb.built(build, ger));
    r
}

/// `r` is what building a problem from `builder` and solving the cases given by moles on
/// it in turn gives, when the build gave `er`.
pub open spec fn tp_moles_chunk_built<H, V: Copy, O, I, MC, MI, RC, RI, OI, SC, LC, PC, NC, NL, NB, S, A, P, C, M, T, E, W>(
    builder: EquilibriumBuilder<V>,
    build: &BuildCalls<I, MC, MI, RC, RI, OI, SC, LC, PC, NC, NL, NB>,
    to_weights: T,
    chem_eq: E,
    of_to_weights: W,
    calls: &SolveCalls<S, A, P, C, M>,
    cases: Seq<TpEquivalenceMolesCase<V>>,
    er: CeaResult<Equilibrium<H>>,
    r: CeaResult<Vec<EquilibriumResult<V>>>,
) -> bool
    where
        I: Fn() -> i32 + Copy,
        MC: Fn(i32, &[&str]) -> (i32, Option<H>) + Copy,
        MI: Fn(i32, &[&str]) -> (i32, Option<H>) + Copy,
        RC: Fn(i32, &[&str], i32, &[&str]) -> (i32, Option<H>) + Copy,
        RI: Fn(i32, &[&str], i32, &[&str]) -> (i32, Option<H>) + Copy,
        OI: Fn() -> (i32, O) + Copy,
        SC: for<'b> Fn(&Handle<H>, O, &SolverOptions<'b, V, H>, Option<i32>) -> (i32, Option<H>) + Copy,
        LC: Fn(&Handle<H>) -> (i32, Option<H>) + Copy,
        PC: Fn(&Handle<H>) -> (i32, Option<H>) + Copy,
        NC: Fn(&Handle<H>) -> (i32, i32) + Copy,
        NL: Fn() -> (i32, i32) + Copy,
        NB: Fn(&Handle<H>, i32, i32) -> (i32, Vec<u8>) + Copy,
        S: Fn(&Handle<H>, EquilibriumType, V, V, &[V], &Handle<H>, &Handle<H>) -> (i32, Vec<V>) + Copy,
        A: Fn(&Handle<H>, i32, bool) -> (i32, Vec<V>) + Copy,
        P: Fn(&Handle<H>, PropertyType) -> (i32, V) + Copy,
        C: Fn(&Handle<H>) -> (i32, i32) + Copy,
        M: Fn(&Handle<H>) -> (i32, V) + Copy,
        T: Fn(&Handle<H>, i32, &[V]) -> (i32, Vec<V>) + Copy,
        E: Fn(&Handle<H>, i32, &[V], &[V], V) -> (i32, V) + Copy,
        W: Fn(&Handle<H>, i32, &[V], &[V], V) -> (i32, Vec<V>) + Copy,
{
    &&& builder.built(build, er)
    &&& match er {
        Err(_) => propagates(er, r),
        Ok(eq) => eq.tp_moles_cases_run(to_weights, chem_eq, of_to_weights, calls, cases, r),
    }
}

/// The work of one worker of a parallel run of cases given by moles: builds its own
/// problem and solves its chunk of cases in order, stopping at the first failure.
pub fn solve_tp_equivalence_moles_chunk<H, V: Copy + Default, O, I, MC, MI, RC, RI, OI, SC, LC, PC, NC, NL, NB, S, A, P, C, M, T, E, W>(
    builder: EquilibriumBuilder<V>,
    cases: &[TpEquivalenceMolesCase<V>],
    build: &BuildCalls<I, MC, MI, RC, RI, OI, SC, LC, PC, NC, NL, NB>,
    to_weights: T,
    chem_eq: E,
    of_to_weights: W,
    calls: &SolveCalls<S, A, P, C, M>,
) -> (r: CeaResult<Vec<EquilibriumResult<V>>>)
    where
        I: Fn() -> i32 + Copy,
        MC: Fn(i32, &[&str]) -> (i32, Option<H>) + Copy,
        MI: Fn(i32, &[&str]) -> (i32, Option<H>) + Copy,
        RC: Fn(i32, &[&str], i32, &[&str]) -> (i32, Option<H>) + Copy,
        RI: Fn(i32, &[&str], i32, &[&str]) -> (i32, Option<H>) + Copy,
        OI: Fn() -> (i32, O) + Copy,
        SC: for<'b> Fn(&Handle<H>, O, &SolverOptions<'b, V, H>, Option<i32>) -> (i32, Option<H>) + Copy,
        LC: Fn(&Handle<H>) -> (i32, Option<H>) + Copy,
        PC: Fn(&Handle<H>) -> (i32, Option<H>) + Copy,
        NC: Fn(&Handle<H>) -> (i32, i32) + Copy,
        NL: Fn() -> (i32, i32) + Copy,
        NB: Fn(&Handle<H>, i32, i32) -> (i32, Vec<u8>) + Copy,
        S: Fn(&Handle<H>, EquilibriumType, V, V, &[V], &Handle<H>, &Handle<H>) -> (i32, Vec<V>) + Copy,
        A: Fn(&Handle<H>, i32, bool) -> (i32, Vec<V>) + Copy,
        P: Fn(&Handle<H>, PropertyType) -> (i32, V) + Copy,
        C: Fn(&Handle<H>) -> (i32, i32) + Copy,
        M: Fn(&Handle<H>) -> (i32, V) + Copy,
        T: Fn(&Handle<H>, i32, &[V]) -> (i32, Vec<V>) + Copy,
        E: Fn(&Handle<H>, i32, &[V], &[V], V) -> (i32, V) + Copy,
        W: Fn(&Handle<H>, i32, &[V], &[V], V) -> (i32, Vec<V>) + Copy,
    requires
        build.ready(),
        calls.ready(),
        forall|h: &Handle<H>, n: i32, x: &[V]| to_weights.requires((h, n, x)),
        forall|h: &Handle<H>, n: i32, o: &[V], f: &[V], v: V| chem_eq.requires((h, n, o, f, v)),
        forall|h: &Handle<H>, n: i32, o: &[V], f: &[V], v: V| of_to_weights.requires((h, n, o, f, v)),
    ensures
        exists|er: CeaResult<Equilibrium<H>>| #[trigger] tp_moles_chunk_built(
            builder,
            build,
            to_weights,
            chem_eq,
            of_to_weights,
            calls,
            cases@,
            er,
            r,
        ),
        exists|er: CeaResult<Equilibrium<H>>|
            #[trigger] builder.built(build, er) && (er is Err ==> propagates(er, r)) && (er matches Ok(eq) ==> (
            r matches Ok(v) ==> v@.len() == cases@.len() && forall|i: int|
                0 <= i < cases@.len() ==> #[trigger] eq.fuel_and_oxidant_solved(
                    to_weights,
                    chem_eq,
                    of_to_weights,
                    calls,
                    cases@[i],
                    v@[i],
                ))),
{
    let ghost gb = builder;
    let er = builder.build(build);
    let ghost ger = er;
    let r = match er {
        Err(e) => Err(e),
        Ok(eq) => {
            let mut eq = eq;
            eq.tp_equivalence_moles_cases(cases, to_weights, chem_eq, of_to_weights, calls)
        },
    };
    assert(tp_moles_chunk_built(gb, build, to_weights, chem_eq, of_to_weights, calls, cases@, ger, r));
    proof {
        if ger is Ok {
            ger->Ok_0.lemma_moles_cases_keep_each_case_in_order(to_weights, chem_eq, of_to_weights, calls, cases@, r);
        }
    }
    assert(gb.built(build, ger));
    r
}

/// `res` is what a worker delivered for `chunk`: it built its own problem from `builder`,
/// whose error it delivers if the build failed; else, on success, one result per case of
/// the chunk, the `i`-th that of the temperature-pressure solve of the `i`-th case.
pub open spec fn tp_chunk_delivered<H, V: Copy, O, I, MC, MI, RC, RI, OI, SC, LC, PC, NC, NL, NB, S, A, P, C, M>(
    builder: EquilibriumBuilder<V>,
    build: &BuildCalls<I, MC, MI, RC, RI, OI, SC, LC, PC, NC, NL, NB>,
    calls: &SolveCalls<S, A, P, C, M>,
    chunk: Seq<TpCase<V>>,
    res: CeaResult<Vec<EquilibriumResult<V>>>,
) -> bool
    where
        I: Fn() -> i32 + Copy,
        MC: Fn(i32, &[&str]) -> (i32, Option<H>) + Copy,
        MI: Fn(i32, &[&str]) -> (i32, Option<H>) + Copy,
        RC: Fn(i32, &[&str], i32, &[&str]) -> (i32, Option<H>) + Copy,
        RI: Fn(i32, &[&str], i32, &[&str]) -> (i32, Option<H>) + Copy,
        OI: Fn() -> (i32, O) + Copy,
        SC: for<'b> Fn(&Handle<H>, O, &SolverOptions<'b, V, H>, Option<i32>) -> (i32, Option<H>) + Copy,
        LC: Fn(&Handle<H>) -> (i32, Option<H>) + Copy,
        PC: Fn(&Handle<H>) -> (i32, Option<H>) + Copy,
        NC: Fn(&Handle<H>) -> (i32, i32) + Copy,
        NL: Fn() -> (i32, i32) + Copy,
        NB: Fn(&Handle<H>, i32, i32) -> (i32, Vec<u8>) + Copy,
        S: Fn(&Handle<H>, EquilibriumType, V, V, &[V], &Handle<H>, &Handle<H>) -> (i32, Vec<V>) + Copy,
        A: Fn(&Handle<H>, i32, bool) -> (i32, Vec<V>) + Copy,
        P: Fn(&Handle<H>, PropertyType) -> (i32, V) + Copy,
        C: Fn(&Handle<H>) -> (i32, i32) + Copy,
        M: Fn(&Handle<H>) -> (i32, V) + Copy,
{
    exists|er: CeaResult<Equilibrium<H>>|
        #[trigger] builder.built(build, er) && (er is Err ==> propagates(er, res)) && (er matches Ok(eq) ==> (
        res matches Ok(v) ==> v@.len() == chunk.len() && forall|i: int|
            0 <= i < chunk.len() ==> #[trigger] eq.solved_state(
                calls,
                EquilibriumType::Tp,
                chunk[i].temperature,
                chunk[i].pressure,
                chunk[i].reactant_weights@,
                Ok(v@[i]),
            )))
}

/// `res` is the result of a temperature-pressure solve of `case` on some problem built
/// from `builder`.
pub open spec fn tp_case_solved_on_a_build<H, V: Copy, O, I, MC, MI, RC, RI, OI, SC, LC, PC, NC, NL, NB, S, A, P, C, M>(
    builder: EquilibriumBuilder<V>,
    build: &BuildCalls<I, MC, MI, RC, RI, OI, SC, LC, PC, NC, NL, NB>,
    calls: &SolveCalls<S, A, P, C, M>,
    case: TpCase<V>,
    res: EquilibriumResult<V>,
) -> bool
    where
        I: Fn() -> i32 + Copy,
        MC: Fn(i32, &[&str]) -> (i32, Option<H>) + Copy,
        MI: Fn(i32, &[&str]) -> (i32, Option<H>) + Copy,
        RC: Fn(i32, &[&str], i32, &[&str]) -> (i32, Option<H>) + Copy,
        RI: Fn(i32, &[&str], i32, &[&str]) -> (i32, Option<H>) + Copy,
        OI: Fn() -> (i32, O) + Copy,
        SC: for<'b> Fn(&Handle<H>, O, &SolverOptions<'b, V, H>, Option<i32>) -> (i32, Option<H>) + Copy,
        LC: Fn(&Handle<H>) -> (i32, Option<H>) + Copy,
        PC: Fn(&Handle<H>) -> (i32, Option<H>) + Copy,
        NC: Fn(&Handle<H>) -> (i32, i32) + Copy,
        NL: Fn() -> (i32, i32) + Copy,
        NB: Fn(&Handle<H>, i32, i32) -> (i32, Vec<u8>) + Copy,
        S: Fn(&Handle<H>, EquilibriumType, V, V, &[V], &Handle<H>, &Handle<H>) -> (i32, Vec<V>) + Copy,
        A: Fn(&Handle<H>, i32, bool) -> (i32, Vec<V>) + Copy,
        P: Fn(&Handle<H>, PropertyType) -> (i32, V) + Copy,
        C: Fn(&Handle<H>) -> (i32, i32) + Copy,
        M: Fn(&Handle<H>) -> (i32, V) + Copy,
{
    exists|eq: Equilibrium<H>|
        #[trigger] builder.built(build, Ok(eq)) && eq.solved_state(
            calls,
            EquilibriumType::Tp,
            case.temperature,
            case.pressure,
            case.reactant_weights@,
            Ok(res),
        )
}

/// A parallel sweep of temperature-pressure cases, cut into the chunks of a partition of
/// the cases, each worker delivering what [`solve_tp_chunk`] gives for its chunk: when the
/// gathering succeeds, there is one result per case, and the `i`-th is the result of the
/// temperature-pressure solve of the `i`-th case, at its own temperature, pressure and
/// reactant weights, on a problem built from the builder.
pub proof fn lemma_tp_sweep_solves_each_case<H, V: Copy, O, I, MC, MI, RC, RI, OI, SC, LC, PC, NC, NL, NB, S, A, P, C, M>(
    builder: EquilibriumBuilder<V>,
    build: &BuildCalls<I, MC, MI, RC, RI, OI, SC, LC, PC, NC, NL, NB>,
    calls: &SolveCalls<S, A, P, C, M>,
    cases: Seq<TpCase<V>>,
    ranges: Seq<(usize, usize)>,
    outcomes: Seq<WorkerOutcome<EquilibriumResult<V>>>,
    r: CeaResult<Vec<EquilibriumResult<V>>>,
)
    where
        I: Fn() -> i32 + Copy,
        MC: Fn(i32, &[&str]) -> (i32, Option<H>) + Copy,
        MI: Fn(i32, &[&str]) -> (i32, Option<H>) + Copy,
        RC: Fn(i32, &[&str], i32, &[&str]) -> (i32, Option<H>) + Copy,
        RI: Fn(i32, &[&str], i32, &[&str]) -> (i32, Option<H>) + Copy,
        OI: Fn() -> (i32, O) + Copy,
        SC: for<'b> Fn(&Handle<H>, O, &SolverOptions<'b, V, H>, Option<i32>) -> (i32, Option<H>) + Copy,
        LC: Fn(&Handle<H>) -> (i32, Option<H>) + Copy,
        PC: Fn(&Handle<H>) -> (i32, Option<H>) + Copy,
        NC: Fn(&Handle<H>) -> (i32, i32) + Copy,
        NL: Fn() -> (i32, i32) + Copy,
        NB: Fn(&Handle<H>, i32, i32) -> (i32, Vec<u8>) + Copy,
        S: Fn(&Handle<H>, EquilibriumType, V, V, &[V], &Handle<H>, &Handle<H>) -> (i32, Vec<V>) + Copy,
        A: Fn(&Handle<H>, i32, bool) -> (i32, Vec<V>) + Copy,
        P: Fn(&Handle<H>, PropertyType) -> (i32, V) + Copy,
        C: Fn(&Handle<H>) -> (i32, i32) + Copy,
        M: Fn(&Handle<H>) -> (i32, V) + Copy,
    requires
        is_partition(ranges, cases.len() as int),
        outcomes.len() == ranges.len(),
        forall|j: int|
            0 <= j < outcomes.len() && (#[trigger] outcomes[j]) is Some ==> tp_chunk_delivered(
                builder,
                build,
                calls,
                cases.subrange(ranges[j].0 as int, ranges[j].1 as int),
                outcomes[j]->0,
            ),
        gathered(outcomes, ranges, r),
    ensures
        r matches Ok(all) ==> all@.len() == cases.len() && forall|i: int|
            0 <= i < cases.len() ==> #[trigger] tp_case_solved_on_a_build(builder, build, calls, cases[i], all@[i]),
{
    if r is Ok {
        let all = r->Ok_0;
        let n = cases.len() as int;
        lemma_no_failure_means_all_succeeded(outcomes);
        lemma_none_short(outcomes, ranges);
        lemma_partition_within(ranges, n);
        assert forall|j: int| 0 <= j < outcomes.len() implies values_of(#[trigger] outcomes[j]).len() == ranges[j].1
            - ranges[j].0 by {
            let chunk = cases.subrange(ranges[j].0 as int, ranges[j].1 as int);
            assert(outcomes[j] is Some);
            assert(tp_chunk_delivered(builder, build, calls, chunk, outcomes[j]->0));
            let er = choose|er: CeaResult<Equilibrium<H>>|
                #[trigger] builder.built(build, er) && (er is Err ==> propagates(er, outcomes[j]->0)) && (er matches Ok(eq) ==> (
                outcomes[j]->0 matches Ok(v) ==> v@.len() == chunk.len() && forall|i: int|
                    0 <= i < chunk.len() ==> #[trigger] eq.solved_state(
                        calls,
                        EquilibriumType::Tp,
                        chunk[i].temperature,
                        chunk[i].pressure,
                        chunk[i].reactant_weights@,
                        Ok(v@[i]),
                    )));
            assert(er is Ok);
        }
        assert(all_full(outcomes, ranges));
        lemma_full_delivery_in_case_order(outcomes, ranges, n, r);
        assert forall|i: int| 0 <= i < cases.len() implies #[trigger] tp_case_solved_on_a_build(
            builder,
            build,
            calls,
            cases[i],
            all@[i],
        ) by {
            let j = lemma_partition_covers(ranges, n, i);
            let s = ranges[j].0 as int;
            let o = i - s;
            let chunk = cases.subrange(s, ranges[j].1 as int);
            assert(outcomes[j] is Some);
            assert(tp_chunk_delivered(builder, build, calls, chunk, outcomes[j]->0));
            let er = choose|er: CeaResult<Equilibrium<H>>|
                #[trigger] builder.built(build, er) && (er is Err ==> propagates(er, outcomes[j]->0)) && (er matches Ok(eq) ==> (
                outcomes[j]->0 matches Ok(v) ==> v@.len() == chunk.len() && forall|k: int|
                    0 <= k < chunk.len() ==> #[trigger] eq.solved_state(
                        calls,
                        EquilibriumType::Tp,
                        chunk[k].temperature,
                        chunk[k].pressure,
                        chunk[k].reactant_weights@,
                        Ok(v@[k]),
                    )));
            let eq = er->Ok_0;
            let v = outcomes[j]->0->Ok_0;
            assert(chunk[o] == cases[i]);
            assert(all@[s + o] == values_of(outcomes[j])[o]);
            assert(eq.solved_state(
                calls,
                EquilibriumType::Tp,
                chunk[o].temperature,
                chunk[o].pressure,
                chunk[o].reactant_weights@,
                Ok(v@[o]),
            ));
        }
    }
}

} // verus!
