//! The algorithm selector: choosing a training algorithm fills its
//! parameters with their defaults, editing a parameter records the new
//! value, and each change hands the form the algorithm and all values.

use vstd::prelude::*;
use crate::models::{Algorithm, AlgorithmView, AlgorithmParameterDef, AlgorithmParameterDefView, AlgorithmSelection};
use crate::param_values::{ParamValues, keys_distinct, pairs_map};
use crate::search::{first_index, first_match, is_first, lemma_first_index_is, lemma_first_index_none};
use crate::text::str_eq;

verus! {

/// The parameters' defaults by name; where two parameters share a name,
/// the later one's default counts.
pub open spec fn defaults_of(params: Seq<AlgorithmParameterDefView>) -> Map<Seq<char>, Seq<char>>
    decreases params.len(),
{
    if params.len() == 0 {
        Map::empty()
    } else {
        defaults_of(params.drop_last()).insert(params.last().name, params.last().default_value)
    }
}

/// The defaults of an algorithm's parameters (see [`defaults_of`]).
pub fn defaults(algorithm: &Algorithm) -> (r: ParamValues)
    ensures
        r@ == defaults_of(algorithm@.parameters),
{
    let ghost ps = algorithm@.parameters;
    let mut r = ParamValues::new();
    for i in 0..algorithm.parameters.len()
        invariant
            ps == algorithm@.parameters,
            r@ == defaults_of(ps.take(i as int)),
    {
        let p = &algorithm.parameters[i];
        r.insert(p.name.clone(), p.default_value.clone());
        assert(ps.take(i + 1).drop_last() =~= ps.take(i as int));
    }
    assert(ps.take(ps.len() as int) =~= ps);
    r
}

/// The algorithm has the given id.
pub open spec fn algorithm_id_is(id: Seq<char>) -> spec_fn(AlgorithmView) -> bool {
    |a: AlgorithmView| a.id == id
}

/// The index of the first algorithm with the given id.
pub fn find_algorithm(algorithms: &Vec<Algorithm>, id: &str) -> (r: Option<usize>)
    ensures
        match r {
            Some(i) => first_index(algorithms.deep_view(), algorithm_id_is(id@)) == Some(i as int),
            None => first_index(algorithms.deep_view(), algorithm_id_is(id@)) is None,
        },
{
    let ghost s = algorithms.deep_view();
    let mut i: usize = 0;
    while i < algorithms.len()
        invariant
            s == algorithms.deep_view(),
            i <= algorithms.len(),
            forall|j: int| 0 <= j < i ==> !algorithm_id_is(id@)(#[trigger] s[j]),
        decreases algorithms.len() - i,
    {
        if str_eq(algorithms[i].id.as_str(), id) {
            proof {
                assert(is_first(s, algorithm_id_is(id@), i as int));
                lemma_first_index_is(s, algorithm_id_is(id@), i as int);
            }
            return Some(i);
        }
        i = i + 1;
    }
    proof {
        lemma_first_index_none(s, algorithm_id_is(id@));
    }
    None
}

/// The value a parameter's input shows: the one recorded for its name,
/// else its default.
pub open spec fn current_value_spec(values: Map<Seq<char>, Seq<char>>, p: AlgorithmParameterDefView) -> Seq<char> {
    if values.contains_key(p.name) {
        values[p.name]
    } else {
        p.default_value
    }
}

/// What the selector hands out: the algorithm's id and every recorded
/// value, each name once.
pub open spec fn selection_is(
    sel: AlgorithmSelection,
    id: Seq<char>,
    values: Map<Seq<char>, Seq<char>>,
) -> bool {
    &&& sel@.algorithm_id == id
    &&& keys_distinct(sel@.params)
    &&& pairs_map(sel@.params) == values
}

/// The selector's state: the chosen algorithm's id ("" before any choice)
/// and the values recorded for its parameters.
#[derive(Debug)]
pub struct AlgorithmSelectorState {
    pub selected_id: String,
    pub param_values: ParamValues,
}

impl AlgorithmSelectorState {
    /// Nothing chosen, nothing recorded.
    pub fn new() -> (s: Self)
        ensures
            s.selected_id@ == Seq::<char>::empty(),
            s.param_values@ == Map::<Seq<char>, Seq<char>>::empty(),
    {
        AlgorithmSelectorState { selected_id: String::new(), param_values: ParamValues::new() }
    }

    /// The user chose the algorithm with id `id`. Where one has it, its
    /// parameters take their defaults and the selection is handed out;
    /// where none has it, nothing is recorded and no selection is.
    pub fn select_algorithm(&mut self, algorithms: &Vec<Algorithm>, id: String) -> (r: Option<
        AlgorithmSelection,
    >)
        ensures
            final(self).selected_id@ == id@,
            match first_match(algorithms.deep_view(), algorithm_id_is(id@)) {
                Some(a) => {
                    &&& final(self).param_values@ == defaults_of(a.parameters)
                    &&& r matches Some(sel) && selection_is(sel, id@, defaults_of(a.parameters))
                },
                None => {
                    &&& final(self).param_values@ == Map::<Seq<char>, Seq<char>>::empty()
                    &&& r is None
                },
            },
    {
        let found = find_algorithm(algorithms, id.as_str());
        let (values, r) = match found {
            Some(i) => {
                let values = defaults(&algorithms[i]);
                let sel = AlgorithmSelection { algorithm_id: id.clone(), params: values.to_pairs() };
                (values, Some(sel))
            },
            None => (ParamValues::new(), None),
        };
        self.param_values = values;
        self.selected_id = id;
        r
    }

    /// The user typed `value` into the input of parameter `name`: it is
    /// recorded, and the selection with every recorded value is handed out.
    pub fn set_param(&mut self, name: String, value: String) -> (sel: AlgorithmSelection)
        ensures
            final(self).selected_id@ == old(self).selected_id@,
            final(self).param_values@ == old(self).param_values@.insert(name@, value@),
            selection_is(sel, old(self).selected_id@, final(self).param_values@),
    {
        self.param_values.insert(name, value);
        AlgorithmSelection {
            algorithm_id: self.selected_id.clone(),
            params: self.param_values.to_pairs(),
        }
    }

    /// The value the input of `param` shows (see [`current_value_spec`]).
    pub fn current_value(&self, param: &AlgorithmParameterDef) -> (v: String)
        ensures
            v@ == current_value_spec(self.param_values@, param@),
    {
        match self.param_values.get(param.name.as_str()) {
            Some(v) => v,
            None => param.default_value.clone(),
        }
    }

    /// The index of the chosen algorithm, whose parameters are shown.
    pub fn selected_algorithm(&self, algorithms: &Vec<Algorithm>) -> (r: Option<usize>)
        ensures
            match r {
                Some(i) => first_index(algorithms.deep_view(), algorithm_id_is(self.selected_id@))
                    == Some(i as int),
                None => first_index(algorithms.deep_view(), algorithm_id_is(self.selected_id@)) is None,
            },
    {
        find_algorithm(algorithms, self.selected_id.as_str())
    }
}

/// A value typed into a parameter's input is what that input shows next.
pub proof fn law_typed_value_is_shown(
    values: Map<Seq<char>, Seq<char>>,
    p: AlgorithmParameterDefView,
    v: Seq<char>,
)
    ensures
        current_value_spec(values.insert(p.name, v), p) == v,
{
}

/// Typing into one parameter's input leaves what the others show.
pub proof fn law_other_inputs_unchanged(
    values: Map<Seq<char>, Seq<char>>,
    p: AlgorithmParameterDefView,
    q: AlgorithmParameterDefView,
    v: Seq<char>,
)
    requires
        q.name != p.name,
    ensures
        current_value_spec(values.insert(p.name, v), q) == current_value_spec(values, q),
{
}

/// The parameters' names are distinct.
pub open spec fn names_distinct(params: Seq<AlgorithmParameterDefView>) -> bool {
    forall|i: int, j: int|
        0 <= i < params.len() && 0 <= j < params.len() && i != j ==> #[trigger] params[i].name
            != #[trigger] params[j].name
}

/// Right after an algorithm is chosen, each of its parameters (their names
/// being distinct) shows its default.
pub proof fn law_choice_shows_defaults(params: Seq<AlgorithmParameterDefView>, k: int)
    requires
        names_distinct(params),
        0 <= k < params.len(),
    ensures
        current_value_spec(defaults_of(params), params[k]) == params[k].default_value,
    decreases params.len(),
{
    let last = params.len() - 1;
    if k < last {
        let init = params.drop_last();
        assert(names_distinct(init)) by {
            assert forall|i: int, j: int|
                0 <= i < init.len() && 0 <= j < init.len() && i != j implies #[trigger] init[i].name
                != #[trigger] init[j].name by {
                assert(init[i] == params[i] && init[j] == params[j]);
            }
        }
        assert(init[k] == params[k]);
        law_choice_shows_defaults(init, k);
        assert(params[k].name != params[last].name);
    }
}

} // verus!
