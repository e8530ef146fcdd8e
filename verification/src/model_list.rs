//! The list of models: which model an option of the model selector stands
//! for, and how an edited model takes its place in the list.

use vstd::prelude::*;
use crate::models::{MlModel, MlModelView, ModelSelection, ModelSelectionView};
use crate::search::{first_index, first_match, is_first, lemma_first_index_is, lemma_first_index_none, lemma_first_exists};
use crate::text::{decimal, digit_char, to_decimal, str_eq};

verus! {

/// The model has the given id.
pub open spec fn id_is(id: nat) -> spec_fn(MlModelView) -> bool {
    |m: MlModelView| m.id == id
}

/// The index of the first model in the list with the given id.
pub fn position_of_id(models: &Vec<MlModel>, id: usize) -> (r: Option<usize>)
    ensures
        match r {
            Some(i) => first_index(models.deep_view(), id_is(id as nat)) == Some(i as int),
            None => first_index(models.deep_view(), id_is(id as nat)) is None,
        },
{
    let ghost s = models.deep_view();
    let mut i: usize = 0;
    while i < models.len()
        invariant
            s == models.deep_view(),
            i <= models.len(),
            forall|j: int| 0 <= j < i ==> !id_is(id as nat)(#[trigger] s[j]),
        decreases models.len() - i,
    {
        if models[i].id == id {
            proof {
                assert(is_first(s, id_is(id as nat), i as int));
                lemma_first_index_is(s, id_is(id as nat), i as int);
            }
            return Some(i);
        }
        i = i + 1;
    }
    proof {
        lemma_first_index_none(s, id_is(id as nat));
    }
    None
}

/// The list after an edited model is saved: the first model with its id
/// is replaced by it; where no model has its id, the list is unchanged.
pub open spec fn saved(models: Seq<MlModelView>, model: MlModelView) -> Seq<MlModelView> {
    match first_index(models, id_is(model.id)) {
        Some(i) => models.update(i, model),
        None => models,
    }
}

/// Saves an edited model into the list (see [`saved`]).
pub fn save_model(models: &mut Vec<MlModel>, model: MlModel)
    ensures
        final(models).deep_view() == saved(old(models).deep_view(), model@),
{
    match position_of_id(models, model.id) {
        Some(i) => {
            let ghost before = models.deep_view();
            models.set(i, model);
            proof {
                assert(models.deep_view() =~= before.update(i as int, models@[i as int]@));
            }
        },
        None => {},
    }
}

/// The value of a model's option in the model selector: its id in decimal.
pub fn option_value(model: &MlModel) -> (value: String)
    ensures
        value@ == decimal(model.id as nat),
{
    to_decimal(model.id)
}

/// The model's option has the given value.
pub open spec fn option_is(value: Seq<char>) -> spec_fn(MlModelView) -> bool {
    |m: MlModelView| decimal(m.id) == value
}

/// What choosing an option of the model selector selects: "new" selects the
/// form that trains a new model; another value selects the first model
/// whose option has it; a value that no option has selects nothing.
pub open spec fn choice_spec(models: Seq<MlModelView>, value: Seq<char>) -> Option<ModelSelectionView> {
    if value == "new"@ {
        Some(ModelSelectionView::TrainNew)
    } else {
        match first_match(models, option_is(value)) {
            Some(m) => Some(ModelSelectionView::Model(m)),
            None => None,
        }
    }
}

/// What choosing the option with the given value selects (see [`choice_spec`]).
pub fn model_choice(models: &Vec<MlModel>, value: &str) -> (r: Option<ModelSelection>)
    ensures
        r.deep_view() == choice_spec(models.deep_view(), value@),
{
    if str_eq(value, "new") {
        return Some(ModelSelection::TrainNew);
    }
    let ghost s = models.deep_view();
    let mut i: usize = 0;
    while i < models.len()
        invariant
            s == models.deep_view(),
            i <= models.len(),
            forall|j: int| 0 <= j < i ==> !option_is(value@)(#[trigger] s[j]),
            value@ != "new"@,
        decreases models.len() - i,
    {
        let v = to_decimal(models[i].id);
        if str_eq(v.as_str(), value) {
            proof {
                assert(is_first(s, option_is(value@), i as int));
                lemma_first_index_is(s, option_is(value@), i as int);
            }
            let m = models[i].clone();
            assert(m@ == s[i as int]);
            let r = Some(ModelSelection::Model(m));
            assert(r.deep_view() == Some(ModelSelectionView::Model(s[i as int])));
            return r;
        }
        i = i + 1;
    }
    proof {
        lemma_first_index_none(s, option_is(value@));
    }
    None
}

/// A decimal rendering is never empty.
pub proof fn lemma_decimal_nonempty(n: nat)
    ensures
        decimal(n).len() >= 1,
        n >= 10 ==> decimal(n).len() >= 2,
    decreases n,
{
    if n >= 10 {
        lemma_decimal_nonempty(n / 10);
    }
}

/// Distinct numbers have distinct decimal renderings.
pub proof fn lemma_decimal_injective(a: nat, b: nat)
    requires
        decimal(a) == decimal(b),
    ensures
        a == b,
    decreases a,
{
    lemma_decimal_nonempty(a);
    lemma_decimal_nonempty(b);
    let da = decimal(a);
    let db = decimal(b);
    assert(da[da.len() - 1] == digit_char(a % 10));
    assert(db[db.len() - 1] == digit_char(b % 10));
    if a >= 10 && b >= 10 {
        assert(decimal(a / 10) =~= da.drop_last());
        assert(decimal(b / 10) =~= db.drop_last());
        lemma_decimal_injective(a / 10, b / 10);
    }
}

/// A decimal rendering consists of digits only.
pub proof fn lemma_decimal_digits(n: nat, i: int)
    requires
        0 <= i < decimal(n).len(),
    ensures
        '0' <= decimal(n)[i] <= '9',
    decreases n,
{
    if n >= 10 {
        if i < decimal(n).len() - 1 {
            lemma_decimal_digits(n / 10, i);
        }
    }
}

/// Choosing the option of a listed model selects the first model in the
/// list with that model's id.
pub proof fn law_option_selects_model(models: Seq<MlModelView>, k: int)
    requires
        0 <= k < models.len(),
    ensures
        choice_spec(models, decimal(models[k].id)) == Some(
            ModelSelectionView::Model(first_match(models, id_is(models[k].id))->0),
        ),
        first_match(models, id_is(models[k].id)) is Some,
{
    let id = models[k].id;
    let v = decimal(id);
    reveal_strlit("new");
    lemma_decimal_digits(id, 0);
    assert(v != "new"@) by {
        if v == "new"@ {
            assert(v[0] == 'n');
        }
    }
    assert forall|m: MlModelView| #[trigger] option_is(v)(m) == id_is(id)(m) by {
        if decimal(m.id) == v {
            lemma_decimal_injective(m.id, id);
        }
    }
    lemma_first_exists(models, id_is(id), k);
    let i = first_index(models, id_is(id))->0;
    assert(is_first(models, option_is(v), i));
    lemma_first_index_is(models, option_is(v), i);
}

} // verus!
