//! Settings that a component takes from the environment.
use vstd::prelude::*;
use crate::table::Table;

verus! {

/// The settings of a component as pairs for the environment: the name of
/// each variable and its value.
pub trait EnvArgs {
    fn get_env_pairs(&self) -> Table<String>;
}

/// The name in SHOUTY_SNAKE_CASE that `heck` gives to `name`.
pub uninterp spec fn shouty_snake_case(name: Seq<char>) -> Seq<char>;

/// `heck::ToShoutySnakeCase::to_shouty_snake_case` on a `str`: the words of
/// the name in upper case, joined by underscores. What it returns depends
/// on the name alone.
#[verifier::external_body]
fn to_shouty_snake_case(name: &str) -> (r: String)
    ensures
        r@ == shouty_snake_case(name@),
{
    heck::ToShoutySnakeCase::to_shouty_snake_case(name)
}

/// The name of the environment variable that belongs to a field.
pub fn env_name(field: &str) -> (r: String)
    ensures
        r@ == shouty_snake_case(field@),
{
    to_shouty_snake_case(field)
}

/// The names of the environment variables that belong to the fields of a
/// structure, in the order of the fields.
pub fn env_names(fields: &Vec<String>) -> (r: Vec<String>)
    ensures
        r@.len() == fields@.len(),
        forall|i: int|
            0 <= i < fields@.len() ==> (#[trigger] r@[i])@ == shouty_snake_case(fields@[i]@),
{
    let mut names: Vec<String> = Vec::new();
    let mut i: usize = 0;
    while i < fields.len()
        invariant
            i <= fields@.len(),
            names@.len() == i,
            forall|j: int| 0 <= j < i ==> (#[trigger] names@[j])@ == shouty_snake_case(fields@[j]@),
        decreases fields@.len() - i,
    {
        names.push(env_name(fields[i].as_str()));
        i += 1;
    }
    names
}

/// The views of a sequence of pairs of strings.
pub open spec fn pair_texts(pairs: Seq<(String, String)>) -> Seq<(Seq<char>, Seq<char>)> {
    Seq::new(pairs.len(), |i: int| (pairs[i].0@, pairs[i].1@))
}

/// The pairs of a structure as a map: the value of each field under the
/// name of its variable. Where two fields share a name, the later one
/// stays.
pub open spec fn pairs_of(pairs: Seq<(Seq<char>, Seq<char>)>) -> Map<Seq<char>, Seq<char>>
    decreases pairs.len(),
{
    if pairs.len() == 0 {
        Map::empty()
    } else {
        pairs_of(pairs.drop_last()).insert(pairs.last().0, pairs.last().1)
    }
}

/// Gathers the pairs of a structure, each the name of a variable and the
/// value of its field.
pub fn env_pairs(pairs: Vec<(String, String)>) -> (r: Table<String>)
    ensures
        r.texts() == pairs_of(pair_texts(pairs@)),
{
    let ghost all = pair_texts(pairs@);
    let mut table: Table<String> = Table::new();
    let mut i: usize = 0;
    assert(table.texts() =~= pairs_of(all.subrange(0, 0)));
    while i < pairs.len()
        invariant
            i <= pairs@.len(),
            all == pair_texts(pairs@),
            table.texts() == pairs_of(all.subrange(0, i as int)),
        decreases pairs@.len() - i,
    {
        assert(all.subrange(0, i + 1).drop_last() =~= all.subrange(0, i as int));
        assert(all.subrange(0, i + 1).last() == all[i as int]);
        table.put(pairs[i].0.clone(), pairs[i].1.clone());
        i += 1;
    }
    assert(all.subrange(0, i as int) =~= all);
    table
}

} // verus!
