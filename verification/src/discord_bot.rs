//! The settings of the chat bot.
use vstd::prelude::*;
use crate::env_arg::{env_name, shouty_snake_case, EnvArgs};
use crate::table::Table;

verus! {

/// The settings of the chat bot.
#[derive(Clone, Debug)]
pub struct Options {
    pub discord_token: String,
}

/// The pairs that the settings make in the environment: the token under
/// the name of its variable.
pub open spec fn option_pairs(discord_token: Seq<char>) -> Map<Seq<char>, Seq<char>> {
    Map::empty().insert(shouty_snake_case("discord_token"@), discord_token)
}

/// The same pairs as rows, in the order of the fields.
pub open spec fn option_rows(discord_token: Seq<char>) -> Seq<(Seq<char>, Seq<char>)> {
    seq![(shouty_snake_case("discord_token"@), discord_token)]
}

/// The pairs of settings with the token `discord_token`, where `name` is
/// the name of the variable of the token.
pub fn named_pairs(name: String, discord_token: String) -> (r: Table<String>)
    ensures
        r.texts() == Map::<Seq<char>, Seq<char>>::empty().insert(name@, discord_token@),
        r.rows() == seq![(name@, discord_token@)],
{
    let mut pairs: Table<String> = Table::empty();
    pairs.put_new(name, discord_token);
    assert(pairs.rows() =~= seq![(name@, discord_token@)]);
    pairs
}

impl EnvArgs for Options {
    fn get_env_pairs(&self) -> (r: Table<String>)
        ensures
            r.texts() == option_pairs(self.discord_token@),
            r.rows() == option_rows(self.discord_token@),
    {
        named_pairs(env_name("discord_token"), self.discord_token.clone())
    }
}

} // verus!
