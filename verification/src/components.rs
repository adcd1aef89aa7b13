//! The components that the deployment tool knows.
use vstd::prelude::*;
use vstd::string::StringExecFns;
use crate::discord_bot::{option_pairs, option_rows, Options};
use crate::env_arg::EnvArgs;
use crate::table::Table;

verus! {

/// A component that can be built and deployed, with its settings.
#[derive(Clone, Debug)]
pub enum Component {
    DiscordBot { options: Options },
}

/// What the deployment tool needs to know of a component.
pub struct ComponentSpec<'a> {
    pub name: &'a str,
    pub image_name: &'a str,
    pub resource_name: &'a str,
    pub environment_variables: Table<String>,
}

/// The name of a component, which is the name of its package.
pub open spec fn component_name(component: Component) -> Seq<char> {
    match component {
        Component::DiscordBot { .. } => "discord_bot"@,
    }
}

/// The name of the image of a component.
pub open spec fn component_image_name(component: Component) -> Seq<char> {
    match component {
        Component::DiscordBot { .. } => "cypher-sheet-discord-bot"@,
    }
}

/// The name of the resources of a component in the cluster.
pub open spec fn component_resource_name(component: Component) -> Seq<char> {
    match component {
        Component::DiscordBot { .. } => "discord-bot"@,
    }
}

/// The environment variables of a component.
pub open spec fn component_variables(component: Component) -> Map<Seq<char>, Seq<char>> {
    match component {
        Component::DiscordBot { options } => option_pairs(options.discord_token@),
    }
}

/// The environment variables of a component as rows, in their order.
pub open spec fn component_rows(component: Component) -> Seq<(Seq<char>, Seq<char>)> {
    match component {
        Component::DiscordBot { options } => option_rows(options.discord_token@),
    }
}

/// The reference of an image: the registry, a slash, the name of the
/// image, a colon and the tag.
pub open spec fn image_reference(registry: Seq<char>, image_name: Seq<char>, tag: Seq<char>) -> Seq<
    char,
> {
    registry + "/"@ + image_name + ":"@ + tag
}

/// What the deployment tool needs to know of the chat bot.
pub fn discord_bot_spec(options: &Options) -> (r: ComponentSpec<'static>)
    ensures
        r.name@ == "discord_bot"@,
        r.image_name@ == "cypher-sheet-discord-bot"@,
        r.resource_name@ == "discord-bot"@,
        r.environment_variables.texts() == option_pairs(options.discord_token@),
        r.environment_variables.rows() == option_rows(options.discord_token@),
{
    let environment_variables = options.get_env_pairs();
    ComponentSpec {
        name: "discord_bot",
        image_name: "cypher-sheet-discord-bot",
        resource_name: "discord-bot",
        environment_variables,
    }
}

impl Component {
    pub fn name(&self) -> (r: &str)
        ensures
            r@ == component_name(*self),
    {
        self.spec().name
    }

    pub fn image(&self, registry: &str, tag: &str) -> (r: String)
        ensures
            r@ == image_reference(registry@, component_image_name(*self), tag@),
    {
        let mut reference = registry.to_owned();
        reference.append("/");
        reference.append(self.image_name());
        reference.append(":");
        reference.append(tag);
        reference
    }

    pub fn image_name(&self) -> (r: &str)
        ensures
            r@ == component_image_name(*self),
    {
        self.spec().image_name
    }

    pub fn resource_name(&self) -> (r: &str)
        ensures
            r@ == component_resource_name(*self),
    {
        self.spec().resource_name
    }

    pub fn environment_variables(&self) -> (r: Table<String>)
        ensures
            r.texts() == component_variables(*self),
            r.rows() == component_rows(*self),
    {
        self.spec().environment_variables
    }

    /// What the deployment tool needs to know of the component.
    pub fn spec(&self) -> (r: ComponentSpec<'static>)
        ensures
            r.name@ == component_name(*self),
            r.image_name@ == component_image_name(*self),
            r.resource_name@ == component_resource_name(*self),
            r.environment_variables.texts() == component_variables(*self),
            r.environment_variables.rows() == component_rows(*self),
    {
        match self {
            Component::DiscordBot { options } => discord_bot_spec(options),
        }
    }
}

} // verus!
