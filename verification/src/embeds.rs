//! The cards that the chat bot shows for the objects that are shared with
//! it.
use vstd::prelude::*;
use vstd::string::StringExecFns;
use crate::image::joined;
use crate::text::{decimal, decimal_string};

verus! {

/// The kinds of an item.
#[derive(Debug, PartialEq, Eq, Clone, Copy, Structural)]
pub enum ItemType {
    Armor,
    Weapon,
    Clothing,
    Tool,
    Oddity,
    Material,
    Ammo,
    Plan,
    Others,
}

/// The pools of a character.
#[derive(Debug, PartialEq, Eq, Clone, Copy, Structural)]
pub enum PoolType {
    Intellect,
    Speed,
    Might,
}

/// The levels of a skill.
#[derive(Debug, PartialEq, Eq, Clone, Copy, Structural)]
pub enum SkillLevel {
    Specialized,
    Trained,
    Inability,
}

/// The kinds of a note.
#[derive(Debug, PartialEq, Eq, Clone, Copy, Structural)]
pub enum NoteType {
    Misc,
    Location,
    Character,
    Item,
    Quest,
}

/// The printed name of a kind of item.
pub open spec fn item_type_name(item_type: ItemType) -> Seq<char> {
    match item_type {
        ItemType::Armor => "Armor"@,
        ItemType::Weapon => "Weapon"@,
        ItemType::Clothing => "Clothing"@,
        ItemType::Tool => "Tool"@,
        ItemType::Oddity => "Oddity"@,
        ItemType::Material => "Material"@,
        ItemType::Ammo => "Ammo"@,
        ItemType::Plan => "Plan"@,
        ItemType::Others => "Others"@,
    }
}

/// The printed name of a pool.
pub open spec fn pool_type_name(pool_type: PoolType) -> Seq<char> {
    match pool_type {
        PoolType::Intellect => "Intellect"@,
        PoolType::Speed => "Speed"@,
        PoolType::Might => "Might"@,
    }
}

/// The printed name of a level of skill.
pub open spec fn skill_level_name(skill_level: SkillLevel) -> Seq<char> {
    match skill_level {
        SkillLevel::Specialized => "Specialized"@,
        SkillLevel::Trained => "Trained"@,
        SkillLevel::Inability => "Inability"@,
    }
}

/// The printed name of a kind of note.
pub open spec fn note_type_name(note_type: NoteType) -> Seq<char> {
    match note_type {
        NoteType::Misc => "Misc"@,
        NoteType::Location => "Location"@,
        NoteType::Character => "Character"@,
        NoteType::Item => "Item"@,
        NoteType::Quest => "Quest"@,
    }
}

pub fn printable_item_type(item_type: ItemType) -> (r: String)
    ensures
        r@ == item_type_name(item_type),
{
    match item_type {
        ItemType::Armor => "Armor",
        ItemType::Weapon => "Weapon",
        ItemType::Clothing => "Clothing",
        ItemType::Tool => "Tool",
        ItemType::Oddity => "Oddity",
        ItemType::Material => "Material",
        ItemType::Ammo => "Ammo",
        ItemType::Plan => "Plan",
        ItemType::Others => "Others",
    }.to_owned()
}

pub fn printable_pool_type(pool_type: PoolType) -> (r: String)
    ensures
        r@ == pool_type_name(pool_type),
{
    match pool_type {
        PoolType::Intellect => "Intellect",
        PoolType::Speed => "Speed",
        PoolType::Might => "Might",
    }.to_owned()
}

pub fn printable_skill_level(skill_level: SkillLevel) -> (r: String)
    ensures
        r@ == skill_level_name(skill_level),
{
    match skill_level {
        SkillLevel::Specialized => "Specialized",
        SkillLevel::Trained => "Trained",
        SkillLevel::Inability => "Inability",
    }.to_owned()
}

pub fn printable_note_type(note_type: NoteType) -> (r: String)
    ensures
        r@ == note_type_name(note_type),
{
    match note_type {
        NoteType::Misc => "Misc",
        NoteType::Location => "Location",
        NoteType::Character => "Character",
        NoteType::Item => "Item",
        NoteType::Quest => "Quest",
    }.to_owned()
}

/// One field of a card.
#[derive(Debug, Clone)]
pub struct Field {
    pub name: String,
    pub value: String,
    pub inline: bool,
}

/// A card: a title, a description, a link, and fields.
#[derive(Debug, Clone)]
pub struct CreateEmbed {
    pub title: Option<String>,
    pub description: Option<String>,
    pub url: Option<String>,
    pub fields: Vec<Field>,
}

/// A [`Field`] as mathematical values.
pub ghost struct FieldView {
    pub name: Seq<char>,
    pub value: Seq<char>,
    pub inline: bool,
}

/// A [`CreateEmbed`] as mathematical values.
#[verifier::ext_equal]
pub ghost struct EmbedView {
    pub title: Option<Seq<char>>,
    pub description: Option<Seq<char>>,
    pub url: Option<Seq<char>>,
    pub fields: Seq<FieldView>,
}

impl View for Field {
    type V = FieldView;

    open spec fn view(&self) -> FieldView {
        FieldView { name: self.name@, value: self.value@, inline: self.inline }
    }
}

/// The view of a text that may be missing.
pub open spec fn text_view(text: Option<String>) -> Option<Seq<char>> {
    match text {
        Some(text) => Some(text@),
        None => None,
    }
}

impl View for CreateEmbed {
    type V = EmbedView;

    open spec fn view(&self) -> EmbedView {
        EmbedView {
            title: text_view(self.title),
            description: text_view(self.description),
            url: text_view(self.url),
            fields: Seq::new(self.fields@.len(), |i: int| self.fields@[i]@),
        }
    }
}

impl EmbedView {
    /// The card without anything on it.
    pub open spec fn blank() -> EmbedView {
        EmbedView { title: None, description: None, url: None, fields: seq![] }
    }

    /// The card with the title `title`.
    pub open spec fn titled(self, title: Seq<char>) -> EmbedView {
        EmbedView { title: Some(title), ..self }
    }

    /// The card with the description `description`.
    pub open spec fn described(self, description: Seq<char>) -> EmbedView {
        EmbedView { description: Some(description), ..self }
    }

    /// The card with the description `description`, where that is not
    /// empty.
    pub open spec fn described_if_any(self, description: Seq<char>) -> EmbedView {
        if description.len() == 0 {
            self
        } else {
            self.described(description)
        }
    }

    /// The card with the first of the two descriptions that is not empty,
    /// or with none where both are.
    pub open spec fn described_by_first(self, short: Seq<char>, long: Seq<char>) -> EmbedView {
        if short.len() > 0 {
            self.described(short)
        } else {
            self.described_if_any(long)
        }
    }

    /// The card with the link `url`.
    pub open spec fn linked(self, url: Seq<char>) -> EmbedView {
        EmbedView { url: Some(url), ..self }
    }

    /// The card with one more field.
    pub open spec fn with_field(self, name: Seq<char>, value: Seq<char>, inline: bool) -> EmbedView {
        EmbedView { fields: self.fields.push(FieldView { name, value, inline }), ..self }
    }

    /// The card with one more field, where `value` is not empty.
    pub open spec fn with_field_if_any(self, name: Seq<char>, value: Seq<char>, inline: bool) -> EmbedView {
        if value.len() == 0 {
            self
        } else {
            self.with_field(name, value, inline)
        }
    }

    /// The card with one more field, which holds a question mark where
    /// `value` is empty.
    pub open spec fn with_field_or_unknown(self, name: Seq<char>, value: Seq<char>, inline: bool) -> EmbedView {
        if value.len() == 0 {
            self.with_field(name, "?"@, inline)
        } else {
            self.with_field(name, value, inline)
        }
    }

    /// The long description as a field, where the card has a short one as
    /// its description and the long one is not empty.
    pub open spec fn with_long_description(self, short: Seq<char>, long: Seq<char>) -> EmbedView {
        if short.len() > 0 && long.len() > 0 {
            self.with_field("Description"@, long, false)
        } else {
            self
        }
    }
}

impl CreateEmbed {
    /// A card without anything on it.
    pub fn default() -> (r: CreateEmbed)
        ensures
            r@ == EmbedView::blank(),
    {
        let embed = CreateEmbed { title: None, description: None, url: None, fields: Vec::new() };
        assert(embed@.fields =~= Seq::<FieldView>::empty());
        embed
    }

    /// Gives the card the title `prefix` followed by `name`.
    pub fn title(&mut self, prefix: &str, name: &str)
        ensures
            final(self)@ == old(self)@.titled(prefix@ + name@),
    {
        let mut title = prefix.to_owned();
        title.append(name);
        self.title = Some(title);
    }

    /// Gives the card a description.
    pub fn description(&mut self, description: &str)
        ensures
            final(self)@ == old(self)@.described(description@),
    {
        self.description = Some(description.to_owned());
    }

    /// Gives the card a link.
    pub fn url(&mut self, url: &str)
        ensures
            final(self)@ == old(self)@.linked(url@),
    {
        self.url = Some(url.to_owned());
    }

    /// Adds a field to the card.
    pub fn field(&mut self, name: &str, value: &str, inline: bool)
        ensures
            final(self)@ == old(self)@.with_field(name@, value@, inline),
    {
        self.fields.push(Field { name: name.to_owned(), value: value.to_owned(), inline });
        assert(self@.fields =~= old(self)@.with_field(name@, value@, inline).fields);
    }

    /// Adds a field to the card, unless `value` is empty.
    pub fn field_if_any(&mut self, name: &str, value: &str, inline: bool)
        ensures
            final(self)@ == old(self)@.with_field_if_any(name@, value@, inline),
    {
        if !value.is_empty() {
            self.field(name, value, inline);
        }
    }

    /// Adds a field to the card, with a question mark in it where `value`
    /// is empty.
    pub fn field_or_unknown(&mut self, name: &str, value: &str, inline: bool)
        ensures
            final(self)@ == old(self)@.with_field_or_unknown(name@, value@, inline),
    {
        if value.is_empty() {
            self.field(name, "?", inline);
        } else {
            self.field(name, value, inline);
        }
    }

    /// Gives the card the first of the two descriptions that is not empty.
    pub fn description_by_first(&mut self, short: &str, long: &str)
        ensures
            final(self)@ == old(self)@.described_by_first(short@, long@),
    {
        if !short.is_empty() {
            self.description(short);
        } else if !long.is_empty() {
            self.description(long);
        }
    }

    /// Adds the long description as a field, where there is a short one
    /// too.
    pub fn long_description(&mut self, short: &str, long: &str)
        ensures
            final(self)@ == old(self)@.with_long_description(short@, long@),
    {
        if !long.is_empty() && !short.is_empty() {
            self.field("Description", long, false);
        }
    }
}

/// What can be shown as a card.
pub trait Embedable {
    fn embed(&self) -> CreateEmbed;
}

/// A cypher.
#[derive(Debug, Clone)]
pub struct Cypher {
    pub name: String,
    pub short_description: String,
    pub level: String,
    pub depletion: String,
    pub effect: String,
    pub internal: String,
    pub wearable: String,
    pub usable: String,
}

/// An artifact.
#[derive(Debug, Clone)]
pub struct Artifact {
    pub name: String,
    pub short_description: String,
    pub level: String,
    pub depletion: String,
    pub effect: String,
    pub form: String,
}

/// An ability.
#[derive(Debug, Clone)]
pub struct Ability {
    pub name: String,
    pub short_description: String,
    pub description: String,
    pub field_type: PoolType,
    pub cost: String,
    pub enabler: String,
}

/// A skill.
#[derive(Debug, Clone)]
pub struct Skill {
    pub name: String,
    pub description: String,
    pub field_type: PoolType,
    pub level: SkillLevel,
}

/// An item. Its value is held as it is printed, and only where the item
/// is worth something; its armor only where it has any.
#[derive(Debug, Clone)]
pub struct Item {
    pub name: String,
    pub short_description: String,
    pub description: String,
    pub types: Vec<ItemType>,
    pub value: Option<String>,
    pub armor: Option<u32>,
    pub sub_item_type: Option<ItemType>,
}

/// A note.
#[derive(Debug, Clone)]
pub struct Note {
    pub title: String,
    pub short_description: String,
    pub field_type: NoteType,
    pub text: String,
}

/// The card of a cypher.
pub open spec fn cypher_card(c: Cypher) -> EmbedView {
    EmbedView::blank().titled("[Cypher] "@ + c.name@).described_if_any(
        c.short_description@,
    ).with_field_or_unknown("Level"@, c.level@, true).with_field_if_any(
        "Depletion"@,
        c.depletion@,
        true,
    ).with_field_if_any("Effect"@, c.effect@, false).with_field_if_any(
        "Internal"@,
        c.internal@,
        false,
    ).with_field_if_any("Wearable"@, c.wearable@, false).with_field_if_any(
        "Usable"@,
        c.usable@,
        false,
    )
}

/// The card of an artifact.
pub open spec fn artifact_card(a: Artifact) -> EmbedView {
    EmbedView::blank().titled("[Artifact] "@ + a.name@).described_if_any(
        a.short_description@,
    ).with_field_or_unknown("Level"@, a.level@, true).with_field_if_any(
        "Depletion"@,
        a.depletion@,
        true,
    ).with_field_if_any("Effect"@, a.effect@, false).with_field_if_any("Form"@, a.form@, false)
}

/// The card of an ability.
pub open spec fn ability_card(a: Ability) -> EmbedView {
    EmbedView::blank().titled("[Ability] "@ + a.name@).described_by_first(
        a.short_description@,
        a.description@,
    ).with_field("Type"@, pool_type_name(a.field_type), true).with_field_or_unknown(
        "Cost"@,
        a.cost@,
        true,
    ).with_field("Enabler"@, a.enabler@, false).with_long_description(
        a.short_description@,
        a.description@,
    )
}

/// The card of a skill.
pub open spec fn skill_card(s: Skill) -> EmbedView {
    EmbedView::blank().titled("[Skill] "@ + s.name@).described_if_any(s.description@).with_field(
        "Type"@,
        pool_type_name(s.field_type),
        true,
    ).with_field("Level"@, skill_level_name(s.level), true)
}

/// The printed names of kinds of items.
pub open spec fn item_type_names(types: Seq<ItemType>) -> Seq<Seq<char>> {
    Seq::new(types.len(), |i: int| item_type_name(types[i]))
}

/// The card of an item.
pub open spec fn item_card(i: Item) -> EmbedView {
    let typed = EmbedView::blank().titled("[Item] "@ + i.name@).described_by_first(
        i.short_description@,
        i.description@,
    ).with_field("Type"@, joined(item_type_names(i.types@), ", "@), false);
    let valued = match i.value {
        Some(value) => typed.with_field("Value"@, value@, true),
        None => typed,
    };
    let armored = match i.armor {
        Some(armor) => if armor > 0 {
            valued.with_field("Armor"@, decimal(armor as nat), true)
        } else {
            valued
        },
        None => valued,
    };
    let described = armored.with_long_description(i.short_description@, i.description@);
    match i.sub_item_type {
        Some(sub_item_type) => described.with_field(
            "Has Sub-Items"@,
            item_type_name(sub_item_type),
            false,
        ),
        None => described,
    }
}

/// The card of a note.
pub open spec fn note_card(n: Note) -> EmbedView {
    EmbedView::blank().titled("[Note] "@ + n.title@).described_if_any(
        n.short_description@,
    ).with_field("Type"@, note_type_name(n.field_type), true).with_field("Text"@, n.text@, false)
}

impl Embedable for Cypher {
    fn embed(&self) -> (r: CreateEmbed)
        ensures
            r@ == cypher_card(*self),
    {
        let mut embed = CreateEmbed::default();
        embed.title("[Cypher] ", self.name.as_str());
        if !self.short_description.as_str().is_empty() {
            embed.description(self.short_description.as_str());
        }
        embed.field_or_unknown("Level", self.level.as_str(), true);
        embed.field_if_any("Depletion", self.depletion.as_str(), true);
        embed.field_if_any("Effect", self.effect.as_str(), false);
        embed.field_if_any("Internal", self.internal.as_str(), false);
        embed.field_if_any("Wearable", self.wearable.as_str(), false);
        embed.field_if_any("Usable", self.usable.as_str(), false);
        embed
    }
}

impl Embedable for Artifact {
    fn embed(&self) -> (r: CreateEmbed)
        ensures
            r@ == artifact_card(*self),
    {
        let mut embed = CreateEmbed::default();
        embed.title("[Artifact] ", self.name.as_str());
        if !self.short_description.as_str().is_empty() {
            embed.description(self.short_description.as_str());
        }
        embed.field_or_unknown("Level", self.level.as_str(), true);
        embed.field_if_any("Depletion", self.depletion.as_str(), true);
        embed.field_if_any("Effect", self.effect.as_str(), false);
        embed.field_if_any("Form", self.form.as_str(), false);
        embed
    }
}

impl Embedable for Ability {
    fn embed(&self) -> (r: CreateEmbed)
        ensures
            r@ == ability_card(*self),
    {
        let mut embed = CreateEmbed::default();
        embed.title("[Ability] ", self.name.as_str());
        embed.description_by_first(self.short_description.as_str(), self.description.as_str());
        embed.field("Type", printable_pool_type(self.field_type).as_str(), true);
        embed.field_or_unknown("Cost", self.cost.as_str(), true);
        embed.field("Enabler", self.enabler.as_str(), false);
        embed.long_description(self.short_description.as_str(), self.description.as_str());
        embed
    }
}

impl Embedable for Skill {
    fn embed(&self) -> (r: CreateEmbed)
        ensures
            r@ == skill_card(*self),
    {
        let mut embed = CreateEmbed::default();
        embed.title("[Skill] ", self.name.as_str());
        if !self.description.as_str().is_empty() {
            embed.description(self.description.as_str());
        }
        embed.field("Type", printable_pool_type(self.field_type).as_str(), true);
        embed.field("Level", printable_skill_level(self.level).as_str(), true);
        embed
    }
}

/// The printed names of kinds of items, parted by commas.
fn printable_item_types(types: &Vec<ItemType>) -> (r: String)
    ensures
        r@ == joined(item_type_names(types@), ", "@),
{
    let mut out = String::new();
    let mut i: usize = 0;
    let ghost names = item_type_names(types@);
    assert(names.subrange(0, 0) =~= Seq::<Seq<char>>::empty());
    while i < types.len()
        invariant
            i <= types@.len(),
            names == item_type_names(types@),
            out@ == joined(names.subrange(0, i as int), ", "@),
        decreases types@.len() - i,
    {
        let ghost before = names.subrange(0, i as int);
        let ghost now = names.subrange(0, i + 1);
        assert(now.drop_last() =~= before);
        assert(now.last() == item_type_name(types@[i as int]));
        if i > 0 {
            out.append(", ");
        } else {
            assert(out@ =~= Seq::<char>::empty());
            assert(Seq::<char>::empty() + now[0] =~= now[0]);
        }
        out.append(printable_item_type(types[i]).as_str());
        i += 1;
    }
    assert(names.subrange(0, i as int) =~= names);
    out
}

impl Embedable for Item {
    fn embed(&self) -> (r: CreateEmbed)
        ensures
            r@ == item_card(*self),
    {
        let mut embed = CreateEmbed::default();
        embed.title("[Item] ", self.name.as_str());
        embed.description_by_first(self.short_description.as_str(), self.description.as_str());
        embed.field("Type", printable_item_types(&self.types).as_str(), false);
        match &self.value {
            Some(value) => {
                embed.field("Value", value.as_str(), true);
            },
            None => {},
        }
        match self.armor {
            Some(armor) => {
                if armor > 0 {
                    embed.field("Armor", decimal_string(armor as u64).as_str(), true);
                }
            },
            None => {},
        }
        embed.long_description(self.short_description.as_str(), self.description.as_str());
        match self.sub_item_type {
            Some(sub_item_type) => {
                embed.field("Has Sub-Items", printable_item_type(sub_item_type).as_str(), false);
            },
            None => {},
        }
        embed
    }
}

impl Embedable for Note {
    fn embed(&self) -> (r: CreateEmbed)
        ensures
            r@ == note_card(*self),
    {
        let mut embed = CreateEmbed::default();
        embed.title("[Note] ", self.title.as_str());
        if !self.short_description.as_str().is_empty() {
            embed.description(self.short_description.as_str());
        }
        embed.field("Type", printable_note_type(self.field_type).as_str(), true);
        embed.field("Text", self.text.as_str(), false);
        embed
    }
}

/// An object that was shared with the bot.
#[derive(Debug, Clone)]
pub enum SharedObject {
    /// A message that holds no object.
    Empty,
    /// A whole character, which the bot does not show.
    Character,
    Skill(Skill),
    Ability(Ability),
    Cypher(Cypher),
    Artifact(Artifact),
    Item(Item),
    Note(Note),
}

/// The card of a shared object, if the bot shows one for it.
pub open spec fn shared_card(obj: SharedObject) -> Option<EmbedView> {
    match obj {
        SharedObject::Empty => None,
        SharedObject::Character => None,
        SharedObject::Skill(skill) => Some(skill_card(skill)),
        SharedObject::Ability(ability) => Some(ability_card(ability)),
        SharedObject::Cypher(cypher) => Some(cypher_card(cypher)),
        SharedObject::Artifact(artifact) => Some(artifact_card(artifact)),
        SharedObject::Item(item) => Some(item_card(item)),
        SharedObject::Note(note) => Some(note_card(note)),
    }
}

/// The card of a shared object. There is none for a message without an
/// object and none for a whole character.
pub fn shared_object_to_embed(obj: SharedObject) -> (r: Option<CreateEmbed>)
    ensures
        match r {
            Some(embed) => shared_card(obj) == Some(embed@),
            None => shared_card(obj) is None,
        },
{
    match obj {
        SharedObject::Empty => None,
        SharedObject::Character => None,
        SharedObject::Skill(skill) => Some(skill.embed()),
        SharedObject::Ability(ability) => Some(ability.embed()),
        SharedObject::Cypher(cypher) => Some(cypher.embed()),
        SharedObject::Artifact(artifact) => Some(artifact.embed()),
        SharedObject::Item(item) => Some(item.embed()),
        SharedObject::Note(note) => Some(note.embed()),
    }
}

/// The answer to an attachment: the card of the object that it holds,
/// linked to the attachment, or none where the bot shows no card for it.
pub fn message(obj: SharedObject, attachment_url: &str) -> (r: Option<CreateEmbed>)
    ensures
        match r {
            Some(embed) => shared_card(obj) matches Some(card) && embed@ == card.linked(
                attachment_url@,
            ),
            None => shared_card(obj) is None,
        },
{
    match shared_object_to_embed(obj) {
        Some(embed) => {
            let mut embed = embed;
            embed.url(attachment_url);
            Some(embed)
        },
        None => None,
    }
}

} // verus!
