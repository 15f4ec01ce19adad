use vstd::prelude::*;
use crate::race::Language;
use crate::text::{join, joined, texts};

verus! {

/// The armor, weapons, tools and languages a character is trained in.
#[derive(Clone, Debug, Default)]
pub struct Proficiencies {
    armor: Vec<String>,
    weapons: Vec<String>,
    tools: Vec<String>,
    languages: Vec<Language>,
}

impl Proficiencies {
    pub closed spec fn spec_armor(self) -> Seq<String> {
        self.armor@
    }

    pub closed spec fn spec_weapons(self) -> Seq<String> {
        self.weapons@
    }

    pub closed spec fn spec_tools(self) -> Seq<String> {
        self.tools@
    }

    pub closed spec fn spec_languages(self) -> Seq<Language> {
        self.languages@
    }

    pub fn new() -> (r: Proficiencies)
        ensures
            r.spec_armor().len() == 0,
            r.spec_weapons().len() == 0,
            r.spec_tools().len() == 0,
            r.spec_languages().len() == 0,
    {
        Proficiencies {
            armor: Vec::new(),
            weapons: Vec::new(),
            tools: Vec::new(),
            languages: Vec::new(),
        }
    }

    pub fn add_armor_proficiency(&mut self, armor_class: &str)
        ensures
            texts(final(self).spec_armor()) == texts(old(self).spec_armor()).push(armor_class@),
            final(self).spec_weapons() == old(self).spec_weapons(),
            final(self).spec_tools() == old(self).spec_tools(),
            final(self).spec_languages() == old(self).spec_languages(),
    {
        self.armor.push(armor_class.to_owned());
        proof {
            assert(texts(self.armor@) =~= texts(old(self).armor@).push(armor_class@));
        }
    }

    pub fn get_armor_proficiencies(&self) -> (r: &[String])
        ensures
            r@ == self.spec_armor(),
    {
        self.armor.as_slice()
    }

    /// The armor proficiencies, separated by commas.
    pub fn get_armor_proficiencies_string(&self) -> (r: String)
        ensures
            r@ == joined(texts(self.spec_armor()), ", "@),
    {
        join(self.armor.as_slice(), ", ")
    }

    pub fn add_weapon_proficiency(&mut self, weapon: &str)
        ensures
            texts(final(self).spec_weapons()) == texts(old(self).spec_weapons()).push(weapon@),
            final(self).spec_armor() == old(self).spec_armor(),
            final(self).spec_tools() == old(self).spec_tools(),
            final(self).spec_languages() == old(self).spec_languages(),
    {
        self.weapons.push(weapon.to_owned());
        proof {
            assert(texts(self.weapons@) =~= texts(old(self).weapons@).push(weapon@));
        }
    }

    /// The weapon proficiencies, separated by commas.
    pub fn get_weapon_proficiencies_string(&self) -> (r: String)
        ensures
            r@ == joined(texts(self.spec_weapons()), ", "@),
    {
        join(self.weapons.as_slice(), ", ")
    }

    pub fn get_weapon_proficiencies(&self) -> (r: &[String])
        ensures
            r@ == self.spec_weapons(),
    {
        self.weapons.as_slice()
    }

    pub fn add_tool_proficiency(&mut self, tool: &str)
        ensures
            texts(final(self).spec_tools()) == texts(old(self).spec_tools()).push(tool@),
            final(self).spec_armor() == old(self).spec_armor(),
            final(self).spec_weapons() == old(self).spec_weapons(),
            final(self).spec_languages() == old(self).spec_languages(),
    {
        self.tools.push(tool.to_owned());
        proof {
            assert(texts(self.tools@) =~= texts(old(self).tools@).push(tool@));
        }
    }

    /// The tool proficiencies, separated by commas.
    pub fn get_tool_proficiencies_string(&self) -> (r: String)
        ensures
            r@ == joined(texts(self.spec_tools()), ", "@),
    {
        join(self.tools.as_slice(), ", ")
    }

    pub fn get_tool_proficiencies(&self) -> (r: &[String])
        ensures
            r@ == self.spec_tools(),
    {
        self.tools.as_slice()
    }

    pub fn add_language(&mut self, language: Language)
        ensures
            final(self).spec_languages() == old(self).spec_languages().push(language),
            final(self).spec_armor() == old(self).spec_armor(),
            final(self).spec_weapons() == old(self).spec_weapons(),
            final(self).spec_tools() == old(self).spec_tools(),
    {
        self.languages.push(language);
    }

    pub fn get_languages(&self) -> (r: &[Language])
        ensures
            r@ == self.spec_languages(),
    {
        self.languages.as_slice()
    }
}

} // verus!
