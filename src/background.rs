use vstd::prelude::*;
use crate::skill;
use crate::text::{append_quoted_list, push_text, quoted_list, text_if, texts};
use vstd::string::StringExecFns;

verus! {

/// A character's background: its story, its feature and what it trains.
#[derive(Clone, Debug, PartialEq, Eq)]
pub struct Background {
    name: String,
    description: String,
    feature: Feature,
    proficiencies: Proficiencies,
}

impl Background {
    pub closed spec fn spec_name(self) -> Seq<char> {
        self.name@
    }

    pub closed spec fn spec_description(self) -> Seq<char> {
        self.description@
    }

    pub closed spec fn spec_feature(self) -> Feature {
        self.feature
    }

    pub closed spec fn spec_proficiencies(self) -> Proficiencies {
        self.proficiencies
    }

    #[must_use]
    pub fn get_name(&self) -> (r: &str)
        ensures
            r@ == self.spec_name(),
    {
        self.name.as_str()
    }

    #[must_use]
    pub fn get_description(&self) -> (r: &str)
        ensures
            r@ == self.spec_description(),
    {
        self.description.as_str()
    }

    #[must_use]
    pub fn get_feature(&self) -> (r: &Feature)
        ensures
            *r == self.spec_feature(),
    {
        &self.feature
    }

    #[must_use]
    pub fn get_proficiencies(&self) -> (r: &Proficiencies)
        ensures
            *r == self.spec_proficiencies(),
    {
        &self.proficiencies
    }
}

/// Collects the fields of a background before it is built.
#[derive(Clone, Debug, Default)]
pub struct Builder {
    name: Option<String>,
    description: Option<String>,
    feature: Option<Feature>,
    proficiencies: Option<Proficiencies>,
}

#[derive(Clone, Debug, PartialEq, Eq)]
pub enum BuildError {
    /// Names every field that was not given.
    MissingField(Vec<String>),
}

impl BuildError {
    /// The error as a sentence that lists the missing fields.
    pub fn message(&self) -> (r: String)
        ensures
            self matches BuildError::MissingField(f) && r@ == "Build Error: missing field(s): "@
                + quoted_list(texts(f@)),
    {
        match self {
            BuildError::MissingField(fields) => {
                let mut r = String::from_str("Build Error: missing field(s): ");
                append_quoted_list(&mut r, fields.as_slice());
                r
            },
        }
    }
}

impl Builder {
    pub closed spec fn spec_name(self) -> Option<Seq<char>> {
        match self.name {
            Some(n) => Some(n@),
            None => None,
        }
    }

    pub closed spec fn spec_description(self) -> Option<Seq<char>> {
        match self.description {
            Some(n) => Some(n@),
            None => None,
        }
    }

    pub closed spec fn spec_feature(self) -> Option<Feature> {
        self.feature
    }

    pub closed spec fn spec_proficiencies(self) -> Option<Proficiencies> {
        self.proficiencies
    }

    /// The fields not given, in the order name, description, feature, proficiencies.
    pub open spec fn missing(self) -> Seq<Seq<char>> {
        text_if(self.spec_name() is None, "name"@) + text_if(
            self.spec_description() is None,
            "description"@,
        ) + text_if(self.spec_feature() is None, "feature"@) + text_if(
            self.spec_proficiencies() is None,
            "proficiencies"@,
        )
    }

    #[must_use]
    pub fn new() -> (r: Builder)
        ensures
            r.spec_name() is None,
            r.spec_description() is None,
            r.spec_feature() is None,
            r.spec_proficiencies() is None,
    {
        Builder { name: None, description: None, feature: None, proficiencies: None }
    }

    #[must_use]
    pub fn name(self, name: &str) -> (r: Builder)
        ensures
            r.spec_name() == Some(name@),
            r.spec_description() == self.spec_description(),
            r.spec_feature() == self.spec_feature(),
            r.spec_proficiencies() == self.spec_proficiencies(),
    {
        Builder { name: Some(name.to_owned()), ..self }
    }

    #[must_use]
    pub fn description(self, description: &str) -> (r: Builder)
        ensures
            r.spec_description() == Some(description@),
            r.spec_name() == self.spec_name(),
            r.spec_feature() == self.spec_feature(),
            r.spec_proficiencies() == self.spec_proficiencies(),
    {
        Builder { description: Some(description.to_owned()), ..self }
    }

    #[must_use]
    pub fn feature(self, feature: Feature) -> (r: Builder)
        ensures
            r.spec_feature() == Some(feature),
            r.spec_name() == self.spec_name(),
            r.spec_description() == self.spec_description(),
            r.spec_proficiencies() == self.spec_proficiencies(),
    {
        Builder { feature: Some(feature), ..self }
    }

    #[must_use]
    pub fn proficiencies(self, proficiencies: Proficiencies) -> (r: Builder)
        ensures
            r.spec_proficiencies() == Some(proficiencies),
            r.spec_name() == self.spec_name(),
            r.spec_description() == self.spec_description(),
            r.spec_feature() == self.spec_feature(),
    {
        Builder { proficiencies: Some(proficiencies), ..self }
    }

    /// Builds the background; fails naming every field not given.
    pub fn build(self) -> (r: Result<Background, BuildError>)
        ensures
            self.missing().len() > 0 ==> (r matches Err(BuildError::MissingField(f)) && texts(f@)
                == self.missing()),
            self.missing().len() == 0 ==> (r matches Ok(b) && Some(b.spec_name())
                == self.spec_name() && Some(b.spec_description()) == self.spec_description()
                && Some(b.spec_feature()) == self.spec_feature() && Some(b.spec_proficiencies())
                == self.spec_proficiencies()),
    {
        let mut fields: Vec<String> = Vec::new();
        proof {
            assert(texts(fields@) =~= Seq::<Seq<char>>::empty());
        }
        if self.name.is_none() {
            push_text(&mut fields, "name");
        }
        proof {
            assert(texts(fields@) =~= text_if(self.spec_name() is None, "name"@));
        }
        if self.description.is_none() {
            push_text(&mut fields, "description");
        }
        proof {
            assert(texts(fields@) =~= text_if(self.spec_name() is None, "name"@) + text_if(
                self.spec_description() is None,
                "description"@,
            ));
        }
        if self.feature.is_none() {
            push_text(&mut fields, "feature");
        }
        proof {
            assert(texts(fields@) =~= text_if(self.spec_name() is None, "name"@) + text_if(
                self.spec_description() is None,
                "description"@,
            ) + text_if(self.spec_feature() is None, "feature"@));
        }
        if self.proficiencies.is_none() {
            push_text(&mut fields, "proficiencies");
        }
        proof {
            assert(texts(fields@) =~= self.missing());
        }
        match (self.name, self.description, self.feature, self.proficiencies) {
            (Some(name), Some(description), Some(feature), Some(proficiencies)) => {
                proof {
                    assert(texts(fields@).len() == 0);
                }
                Ok(Background { name, description, feature, proficiencies })
            },
            _ => Err(BuildError::MissingField(fields)),
        }
    }
}

/// The special feature a background grants.
#[derive(Clone, Debug, PartialEq, Eq)]
pub struct Feature {
    name: String,
    description: String,
}

impl Feature {
    pub closed spec fn spec_name(self) -> Seq<char> {
        self.name@
    }

    pub closed spec fn spec_description(self) -> Seq<char> {
        self.description@
    }

    pub fn new(name: &str, description: &str) -> (r: Feature)
        ensures
            r.spec_name() == name@,
            r.spec_description() == description@,
    {
        Feature { name: name.to_owned(), description: description.to_owned() }
    }

    #[must_use]
    pub fn get_name(&self) -> (r: &str)
        ensures
            r@ == self.spec_name(),
    {
        self.name.as_str()
    }

    #[must_use]
    pub fn get_description(&self) -> (r: &str)
        ensures
            r@ == self.spec_description(),
    {
        self.description.as_str()
    }
}

/// What a background trains: two skills and two further proficiencies.
#[derive(Clone, Debug, PartialEq, Eq)]
pub enum Proficiencies {
    TwoSkillsTwoTools { skills: Vec<skill::Identifier>, tools: Vec<String> },
    TwoSkillsTwoLanguages { skills: Vec<skill::Identifier>, languages: Vec<String> },
    TwoSkillsOneLanguageOneTool { skills: Vec<skill::Identifier>, lanugage: String, tool: String },
}

impl Proficiencies {
    pub fn two_skills_two_tools(
        skill1: skill::Identifier,
        skill2: skill::Identifier,
        tool1: &str,
        tool2: &str,
    ) -> (r: Proficiencies)
        ensures
            r matches Proficiencies::TwoSkillsTwoTools { skills, tools } && skills@ == seq![
                skill1,
                skill2,
            ] && texts(tools@) == seq![tool1@, tool2@],
    {
        let skills = vec![skill1, skill2];
        let mut tools: Vec<String> = Vec::new();
        push_text(&mut tools, tool1);
        push_text(&mut tools, tool2);
        proof {
            assert(texts(tools@) =~= seq![tool1@, tool2@]);
        }
        Proficiencies::TwoSkillsTwoTools { skills, tools }
    }

    pub fn two_skills_two_languages(
        skill1: skill::Identifier,
        skill2: skill::Identifier,
        language1: &str,
        language2: &str,
    ) -> (r: Proficiencies)
        ensures
            r matches Proficiencies::TwoSkillsTwoLanguages { skills, languages } && skills@
                == seq![skill1, skill2] && texts(languages@) == seq![language1@, language2@],
    {
        let skills = vec![skill1, skill2];
        let mut languages: Vec<String> = Vec::new();
        push_text(&mut languages, language1);
        push_text(&mut languages, language2);
        proof {
            assert(texts(languages@) =~= seq![language1@, language2@]);
        }
        Proficiencies::TwoSkillsTwoLanguages { skills, languages }
    }

    pub fn two_skills_one_tool_one_language(
        skill1: skill::Identifier,
        skill2: skill::Identifier,
        tool: &str,
        language: &str,
    ) -> (r: Proficiencies)
        ensures
            r matches Proficiencies::TwoSkillsOneLanguageOneTool { skills, lanugage, tool: t }
                && skills@ == seq![skill1, skill2] && lanugage@ == language@ && t@ == tool@,
    {
        let skills = vec![skill1, skill2];
        Proficiencies::TwoSkillsOneLanguageOneTool {
            skills,
            lanugage: language.to_owned(),
            tool: tool.to_owned(),
        }
    }
}

} // verus!
