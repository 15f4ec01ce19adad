use vstd::prelude::*;
use crate::character::{Alignment, Gender};
use crate::race::Size;
use crate::text::{append_quoted_list, push_text, quoted_list, text_if, texts};
use vstd::string::StringExecFns;
use crate::units::{Distance, Duration, Weight};

verus! {

/// How a character looks and presents.
#[derive(Debug)]
pub struct Characteristics {
    alignment: Alignment,
    gender: Option<Gender>,
    size: Size,
    eye_color: String,
    height: Vec<Distance>,
    faith: Option<String>,
    hair_color: String,
    skin_tone: String,
    age: Duration,
    weight: Weight,
}

impl Characteristics {
    pub closed spec fn spec_alignment(self) -> Alignment {
        self.alignment
    }

    pub closed spec fn spec_gender(self) -> Option<Gender> {
        self.gender
    }

    pub closed spec fn spec_size(self) -> Size {
        self.size
    }

    pub closed spec fn spec_eye_color(self) -> Seq<char> {
        self.eye_color@
    }

    pub closed spec fn spec_height(self) -> Seq<Distance> {
        self.height@
    }

    pub closed spec fn spec_faith(self) -> Option<Seq<char>> {
        match self.faith {
            Some(v) => Some(v@),
            None => None,
        }
    }

    pub closed spec fn spec_hair_color(self) -> Seq<char> {
        self.hair_color@
    }

    pub closed spec fn spec_skin_tone(self) -> Seq<char> {
        self.skin_tone@
    }

    pub closed spec fn spec_age(self) -> Duration {
        self.age
    }

    pub closed spec fn spec_weight(self) -> Weight {
        self.weight
    }

    #[must_use]
    pub fn get_alignment(&self) -> (r: Alignment)
        ensures
            r == self.spec_alignment(),
    {
        self.alignment
    }

    #[must_use]
    pub fn get_gender(&self) -> (r: Option<Gender>)
        ensures
            r == self.spec_gender(),
    {
        self.gender
    }

    #[must_use]
    pub fn get_size(&self) -> (r: Size)
        ensures
            r == self.spec_size(),
    {
        self.size
    }

    #[must_use]
    pub fn get_eye_color(&self) -> (r: &str)
        ensures
            r@ == self.spec_eye_color(),
    {
        self.eye_color.as_str()
    }

    #[must_use]
    pub fn get_height(&self) -> (r: &[Distance])
        ensures
            r@ == self.spec_height(),
    {
        self.height.as_slice()
    }

    #[must_use]
    pub fn get_faith(&self) -> (r: Option<&str>)
        ensures
            r matches Some(f) ==> self.spec_faith() == Some(f@),
            r is None ==> self.spec_faith() is None,
    {
        match &self.faith {
            Some(f) => Some(f.as_str()),
            None => None,
        }
    }

    #[must_use]
    pub fn get_hair_color(&self) -> (r: &str)
        ensures
            r@ == self.spec_hair_color(),
    {
        self.hair_color.as_str()
    }

    #[must_use]
    pub fn get_skin_tone(&self) -> (r: &str)
        ensures
            r@ == self.spec_skin_tone(),
    {
        self.skin_tone.as_str()
    }

    #[must_use]
    pub fn get_age(&self) -> (r: Duration)
        ensures
            r == self.spec_age(),
    {
        self.age
    }

    #[must_use]
    pub fn weight(&self) -> (r: Weight)
        ensures
            r == self.spec_weight(),
    {
        self.weight
    }
}

/// Collects the characteristics before they are fixed.
#[derive(Clone, Debug, Default)]
pub struct Builder {
    alignment: Option<Alignment>,
    gender: Option<Gender>,
    size: Option<Size>,
    eye_color: Option<String>,
    height: Option<Vec<Distance>>,
    faith: Option<String>,
    hair_color: Option<String>,
    skin_tone: Option<String>,
    age: Option<Duration>,
    weight: Option<Weight>,
}

#[derive(Clone, Debug, PartialEq, Eq)]
pub enum BuildError {
    /// Names every required field that was not given.
    MissingFields(Vec<String>),
}

impl BuildError {
    /// The error as a sentence that lists the missing fields.
    pub fn message(&self) -> (r: String)
        ensures
            self matches BuildError::MissingFields(f) && r@ == "Unable to build Characteristics:\n\t"@
                + quoted_list(texts(f@)),
    {
        match self {
            BuildError::MissingFields(fields) => {
                let mut r = String::from_str("Unable to build Characteristics:\n\t");
                append_quoted_list(&mut r, fields.as_slice());
                r
            },
        }
    }
}

impl Builder {
    pub closed spec fn spec_alignment(self) -> Option<Alignment> {
        self.alignment
    }

    pub closed spec fn spec_gender(self) -> Option<Gender> {
        self.gender
    }

    pub closed spec fn spec_size(self) -> Option<Size> {
        self.size
    }

    pub closed spec fn spec_eye_color(self) -> Option<Seq<char>> {
        match self.eye_color {
            Some(v) => Some(v@),
            None => None,
        }
    }

    pub closed spec fn spec_height(self) -> Option<Seq<Distance>> {
        match self.height {
            Some(v) => Some(v@),
            None => None,
        }
    }

    pub closed spec fn spec_faith(self) -> Option<Seq<char>> {
        match self.faith {
            Some(v) => Some(v@),
            None => None,
        }
    }

    pub closed spec fn spec_hair_color(self) -> Option<Seq<char>> {
        match self.hair_color {
            Some(v) => Some(v@),
            None => None,
        }
    }

    pub closed spec fn spec_skin_tone(self) -> Option<Seq<char>> {
        match self.skin_tone {
            Some(v) => Some(v@),
            None => None,
        }
    }

    pub closed spec fn spec_age(self) -> Option<Duration> {
        self.age
    }

    pub closed spec fn spec_weight(self) -> Option<Weight> {
        self.weight
    }

    /// The required fields not given, in declaration order.
    pub open spec fn missing(self) -> Seq<Seq<char>> {
        text_if(self.spec_alignment() is None, "alignment"@) + text_if(self.spec_size() is None, "size"@) + text_if(self.spec_eye_color() is None, "eye_color"@) + text_if(self.spec_height() is None, "height"@) + text_if(self.spec_hair_color() is None, "hair_color"@) + text_if(self.spec_skin_tone() is None, "skin_tone"@) + text_if(self.spec_age() is None, "age"@) + text_if(self.spec_weight() is None, "weight"@)
    }

    #[must_use]
    pub fn new() -> (r: Builder)
        ensures
            r.spec_alignment() is None,
            r.spec_gender() is None,
            r.spec_size() is None,
            r.spec_eye_color() is None,
            r.spec_height() is None,
            r.spec_faith() is None,
            r.spec_hair_color() is None,
            r.spec_skin_tone() is None,
            r.spec_age() is None,
            r.spec_weight() is None,
    {
        Builder {
            alignment: None,
            gender: None,
            size: None,
            eye_color: None,
            height: None,
            faith: None,
            hair_color: None,
            skin_tone: None,
            age: None,
            weight: None,
        }
    }

    #[must_use]
    pub fn alignment(self, alignment: Alignment) -> (r: Builder)
        ensures
            r.spec_alignment() == Some(alignment),
            r.spec_gender() == self.spec_gender(),
            r.spec_size() == self.spec_size(),
            r.spec_eye_color() == self.spec_eye_color(),
            r.spec_height() == self.spec_height(),
            r.spec_faith() == self.spec_faith(),
            r.spec_hair_color() == self.spec_hair_color(),
            r.spec_skin_tone() == self.spec_skin_tone(),
            r.spec_age() == self.spec_age(),
            r.spec_weight() == self.spec_weight(),
    {
        Builder { alignment: Some(alignment), ..self }
    }

    #[must_use]
    pub fn gender(self, gender: Gender) -> (r: Builder)
        ensures
            r.spec_gender() == Some(gender),
            r.spec_alignment() == self.spec_alignment(),
            r.spec_size() == self.spec_size(),
            r.spec_eye_color() == self.spec_eye_color(),
            r.spec_height() == self.spec_height(),
            r.spec_faith() == self.spec_faith(),
            r.spec_hair_color() == self.spec_hair_color(),
            r.spec_skin_tone() == self.spec_skin_tone(),
            r.spec_age() == self.spec_age(),
            r.spec_weight() == self.spec_weight(),
    {
        Builder { gender: Some(gender), ..self }
    }

    #[must_use]
    pub fn size(self, size: Size) -> (r: Builder)
        ensures
            r.spec_size() == Some(size),
            r.spec_alignment() == self.spec_alignment(),
            r.spec_gender() == self.spec_gender(),
            r.spec_eye_color() == self.spec_eye_color(),
            r.spec_height() == self.spec_height(),
            r.spec_faith() == self.spec_faith(),
            r.spec_hair_color() == self.spec_hair_color(),
            r.spec_skin_tone() == self.spec_skin_tone(),
            r.spec_age() == self.spec_age(),
            r.spec_weight() == self.spec_weight(),
    {
        Builder { size: Some(size), ..self }
    }

    #[must_use]
    pub fn eye_color(self, eye_color: &str) -> (r: Builder)
        ensures
            r.spec_eye_color() == Some(eye_color@),
            r.spec_alignment() == self.spec_alignment(),
            r.spec_gender() == self.spec_gender(),
            r.spec_size() == self.spec_size(),
            r.spec_height() == self.spec_height(),
            r.spec_faith() == self.spec_faith(),
            r.spec_hair_color() == self.spec_hair_color(),
            r.spec_skin_tone() == self.spec_skin_tone(),
            r.spec_age() == self.spec_age(),
            r.spec_weight() == self.spec_weight(),
    {
        Builder { eye_color: Some(eye_color.to_owned()), ..self }
    }

    #[must_use]
    pub fn height(self, height: Vec<Distance>) -> (r: Builder)
        ensures
            r.spec_height() == Some(height@),
            r.spec_alignment() == self.spec_alignment(),
            r.spec_gender() == self.spec_gender(),
            r.spec_size() == self.spec_size(),
            r.spec_eye_color() == self.spec_eye_color(),
            r.spec_faith() == self.spec_faith(),
            r.spec_hair_color() == self.spec_hair_color(),
            r.spec_skin_tone() == self.spec_skin_tone(),
            r.spec_age() == self.spec_age(),
            r.spec_weight() == self.spec_weight(),
    {
        Builder { height: Some(height), ..self }
    }

    #[must_use]
    pub fn faith(self, faith: &str) -> (r: Builder)
        ensures
            r.spec_faith() == Some(faith@),
            r.spec_alignment() == self.spec_alignment(),
            r.spec_gender() == self.spec_gender(),
            r.spec_size() == self.spec_size(),
            r.spec_eye_color() == self.spec_eye_color(),
            r.spec_height() == self.spec_height(),
            r.spec_hair_color() == self.spec_hair_color(),
            r.spec_skin_tone() == self.spec_skin_tone(),
            r.spec_age() == self.spec_age(),
            r.spec_weight() == self.spec_weight(),
    {
        Builder { faith: Some(faith.to_owned()), ..self }
    }

    #[must_use]
    pub fn hair_color(self, hair_color: &str) -> (r: Builder)
        ensures
            r.spec_hair_color() == Some(hair_color@),
            r.spec_alignment() == self.spec_alignment(),
            r.spec_gender() == self.spec_gender(),
            r.spec_size() == self.spec_size(),
            r.spec_eye_color() == self.spec_eye_color(),
            r.spec_height() == self.spec_height(),
            r.spec_faith() == self.spec_faith(),
            r.spec_skin_tone() == self.spec_skin_tone(),
            r.spec_age() == self.spec_age(),
            r.spec_weight() == self.spec_weight(),
    {
        Builder { hair_color: Some(hair_color.to_owned()), ..self }
    }

    #[must_use]
    pub fn skin_tone(self, skin_tone: &str) -> (r: Builder)
        ensures
            r.spec_skin_tone() == Some(skin_tone@),
            r.spec_alignment() == self.spec_alignment(),
            r.spec_gender() == self.spec_gender(),
            r.spec_size() == self.spec_size(),
            r.spec_eye_color() == self.spec_eye_color(),
            r.spec_height() == self.spec_height(),
            r.spec_faith() == self.spec_faith(),
            r.spec_hair_color() == self.spec_hair_color(),
            r.spec_age() == self.spec_age(),
            r.spec_weight() == self.spec_weight(),
    {
        Builder { skin_tone: Some(skin_tone.to_owned()), ..self }
    }

    #[must_use]
    pub fn age(self, age: Duration) -> (r: Builder)
        ensures
            r.spec_age() == Some(age),
            r.spec_alignment() == self.spec_alignment(),
            r.spec_gender() == self.spec_gender(),
            r.spec_size() == self.spec_size(),
            r.spec_eye_color() == self.spec_eye_color(),
            r.spec_height() == self.spec_height(),
            r.spec_faith() == self.spec_faith(),
            r.spec_hair_color() == self.spec_hair_color(),
            r.spec_skin_tone() == self.spec_skin_tone(),
            r.spec_weight() == self.spec_weight(),
    {
        Builder { age: Some(age), ..self }
    }

    #[must_use]
    pub fn weight(self, weight: Weight) -> (r: Builder)
        ensures
            r.spec_weight() == Some(weight),
            r.spec_alignment() == self.spec_alignment(),
            r.spec_gender() == self.spec_gender(),
            r.spec_size() == self.spec_size(),
            r.spec_eye_color() == self.spec_eye_color(),
            r.spec_height() == self.spec_height(),
            r.spec_faith() == self.spec_faith(),
            r.spec_hair_color() == self.spec_hair_color(),
            r.spec_skin_tone() == self.spec_skin_tone(),
            r.spec_age() == self.spec_age(),
    {
        Builder { weight: Some(weight), ..self }
    }

    /// Fixes the characteristics; fails naming every required field not given.
    #[verifier::rlimit(80)]
    #[verifier::spinoff_prover]
    pub fn build(self) -> (r: Result<Characteristics, BuildError>)
        ensures
            self.missing().len() > 0 ==> (r matches Err(BuildError::MissingFields(f)) && texts(f@)
                == self.missing()),
            self.missing().len() == 0 ==> (r matches Ok(c) && Some(c.spec_alignment()) == self.spec_alignment() && c.spec_gender() == self.spec_gender() && Some(c.spec_size()) == self.spec_size() && Some(c.spec_eye_color()) == self.spec_eye_color() && Some(c.spec_height()) == self.spec_height() && c.spec_faith() == self.spec_faith() && Some(c.spec_hair_color()) == self.spec_hair_color() && Some(c.spec_skin_tone()) == self.spec_skin_tone() && Some(c.spec_age()) == self.spec_age() && Some(c.spec_weight()) == self.spec_weight()),
    {
        let mut fields: Vec<String> = Vec::new();
        proof {
            assert(texts(fields@) =~= Seq::<Seq<char>>::empty());
        }
        if self.alignment.is_none() {
            push_text(&mut fields, "alignment");
        }
        proof {
            assert(texts(fields@) =~= text_if(self.spec_alignment() is None, "alignment"@));
        }
        if self.size.is_none() {
            push_text(&mut fields, "size");
        }
        proof {
            assert(texts(fields@) =~= text_if(self.spec_alignment() is None, "alignment"@) + text_if(self.spec_size() is None, "size"@));
        }
        if self.eye_color.is_none() {
            push_text(&mut fields, "eye_color");
        }
        proof {
            assert(texts(fields@) =~= text_if(self.spec_alignment() is None, "alignment"@) + text_if(self.spec_size() is None, "size"@) + text_if(self.spec_eye_color() is None, "eye_color"@));
        }
        if self.height.is_none() {
            push_text(&mut fields, "height");
        }
        proof {
            assert(texts(fields@) =~= text_if(self.spec_alignment() is None, "alignment"@) + text_if(self.spec_size() is None, "size"@) + text_if(self.spec_eye_color() is None, "eye_color"@) + text_if(self.spec_height() is None, "height"@));
        }
        if self.hair_color.is_none() {
            push_text(&mut fields, "hair_color");
        }
        proof {
            assert(texts(fields@) =~= text_if(self.spec_alignment() is None, "alignment"@) + text_if(self.spec_size() is None, "size"@) + text_if(self.spec_eye_color() is None, "eye_color"@) + text_if(self.spec_height() is None, "height"@) + text_if(self.spec_hair_color() is None, "hair_color"@));
        }
        if self.skin_tone.is_none() {
            push_text(&mut fields, "skin_tone");
        }
        proof {
            assert(texts(fields@) =~= text_if(self.spec_alignment() is None, "alignment"@) + text_if(self.spec_size() is None, "size"@) + text_if(self.spec_eye_color() is None, "eye_color"@) + text_if(self.spec_height() is None, "height"@) + text_if(self.spec_hair_color() is None, "hair_color"@) + text_if(self.spec_skin_tone() is None, "skin_tone"@));
        }
        if self.age.is_none() {
            push_text(&mut fields, "age");
        }
        proof {
            assert(texts(fields@) =~= text_if(self.spec_alignment() is None, "alignment"@) + text_if(self.spec_size() is None, "size"@) + text_if(self.spec_eye_color() is None, "eye_color"@) + text_if(self.spec_height() is None, "height"@) + text_if(self.spec_hair_color() is None, "hair_color"@) + text_if(self.spec_skin_tone() is None, "skin_tone"@) + text_if(self.spec_age() is None, "age"@));
        }
        if self.weight.is_none() {
            push_text(&mut fields, "weight");
        }
        proof {
            assert(texts(fields@) =~= text_if(self.spec_alignment() is None, "alignment"@) + text_if(self.spec_size() is None, "size"@) + text_if(self.spec_eye_color() is None, "eye_color"@) + text_if(self.spec_height() is None, "height"@) + text_if(self.spec_hair_color() is None, "hair_color"@) + text_if(self.spec_skin_tone() is None, "skin_tone"@) + text_if(self.spec_age() is None, "age"@) + text_if(self.spec_weight() is None, "weight"@));
        }
        match (self.alignment, self.size, self.eye_color, self.height, self.hair_color, self.skin_tone, self.age, self.weight) {
            (Some(alignment), Some(size), Some(eye_color), Some(height), Some(hair_color), Some(skin_tone), Some(age), Some(weight)) => {
                proof {
                    assert(texts(fields@).len() == 0);
                }
                Ok(
                    Characteristics {
                        alignment,
                        gender: self.gender,
                        size,
                        eye_color,
                        height,
                        faith: self.faith,
                        hair_color,
                        skin_tone,
                        age,
                        weight,
                    },
                )
            },
            _ => Err(BuildError::MissingFields(fields)),
        }
    }
}

impl TryFrom<Builder> for Characteristics {
    type Error = BuildError;

    /// See `Builder::build`.
    fn try_from(value: Builder) -> (r: Result<Characteristics, BuildError>) {
        value.build()
    }
}

impl vstd::std_specs::convert::TryFromSpecImpl<Builder> for Characteristics {
    open spec fn obeys_try_from_spec() -> bool {
        false
    }

    open spec fn try_from_spec(v: Builder) -> Result<Characteristics, BuildError> {
        arbitrary()
    }
}

} // verus!
