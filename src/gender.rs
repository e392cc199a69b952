use vstd::prelude::*;
use crate::text::same_text;

verus! {

/// The gender filter understood by the service.
#[derive(Clone, Copy, Debug, PartialEq, Eq, Structural)]
pub enum Gender {
    Male,
    Female,
    Neutral,
    Ambiguous,
    Any,
}

/// The service's code for each gender; `Any` has none and is written as empty.
pub open spec fn gender_code(g: Gender) -> Seq<char> {
    match g {
        Gender::Male => "m"@,
        Gender::Female => "f"@,
        Gender::Neutral => "u"@,
        Gender::Ambiguous => "mf"@,
        Gender::Any => ""@,
    }
}

/// The gender that a service code names: the codes above, and the variant
/// name `Any`.
pub open spec fn gender_from_code(s: Seq<char>) -> Option<Gender> {
    if s == "m"@ {
        Some(Gender::Male)
    } else if s == "f"@ {
        Some(Gender::Female)
    } else if s == "u"@ {
        Some(Gender::Neutral)
    } else if s == "mf"@ {
        Some(Gender::Ambiguous)
    } else if s == "Any"@ {
        Some(Gender::Any)
    } else {
        None
    }
}

/// The gender that a text names when parsed: a code, or `fm` as a second
/// spelling of the ambiguous code.
pub open spec fn gender_from_text(s: Seq<char>) -> Option<Gender> {
    if s == "fm"@ {
        Some(Gender::Ambiguous)
    } else {
        gender_from_code(s)
    }
}

/// A text that names no gender.
#[derive(Clone, Copy, Debug, PartialEq, Eq, Structural)]
pub struct ParseGenderError;

impl Gender {
    /// The service's code for this gender.
    pub fn as_str(&self) -> (r: &'static str)
        ensures
            r@ == gender_code(*self),
    {
        match self {
            Gender::Male => "m",
            Gender::Female => "f",
            Gender::Neutral => "u",
            Gender::Ambiguous => "mf",
            Gender::Any => "",
        }
    }

    /// The service's code for this gender, as an owned string.
    pub fn to_string(&self) -> (r: String)
        ensures
            r@ == gender_code(*self),
    {
        self.as_str().to_owned()
    }

    /// The gender that a service code names.
    pub fn from_code(s: &str) -> (r: Option<Gender>)
        ensures
            r == gender_from_code(s@),
    {
        if same_text(s, "m") {
            Some(Gender::Male)
        } else if same_text(s, "f") {
            Some(Gender::Female)
        } else if same_text(s, "u") {
            Some(Gender::Neutral)
        } else if same_text(s, "mf") {
            Some(Gender::Ambiguous)
        } else if same_text(s, "Any") {
            Some(Gender::Any)
        } else {
            None
        }
    }

    /// Reads a gender from its code, or from `fm`.
    pub fn parse(s: &str) -> (r: Result<Gender, ParseGenderError>)
        ensures
            match gender_from_text(s@) {
                Some(g) => r == Ok::<Gender, ParseGenderError>(g),
                None => r is Err,
            },
    {
        if same_text(s, "fm") {
            return Ok(Gender::Ambiguous);
        }
        match Gender::from_code(s) {
            Some(g) => Ok(g),
            None => Err(ParseGenderError),
        }
    }
}

impl std::str::FromStr for Gender {
    type Err = ParseGenderError;

    fn from_str(s: &str) -> Result<Gender, ParseGenderError> {
        Gender::parse(s)
    }
}

} // verus!
