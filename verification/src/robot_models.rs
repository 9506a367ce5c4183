//! The robot models that the web UI offers.

use vstd::prelude::*;
use vstd::string::*;
use crate::text::str_equal;

verus! {

/// A supported FANUC robot model.
#[derive(Debug, Clone, Copy, PartialEq, Eq, Structural)]
pub enum RobotModel {
    /// CRX-10iA: 10kg payload, 1070mm reach
    CRX10iA,
    /// CRX-30iA: 30kg payload, 1756mm reach
    CRX30iA,
}

/// The display name of a model (payload and reach in brackets).
pub open spec fn model_display_name(m: RobotModel) -> Seq<char> {
    match m {
        RobotModel::CRX10iA => "CRX-10iA (10kg, 1070mm)"@,
        RobotModel::CRX30iA => "CRX-30iA (30kg, 1756mm)"@,
    }
}

/// The short name of a model, which is also its value in an HTML select and
/// the text that parsing accepts.
pub open spec fn model_short_name(m: RobotModel) -> Seq<char> {
    match m {
        RobotModel::CRX10iA => "CRX-10iA"@,
        RobotModel::CRX30iA => "CRX-30iA"@,
    }
}

/// What parsing a model name gives: the model whose short name is `s`, or
/// the error text `Unknown robot model: <s>`.
pub open spec fn model_parse(s: Seq<char>) -> Result<RobotModel, Seq<char>> {
    if s == "CRX-10iA"@ {
        Ok(RobotModel::CRX10iA)
    } else if s == "CRX-30iA"@ {
        Ok(RobotModel::CRX30iA)
    } else {
        Err("Unknown robot model: "@ + s)
    }
}

impl RobotModel {
    /// All available robot models, in the order the UI lists them.
    pub fn all() -> (r: Vec<RobotModel>)
        ensures
            r@ == seq![RobotModel::CRX10iA, RobotModel::CRX30iA],
    {
        let mut v = Vec::new();
        v.push(RobotModel::CRX10iA);
        v.push(RobotModel::CRX30iA);
        v
    }

    /// The display name for this robot model.
    pub fn display_name(&self) -> (r: &'static str)
        ensures
            r@ == model_display_name(*self),
    {
        match self {
            RobotModel::CRX10iA => "CRX-10iA (10kg, 1070mm)",
            RobotModel::CRX30iA => "CRX-30iA (30kg, 1756mm)",
        }
    }

    /// The short name for this robot model.
    pub fn short_name(&self) -> (r: &'static str)
        ensures
            r@ == model_short_name(*self),
    {
        match self {
            RobotModel::CRX10iA => "CRX-10iA",
            RobotModel::CRX30iA => "CRX-30iA",
        }
    }

    /// The value string for an HTML select.
    pub fn value(&self) -> (r: &'static str)
        ensures
            r@ == model_short_name(*self),
    {
        match self {
            RobotModel::CRX10iA => "CRX-10iA",
            RobotModel::CRX30iA => "CRX-30iA",
        }
    }

    /// The text that displaying a model shows: its short name.
    pub fn to_string(&self) -> (r: String)
        ensures
            r@ == model_short_name(*self),
    {
        String::from_str(self.short_name())
    }

    /// Parses a model from its short name; any other text is an error that
    /// names the text.
    pub fn parse_name(s: &str) -> (r: Result<RobotModel, String>)
        ensures
            match (r, model_parse(s@)) {
                (Ok(m), Ok(n)) => m == n,
                (Err(e), Err(f)) => e@ == f,
                _ => false,
            },
    {
        if str_equal(s, "CRX-10iA") {
            Ok(RobotModel::CRX10iA)
        } else if str_equal(s, "CRX-30iA") {
            Ok(RobotModel::CRX30iA)
        } else {
            let mut e = String::from_str("Unknown robot model: ");
            e.append(s);
            Err(e)
        }
    }
}

impl std::str::FromStr for RobotModel {
    type Err = String;

    fn from_str(s: &str) -> (r: Result<Self, Self::Err>)
        ensures
            match (r, model_parse(s@)) {
                (Ok(m), Ok(n)) => m == n,
                (Err(e), Err(f)) => e@ == f,
                _ => false,
            },
    {
        RobotModel::parse_name(s)
    }
}

impl Default for RobotModel {
    fn default() -> (r: Self)
        ensures
            r == RobotModel::CRX10iA,
    {
        RobotModel::CRX10iA
    }
}

/// Parsing the short name (equally the select value) of a model gives that
/// model back, and no two models share a short name.
pub proof fn lemma_model_name_round_trip(m: RobotModel, n: RobotModel)
    ensures
        model_parse(model_short_name(m)) == Ok::<RobotModel, Seq<char>>(m),
        model_short_name(m) == model_short_name(n) ==> m == n,
{
    reveal_strlit("CRX-10iA");
    reveal_strlit("CRX-30iA");
    assert("CRX-10iA"@[4] != "CRX-30iA"@[4]);
}

} // verus!
