//! The table of chat models the assistant can talk to: each model has a wire
//! identifier, a context-window size, and a price per 1000 tokens.
//!
//! Prices are kept as integers in tenths of the per-1000-token price unit, so
//! that cost accounting stays in exact arithmetic.

use vstd::prelude::*;

use crate::text::str_eq;

verus! {

/// A chat model the completion endpoint understands.
#[derive(Debug, Copy, Clone, PartialEq, Eq, Structural)]
pub enum Model {
    Gpt40125Preview,
    Gpt4TurboPreview,
    Gpt41106Preview,
    Gpt4VisionPreview,
    Gpt4,
    Gpt40613,
    Gpt432k,
    Gpt432k0613,
    Gpt35Turbo,
    Gpt35Turbo16k,
    Gpt35Turbo0613,
    Gpt35Turbo1106,
    Gpt35Turbo0125,
    Gpt35Turbo16k0613,
}

impl Model {
    /// The largest total token count (prompt plus completion) the model accepts.
    pub fn context_size(&self) -> (n: usize)
        ensures
            n == self.spec_context_size(),
            n >= 4096,
    {
        match self {
            Self::Gpt40125Preview => 128000,
            Self::Gpt4TurboPreview => 128000,
            Self::Gpt41106Preview => 128000,
            Self::Gpt4VisionPreview => 128000,
            Self::Gpt4 => 8192,
            Self::Gpt40613 => 8192,
            Self::Gpt432k => 32768,
            Self::Gpt432k0613 => 32768,
            Self::Gpt35Turbo => 4096,
            Self::Gpt35Turbo16k => 16385,
            Self::Gpt35Turbo0613 => 4096,
            Self::Gpt35Turbo1106 => 16385,
            Self::Gpt35Turbo0125 => 16385,
            Self::Gpt35Turbo16k0613 => 16385,
        }
    }

    pub open spec fn spec_context_size(self) -> int {
        match self {
            Self::Gpt40125Preview => 128000,
            Self::Gpt4TurboPreview => 128000,
            Self::Gpt41106Preview => 128000,
            Self::Gpt4VisionPreview => 128000,
            Self::Gpt4 => 8192,
            Self::Gpt40613 => 8192,
            Self::Gpt432k => 32768,
            Self::Gpt432k0613 => 32768,
            Self::Gpt35Turbo => 4096,
            Self::Gpt35Turbo16k => 16385,
            Self::Gpt35Turbo0613 => 4096,
            Self::Gpt35Turbo1106 => 16385,
            Self::Gpt35Turbo0125 => 16385,
            Self::Gpt35Turbo16k0613 => 16385,
        }
    }

    /// The wire identifier of this model.
    pub open spec fn spec_identifier(self) -> Seq<char> {
        match self {
            Self::Gpt40125Preview => "gpt-4-0125-preview"@,
            Self::Gpt4TurboPreview => "gpt-4-turbo-preview"@,
            Self::Gpt41106Preview => "gpt-4-1106-preview"@,
            Self::Gpt4VisionPreview => "gpt-4-vision-preview"@,
            Self::Gpt4 => "gpt-4"@,
            Self::Gpt40613 => "gpt-4-0613"@,
            Self::Gpt432k => "gpt-4-32k"@,
            Self::Gpt432k0613 => "gpt-4-32k-0613"@,
            Self::Gpt35Turbo => "gpt-3.5-turbo"@,
            Self::Gpt35Turbo16k => "gpt-3.5-turbo-16k"@,
            Self::Gpt35Turbo0613 => "gpt-3.5-turbo-0613"@,
            Self::Gpt35Turbo1106 => "gpt-3.5-turbo-1106"@,
            Self::Gpt35Turbo0125 => "gpt-3.5-turbo-0125"@,
            Self::Gpt35Turbo16k0613 => "gpt-3.5-turbo-16k-0613"@,
        }
    }

    /// The model a name denotes, or nothing when no model carries it.
    pub open spec fn spec_of_name(s: Seq<char>) -> Option<Model> {
        if s == "gpt-4-0125-preview"@ {
            Some(Self::Gpt40125Preview)
        } else if s == "gpt-4-turbo-preview"@ {
            Some(Self::Gpt4TurboPreview)
        } else if s == "gpt-4-1106-preview"@ {
            Some(Self::Gpt41106Preview)
        } else if s == "gpt-4-vision-preview"@ {
            Some(Self::Gpt4VisionPreview)
        } else if s == "gpt-4"@ {
            Some(Self::Gpt4)
        } else if s == "gpt-4-0613"@ {
            Some(Self::Gpt40613)
        } else if s == "gpt-4-32k"@ {
            Some(Self::Gpt432k)
        } else if s == "gpt-4-32k-0613"@ {
            Some(Self::Gpt432k0613)
        } else if s == "gpt-3.5-turbo"@ {
            Some(Self::Gpt35Turbo)
        } else if s == "gpt-3.5-turbo-16k"@ {
            Some(Self::Gpt35Turbo16k)
        } else if s == "gpt-3.5-turbo-0613"@ {
            Some(Self::Gpt35Turbo0613)
        } else if s == "gpt-3.5-turbo-1106"@ {
            Some(Self::Gpt35Turbo1106)
        } else if s == "gpt-3.5-turbo-0125"@ {
            Some(Self::Gpt35Turbo0125)
        } else if s == "gpt-3.5-turbo-16k-0613"@ {
            Some(Self::Gpt35Turbo16k0613)
        } else {
            None
        }
    }

    /// Looks a model up by its wire identifier. An unknown name is a
    /// configuration error, reported with the name in it, never a silent
    /// fallback to some default.
    pub fn from_str(s: &str) -> (r: Result<Model, String>)
        ensures
            match Self::spec_of_name(s@) {
                Some(m) => r == Ok::<Model, String>(m),
                None => r matches Err(msg) && msg@ == s@ + " is not a valid model"@,
            },
    {
        if str_eq(s, "gpt-4-0125-preview") {
            Ok(Self::Gpt40125Preview)
        } else if str_eq(s, "gpt-4-turbo-preview") {
            Ok(Self::Gpt4TurboPreview)
        } else if str_eq(s, "gpt-4-1106-preview") {
            Ok(Self::Gpt41106Preview)
        } else if str_eq(s, "gpt-4-vision-preview") {
            Ok(Self::Gpt4VisionPreview)
        } else if str_eq(s, "gpt-4") {
            Ok(Self::Gpt4)
        } else if str_eq(s, "gpt-4-0613") {
            Ok(Self::Gpt40613)
        } else if str_eq(s, "gpt-4-32k") {
            Ok(Self::Gpt432k)
        } else if str_eq(s, "gpt-4-32k-0613") {
            Ok(Self::Gpt432k0613)
        } else if str_eq(s, "gpt-3.5-turbo") {
            Ok(Self::Gpt35Turbo)
        } else if str_eq(s, "gpt-3.5-turbo-16k") {
            Ok(Self::Gpt35Turbo16k)
        } else if str_eq(s, "gpt-3.5-turbo-0613") {
            Ok(Self::Gpt35Turbo0613)
        } else if str_eq(s, "gpt-3.5-turbo-1106") {
            Ok(Self::Gpt35Turbo1106)
        } else if str_eq(s, "gpt-3.5-turbo-0125") {
            Ok(Self::Gpt35Turbo0125)
        } else if str_eq(s, "gpt-3.5-turbo-16k-0613") {
            Ok(Self::Gpt35Turbo16k0613)
        } else {
            Err(s.to_owned().concat(" is not a valid model"))
        }
    }

    /// The wire identifier, for the request body and for listings.
    pub fn to_string(&self) -> (r: String)
        ensures
            r@ == self.spec_identifier(),
    {
        match self {
            Self::Gpt40125Preview => String::from_str("gpt-4-0125-preview"),
            Self::Gpt4TurboPreview => String::from_str("gpt-4-turbo-preview"),
            Self::Gpt41106Preview => String::from_str("gpt-4-1106-preview"),
            Self::Gpt4VisionPreview => String::from_str("gpt-4-vision-preview"),
            Self::Gpt4 => String::from_str("gpt-4"),
            Self::Gpt40613 => String::from_str("gpt-4-0613"),
            Self::Gpt432k => String::from_str("gpt-4-32k"),
            Self::Gpt432k0613 => String::from_str("gpt-4-32k-0613"),
            Self::Gpt35Turbo => String::from_str("gpt-3.5-turbo"),
            Self::Gpt35Turbo16k => String::from_str("gpt-3.5-turbo-16k"),
            Self::Gpt35Turbo0613 => String::from_str("gpt-3.5-turbo-0613"),
            Self::Gpt35Turbo1106 => String::from_str("gpt-3.5-turbo-1106"),
            Self::Gpt35Turbo0125 => String::from_str("gpt-3.5-turbo-0125"),
            Self::Gpt35Turbo16k0613 => String::from_str("gpt-3.5-turbo-16k-0613"),
        }
    }

    /// Every model, in the order listings show them.
    pub fn all() -> (v: Vec<Model>)
        ensures
            v@ =~= seq![
                Model::Gpt40125Preview,
                Model::Gpt4TurboPreview,
                Model::Gpt41106Preview,
                Model::Gpt4VisionPreview,
                Model::Gpt4,
                Model::Gpt40613,
                Model::Gpt432k,
                Model::Gpt432k0613,
                Model::Gpt35Turbo,
                Model::Gpt35Turbo16k,
                Model::Gpt35Turbo0613,
                Model::Gpt35Turbo1106,
                Model::Gpt35Turbo0125,
                Model::Gpt35Turbo16k0613,
            ],
    {
        vec![
            Model::Gpt40125Preview,
            Model::Gpt4TurboPreview,
            Model::Gpt41106Preview,
            Model::Gpt4VisionPreview,
            Model::Gpt4,
            Model::Gpt40613,
            Model::Gpt432k,
            Model::Gpt432k0613,
            Model::Gpt35Turbo,
            Model::Gpt35Turbo16k,
            Model::Gpt35Turbo0613,
            Model::Gpt35Turbo1106,
            Model::Gpt35Turbo0125,
            Model::Gpt35Turbo16k0613,
        ]
    }

    /// The prompt price of this model, in tenths of the per-1000-token
    /// price unit.
    pub open spec fn spec_prompt_price_tenths(self) -> nat {
        match self {
            Self::Gpt40125Preview => 100,
            Self::Gpt4TurboPreview => 100,
            Self::Gpt41106Preview => 100,
            Self::Gpt4VisionPreview => 100,
            Self::Gpt4 => 100,
            Self::Gpt40613 => 100,
            Self::Gpt432k => 600,
            Self::Gpt432k0613 => 600,
            Self::Gpt35Turbo => 30,
            Self::Gpt35Turbo16k => 30,
            Self::Gpt35Turbo0613 => 15,
            Self::Gpt35Turbo1106 => 10,
            Self::Gpt35Turbo0125 => 5,
            Self::Gpt35Turbo16k0613 => 30,
        }
    }

    /// The completion price of this model, in tenths of the per-1000-token
    /// price unit.
    pub open spec fn spec_completion_price_tenths(self) -> nat {
        match self {
            Self::Gpt40125Preview => 300,
            Self::Gpt4TurboPreview => 300,
            Self::Gpt41106Preview => 300,
            Self::Gpt4VisionPreview => 300,
            Self::Gpt4 => 300,
            Self::Gpt40613 => 300,
            Self::Gpt432k => 1200,
            Self::Gpt432k0613 => 1200,
            Self::Gpt35Turbo => 40,
            Self::Gpt35Turbo16k => 40,
            Self::Gpt35Turbo0613 => 20,
            Self::Gpt35Turbo1106 => 20,
            Self::Gpt35Turbo0125 => 15,
            Self::Gpt35Turbo16k0613 => 40,
        }
    }

    /// The cost of a call, in ten-thousandths of the currency unit: each
    /// price is per 1000 tokens and carries one decimal digit, so
    /// `tokens * price_tenths` is the cost scaled by 10000 exactly.
    pub open spec fn spec_cost(self, prompt_tokens: nat, completion_tokens: nat) -> nat {
        prompt_tokens * self.spec_prompt_price_tenths() + completion_tokens
            * self.spec_completion_price_tenths()
    }

    /// The cost of a call in ten-thousandths of the currency unit, exact
    /// integer arithmetic; divide by 10000 for whole units.
    pub fn cost_scaled(&self, prompt_tokens: usize, completion_tokens: usize) -> (c: u128)
        ensures
            c == self.spec_cost(prompt_tokens as nat, completion_tokens as nat),
    {
        let p = prompt_tokens as u128;
        let t = completion_tokens as u128;
        match self {
            Self::Gpt40125Preview => p * 100 + t * 300,
            Self::Gpt4TurboPreview => p * 100 + t * 300,
            Self::Gpt41106Preview => p * 100 + t * 300,
            Self::Gpt4VisionPreview => p * 100 + t * 300,
            Self::Gpt4 => p * 100 + t * 300,
            Self::Gpt40613 => p * 100 + t * 300,
            Self::Gpt432k => p * 600 + t * 1200,
            Self::Gpt432k0613 => p * 600 + t * 1200,
            Self::Gpt35Turbo => p * 30 + t * 40,
            Self::Gpt35Turbo16k => p * 30 + t * 40,
            Self::Gpt35Turbo0613 => p * 15 + t * 20,
            Self::Gpt35Turbo1106 => p * 10 + t * 20,
            Self::Gpt35Turbo0125 => p * 5 + t * 15,
            Self::Gpt35Turbo16k0613 => p * 30 + t * 40,
        }
    }
}

/// The cost of a call never falls when either token count grows: for a
/// fixed model, cost is monotonically non-decreasing in the prompt token
/// count and in the completion token count.
pub proof fn lemma_cost_monotonic(m: Model, p1: nat, c1: nat, p2: nat, c2: nat)
    requires
        p1 <= p2,
        c1 <= c2,
    ensures
        m.spec_cost(p1, c1) <= m.spec_cost(p2, c2),
{
    vstd::arithmetic::mul::lemma_mul_inequality(
        p1 as int,
        p2 as int,
        m.spec_prompt_price_tenths() as int,
    );
    vstd::arithmetic::mul::lemma_mul_inequality(
        c1 as int,
        c2 as int,
        m.spec_completion_price_tenths() as int,
    );
}

} // verus!
