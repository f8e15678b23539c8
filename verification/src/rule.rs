//! Rules and their materialisation modes.

use vstd::prelude::*;
use crate::engine::{start, Reconciler};
use crate::text::same_text;

verus! {

/// How a rule materialises its source at the destination.
#[derive(Clone, Copy, Debug, PartialEq, Eq, Structural)]
pub enum Mode {
    /// A full copy of the source's bytes.
    Copy,
    /// A symbolic link whose target is the source.
    Link,
}

impl Mode {
    /// The token under which a mode is stored and typed: `copy` or `link`.
    pub open spec fn token(self) -> Seq<char> {
        match self {
            Mode::Copy => "copy"@,
            Mode::Link => "link"@,
        }
    }

    /// The mode that a token stands for.
    pub open spec fn parsed(token: Seq<char>) -> Option<Mode> {
        if token == "copy"@ {
            Some(Mode::Copy)
        } else if token == "link"@ {
            Some(Mode::Link)
        } else {
            None
        }
    }

    /// Reads a mode from its token. Any other text than `copy` and `link`
    /// is refused.
    pub fn from_arg_value(value: &str) -> (mode: Result<Mode, String>)
        ensures
            match Mode::parsed(value@) {
                Some(m) => mode == Ok::<Mode, String>(m),
                None => mode matches Err(why) && why@ == "Invalid mode"@,
            },
    {
        if same_text(value, "copy") {
            Ok(Mode::Copy)
        } else if same_text(value, "link") {
            Ok(Mode::Link)
        } else {
            Err(String::from_str("Invalid mode"))
        }
    }

    /// The mode's token as an owned string.
    pub fn to_string(&self) -> (text: String)
        ensures
            text@ == self.token(),
    {
        match self {
            Mode::Copy => String::from_str("copy"),
            Mode::Link => String::from_str("link"),
        }
    }
}

/// Each mode is read back from its own token, and the two tokens differ.
pub proof fn lemma_token_round_trip(mode: Mode)
    ensures
        Mode::parsed(mode.token()) == Some(mode),
        Mode::Copy.token() != Mode::Link.token(),
{
    reveal_strlit("copy");
    reveal_strlit("link");
    assert("copy"@[0] != "link"@[0]);
}

/// A rule: how a source path is to appear at a destination path.
#[derive(Debug, PartialEq, Eq)]
pub struct Rule {
    /// The source path. In a stored profile it may begin with `~`.
    pub src: String,
    /// The destination path.
    pub dst: String,
    /// Whether the destination is to be a link or a copy.
    pub mode: Mode,
}

/// A [`Rule`] as a mathematical value.
pub struct RuleView {
    pub src: Seq<char>,
    pub dst: Seq<char>,
    pub mode: Mode,
}

impl View for Rule {
    type V = RuleView;

    open spec fn view(&self) -> RuleView {
        RuleView { src: self.src@, dst: self.dst@, mode: self.mode }
    }
}

impl DeepView for Rule {
    type V = RuleView;

    open spec fn deep_view(&self) -> RuleView {
        self@
    }
}

impl Clone for Rule {
    fn clone(&self) -> (copy: Self)
        ensures
            copy@ == self@,
    {
        Rule { src: self.src.clone(), dst: self.dst.clone(), mode: self.mode }
    }
}

impl RuleView {
    /// The rule as it is shown to the operator.
    pub open spec fn text(self) -> Seq<char> {
        "Source: "@ + self.src + "\nTarget: "@ + self.dst + "\nMode  : "@ + self.mode.token()
    }
}

impl Rule {
    /// The rule as it is shown to the operator: source, target and mode, a
    /// line each.
    pub fn to_string(&self) -> (text: String)
        ensures
            text@ == self@.text(),
    {
        String::from_str("Source: ").concat(self.src.as_str()).concat("\nTarget: ").concat(
            self.dst.as_str(),
        ).concat("\nMode  : ").concat(self.mode.to_string().as_str())
    }

    /// Begins applying the rule under `name`. Nothing is done yet: the
    /// reconciliation returned asks for each step in turn.
    pub fn apply(self, name: String) -> (machine: Reconciler)
        ensures
            machine@ == start(self@, name@),
    {
        Reconciler::new(self, name)
    }
}

} // verus!
