//! Commands, and what each one comes to.
//!
//! A command addresses one profile. The caller reads that profile's file,
//! hands over what it found, and gets back what to print, what to store and
//! which rules to apply.

use vstd::prelude::*;
use crate::error::{ProfileError, ProfileErrorView};
use crate::profile::{Plan, PlanView, Profile, ProfileView, Stored};
use crate::rule::{Mode, Rule, RuleView};

verus! {

/// Add a rule.
#[derive(Debug, PartialEq, Eq)]
pub struct Add {
    /// The rule's name.
    pub rule: String,
    /// The source path.
    pub src: String,
    /// The target path.
    pub dst: String,
    /// How the rule is applied.
    pub mode: Mode,
    /// The profile's name.
    pub profile: String,
    /// Whether a rule of the same name is replaced.
    pub overwrite: bool,
}

/// Delete a rule.
#[derive(Debug, PartialEq, Eq)]
pub struct Del {
    /// The rule's name.
    pub rule: String,
    /// The profile's name.
    pub profile: String,
}

/// Show a rule.
#[derive(Debug, PartialEq, Eq)]
pub struct Show {
    /// The rule's name.
    pub rule: String,
    /// The profile's name.
    pub profile: String,
}

/// List the rules' names.
#[derive(Debug, PartialEq, Eq)]
pub struct List {
    /// The profile's name.
    pub profile: String,
}

/// Apply the rules.
#[derive(Debug, PartialEq, Eq)]
pub struct Apply {
    /// The profile's name.
    pub profile: String,
}

/// What is asked for.
#[derive(Debug, PartialEq, Eq)]
pub enum Subcommand {
    Add(Add),
    Del(Del),
    Show(Show),
    List(List),
    Apply(Apply),
}

/// A command as given on the command line.
#[derive(Debug, PartialEq, Eq)]
pub struct Dofi {
    pub subcommand: Subcommand,
}

/// What a command asks its caller to do.
#[derive(Debug, PartialEq, Eq)]
pub enum Effect {
    /// Print the notice, then store the profile.
    Save { notice: String, profile: Profile },
    /// Print these lines.
    Print(Vec<String>),
    /// Apply the rules of the plan, one after another.
    Reconcile(Plan),
}

/// An [`Effect`] as a mathematical value.
pub enum EffectView {
    Save { notice: Seq<char>, profile: ProfileView },
    Print(Seq<Seq<char>>),
    Reconcile(PlanView),
}

impl View for Effect {
    type V = EffectView;

    open spec fn view(&self) -> EffectView {
        match self {
            Effect::Save { notice, profile } => EffectView::Save {
                notice: notice@,
                profile: profile@,
            },
            Effect::Print(lines) => EffectView::Print(lines.deep_view()),
            Effect::Reconcile(plan) => EffectView::Reconcile(plan@),
        }
    }
}

/// The name of the profile that a command addresses when none is given.
pub fn default_profile() -> (name: String)
    ensures
        name@ == "default"@,
{
    String::from_str("default")
}

/// An empty profile of the given name, as a mathematical value.
pub open spec fn empty_profile(profile: Seq<char>) -> ProfileView {
    ProfileView { profile, rules: Seq::empty() }
}

/// What `command` comes to, given what reading its profile's file gave and
/// the home directory.
pub open spec fn outcome_of(command: Dofi, stored: Stored, home: Option<Seq<char>>) -> Result<
    EffectView,
    ProfileErrorView,
> {
    match command.subcommand {
        Subcommand::Add(add) => match empty_profile(add.profile@).added(
            stored,
            add.rule@,
            RuleView { src: add.src@, dst: add.dst@, mode: add.mode },
            add.overwrite,
            home,
        ) {
            Ok(profile) => Ok(EffectView::Save { notice: "Add ["@ + add.rule@ + "]"@, profile }),
            Err(why) => Err(why),
        },
        Subcommand::Del(del) => match empty_profile(del.profile@).deleted(stored, del.rule@) {
            Ok(profile) => Ok(
                EffectView::Save { notice: "Delete ["@ + del.rule@ + "]"@, profile },
            ),
            Err(why) => Err(why),
        },
        Subcommand::Show(show) => match empty_profile(show.profile@).shown(stored, show.rule@) {
            Ok(text) => Ok(EffectView::Print(seq![text])),
            Err(why) => Err(why),
        },
        Subcommand::List(list) => match empty_profile(list.profile@).listed(stored) {
            Ok(names) => Ok(EffectView::Print(names)),
            Err(why) => Err(why),
        },
        Subcommand::Apply(apply) => match empty_profile(apply.profile@).planned(stored, home) {
            Ok(plan) => Ok(EffectView::Reconcile(plan)),
            Err(why) => Err(why),
        },
    }
}

impl Dofi {
    /// The name of the profile that the command addresses.
    pub fn profile(&self) -> (name: &String)
        ensures
            name@ == (match self.subcommand {
                Subcommand::Add(add) => add.profile@,
                Subcommand::Del(del) => del.profile@,
                Subcommand::Show(show) => show.profile@,
                Subcommand::List(list) => list.profile@,
                Subcommand::Apply(apply) => apply.profile@,
            }),
    {
        match &self.subcommand {
            Subcommand::Add(add) => &add.profile,
            Subcommand::Del(del) => &del.profile,
            Subcommand::Show(show) => &show.profile,
            Subcommand::List(list) => &list.profile,
            Subcommand::Apply(apply) => &apply.profile,
        }
    }

    /// Runs the command on what reading its profile's file gave.
    pub fn run(self, stored: Stored, home: Option<&str>) -> (done: Result<Effect, ProfileError>)
        ensures
            match outcome_of(self, stored, home.deep_view()) {
                Ok(effect) => done matches Ok(e) && e@ == effect,
                Err(why) => done matches Err(e) && e@ == why,
            },
    {
        match self.subcommand {
            Subcommand::Add(Add { rule, src, dst, mode, profile, overwrite }) => {
                let notice = String::from_str("Add [").concat(rule.as_str()).concat("]");
                let profile = Profile::init(profile).add(
                    stored,
                    rule,
                    Rule { src, dst, mode },
                    overwrite,
                    home,
                )?;
                Ok(Effect::Save { notice, profile })
            },
            Subcommand::Del(Del { profile, rule }) => {
                let notice = String::from_str("Delete [").concat(rule.as_str()).concat("]");
                let profile = Profile::init(profile).del(stored, rule)?;
                Ok(Effect::Save { notice, profile })
            },
            Subcommand::Show(Show { profile, rule }) => {
                let text = Profile::init(profile).show(stored, rule)?;
                let mut lines: Vec<String> = Vec::new();
                lines.push(text);
                assert(lines.deep_view() == seq![text@]);
                Ok(Effect::Print(lines))
            },
            Subcommand::List(List { profile }) => {
                let names = Profile::init(profile).list(stored)?;
                Ok(Effect::Print(names))
            },
            Subcommand::Apply(Apply { profile }) => {
                let plan = Profile::init(profile).apply(stored, home)?;
                Ok(Effect::Reconcile(plan))
            },
        }
    }
}

} // verus!
