//! Profiles: rules by name, in the order of their names.

use vstd::prelude::*;
use crate::error::{ProfileError, ProfileErrorView};
use crate::home::{expand_home, expanded_rule, needs_home, shrink_home, shrunk_rule};
use crate::order::{lemma_name_lt_irreflexive, lemma_name_lt_total, lemma_name_lt_transitive, name_lt, precedes};
use crate::rule::{Rule, RuleView};
use crate::text::same_text;

verus! {

/// Whether the rules stand in the strict order of their names. No name then
/// occurs twice.
pub open spec fn ascending(rules: Seq<(Seq<char>, RuleView)>) -> bool {
    forall|i: int, j: int|
        0 <= i < j < rules.len() ==> name_lt(#[trigger] rules[i].0, #[trigger] rules[j].0)
}

/// How many rules at the front have a name that comes before `name`: among
/// ascending rules, the place of `name`, where it is or where it belongs.
pub open spec fn rank(rules: Seq<(Seq<char>, RuleView)>, name: Seq<char>) -> int
    decreases rules.len(),
{
    if rules.len() == 0 || !name_lt(rules[0].0, name) {
        0
    } else {
        1 + rank(rules.drop_first(), name)
    }
}

/// Whether the rule at the place of `name` has that name.
pub open spec fn holds(rules: Seq<(Seq<char>, RuleView)>, name: Seq<char>) -> bool {
    rank(rules, name) < rules.len() && rules[rank(rules, name)].0 == name
}

/// The rule of the given name, if there is one.
pub open spec fn lookup(rules: Seq<(Seq<char>, RuleView)>, name: Seq<char>) -> Option<RuleView> {
    if holds(rules, name) {
        Some(rules[rank(rules, name)].1)
    } else {
        None
    }
}

/// The rules with `data` under `name`, in place of what was there or at the
/// place where the name belongs.
pub open spec fn put(
    rules: Seq<(Seq<char>, RuleView)>,
    name: Seq<char>,
    data: RuleView,
) -> Seq<(Seq<char>, RuleView)> {
    if holds(rules, name) {
        rules.update(rank(rules, name), (name, data))
    } else {
        rules.insert(rank(rules, name), (name, data))
    }
}

/// The rules without the one of the given name.
pub open spec fn removed(rules: Seq<(Seq<char>, RuleView)>, name: Seq<char>) -> Seq<
    (Seq<char>, RuleView),
> {
    if holds(rules, name) {
        rules.remove(rank(rules, name))
    } else {
        rules
    }
}

/// The rules that come of putting `entries` one after another into an empty
/// profile. A later entry replaces an earlier one of the same name.
pub open spec fn collected(entries: Seq<(Seq<char>, RuleView)>) -> Seq<(Seq<char>, RuleView)>
    decreases entries.len(),
{
    if entries.len() == 0 {
        Seq::empty()
    } else {
        put(collected(entries.drop_last()), entries.last().0, entries.last().1)
    }
}

/// The names of the rules, in their order.
pub open spec fn names(rules: Seq<(Seq<char>, RuleView)>) -> Seq<Seq<char>> {
    Seq::new(rules.len(), |i: int| rules[i].0)
}

/// What is before and behind the place of a name.
pub proof fn lemma_rank(rules: Seq<(Seq<char>, RuleView)>, name: Seq<char>)
    ensures
        0 <= rank(rules, name) <= rules.len(),
        forall|i: int| 0 <= i < rank(rules, name) ==> name_lt(#[trigger] rules[i].0, name),
        rank(rules, name) < rules.len() ==> !name_lt(rules[rank(rules, name)].0, name),
        ascending(rules) ==> forall|i: int|
            rank(rules, name) <= i < rules.len() ==> !name_lt(#[trigger] rules[i].0, name),
        ascending(rules) && !holds(rules, name) ==> forall|i: int|
            rank(rules, name) <= i < rules.len() ==> name_lt(name, #[trigger] rules[i].0),
    decreases rules.len(),
{
    let k = rank(rules, name);
    if rules.len() != 0 && name_lt(rules[0].0, name) {
        let rest = rules.drop_first();
        lemma_rank(rest, name);
        assert forall|i: int| 0 <= i < k implies name_lt(#[trigger] rules[i].0, name) by {
            if i > 0 {
                assert(rules[i] == rest[i - 1]);
            }
        }
        assert(rank(rest, name) < rest.len() ==> rest[rank(rest, name)] == rules[k]);
    }
    if ascending(rules) {
        assert forall|i: int| k <= i < rules.len() implies !name_lt(
            #[trigger] rules[i].0,
            name,
        ) by {
            if i > k && name_lt(rules[i].0, name) {
                lemma_name_lt_transitive(rules[k].0, rules[i].0, name);
            }
        }
        if !holds(rules, name) {
            assert forall|i: int| k <= i < rules.len() implies name_lt(
                name,
                #[trigger] rules[i].0,
            ) by {
                lemma_name_lt_total(name, rules[k].0);
                if i > k {
                    lemma_name_lt_transitive(name, rules[k].0, rules[i].0);
                }
            }
        }
    }
}

/// Among ascending rules a name is held exactly when some rule has it, and
/// then by one rule only.
pub proof fn lemma_holds(rules: Seq<(Seq<char>, RuleView)>, name: Seq<char>)
    requires
        ascending(rules),
    ensures
        holds(rules, name) <==> exists|i: int| 0 <= i < rules.len() && #[trigger] rules[i].0 == name,
        forall|i: int|
            0 <= i < rules.len() && #[trigger] rules[i].0 == name ==> i == rank(rules, name),
{
    lemma_rank(rules, name);
    lemma_name_lt_irreflexive(name);
    assert forall|i: int| 0 <= i < rules.len() && #[trigger] rules[i].0 == name implies i == rank(
        rules,
        name,
    ) by {
        let k = rank(rules, name);
        if i > k {
            assert(name_lt(rules[k].0, rules[i].0));
        }
    }
}

/// Putting a rule into ascending rules leaves them ascending.
pub proof fn lemma_put_ascending(
    rules: Seq<(Seq<char>, RuleView)>,
    name: Seq<char>,
    data: RuleView,
)
    requires
        ascending(rules),
    ensures
        ascending(put(rules, name, data)),
{
    lemma_rank(rules, name);
    let k = rank(rules, name);
    let after = put(rules, name, data);
    assert forall|i: int, j: int| 0 <= i < j < after.len() implies name_lt(
        #[trigger] after[i].0,
        #[trigger] after[j].0,
    ) by {
        if holds(rules, name) {
            assert(after[i].0 == rules[i].0);
            assert(after[j].0 == rules[j].0);
        } else {
            let i0 = if i < k { i } else { i - 1 };
            let j0 = if j < k { j } else { j - 1 };
            if i != k {
                assert(after[i] == rules[i0]);
            }
            if j != k {
                assert(after[j] == rules[j0]);
            }
        }
    }
}

/// Taking a rule out of ascending rules leaves them ascending.
pub proof fn lemma_removed_ascending(rules: Seq<(Seq<char>, RuleView)>, name: Seq<char>)
    requires
        ascending(rules),
    ensures
        ascending(removed(rules, name)),
{
    lemma_rank(rules, name);
    let k = rank(rules, name);
    let after = removed(rules, name);
    assert forall|i: int, j: int| 0 <= i < j < after.len() implies name_lt(
        #[trigger] after[i].0,
        #[trigger] after[j].0,
    ) by {
        if holds(rules, name) {
            let i0 = if i < k { i } else { i + 1 };
            let j0 = if j < k { j } else { j + 1 };
            assert(after[i] == rules[i0]);
            assert(after[j] == rules[j0]);
        }
    }
}

/// Collected rules are ascending, whatever the entries.
pub proof fn lemma_collected_ascending(entries: Seq<(Seq<char>, RuleView)>)
    ensures
        ascending(collected(entries)),
    decreases entries.len(),
{
    if entries.len() > 0 {
        lemma_collected_ascending(entries.drop_last());
        lemma_put_ascending(collected(entries.drop_last()), entries.last().0, entries.last().1);
    }
}

/// Ascending entries are collected as they are: a profile that is stored
/// in the order of its names is read back unchanged.
pub proof fn lemma_collected_of_ascending(entries: Seq<(Seq<char>, RuleView)>)
    requires
        ascending(entries),
    ensures
        collected(entries) == entries,
    decreases entries.len(),
{
    if entries.len() > 0 {
        let front = entries.drop_last();
        lemma_collected_of_ascending(front);
        lemma_rank(front, entries.last().0);
        if rank(front, entries.last().0) < front.len() {
            let k = rank(front, entries.last().0);
            assert(name_lt(entries[k].0, entries[entries.len() - 1].0));
            assert(front[k] == entries[k]);
        }
        assert(front.insert(front.len() as int, entries.last()) == entries);
    }
}

/// Among ascending rules, a rule that was put is what its name looks up,
/// and every other name looks up what it did before.
pub proof fn lemma_put_lookup(
    rules: Seq<(Seq<char>, RuleView)>,
    name: Seq<char>,
    data: RuleView,
    other: Seq<char>,
)
    requires
        ascending(rules),
    ensures
        lookup(put(rules, name, data), other) == (if other == name {
            Some(data)
        } else {
            lookup(rules, other)
        }),
{
    let after = put(rules, name, data);
    let k = rank(rules, name);
    lemma_rank(rules, name);
    lemma_put_ascending(rules, name, data);
    lemma_holds(after, other);
    lemma_holds(rules, other);
    assert(0 <= k < after.len());
    assert(after[k].0 == name && after[k].1 == data);
    if other != name {
        let r = rank(rules, other);
        let a = rank(after, other);
        if holds(rules, other) {
            let moved = if holds(rules, name) || r < k {
                r
            } else {
                r + 1
            };
            assert(after[moved].0 == other && after[moved].1 == rules[r].1);
        }
        if holds(after, other) {
            let back = if holds(rules, name) || a < k {
                a
            } else {
                a - 1
            };
            assert(rules[back].0 == other);
        }
    }
}

/// Among ascending rules, a name that was removed looks up nothing, and
/// every other name looks up what it did before.
pub proof fn lemma_removed_lookup(
    rules: Seq<(Seq<char>, RuleView)>,
    name: Seq<char>,
    other: Seq<char>,
)
    requires
        ascending(rules),
    ensures
        lookup(removed(rules, name), other) == (if other == name {
            None
        } else {
            lookup(rules, other)
        }),
{
    let after = removed(rules, name);
    let k = rank(rules, name);
    lemma_rank(rules, name);
    lemma_removed_ascending(rules, name);
    lemma_holds(after, other);
    lemma_holds(rules, other);
    lemma_holds(rules, name);
    if holds(rules, name) {
        let r = rank(rules, other);
        let a = rank(after, other);
        if holds(after, other) {
            let back = if a < k { a } else { a + 1 };
            assert(after[a] == rules[back]);
        }
        if other != name && holds(rules, other) {
            let moved = if r < k { r } else { r - 1 };
            assert(after[moved] == rules[r]);
        }
    }
}

/// The names of ascending rules ascend.
pub proof fn lemma_names_ascend(rules: Seq<(Seq<char>, RuleView)>)
    requires
        ascending(rules),
    ensures
        names(rules).len() == rules.len(),
        forall|i: int, j: int|
            0 <= i < j < rules.len() ==> name_lt(
                #[trigger] names(rules)[i],
                #[trigger] names(rules)[j],
            ),
{
    assert forall|i: int, j: int| 0 <= i < j < rules.len() implies name_lt(
        #[trigger] names(rules)[i],
        #[trigger] names(rules)[j],
    ) by {
        assert(name_lt(rules[i].0, rules[j].0));
    }
}

/// A rule as it is applied: with its paths expanded. Where a path begins
/// with `~` and the home directory is not known, the rule cannot be applied.
pub open spec fn expansion(rule: RuleView, home: Option<Seq<char>>) -> Result<
    RuleView,
    ProfileErrorView,
> {
    match home {
        Some(dir) => Ok(expanded_rule(dir, rule)),
        None => if needs_home(rule) {
            Err(ProfileErrorView::Expand)
        } else {
            Ok(rule)
        },
    }
}

/// One job for each rule, in the order of the rules: the rule's name, and
/// the rule expanded or why it cannot be.
pub open spec fn jobs(rules: Seq<(Seq<char>, RuleView)>, home: Option<Seq<char>>) -> Seq<
    (Seq<char>, Result<RuleView, ProfileErrorView>),
> {
    Seq::new(rules.len(), |i: int| (rules[i].0, expansion(rules[i].1, home)))
}

/// Every rule has its job, at its own place and under its own name, so the
/// names of the jobs ascend as those of the rules do. A rule that cannot be
/// expanded keeps no other rule from its job. Where the home directory is
/// known every rule can be expanded.
pub proof fn lemma_jobs_in_order(rules: Seq<(Seq<char>, RuleView)>, home: Option<Seq<char>>)
    ensures
        jobs(rules, home).len() == rules.len(),
        forall|i: int|
            0 <= i < rules.len() ==> (#[trigger] jobs(rules, home)[i]).0 == rules[i].0,
        forall|i: int|
            0 <= i < rules.len() ==> ((#[trigger] jobs(rules, home)[i]).1 is Err <==> home is None
                && needs_home(rules[i].1)),
        ascending(rules) ==> forall|i: int, j: int|
            0 <= i < j < rules.len() ==> name_lt(
                (#[trigger] jobs(rules, home)[i]).0,
                (#[trigger] jobs(rules, home)[j]).0,
            ),
{
    if ascending(rules) {
        assert forall|i: int, j: int| 0 <= i < j < rules.len() implies name_lt(
            (#[trigger] jobs(rules, home)[i]).0,
            (#[trigger] jobs(rules, home)[j]).0,
        ) by {
            assert(name_lt(rules[i].0, rules[j].0));
        }
    }
}

/// A rule in the form in which it is stored: its paths shrunk where the home
/// directory is known.
pub open spec fn stored_form(data: RuleView, home: Option<Seq<char>>) -> RuleView {
    match home {
        Some(dir) => shrunk_rule(dir, data),
        None => data,
    }
}

/// What reading a profile's file gave.
#[derive(Debug, PartialEq, Eq)]
pub enum Stored {
    /// Nothing: the file is not there or cannot be read.
    Missing,
    /// Text that cannot be decoded.
    Malformed,
    /// The rules that the file holds, each with its name.
    Rules(Vec<(String, Rule)>),
}

/// What applying a profile takes: one job for each rule.
#[derive(Debug, PartialEq, Eq)]
pub struct Plan {
    /// The jobs in the order in which they are done: each rule's name, and
    /// the rule to apply or why it cannot be applied.
    pub jobs: Vec<(String, Result<Rule, ProfileError>)>,
}

/// A named set of rules.
#[derive(Debug, PartialEq, Eq)]
pub struct Profile {
    profile: String,
    rules: Vec<(String, Rule)>,
}

/// A [`Profile`] as a mathematical value.
pub struct ProfileView {
    /// The profile's name.
    pub profile: Seq<char>,
    /// The rules with their names, ascending.
    pub rules: Seq<(Seq<char>, RuleView)>,
}

impl View for Profile {
    type V = ProfileView;

    closed spec fn view(&self) -> ProfileView {
        ProfileView { profile: self.profile@, rules: self.rules.deep_view() }
    }
}

/// A [`Plan`] as a mathematical value.
pub struct PlanView {
    pub jobs: Seq<(Seq<char>, Result<RuleView, ProfileErrorView>)>,
}

/// A job as a mathematical value.
pub open spec fn job_view(job: (String, Result<Rule, ProfileError>)) -> (
    Seq<char>,
    Result<RuleView, ProfileErrorView>,
) {
    (
        job.0@,
        match job.1 {
            Ok(rule) => Ok(rule@),
            Err(why) => Err(why@),
        },
    )
}

impl View for Plan {
    type V = PlanView;

    open spec fn view(&self) -> PlanView {
        PlanView { jobs: Seq::new(self.jobs@.len(), |i: int| job_view(self.jobs@[i])) }
    }
}

impl ProfileView {
    /// The profile after its file was read: with the rules read, or as it
    /// was where nothing was read. Text that cannot be decoded is a failure.
    pub open spec fn read(self, stored: Stored) -> Result<ProfileView, ProfileErrorView> {
        match stored {
            Stored::Missing => Ok(self),
            Stored::Malformed => Err(ProfileErrorView::Decode(self.profile)),
            Stored::Rules(entries) => Ok(
                ProfileView { rules: collected(entries.deep_view()), ..self },
            ),
        }
    }

    /// The profile read, which must have rules.
    pub open spec fn read_rules(self, stored: Stored) -> Result<ProfileView, ProfileErrorView> {
        match self.read(stored) {
            Ok(read) => if read.rules.len() == 0 {
                Err(ProfileErrorView::Empty(read.profile))
            } else {
                Ok(read)
            },
            Err(why) => Err(why),
        }
    }

    /// The profile to store after adding `data` under `rule`: a name that is
    /// taken is a failure unless `overwrite` is set; the rule goes in in its
    /// stored form.
    pub open spec fn added(
        self,
        stored: Stored,
        rule: Seq<char>,
        data: RuleView,
        overwrite: bool,
        home: Option<Seq<char>>,
    ) -> Result<ProfileView, ProfileErrorView> {
        match self.read(stored) {
            Ok(read) => if holds(read.rules, rule) && !overwrite {
                Err(ProfileErrorView::Duplicate(rule))
            } else {
                Ok(ProfileView { rules: put(read.rules, rule, stored_form(data, home)), ..read })
            },
            Err(why) => Err(why),
        }
    }

    /// The profile to store after deleting `rule`, which must be in it.
    pub open spec fn deleted(self, stored: Stored, rule: Seq<char>) -> Result<
        ProfileView,
        ProfileErrorView,
    > {
        match self.read_rules(stored) {
            Ok(read) => if !holds(read.rules, rule) {
                Err(ProfileErrorView::NotFound(rule))
            } else {
                Ok(ProfileView { rules: removed(read.rules, rule), ..read })
            },
            Err(why) => Err(why),
        }
    }

    /// The text that shows `rule`, which must be in the profile: its name in
    /// brackets, then the rule as stored.
    pub open spec fn shown(self, stored: Stored, rule: Seq<char>) -> Result<
        Seq<char>,
        ProfileErrorView,
    > {
        match self.read_rules(stored) {
            Ok(read) => match lookup(read.rules, rule) {
                Some(data) => Ok("["@ + rule + "]\n"@ + data.text()),
                None => Err(ProfileErrorView::NotFound(rule)),
            },
            Err(why) => Err(why),
        }
    }

    /// The names of the profile's rules, ascending.
    pub open spec fn listed(self, stored: Stored) -> Result<Seq<Seq<char>>, ProfileErrorView> {
        match self.read_rules(stored) {
            Ok(read) => Ok(names(read.rules)),
            Err(why) => Err(why),
        }
    }

    /// The plan for applying the profile's rules: a job for every rule, in
    /// the order of the names.
    pub open spec fn planned(self, stored: Stored, home: Option<Seq<char>>) -> Result<
        PlanView,
        ProfileErrorView,
    > {
        match self.read_rules(stored) {
            Ok(read) => Ok(PlanView { jobs: jobs(read.rules, home) }),
            Err(why) => Err(why),
        }
    }
}

impl Profile {
    #[verifier::type_invariant]
    spec fn ordered(self) -> bool {
        ascending(self.rules.deep_view())
    }

    /// An empty profile of the given name.
    pub fn init(profile: String) -> (new: Profile)
        ensures
            new@.profile == profile@,
            new@.rules == Seq::<(Seq<char>, RuleView)>::empty(),
    {
        let new = Profile { profile, rules: Vec::new() };
        assert(new.rules.deep_view() == Seq::<(Seq<char>, RuleView)>::empty());
        new
    }

    /// The profile's name.
    pub fn name(&self) -> (name: &String)
        ensures
            name@ == self@.profile,
    {
        &self.profile
    }

    /// The rules with their names, in the order of the names.
    pub fn rules(&self) -> (rules: &Vec<(String, Rule)>)
        ensures
            rules.deep_view() == self@.rules,
            ascending(self@.rules),
    {
        proof {
            use_type_invariant(self);
        }
        &self.rules
    }

    /// Fails on a profile without rules.
    pub fn is_empty(&self) -> (checked: Result<(), ProfileError>)
        ensures
            checked is Err <==> self@.rules.len() == 0,
            checked matches Err(e) ==> e@ == ProfileErrorView::Empty(self@.profile),
    {
        if self.rules.len() == 0 {
            Err(ProfileError::Empty(self.profile.clone()))
        } else {
            Ok(())
        }
    }

    /// The place of `name` among the rules.
    fn position(&self, name: &str) -> (at: usize)
        ensures
            at == rank(self@.rules, name@),
            at <= self@.rules.len(),
            holds(self@.rules, name@) <==> at < self@.rules.len() && self.rules@[at as int].0@
                == name@,
    {
        let ghost all = self.rules.deep_view();
        let mut at: usize = 0;
        assert(all.skip(0) == all);
        loop
            invariant
                all == self.rules.deep_view(),
                at <= self.rules@.len(),
                rank(all, name@) == at + rank(all.skip(at as int), name@),
            ensures
                at <= self.rules@.len(),
                at == rank(all, name@),
            decreases self.rules@.len() - at,
        {
            if at >= self.rules.len() {
                break;
            }
            assert(all.skip(at as int)[0] == all[at as int]);
            if !precedes(self.rules[at].0.as_str(), name) {
                break;
            }
            assert(all.skip(at as int).drop_first() == all.skip(at + 1));
            at += 1;
        }
        at
    }

    /// Whether the profile has a rule of the given name.
    pub fn contains(&self, name: &str) -> (found: bool)
        ensures
            found == holds(self@.rules, name@),
    {
        let at = self.position(name);
        at < self.rules.len() && same_text(self.rules[at].0.as_str(), name)
    }

    /// The rule of the given name.
    pub fn get(&self, name: &str) -> (found: Option<&Rule>)
        ensures
            found.deep_view() == lookup(self@.rules, name@),
    {
        let at = self.position(name);
        if at < self.rules.len() && same_text(self.rules[at].0.as_str(), name) {
            Some(&self.rules[at].1)
        } else {
            None
        }
    }

    /// The profile with `data` under `name`, in place of the rule of that
    /// name if there is one.
    fn insert(self, name: String, data: Rule) -> (new: Profile)
        ensures
            new@.profile == self@.profile,
            new@.rules == put(self@.rules, name@, data@),
    {
        proof {
            use_type_invariant(&self);
            lemma_put_ascending(self@.rules, name@, data@);
        }
        let at = self.position(name.as_str());
        let held = at < self.rules.len() && same_text(
            self.rules[at].0.as_str(),
            name.as_str(),
        );
        let Profile { profile, rules } = self;
        let mut rules = rules;
        if held {
            rules.set(at, (name, data));
        } else {
            rules.insert(at, (name, data));
        }
        assert(rules.deep_view() == put(self@.rules, name@, data@));
        Profile { profile, rules }
    }

    /// The profile without the rule of the given name.
    fn remove(self, name: &str) -> (new: Profile)
        ensures
            new@.profile == self@.profile,
            new@.rules == removed(self@.rules, name@),
    {
        proof {
            use_type_invariant(&self);
            lemma_removed_ascending(self@.rules, name@);
        }
        let at = self.position(name);
        let held = at < self.rules.len() && same_text(self.rules[at].0.as_str(), name);
        let Profile { profile, rules } = self;
        let mut rules = rules;
        if held {
            rules.remove(at);
        }
        assert(rules.deep_view() == removed(self@.rules, name@));
        Profile { profile, rules }
    }

    /// Takes in what reading the profile's file gave. Rules that were read
    /// replace the profile's rules; where nothing was read the profile stays
    /// as it is; text that cannot be decoded is a failure.
    pub fn read(self, stored: Stored) -> (done: Result<Profile, ProfileError>)
        ensures
            match self@.read(stored) {
                Ok(read) => done matches Ok(p) && p@ == read,
                Err(why) => done matches Err(e) && e@ == why,
            },
    {
        match stored {
            Stored::Missing => Ok(self),
            Stored::Malformed => Err(ProfileError::Decode(self.profile)),
            Stored::Rules(entries) => {
                let ghost all = entries.deep_view();
                let mut read = Profile::init(self.profile);
                assert(all.take(0) == Seq::<(Seq<char>, RuleView)>::empty());
                let mut i: usize = 0;
                while i < entries.len()
                    invariant
                        i <= entries.len(),
                        all == entries.deep_view(),
                        read@.profile == self@.profile,
                        read@.rules == collected(all.take(i as int)),
                    decreases entries.len() - i,
                {
                    let name = entries[i].0.clone();
                    let data = entries[i].1.clone();
                    assert(all.take(i + 1).drop_last() == all.take(i as int));
                    assert(all.take(i + 1).last() == (name@, data@));
                    read = read.insert(name, data);
                    i += 1;
                }
                assert(all.take(i as int) == all);
                Ok(read)
            },
        }
    }

    /// Adds a rule to the stored profile, in its stored form. A rule of the
    /// same name is replaced only where `overwrite` is set.
    pub fn add(
        self,
        stored: Stored,
        rule: String,
        data: Rule,
        overwrite: bool,
        home: Option<&str>,
    ) -> (done: Result<Profile, ProfileError>)
        ensures
            match self@.added(stored, rule@, data@, overwrite, home.deep_view()) {
                Ok(saved) => done matches Ok(p) && p@ == saved,
                Err(why) => done matches Err(e) && e@ == why,
            },
    {
        let read = self.read(stored)?;
        if read.contains(rule.as_str()) && !overwrite {
            return Err(ProfileError::Duplicate(rule));
        }
        let mut data = data;
        shrink_home(&mut data, home);
        Ok(read.insert(rule, data))
    }

    /// Deletes the rule of the given name from the stored profile.
    pub fn del(self, stored: Stored, rule: String) -> (done: Result<Profile, ProfileError>)
        ensures
            match self@.deleted(stored, rule@) {
                Ok(saved) => done matches Ok(p) && p@ == saved,
                Err(why) => done matches Err(e) && e@ == why,
            },
    {
        let read = self.read(stored)?;
        read.is_empty()?;
        if !read.contains(rule.as_str()) {
            return Err(ProfileError::NotFound(rule));
        }
        Ok(read.remove(rule.as_str()))
    }

    /// Shows the rule of the given name in the stored profile: the name in
    /// brackets, then the rule as stored.
    pub fn show(self, stored: Stored, rule: String) -> (done: Result<String, ProfileError>)
        ensures
            match self@.shown(stored, rule@) {
                Ok(text) => done matches Ok(t) && t@ == text,
                Err(why) => done matches Err(e) && e@ == why,
            },
    {
        let read = self.read(stored)?;
        read.is_empty()?;
        match read.get(rule.as_str()) {
            Some(data) => Ok(
                String::from_str("[").concat(rule.as_str()).concat("]\n").concat(
                    data.to_string().as_str(),
                ),
            ),
            None => Err(ProfileError::NotFound(rule)),
        }
    }

    /// Lists the names of the stored profile's rules, ascending.
    pub fn list(self, stored: Stored) -> (done: Result<Vec<String>, ProfileError>)
        ensures
            match self@.listed(stored) {
                Ok(names) => done matches Ok(n) && n.deep_view() == names,
                Err(why) => done matches Err(e) && e@ == why,
            },
    {
        let read = self.read(stored)?;
        read.is_empty()?;
        let mut listed: Vec<String> = Vec::new();
        let mut i: usize = 0;
        while i < read.rules.len()
            invariant
                i <= read.rules@.len(),
                listed@.len() == i,
                forall|k: int| 0 <= k < i ==> (#[trigger] listed@[k])@ == read.rules@[k].0@,
            decreases read.rules@.len() - i,
        {
            listed.push(read.rules[i].0.clone());
            i += 1;
        }
        assert(listed.deep_view() == names(read@.rules));
        Ok(listed)
    }

    /// Plans the application of the stored profile's rules: a job for each
    /// rule, in the order of the names, with the rule's paths expanded. A
    /// rule that cannot be expanded has its failure for a job, and the rules
    /// behind it have theirs all the same.
    pub fn apply(self, stored: Stored, home: Option<&str>) -> (done: Result<Plan, ProfileError>)
        ensures
            match self@.planned(stored, home.deep_view()) {
                Ok(plan) => done matches Ok(p) && p@ == plan,
                Err(why) => done matches Err(e) && e@ == why,
            },
    {
        let read = self.read(stored)?;
        read.is_empty()?;
        let ghost all = read@.rules;
        let ghost known = home.deep_view();
        let mut plan = Plan { jobs: Vec::new() };
        let mut i: usize = 0;
        while i < read.rules.len()
            invariant
                all == read.rules.deep_view(),
                known == home.deep_view(),
                i <= read.rules@.len(),
                plan.jobs@.len() == i,
                forall|k: int|
                    0 <= k < i ==> job_view(#[trigger] plan.jobs@[k]) == (
                        all[k].0,
                        expansion(all[k].1, known),
                    ),
            decreases read.rules@.len() - i,
        {
            let name = read.rules[i].0.clone();
            let mut data = read.rules[i].1.clone();
            let job = match expand_home(&mut data, home) {
                Ok(_) => Ok(data),
                Err(why) => Err(why),
            };
            plan.jobs.push((name, job));
            i += 1;
        }
        assert(plan@.jobs == jobs(all, known));
        Ok(plan)
    }
}

} // verus!
