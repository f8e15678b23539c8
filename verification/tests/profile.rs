use dofi::args::{default_profile, Add, Apply, Del, Dofi, Effect, List, Show, Subcommand};
use dofi::error::ProfileError;
use dofi::profile::{Plan, Profile, Stored};
use dofi::rule::{Mode, Rule};

fn rule(src: &str, dst: &str, mode: Mode) -> Rule {
    Rule { src: src.to_string(), dst: dst.to_string(), mode }
}

fn entry(name: &str, src: &str, dst: &str, mode: Mode) -> (String, Rule) {
    (name.to_string(), rule(src, dst, mode))
}

fn job(name: &str, src: &str, dst: &str, mode: Mode) -> (String, Result<Rule, ProfileError>) {
    (name.to_string(), Ok(rule(src, dst, mode)))
}

fn two_rules() -> Vec<(String, Rule)> {
    vec![
        entry("vimrc", "~/dot/vimrc", "~/.vimrc", Mode::Link),
        entry("zshrc", "/srv/dot/zshrc", "~/.zshrc", Mode::Copy),
    ]
}

fn profile() -> Profile {
    Profile::init("work".to_string())
}

#[test]
fn init_gives_an_empty_profile() {
    let p = profile();
    assert_eq!(p.name(), "work");
    assert!(p.rules().is_empty());
    assert_eq!(p.is_empty(), Err(ProfileError::Empty("work".to_string())));
}

#[test]
fn read_takes_the_stored_rules() {
    let p = profile().read(Stored::Rules(two_rules())).unwrap();
    assert_eq!(p.name(), "work");
    assert_eq!(p.rules(), &two_rules());
    assert_eq!(p.is_empty(), Ok(()));
}

#[test]
fn read_orders_the_rules_by_name() {
    let mut stored = two_rules();
    stored.reverse();
    stored.push(entry("bashrc", "/a", "/b", Mode::Link));
    let p = profile().read(Stored::Rules(stored)).unwrap();
    let names: Vec<&str> = p.rules().iter().map(|e| e.0.as_str()).collect();
    assert_eq!(names, vec!["bashrc", "vimrc", "zshrc"]);
}

#[test]
fn read_keeps_the_last_of_two_rules_with_one_name() {
    let stored = vec![entry("a", "/1", "/2", Mode::Link), entry("a", "/3", "/4", Mode::Copy)];
    let p = profile().read(Stored::Rules(stored)).unwrap();
    assert_eq!(p.rules(), &vec![entry("a", "/3", "/4", Mode::Copy)]);
}

#[test]
fn read_of_a_missing_file_leaves_the_profile_empty() {
    let p = profile().read(Stored::Missing).unwrap();
    assert!(p.rules().is_empty());
    assert_eq!(p.name(), "work");
}

#[test]
fn read_of_malformed_text_fails() {
    assert_eq!(
        profile().read(Stored::Malformed),
        Err(ProfileError::Decode("work".to_string()))
    );
}

#[test]
fn contains_and_get_find_rules_by_name() {
    let p = profile().read(Stored::Rules(two_rules())).unwrap();
    assert!(p.contains("vimrc"));
    assert!(p.contains("zshrc"));
    assert!(!p.contains("bashrc"));
    assert!(!p.contains("vim"));
    assert!(!p.contains("zshrc2"));
    assert_eq!(p.get("zshrc"), Some(&rule("/srv/dot/zshrc", "~/.zshrc", Mode::Copy)));
    assert_eq!(p.get("nope"), None);
}

#[test]
fn add_to_a_missing_profile_creates_it() {
    let saved = profile()
        .add(
            Stored::Missing,
            "vimrc".to_string(),
            rule("/home/u/dot/vimrc", "/home/u/.vimrc", Mode::Link),
            false,
            Some("/home/u"),
        )
        .unwrap();
    assert_eq!(saved.name(), "work");
    assert_eq!(saved.rules(), &vec![entry("vimrc", "~/dot/vimrc", "~/.vimrc", Mode::Link)]);
}

#[test]
fn add_puts_the_rule_at_its_place() {
    let saved = profile()
        .add(
            Stored::Rules(two_rules()),
            "wgetrc".to_string(),
            rule("/a", "/b", Mode::Copy),
            false,
            Some("/home/u"),
        )
        .unwrap();
    let names: Vec<&str> = saved.rules().iter().map(|e| e.0.as_str()).collect();
    assert_eq!(names, vec!["vimrc", "wgetrc", "zshrc"]);
    assert_eq!(saved.get("wgetrc"), Some(&rule("/a", "/b", Mode::Copy)));
    assert_eq!(saved.get("vimrc"), Some(&two_rules()[0].1));
    assert_eq!(saved.get("zshrc"), Some(&two_rules()[1].1));
}

#[test]
fn add_of_a_taken_name_fails_without_overwrite() {
    let done = profile().add(
        Stored::Rules(two_rules()),
        "vimrc".to_string(),
        rule("/a", "/b", Mode::Copy),
        false,
        None,
    );
    assert_eq!(done, Err(ProfileError::Duplicate("vimrc".to_string())));
}

#[test]
fn add_of_a_taken_name_replaces_with_overwrite() {
    let saved = profile()
        .add(
            Stored::Rules(two_rules()),
            "vimrc".to_string(),
            rule("/a", "/b", Mode::Copy),
            true,
            None,
        )
        .unwrap();
    assert_eq!(
        saved.rules(),
        &vec![entry("vimrc", "/a", "/b", Mode::Copy), two_rules().remove(1)]
    );
}

#[test]
fn add_without_home_stores_paths_as_given() {
    let saved = profile()
        .add(
            Stored::Missing,
            "v".to_string(),
            rule("/home/u/a", "/home/u/b", Mode::Link),
            false,
            None,
        )
        .unwrap();
    assert_eq!(saved.get("v"), Some(&rule("/home/u/a", "/home/u/b", Mode::Link)));
}

#[test]
fn add_to_malformed_profile_fails() {
    let done =
        profile().add(Stored::Malformed, "v".to_string(), rule("/a", "/b", Mode::Link), true, None);
    assert_eq!(done, Err(ProfileError::Decode("work".to_string())));
}

#[test]
fn del_takes_the_rule_out() {
    let saved = profile().del(Stored::Rules(two_rules()), "vimrc".to_string()).unwrap();
    assert_eq!(saved.rules(), &vec![two_rules().remove(1)]);
    assert!(!saved.contains("vimrc"));
    assert_eq!(saved.name(), "work");
}

#[test]
fn del_of_the_last_rule_leaves_an_empty_profile() {
    let stored = vec![entry("only", "/a", "/b", Mode::Link)];
    let saved = profile().del(Stored::Rules(stored), "only".to_string()).unwrap();
    assert!(saved.rules().is_empty());
}

#[test]
fn del_of_an_unknown_rule_fails() {
    assert_eq!(
        profile().del(Stored::Rules(two_rules()), "bashrc".to_string()),
        Err(ProfileError::NotFound("bashrc".to_string()))
    );
}

#[test]
fn del_from_an_empty_profile_fails_as_empty() {
    assert_eq!(
        profile().del(Stored::Missing, "vimrc".to_string()),
        Err(ProfileError::Empty("work".to_string()))
    );
    assert_eq!(
        profile().del(Stored::Rules(vec![]), "vimrc".to_string()),
        Err(ProfileError::Empty("work".to_string()))
    );
}

#[test]
fn del_from_malformed_profile_fails() {
    assert_eq!(
        profile().del(Stored::Malformed, "vimrc".to_string()),
        Err(ProfileError::Decode("work".to_string()))
    );
}

#[test]
fn show_gives_the_rule_as_stored() {
    assert_eq!(
        profile().show(Stored::Rules(two_rules()), "vimrc".to_string()),
        Ok("[vimrc]\nSource: ~/dot/vimrc\nTarget: ~/.vimrc\nMode  : link".to_string())
    );
    assert_eq!(
        profile().show(Stored::Rules(two_rules()), "zshrc".to_string()),
        Ok("[zshrc]\nSource: /srv/dot/zshrc\nTarget: ~/.zshrc\nMode  : copy".to_string())
    );
}

#[test]
fn show_fails_on_unknown_empty_and_malformed() {
    assert_eq!(
        profile().show(Stored::Rules(two_rules()), "x".to_string()),
        Err(ProfileError::NotFound("x".to_string()))
    );
    assert_eq!(
        profile().show(Stored::Missing, "x".to_string()),
        Err(ProfileError::Empty("work".to_string()))
    );
    assert_eq!(
        profile().show(Stored::Malformed, "x".to_string()),
        Err(ProfileError::Decode("work".to_string()))
    );
}

#[test]
fn list_gives_the_names_ascending() {
    let mut stored = two_rules();
    stored.push(entry("Xresources", "/a", "/b", Mode::Link));
    stored.push(entry("bashrc", "/a", "/b", Mode::Link));
    assert_eq!(
        profile().list(Stored::Rules(stored)),
        Ok(vec![
            "Xresources".to_string(),
            "bashrc".to_string(),
            "vimrc".to_string(),
            "zshrc".to_string()
        ])
    );
}

#[test]
fn list_fails_on_empty_and_malformed() {
    assert_eq!(profile().list(Stored::Missing), Err(ProfileError::Empty("work".to_string())));
    assert_eq!(profile().list(Stored::Malformed), Err(ProfileError::Decode("work".to_string())));
}

#[test]
fn apply_plans_every_rule_expanded() {
    let plan = profile().apply(Stored::Rules(two_rules()), Some("/home/u")).unwrap();
    assert_eq!(
        plan,
        Plan {
            jobs: vec![
                job("vimrc", "/home/u/dot/vimrc", "/home/u/.vimrc", Mode::Link),
                job("zshrc", "/srv/dot/zshrc", "/home/u/.zshrc", Mode::Copy),
            ],
        }
    );
}

#[test]
fn apply_plans_the_rules_in_the_order_of_their_names() {
    let mut stored = two_rules();
    stored.reverse();
    stored.push(entry("bashrc", "/a", "/b", Mode::Link));
    let plan = profile().apply(Stored::Rules(stored), Some("/home/u")).unwrap();
    let names: Vec<&str> = plan.jobs.iter().map(|j| j.0.as_str()).collect();
    assert_eq!(names, vec!["bashrc", "vimrc", "zshrc"]);
}

#[test]
fn apply_without_home_goes_on_past_a_rule_that_cannot_be_expanded() {
    let stored = vec![
        entry("a", "~/a", "/etc/a", Mode::Copy),
        entry("b", "/srv/b", "/etc/b", Mode::Link),
        entry("c", "/srv/c", "~/.c", Mode::Copy),
        entry("d", "/srv/d", "/etc/d", Mode::Copy),
    ];
    let plan = profile().apply(Stored::Rules(stored), None).unwrap();
    assert_eq!(
        plan,
        Plan {
            jobs: vec![
                ("a".to_string(), Err(ProfileError::Expand)),
                job("b", "/srv/b", "/etc/b", Mode::Link),
                ("c".to_string(), Err(ProfileError::Expand)),
                job("d", "/srv/d", "/etc/d", Mode::Copy),
            ],
        }
    );
}

#[test]
fn apply_without_home_plans_plain_rules() {
    let stored = vec![entry("a", "/srv/a", "/etc/a", Mode::Copy)];
    let plan = profile().apply(Stored::Rules(stored), None).unwrap();
    assert_eq!(plan, Plan { jobs: vec![job("a", "/srv/a", "/etc/a", Mode::Copy)] });
}

#[test]
fn apply_fails_on_empty_and_malformed() {
    assert_eq!(
        profile().apply(Stored::Missing, Some("/home/u")),
        Err(ProfileError::Empty("work".to_string()))
    );
    assert_eq!(
        profile().apply(Stored::Malformed, Some("/home/u")),
        Err(ProfileError::Decode("work".to_string()))
    );
}

#[test]
fn default_profile_is_named_default() {
    assert_eq!(default_profile(), "default");
}

#[test]
fn command_names_its_profile() {
    let list = Dofi { subcommand: Subcommand::List(List { profile: "one".to_string() }) };
    assert_eq!(list.profile(), "one");
    let del = Dofi {
        subcommand: Subcommand::Del(Del { rule: "r".to_string(), profile: "two".to_string() }),
    };
    assert_eq!(del.profile(), "two");
    let show = Dofi {
        subcommand: Subcommand::Show(Show { rule: "r".to_string(), profile: "three".to_string() }),
    };
    assert_eq!(show.profile(), "three");
    let apply = Dofi { subcommand: Subcommand::Apply(Apply { profile: "four".to_string() }) };
    assert_eq!(apply.profile(), "four");
}

fn add_command(overwrite: bool) -> Dofi {
    Dofi {
        subcommand: Subcommand::Add(Add {
            rule: "vimrc".to_string(),
            src: "/home/u/dot/vimrc".to_string(),
            dst: "/home/u/.vimrc".to_string(),
            mode: Mode::Link,
            profile: "work".to_string(),
            overwrite,
        }),
    }
}

#[test]
fn run_add_saves_the_profile_with_a_notice() {
    assert_eq!(add_command(false).profile(), "work");
    let effect = add_command(false).run(Stored::Missing, Some("/home/u")).unwrap();
    match effect {
        Effect::Save { notice, profile } => {
            assert_eq!(notice, "Add [vimrc]");
            assert_eq!(profile.name(), "work");
            assert_eq!(
                profile.rules(),
                &vec![entry("vimrc", "~/dot/vimrc", "~/.vimrc", Mode::Link)]
            );
        }
        other => panic!("unexpected effect {other:?}"),
    }
}

#[test]
fn run_add_refuses_a_duplicate() {
    assert_eq!(
        add_command(false).run(Stored::Rules(two_rules()), Some("/home/u")),
        Err(ProfileError::Duplicate("vimrc".to_string()))
    );
    assert!(add_command(true).run(Stored::Rules(two_rules()), Some("/home/u")).is_ok());
}

#[test]
fn run_del_saves_the_profile_with_a_notice() {
    let command = Dofi {
        subcommand: Subcommand::Del(Del { rule: "zshrc".to_string(), profile: "work".to_string() }),
    };
    match command.run(Stored::Rules(two_rules()), None).unwrap() {
        Effect::Save { notice, profile } => {
            assert_eq!(notice, "Delete [zshrc]");
            assert_eq!(profile.rules(), &vec![two_rules().remove(0)]);
        }
        other => panic!("unexpected effect {other:?}"),
    }
}

#[test]
fn run_show_prints_the_rule() {
    let command = Dofi {
        subcommand: Subcommand::Show(Show {
            rule: "vimrc".to_string(),
            profile: "work".to_string(),
        }),
    };
    assert_eq!(
        command.run(Stored::Rules(two_rules()), None),
        Ok(Effect::Print(vec![
            "[vimrc]\nSource: ~/dot/vimrc\nTarget: ~/.vimrc\nMode  : link".to_string()
        ]))
    );
}

#[test]
fn run_list_prints_the_names() {
    let command = Dofi { subcommand: Subcommand::List(List { profile: "work".to_string() }) };
    assert_eq!(
        command.run(Stored::Rules(two_rules()), None),
        Ok(Effect::Print(vec!["vimrc".to_string(), "zshrc".to_string()]))
    );
}

#[test]
fn run_apply_hands_out_the_plan() {
    let command = Dofi { subcommand: Subcommand::Apply(Apply { profile: "work".to_string() }) };
    match command.run(Stored::Rules(two_rules()), Some("/home/u")).unwrap() {
        Effect::Reconcile(plan) => {
            assert_eq!(plan.jobs.len(), 2);
            assert_eq!(
                plan.jobs[0],
                job("vimrc", "/home/u/dot/vimrc", "/home/u/.vimrc", Mode::Link)
            );
            assert_eq!(
                plan.jobs[1],
                job("zshrc", "/srv/dot/zshrc", "/home/u/.zshrc", Mode::Copy)
            );
        }
        other => panic!("unexpected effect {other:?}"),
    }
}

#[test]
fn run_apply_without_home_plans_every_rule() {
    let command = Dofi { subcommand: Subcommand::Apply(Apply { profile: "work".to_string() }) };
    assert_eq!(
        command.run(Stored::Rules(two_rules()), None),
        Ok(Effect::Reconcile(Plan {
            jobs: vec![
                ("vimrc".to_string(), Err(ProfileError::Expand)),
                ("zshrc".to_string(), Err(ProfileError::Expand)),
            ],
        }))
    );
}

#[test]
fn run_fails_as_the_profile_does() {
    let list = Dofi { subcommand: Subcommand::List(List { profile: "work".to_string() }) };
    assert_eq!(list.run(Stored::Missing, None), Err(ProfileError::Empty("work".to_string())));
    let apply = Dofi { subcommand: Subcommand::Apply(Apply { profile: "work".to_string() }) };
    assert_eq!(apply.run(Stored::Malformed, None), Err(ProfileError::Decode("work".to_string())));
    let show = Dofi {
        subcommand: Subcommand::Show(Show { rule: "x".to_string(), profile: "work".to_string() }),
    };
    assert_eq!(
        show.run(Stored::Rules(two_rules()), None),
        Err(ProfileError::NotFound("x".to_string()))
    );
}
