use css_server::groupsio_sink::{norm, split_emails, Group};

fn strings(v: &[&str]) -> Vec<String> {
    v.iter().map(|s| s.to_string()).collect()
}

#[test]
fn addresses_are_trimmed_and_lower_cased() {
    assert_eq!(norm("  Ada@Example.INVALID \n"), "ada@example.invalid");
    assert_eq!(split_emails("A@x.invalid\r\n b@x.invalid ,,\n"), vec!["a@x.invalid", "b@x.invalid"]);
    assert!(split_emails("\n\r,").is_empty());
}

#[test]
fn adding_and_removing_keep_the_lists_apart() {
    let mut g = Group::new();
    g.directadd(&split_emails("a@x.invalid\nA@X.invalid\nb@x.invalid"));
    assert_eq!(g.members(), vec!["a@x.invalid", "b@x.invalid"]);
    assert!(g.past().is_empty());
    g.bulkremove(&split_emails("B@x.invalid,nobody@x.invalid"));
    assert_eq!(g.members(), vec!["a@x.invalid"]);
    assert_eq!(g.past(), vec!["b@x.invalid"]);
    g.directadd(&strings(&["b@x.invalid"]));
    assert_eq!(g.members(), vec!["a@x.invalid", "b@x.invalid"]);
    assert!(g.past().is_empty());
}

#[test]
fn seeding_and_resetting() {
    let mut g = Group::new();
    g.seed(&strings(&["m@x.invalid"]), &strings(&["p@x.invalid"]));
    assert_eq!(g.members(), vec!["m@x.invalid"]);
    assert_eq!(g.past(), vec!["p@x.invalid"]);
    g.reset();
    assert!(g.members().is_empty());
    assert!(g.past().is_empty());
}
