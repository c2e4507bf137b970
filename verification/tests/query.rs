use search_query::query::Query;
use search_query::repo::Repo;

#[test]
fn built_query() {
    let query = Query::new()
        .repo("rust-lang", "rust")
        .kind("pr")
        .is("merged")
        .label("hacktoberfest")
        .no("assignee")
        .render();

    assert_eq!(
        "q=repo:rust-lang/rust+is:merged+label:hacktoberfest+type:pr+no:assignee",
        query
    );
}

#[test]
fn empty_query_renders_prefix_only() {
    assert_eq!("q=", Query::new().render());
}

#[test]
fn single_repo_predicate() {
    assert_eq!("q=repo:a/b", Query::new().repo("a", "b").render());
}

#[test]
fn single_is_predicate() {
    assert_eq!("q=is:open", Query::new().is("open").render());
}

#[test]
fn single_label_predicate() {
    assert_eq!("q=label:bug", Query::new().label("bug").render());
}

#[test]
fn single_kind_predicate() {
    assert_eq!("q=type:issue", Query::new().kind("issue").render());
}

#[test]
fn single_no_predicate() {
    assert_eq!("q=no:milestone", Query::new().no("milestone").render());
}

#[test]
fn category_order_is_fixed() {
    let label_first = Query::new().label("x").repo("a", "b").render();
    let repo_first = Query::new().repo("a", "b").label("x").render();
    assert_eq!("q=repo:a/b+label:x", label_first);
    assert_eq!("q=repo:a/b+label:x", repo_first);
}

#[test]
fn insertion_order_within_category() {
    let query = Query::new().label("m1").label("m2").render();
    assert_eq!("q=label:m1+label:m2", query);
}

#[test]
fn repo_token_format() {
    let query = Query::new().repo("rust-lang", "rust").render();
    assert_eq!("q=repo:rust-lang/rust", query);
}

#[test]
fn seeding_matches_manual_add() {
    let seeded = Query::from_repo(Repo::new(String::from("octo"), String::from("cat")));
    let manual = Query::new().repo("octo", "cat");
    let seeded_rendered = seeded.render();
    assert_eq!(seeded_rendered, manual.render());
    assert_eq!("q=repo:octo/cat", seeded_rendered);
}

#[test]
fn repo_full_name() {
    let repo = Repo::new(String::from("octo"), String::from("cat"));
    assert_eq!("octo/cat", repo.full_name());
}

#[test]
fn render_is_idempotent() {
    let query = Query::new().is("open").label("bug");
    let first = query.render();
    let second = query.render();
    assert_eq!(first, second);
    assert_eq!("q=is:open+label:bug", first);
}

#[test]
fn empty_value_passes_through() {
    assert_eq!("q=is:", Query::new().is("").render());
}

#[test]
fn delimiter_characters_pass_through() {
    assert_eq!("q=label:a+b:c", Query::new().label("a+b:c").render());
}

#[test]
fn duplicate_values_are_kept() {
    let query = Query::new().is("open").is("open").render();
    assert_eq!("q=is:open+is:open", query);
}

#[test]
fn multiple_repos_in_insertion_order() {
    let query = Query::new().repo("a", "b").repo("c", "d").render();
    assert_eq!("q=repo:a/b+repo:c/d", query);
}
