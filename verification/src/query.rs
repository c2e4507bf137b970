use vstd::prelude::*;

use crate::repo::Repo;

verus! {

/// The six predicate categories, in the fixed order in which a rendered
/// query emits them: `repo`, `is`, `label`, `type`, `state`, `no`.
pub enum Category {
    Repo,
    Is,
    Label,
    Kind,
    State,
    No,
}

/// The literal name a category renders with. `Category::Kind` renders as
/// `type`; the variant avoids the reserved word.
pub open spec fn cat_name(c: Category) -> Seq<char> {
    match c {
        Category::Repo => seq!['r', 'e', 'p', 'o'],
        Category::Is => seq!['i', 's'],
        Category::Label => seq!['l', 'a', 'b', 'e', 'l'],
        Category::Kind => seq!['t', 'y', 'p', 'e'],
        Category::State => seq!['s', 't', 'a', 't', 'e'],
        Category::No => seq!['n', 'o'],
    }
}

/// The abstract state of a query: one ordered sequence of predicate values
/// per category. Sequences preserve insertion order and admit duplicates.
#[verifier::ext_equal]
pub struct QueryView {
    pub repo: Seq<Seq<char>>,
    pub is: Seq<Seq<char>>,
    pub label: Seq<Seq<char>>,
    pub kind: Seq<Seq<char>>,
    pub state: Seq<Seq<char>>,
    pub no: Seq<Seq<char>>,
}

impl QueryView {
    /// The state with every category empty.
    pub open spec fn empty() -> QueryView {
        QueryView {
            repo: Seq::empty(),
            is: Seq::empty(),
            label: Seq::empty(),
            kind: Seq::empty(),
            state: Seq::empty(),
            no: Seq::empty(),
        }
    }

    /// The values of one category.
    pub open spec fn get(self, c: Category) -> Seq<Seq<char>> {
        match c {
            Category::Repo => self.repo,
            Category::Is => self.is,
            Category::Label => self.label,
            Category::Kind => self.kind,
            Category::State => self.state,
            Category::No => self.no,
        }
    }

    /// The state after appending `v` to category `c`; the other five
    /// categories are untouched.
    pub open spec fn add(self, c: Category, v: Seq<char>) -> QueryView {
        match c {
            Category::Repo => QueryView { repo: self.repo.push(v), ..self },
            Category::Is => QueryView { is: self.is.push(v), ..self },
            Category::Label => QueryView { label: self.label.push(v), ..self },
            Category::Kind => QueryView { kind: self.kind.push(v), ..self },
            Category::State => QueryView { state: self.state.push(v), ..self },
            Category::No => QueryView { no: self.no.push(v), ..self },
        }
    }
}

/// One rendered token: `<category name>:<value>`.
pub open spec fn token(c: Category, v: Seq<char>) -> Seq<char> {
    cat_name(c) + seq![':'] + v
}

/// The tokens of one category, in the values' insertion order.
pub open spec fn cat_tokens(c: Category, vals: Seq<Seq<char>>) -> Seq<Seq<char>> {
    vals.map_values(|v: Seq<char>| token(c, v))
}

/// All tokens of a query, category blocks in the fixed emission order.
pub open spec fn all_tokens(q: QueryView) -> Seq<Seq<char>> {
    cat_tokens(Category::Repo, q.repo) + cat_tokens(Category::Is, q.is) + cat_tokens(
        Category::Label,
        q.label,
    ) + cat_tokens(Category::Kind, q.kind) + cat_tokens(Category::State, q.state) + cat_tokens(
        Category::No,
        q.no,
    )
}

/// The tokens joined by a single `+` between consecutive tokens, with no
/// leading or trailing delimiter.
pub open spec fn joined(toks: Seq<Seq<char>>) -> Seq<char>
    decreases toks.len(),
{
    if toks.len() == 0 {
        Seq::empty()
    } else if toks.len() == 1 {
        toks[0]
    } else {
        joined(toks.drop_last()) + seq!['+'] + toks.last()
    }
}

/// The full rendered form: the joined tokens behind the `q=` prefix.
/// An all-empty query renders as exactly `q=`.
pub open spec fn render_spec(q: QueryView) -> Seq<char> {
    seq!['q', '='] + joined(all_tokens(q))
}

/// Appends one `name:value` token per value of `vals` to `tokens`, in
/// order. `c` is the category whose literal name `name` holds.
fn push_cat_tokens(tokens: &mut Vec<String>, name: &str, vals: &Vec<String>, c: Ghost<Category>)
    requires
        name@ == cat_name(c@),
    ensures
        final(tokens).deep_view() == old(tokens).deep_view() + cat_tokens(c@, vals.deep_view()),
{
    let mut i: usize = 0;
    proof {
        assert(tokens.deep_view() =~= old(tokens).deep_view() + cat_tokens(
            c@,
            vals.deep_view().take(0),
        ));
    }
    while i < vals.len()
        invariant
            i <= vals.len(),
            name@ == cat_name(c@),
            tokens.deep_view() == old(tokens).deep_view() + cat_tokens(
                c@,
                vals.deep_view().take(i as int),
            ),
        decreases vals.len() - i,
    {
        let mut t = String::from_str(name);
        t.append(":");
        t.append(vals[i].as_str());
        proof {
            reveal_strlit(":");
            assert(t@ =~= token(c@, vals.deep_view()[i as int]));
        }
        let ghost pre = tokens.deep_view();
        tokens.push(t);
        proof {
            let dv = vals.deep_view();
            assert(tokens.deep_view() =~= pre.push(t@));
            assert(cat_tokens(c@, dv.take(i + 1)) =~= cat_tokens(c@, dv.take(i as int)).push(
                token(c@, dv[i as int]),
            ));
            assert(tokens.deep_view() =~= old(tokens).deep_view() + cat_tokens(
                c@,
                dv.take(i + 1),
            ));
        }
        i += 1;
    }
    proof {
        assert(vals.deep_view().take(i as int) =~= vals.deep_view());
    }
}

/// Joins the tokens with a single `+` between consecutive tokens; no
/// leading or trailing delimiter.
fn join_plus(tokens: &Vec<String>) -> (r: String)
    ensures
        r@ == joined(tokens.deep_view()),
{
    let mut r = String::new();
    let mut i: usize = 0;
    while i < tokens.len()
        invariant
            i <= tokens.len(),
            r@ == joined(tokens.deep_view().take(i as int)),
        decreases tokens.len() - i,
    {
        if i > 0 {
            r.append("+");
        }
        r.append(tokens[i].as_str());
        proof {
            reveal_strlit("+");
            let dv = tokens.deep_view();
            assert(dv.take(i + 1).drop_last() =~= dv.take(i as int));
            assert(dv.take(i + 1).last() == dv[i as int]);
            if i == 0 {
                assert(r@ =~= joined(dv.take(1)));
            } else {
                assert(r@ =~= joined(dv.take(i + 1)));
            }
        }
        i += 1;
    }
    proof {
        assert(tokens.deep_view().take(i as int) =~= tokens.deep_view());
    }
    r
}

/// A search-query builder: six ordered predicate lists, one per category,
/// each appended to by a fluent, ownership-transferring method.
pub struct Query {
    repo: Vec<String>,
    is: Vec<String>,
    label: Vec<String>,
    kind: Vec<String>,
    state: Vec<String>,
    no: Vec<String>,
}

impl View for Query {
    type V = QueryView;

    closed spec fn view(&self) -> QueryView {
        QueryView {
            repo: self.repo.deep_view(),
            is: self.is.deep_view(),
            label: self.label.deep_view(),
            kind: self.kind.deep_view(),
            state: self.state.deep_view(),
            no: self.no.deep_view(),
        }
    }
}

impl Default for Query {
    /// The default query is the empty one.
    fn default() -> (q: Query)
        ensures
            q@ == QueryView::empty(),
    {
        Query::new()
    }
}

impl Query {
    /// A query with every category empty.
    pub fn new() -> (q: Query)
        ensures
            q@ == QueryView::empty(),
    {
        let q = Query {
            repo: Vec::new(),
            is: Vec::new(),
            label: Vec::new(),
            kind: Vec::new(),
            state: Vec::new(),
            no: Vec::new(),
        };
        proof {
            assert(q@ =~= QueryView::empty());
        }
        q
    }

    /// A query seeded with a single `repo` predicate, the identity's
    /// `owner/name` form; every other category is empty.
    pub fn from_repo(repo: Repo) -> (q: Query)
        ensures
            q@ == QueryView::empty().add(Category::Repo, repo.full_name_spec()),
    {
        let full = repo.full_name();
        let mut repo_vals: Vec<String> = Vec::new();
        repo_vals.push(full);
        let q = Query {
            repo: repo_vals,
            is: Vec::new(),
            label: Vec::new(),
            kind: Vec::new(),
            state: Vec::new(),
            no: Vec::new(),
        };
        proof {
            assert(q@ =~= QueryView::empty().add(Category::Repo, repo.full_name_spec()));
        }
        q
    }

    /// Appends the `owner/name` form of the given pair to the `repo`
    /// category; renders as `repo:user/repo`.
    pub fn repo(self, user: &str, repo: &str) -> (q: Query)
        ensures
            q@ == self@.add(Category::Repo, user@ + seq!['/'] + repo@),
    {
        let mut this = self;
        let mut full = String::from_str(user);
        full.append("/");
        full.append(repo);
        this.repo.push(full);
        proof {
            reveal_strlit("/");
            assert(full@ =~= user@ + seq!['/'] + repo@);
            assert(this@ =~= self@.add(Category::Repo, user@ + seq!['/'] + repo@));
        }
        this
    }

    /// Appends the statement, verbatim, to the `is` category; renders as
    /// `is:statement`.
    pub fn is(self, statement: &str) -> (q: Query)
        ensures
            q@ == self@.add(Category::Is, statement@),
    {
        let mut this = self;
        this.is.push(String::from_str(statement));
        proof {
            assert(this@ =~= self@.add(Category::Is, statement@));
        }
        this
    }

    /// Appends the statement, verbatim, to the `label` category; renders as
    /// `label:statement`.
    pub fn label(self, statement: &str) -> (q: Query)
        ensures
            q@ == self@.add(Category::Label, statement@),
    {
        let mut this = self;
        this.label.push(String::from_str(statement));
        proof {
            assert(this@ =~= self@.add(Category::Label, statement@));
        }
        this
    }

    /// Appends the statement, verbatim, to the `type` category; renders as
    /// `type:statement`. Named `kind` because `type` is a reserved word.
    pub fn kind(self, statement: &str) -> (q: Query)
        ensures
            q@ == self@.add(Category::Kind, statement@),
    {
        let mut this = self;
        this.kind.push(String::from_str(statement));
        proof {
            assert(this@ =~= self@.add(Category::Kind, statement@));
        }
        this
    }

    /// Appends the statement, verbatim, to the `no` category; renders as
    /// `no:statement`.
    pub fn no(self, statement: &str) -> (q: Query)
        ensures
            q@ == self@.add(Category::No, statement@),
    {
        let mut this = self;
        this.no.push(String::from_str(statement));
        proof {
            assert(this@ =~= self@.add(Category::No, statement@));
        }
        this
    }

    /// Renders the query in the provider's wire syntax: every predicate as
    /// a `category:value` token, category blocks in the fixed order `repo`,
    /// `is`, `label`, `type`, `state`, `no`, tokens joined by `+`, and the
    /// whole behind the `q=` prefix. A query with no predicates renders as
    /// exactly `q=`. Reading the query, this neither consumes nor changes
    /// it: the result is a pure function of the query's state.
    pub fn render(&self) -> (r: String)
        ensures
            r@ == render_spec(self@),
    {
        let mut tokens: Vec<String> = Vec::new();
        proof {
            reveal_strlit("repo");
            reveal_strlit("is");
            reveal_strlit("label");
            reveal_strlit("type");
            reveal_strlit("state");
            reveal_strlit("no");
            assert("repo"@ =~= cat_name(Category::Repo));
            assert("is"@ =~= cat_name(Category::Is));
            assert("label"@ =~= cat_name(Category::Label));
            assert("type"@ =~= cat_name(Category::Kind));
            assert("state"@ =~= cat_name(Category::State));
            assert("no"@ =~= cat_name(Category::No));
        }
        push_cat_tokens(&mut tokens, "repo", &self.repo, Ghost(Category::Repo));
        push_cat_tokens(&mut tokens, "is", &self.is, Ghost(Category::Is));
        push_cat_tokens(&mut tokens, "label", &self.label, Ghost(Category::Label));
        push_cat_tokens(&mut tokens, "type", &self.kind, Ghost(Category::Kind));
        push_cat_tokens(&mut tokens, "state", &self.state, Ghost(Category::State));
        push_cat_tokens(&mut tokens, "no", &self.no, Ghost(Category::No));
        proof {
            assert(tokens.deep_view() =~= all_tokens(self@));
        }
        let body = join_plus(&tokens);
        let mut r = String::from_str("q=");
        r.append(body.as_str());
        proof {
            reveal_strlit("q=");
            assert(r@ =~= render_spec(self@));
        }
        r
    }
}

/// A query holding exactly one predicate, value `v` in category `c`,
/// renders as `q=<category name>:<v>`.
pub proof fn lemma_single_predicate(c: Category, v: Seq<char>)
    ensures
        render_spec(QueryView::empty().add(c, v)) == seq!['q', '='] + cat_name(c) + seq![':'] + v,
{
    let q = QueryView::empty().add(c, v);
    assert(all_tokens(q) =~= seq![token(c, v)]);
    assert(render_spec(q) =~= seq!['q', '='] + cat_name(c) + seq![':'] + v);
}

/// Adds to two different categories commute: the resulting state, and
/// hence the rendered string, do not depend on the order in which
/// predicates of different categories were added.
pub proof fn lemma_add_commutes(q: QueryView, c1: Category, v1: Seq<char>, c2: Category, v2: Seq<char>)
    requires
        c1 != c2,
    ensures
        q.add(c1, v1).add(c2, v2) == q.add(c2, v2).add(c1, v1),
        render_spec(q.add(c1, v1).add(c2, v2)) == render_spec(q.add(c2, v2).add(c1, v1)),
{
    assert(q.add(c1, v1).add(c2, v2) =~= q.add(c2, v2).add(c1, v1));
}

/// Within one category, insertion order is preserved: after adding `v1`
/// and then `v2` to a category, their two tokens stand adjacent in the
/// rendered token sequence, the `v1` token first.
pub proof fn lemma_insertion_order(q: QueryView, c: Category, v1: Seq<char>, v2: Seq<char>)
    ensures
        ({
            let toks = all_tokens(q.add(c, v1).add(c, v2));
            let i = position_of(q, c) + q.get(c).len();
            &&& toks[i] == token(c, v1)
            &&& toks[i + 1] == token(c, v2)
        }),
{
    let q2 = q.add(c, v1).add(c, v2);
    assert(q2.get(c) =~= q.get(c).push(v1).push(v2));
    let toks = all_tokens(q2);
    let i = position_of(q, c) + q.get(c).len();
    assert(toks[i] == token(c, v1));
    assert(toks[i + 1] == token(c, v2));
}

/// The index in the rendered token sequence at which category `c`'s block
/// begins: the total number of predicates in the categories that the fixed
/// emission order places before `c`.
pub open spec fn position_of(q: QueryView, c: Category) -> int {
    match c {
        Category::Repo => 0,
        Category::Is => q.repo.len() as int,
        Category::Label => q.repo.len() + q.is.len() as int,
        Category::Kind => q.repo.len() + q.is.len() + q.label.len() as int,
        Category::State => q.repo.len() + q.is.len() + q.label.len() + q.kind.len() as int,
        Category::No => q.repo.len() + q.is.len() + q.label.len() + q.kind.len()
            + q.state.len() as int,
    }
}

/// Seeding a query from a repository identity gives the very state that
/// adding the identity's owner and name to an empty query gives.
pub proof fn lemma_seed_equivalence(r: Repo, owner: Seq<char>, name: Seq<char>)
    requires
        r.owner@ == owner,
        r.name@ == name,
    ensures
        QueryView::empty().add(Category::Repo, r.full_name_spec()) == QueryView::empty().add(
            Category::Repo,
            owner + seq!['/'] + name,
        ),
{
}

} // verus!
