use vstd::prelude::*;

verus! {

/// A repository identity: an owner name together with a repository name.
/// It is used only to seed a query's `repo` predicate category; the query
/// keeps the derived `owner/name` string, never the identity itself.
pub struct Repo {
    pub owner: String,
    pub name: String,
}

impl Repo {
    /// The combined `owner/name` form of this identity.
    pub open spec fn full_name_spec(self) -> Seq<char> {
        self.owner@ + seq!['/'] + self.name@
    }

    pub fn new(owner: String, name: String) -> (r: Repo)
        ensures
            r.owner@ == owner@,
            r.name@ == name@,
    {
        Repo { owner, name }
    }

    /// The `owner/name` string, exactly as a query's `repo` predicate uses it.
    pub fn full_name(&self) -> (s: String)
        ensures
            s@ == self.full_name_spec(),
    {
        let mut s = String::from_str(self.owner.as_str());
        s.append("/");
        s.append(self.name.as_str());
        proof {
            reveal_strlit("/");
            assert(s@ =~= self.full_name_spec());
        }
        s
    }
}

} // verus!
