//! The persisted set of team rows, keyed by canonical login.
//!
//! `TeamStore` stands for the relational table of teams: rows with unique,
//! immutable logins and unique surrogate ids. `NewTeam::create_or_update`
//! is the single atomic conditional write the design calls for: insert when
//! the login is absent, otherwise overwrite the provider-derived columns in
//! place, so that concurrent callers resolving the same login converge to
//! one row. Callers that serialize their access through one store value get
//! exactly that merge-write semantics, stated by [`upsert_rel`].

use vstd::prelude::*;
use vstd::string::*;
use crate::model::{NewTeam, Team};
use crate::strutil::{clone_opt_string, str_eq};

verus! {

/// No two rows share a login.
pub open spec fn logins_unique(rows: Seq<Team>) -> bool {
    forall|i: int, j: int|
        0 <= i < rows.len() && 0 <= j < rows.len() && i != j ==> (#[trigger] rows[i]).login@ != (
        #[trigger] rows[j]).login@
}

/// No two rows share a surrogate id.
pub open spec fn ids_unique(rows: Seq<Team>) -> bool {
    forall|i: int, j: int|
        0 <= i < rows.len() && 0 <= j < rows.len() && i != j ==> (#[trigger] rows[i]).id != (
        #[trigger] rows[j]).id
}

/// Index of the first row at or after `from` whose login is `login`, or
/// `rows.len()` when there is none.
pub open spec fn index_of_login_from(rows: Seq<Team>, login: Seq<char>, from: int) -> int
    decreases rows.len() - from,
{
    if from < 0 || from >= rows.len() {
        rows.len() as int
    } else if rows[from].login@ == login {
        from
    } else {
        index_of_login_from(rows, login, from + 1)
    }
}

/// Index of the first row whose login is `login`, or `rows.len()`.
pub open spec fn index_of_login(rows: Seq<Team>, login: Seq<char>) -> int {
    index_of_login_from(rows, login, 0)
}

pub proof fn lemma_index_of_login_bounds(rows: Seq<Team>, login: Seq<char>, from: int)
    requires
        0 <= from <= rows.len(),
    ensures
        from <= index_of_login_from(rows, login, from) <= rows.len(),
        index_of_login_from(rows, login, from) < rows.len() ==> rows[index_of_login_from(
            rows,
            login,
            from,
        )].login@ == login,
        forall|j: int|
            from <= j < index_of_login_from(rows, login, from) ==> (#[trigger] rows[j]).login@
                != login,
    decreases rows.len() - from,
{
    if from < rows.len() && rows[from].login@ != login {
        lemma_index_of_login_bounds(rows, login, from + 1);
    }
}

/// Two row sequences whose logins agree position by position give the same
/// first-match index.
pub proof fn lemma_index_of_login_pointwise(a: Seq<Team>, b: Seq<Team>, login: Seq<char>, from: int)
    requires
        a.len() == b.len(),
        forall|i: int| 0 <= i < a.len() ==> (#[trigger] a[i]).login@ == (#[trigger] b[i]).login@,
        0 <= from <= a.len(),
    ensures
        index_of_login_from(a, login, from) == index_of_login_from(b, login, from),
    decreases a.len() - from,
{
    if from < a.len() && a[from].login@ != login {
        lemma_index_of_login_pointwise(a, b, login, from + 1);
    }
}

/// When nothing in `[from, m)` matches and row `m` does, the first match is
/// at `m`.
pub proof fn lemma_index_of_login_hit(rows: Seq<Team>, login: Seq<char>, from: int, m: int)
    requires
        0 <= from <= m < rows.len(),
        forall|j: int| from <= j < m ==> (#[trigger] rows[j]).login@ != login,
        rows[m].login@ == login,
    ensures
        index_of_login_from(rows, login, from) == m,
    decreases m - from,
{
    if from < m {
        lemma_index_of_login_hit(rows, login, from + 1, m);
    }
}

/// How one insert-or-update relates the rows after the write (`rows1`) to
/// the rows before it (`rows0`): the returned row `t` carries the given
/// login, and either replaces the one existing row with that login (keeping
/// its id) or is appended.
pub open spec fn upsert_rel(rows0: Seq<Team>, rows1: Seq<Team>, t: Team, login: Seq<char>) -> bool {
    let j = index_of_login(rows0, login);
    t.login@ == login && if j < rows0.len() {
        t.id == rows0[j].id && rows1 == rows0.update(j, t)
    } else {
        rows1 == rows0.push(t)
    }
}

/// Storage for `Team` rows: the relational table behind team upserts and
/// lookups. Surrogate ids are assigned from `next_id`.
#[derive(Debug)]
pub struct TeamStore {
    pub rows: Vec<Team>,
    pub next_id: i32,
}

impl View for TeamStore {
    type V = Seq<Team>;

    open spec fn view(&self) -> Seq<Team> {
        self.rows@
    }
}

impl TeamStore {
    pub open spec fn next_id_spec(&self) -> int {
        self.next_id as int
    }

    /// Well-formedness: unique logins, unique ids, and every id below the
    /// next one to be assigned.
    pub open spec fn wf(&self) -> bool {
        &&& logins_unique(self@)
        &&& ids_unique(self@)
        &&& forall|i: int| 0 <= i < self@.len() ==> (#[trigger] self@[i]).id < self.next_id_spec()
        &&& self.next_id_spec() >= 1
    }

    /// An empty table; ids start at 1.
    pub fn new() -> (s: TeamStore)
        ensures
            s.wf(),
            s@ =~= Seq::<Team>::empty(),
            s.next_id_spec() == 1,
    {
        TeamStore { rows: Vec::new(), next_id: 1 }
    }

    /// Whether another row can still be assigned a fresh id.
    pub fn has_capacity(&self) -> (r: bool)
        ensures
            r == (self.next_id_spec() < i32::MAX),
    {
        self.next_id < i32::MAX
    }

    pub fn count(&self) -> (r: usize)
        ensures
            r == self@.len(),
    {
        self.rows.len()
    }

    pub fn get(&self, i: usize) -> (r: &Team)
        requires
            i < self@.len(),
        ensures
            *r == self@[i as int],
    {
        &self.rows[i]
    }

    /// The row with the given surrogate id, if any: the id-keyed lookup the
    /// owner join resolves through.
    pub fn find_by_id(&self, id: i32) -> (r: Option<Team>)
        ensures
            r == team_by_id(self@, id),
    {
        let mut i: usize = 0;
        while i < self.rows.len()
            invariant
                0 <= i <= self@.len(),
                forall|j: int| 0 <= j < i ==> (#[trigger] self@[j]).id != id,
            decreases self@.len() - i,
        {
            if self.rows[i].id == id {
                proof {
                    lemma_team_by_id_skip(self@, id, i as int);
                    assert(self@.skip(i as int)[0] == self@[i as int]);
                }
                return Option::Some(self.rows[i].clone());
            }
            i = i + 1;
        }
        proof {
            lemma_team_by_id_skip(self@, id, self@.len() as int);
            assert(self@.skip(self@.len() as int) =~= Seq::<Team>::empty());
        }
        Option::None
    }
}

/// The first row carrying surrogate id `id`, if any.
pub open spec fn team_by_id(rows: Seq<Team>, id: i32) -> Option<Team>
    decreases rows.len(),
{
    if rows.len() == 0 {
        Option::None
    } else if rows[0].id == id {
        Option::Some(rows[0])
    } else {
        team_by_id(rows.drop_first(), id)
    }
}

/// Skipping rows whose id does not match leaves `team_by_id` unchanged.
pub proof fn lemma_team_by_id_skip(rows: Seq<Team>, id: i32, k: int)
    requires
        0 <= k <= rows.len(),
        forall|j: int| 0 <= j < k ==> (#[trigger] rows[j]).id != id,
    ensures
        team_by_id(rows, id) == team_by_id(rows.skip(k), id),
    decreases k,
{
    if k == 0 {
        assert(rows.skip(0) =~= rows);
    }
    if k > 0 {
        lemma_team_by_id_skip(rows, id, k - 1);
        assert(rows.skip(k - 1).drop_first() =~= rows.skip(k));
        assert(rows.skip(k - 1)[0] == rows[k - 1]);
        assert(team_by_id(rows.skip(k - 1), id) == team_by_id(rows.skip(k - 1).drop_first(), id));
    }
}

impl NewTeam {
    /// The atomic insert-or-update keyed by login: inserts the row when the
    /// login is absent, otherwise overwrites `github_id`, `name` and
    /// `avatar` in place, keeping the existing row's id. Returns the row as
    /// stored.
    pub fn create_or_update(&self, store: &mut TeamStore) -> (r: Team)
        requires
            old(store).wf(),
            old(store).next_id_spec() < i32::MAX,
        ensures
            final(store).wf(),
            upsert_rel(old(store)@, final(store)@, r, self.login@),
            r.login == self.login,
            r.github_id == self.github_id,
            r.name == self.name,
            r.avatar == self.avatar,
            index_of_login(old(store)@, self.login@) < old(store)@.len()
                ==> final(store).next_id_spec() == old(store).next_id_spec(),
            index_of_login(old(store)@, self.login@) == old(store)@.len()
                ==> r.id == old(store).next_id_spec()
                && final(store).next_id_spec() == old(store).next_id_spec() + 1,
    {
        proof {
            lemma_index_of_login_bounds(store@, self.login@, 0);
        }
        let ghost rows0 = store@;
        let ghost j = index_of_login(rows0, self.login@);
        let mut i: usize = 0;
        while i < store.rows.len()
            invariant
                0 <= i <= rows0.len(),
                rows0 == store@,
                rows0 == old(store)@,
                store.next_id == old(store).next_id,
                old(store).wf(),
                old(store).next_id_spec() < i32::MAX,
                forall|k: int| 0 <= k < i ==> (#[trigger] rows0[k]).login@ != self.login@,
            decreases rows0.len() - i,
        {
            if str_eq(store.rows[i].login.as_str(), self.login.as_str()) {
                proof {
                    lemma_index_of_login_hit(rows0, self.login@, 0, i as int);
                }
                let t = Team {
                    id: store.rows[i].id,
                    login: self.login.clone(),
                    github_id: self.github_id,
                    name: clone_opt_string(&self.name),
                    avatar: clone_opt_string(&self.avatar),
                };
                store.rows[i] = t.clone();
                proof {
                    assert(store@ =~= rows0.update(i as int, t));
                    assert forall|a: int, b: int|
                        0 <= a < store@.len() && 0 <= b < store@.len() && a != b implies (
                    #[trigger] store@[a]).login@ != (#[trigger] store@[b]).login@ by {
                        assert(store@[a].login@ == rows0[a].login@);
                        assert(store@[b].login@ == rows0[b].login@);
                    }
                    assert forall|a: int, b: int|
                        0 <= a < store@.len() && 0 <= b < store@.len() && a != b implies (
                    #[trigger] store@[a]).id != (#[trigger] store@[b]).id by {
                        assert(store@[a].id == rows0[a].id);
                        assert(store@[b].id == rows0[b].id);
                    }
                }
                return t;
            }
            i = i + 1;
        }
        let id = store.next_id;
        store.next_id = id + 1;
        let t = Team {
            id,
            login: self.login.clone(),
            github_id: self.github_id,
            name: clone_opt_string(&self.name),
            avatar: clone_opt_string(&self.avatar),
        };
        store.rows.push(t.clone());
        proof {
            assert(store@ =~= rows0.push(t));
            assert(j == rows0.len());
        }
        t
    }
}

/// Registering the same canonical login twice leaves exactly one row with
/// that login, and its provider id is the second registration's value: a
/// group recreated under the same name converges to one refreshed row.
pub proof fn lemma_upsert_converges(
    rows0: Seq<Team>,
    rows1: Seq<Team>,
    rows2: Seq<Team>,
    t1: Team,
    t2: Team,
    login: Seq<char>,
)
    requires
        logins_unique(rows0),
        upsert_rel(rows0, rows1, t1, login),
        upsert_rel(rows1, rows2, t2, login),
    ensures
        ({
            let j = index_of_login(rows2, login);
            &&& j < rows2.len()
            &&& rows2[j] == t2
            &&& rows2[j].github_id == t2.github_id
            &&& forall|k: int|
                0 <= k < rows2.len() && k != j ==> (#[trigger] rows2[k]).login@ != login
        }),
        index_of_login(rows0, login) < rows0.len() ==> rows2.len() == rows0.len(),
        index_of_login(rows0, login) == rows0.len() ==> rows2.len() == rows0.len() + 1,
{
    let j0 = index_of_login(rows0, login);
    lemma_index_of_login_bounds(rows0, login, 0);
    if j0 < rows0.len() {
        // first call updated row j0 in place
        lemma_index_of_login_pointwise(rows0, rows1, login, 0);
        let j1 = index_of_login(rows1, login);
        assert(j1 == j0);
        lemma_index_of_login_pointwise(rows1, rows2, login, 0);
        let j2 = index_of_login(rows2, login);
        assert(j2 == j0);
        assert(rows2[j2] == t2);
        assert forall|k: int|
            0 <= k < rows2.len() && k != j2 implies (#[trigger] rows2[k]).login@ != login by {
            assert(rows2[k].login@ == rows0[k].login@);
            assert(rows0[j0].login@ == login);
        }
    } else {
        // first call appended a fresh row at the end
        let m = rows0.len() as int;
        assert(rows1[m].login@ == login);
        assert forall|k: int| 0 <= k < m implies (#[trigger] rows1[k]).login@ != login by {
            assert(rows1[k] == rows0[k]);
        }
        lemma_index_of_login_hit(rows1, login, 0, m);
        let j1 = index_of_login(rows1, login);
        assert(j1 == m);
        assert(rows2 == rows1.update(m, t2));
        lemma_index_of_login_pointwise(rows1, rows2, login, 0);
        let j2 = index_of_login(rows2, login);
        assert(j2 == m);
        assert(rows2[j2] == t2);
        assert forall|k: int|
            0 <= k < rows2.len() && k != j2 implies (#[trigger] rows2[k]).login@ != login by {
            assert(rows2[k].login@ == rows1[k].login@);
            assert(rows1[k] == rows0[k]);
        }
    }
}

} // verus!
