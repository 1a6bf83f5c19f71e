//! Account, user and firm names of the EP3 clearing system.
use vstd::prelude::*;
use crate::text::{chars_of, chars_eq, chars_start_with_at, is_prefix, string_of_chars, string_of_chars_from, concat_str};

verus! {

/// An EP3 account name.
#[derive(Debug, Clone, PartialEq, Eq, Hash)]
pub struct Ep3Account(String);

impl View for Ep3Account {
    type V = Seq<char>;

    closed spec fn view(&self) -> Seq<char> {
        self.0@
    }
}

impl Ep3Account {
    /// Wraps an account name.
    pub fn new(account: String) -> (r: Ep3Account)
        ensures
            r@ == account@,
    {
        Ep3Account(account)
    }

    /// The account name.
    pub fn as_str(&self) -> (r: &str)
        ensures
            r@ == self@,
    {
        self.0.as_str()
    }

    /// The account name as an owned string.
    pub fn into_inner(self) -> (r: String)
        ensures
            r@ == self@,
    {
        self.0
    }
}

/// The pieces of `s` between the occurrences of `c`, as `str::split` gives
/// them: always at least one, possibly empty.
pub open spec fn split_on(s: Seq<char>, c: char) -> Seq<Seq<char>>
    decreases s.len(),
{
    if s.len() == 0 {
        seq![Seq::<char>::empty()]
    } else {
        let rest = split_on(s.drop_last(), c);
        if s.last() == c {
            rest.push(Seq::<char>::empty())
        } else {
            rest.update(rest.len() - 1, rest.last().push(s.last()))
        }
    }
}

/// The pieces `ps` joined with `c` between each two.
pub open spec fn join_with(ps: Seq<Seq<char>>, c: char) -> Seq<char>
    decreases ps.len(),
{
    if ps.len() <= 1 {
        if ps.len() == 1 {
            ps[0]
        } else {
            Seq::<char>::empty()
        }
    } else {
        join_with(ps.drop_last(), c).push(c) + ps.last()
    }
}

/// Whether `s` holds no `c`.
pub open spec fn free_of(s: Seq<char>, c: char) -> bool {
    forall|i: int| 0 <= i < s.len() ==> s[i] != c
}

/// Splitting gives at least one piece, no piece holds the separator, and
/// joining the pieces gives the text back.
pub proof fn lemma_split_join(s: Seq<char>, c: char)
    ensures
        split_on(s, c).len() >= 1,
        forall|k: int| 0 <= k < split_on(s, c).len() ==> free_of(#[trigger] split_on(s, c)[k], c),
        join_with(split_on(s, c), c) == s,
    decreases s.len(),
{
    if s.len() > 0 {
        let t = s.drop_last();
        lemma_split_join(t, c);
        let rest = split_on(t, c);
        let n = rest.len();
        if s.last() == c {
            let r = rest.push(Seq::<char>::empty());
            assert(r.drop_last() =~= rest);
            assert(join_with(r, c) =~= t.push(c));
            assert(t.push(c) =~= s);
        } else {
            let r = rest.update(n - 1, rest.last().push(s.last()));
            assert forall|k: int| 0 <= k < r.len() implies free_of(#[trigger] r[k], c) by {
                if k == n - 1 {
                    assert(free_of(rest[n - 1], c));
                }
            }
            if n > 1 {
                assert(r.drop_last() =~= rest.drop_last());
                assert(join_with(rest, c) == join_with(rest.drop_last(), c).push(c) + rest.last());
                assert(join_with(r, c) =~= join_with(rest, c).push(s.last()));
            } else {
                assert(join_with(r, c) =~= join_with(rest, c).push(s.last()));
            }
            assert(t.push(s.last()) =~= s);
        }
    }
}

/// Splitting a text free of the separator gives that text alone.
pub proof fn lemma_split_free(s: Seq<char>, c: char)
    requires
        free_of(s, c),
    ensures
        split_on(s, c) == seq![s],
    decreases s.len(),
{
    if s.len() > 0 {
        let t = s.drop_last();
        assert(free_of(t, c));
        lemma_split_free(t, c);
        assert(t.push(s.last()) =~= s);
        assert(split_on(s, c) =~= seq![s]);
    } else {
        assert(s =~= Seq::<char>::empty());
    }
}

/// Splitting `a`, the separator, then `b` gives the pieces of `a` followed by
/// the pieces of `b`.
pub proof fn lemma_split_concat(a: Seq<char>, b: Seq<char>, c: char)
    ensures
        split_on(a.push(c) + b, c) == split_on(a, c) + split_on(b, c),
    decreases b.len(),
{
    if b.len() == 0 {
        assert(a.push(c) + b =~= a.push(c));
        assert((a.push(c)).drop_last() =~= a);
        assert(split_on(b, c) =~= seq![Seq::<char>::empty()]);
        assert(split_on(a, c).push(Seq::<char>::empty()) =~= split_on(a, c) + split_on(b, c));
    } else {
        let bt = b.drop_last();
        lemma_split_concat(a, bt, c);
        assert((a.push(c) + b).drop_last() =~= a.push(c) + bt);
        assert((a.push(c) + b).last() == b.last());
        let sa = split_on(a, c);
        let sb = split_on(bt, c);
        lemma_split_join(bt, c);
        if b.last() == c {
            assert((sa + sb).push(Seq::<char>::empty()) =~= sa + sb.push(Seq::<char>::empty()));
        } else {
            let whole = sa + sb;
            assert(whole.update(whole.len() - 1, whole.last().push(b.last())) =~= sa + sb.update(
                sb.len() - 1,
                sb.last().push(b.last()),
            ));
        }
    }
}

/// The text of a firm-qualified user name: `firms/<firm>/users/<user>`.
pub open spec fn with_firm_path(firm_id: Seq<char>, user_id: Seq<char>) -> Seq<char> {
    "firms/"@ + firm_id + "/users/"@ + user_id
}

/// An EP3 user name: either qualified by a firm or a plain name.
#[derive(Debug, Clone, PartialEq, Eq, Hash)]
pub enum Ep3Username {
    /// `firms/<firm_id>/users/<user_id>`.
    WithFirm { firm_id: String, user_id: String },
    /// A plain name such as `admin`.
    NoFirm(String),
}

/// The abstract value of an EP3 user name.
pub enum Ep3UsernameView {
    WithFirm { firm_id: Seq<char>, user_id: Seq<char> },
    NoFirm(Seq<char>),
}

impl View for Ep3Username {
    type V = Ep3UsernameView;

    open spec fn view(&self) -> Ep3UsernameView {
        match self {
            Ep3Username::WithFirm { firm_id, user_id } => Ep3UsernameView::WithFirm {
                firm_id: firm_id@,
                user_id: user_id@,
            },
            Ep3Username::NoFirm(n) => Ep3UsernameView::NoFirm(n@),
        }
    }
}

/// The text of a user name (its `Display`).
pub open spec fn ep3_username_text(u: Ep3UsernameView) -> Seq<char> {
    match u {
        Ep3UsernameView::WithFirm { firm_id, user_id } => with_firm_path(firm_id, user_id),
        Ep3UsernameView::NoFirm(n) => n,
    }
}

/// How a full path reads as a user name: four `/`-separated pieces
/// `firms`, firm, `users`, user; or a single piece; otherwise not at all.
pub open spec fn ep3_username_from_path(p: Seq<char>) -> Option<Ep3UsernameView> {
    let parts = split_on(p, '/');
    if parts.len() == 4 && parts[0] == "firms"@ && parts[2] == "users"@ {
        Some(Ep3UsernameView::WithFirm { firm_id: parts[1], user_id: parts[3] })
    } else if parts.len() == 1 {
        Some(Ep3UsernameView::NoFirm(p))
    } else {
        None
    }
}

/// The pieces of `s` between occurrences of `c`.
fn split_chars(s: &[char], c: char) -> (r: Vec<Vec<char>>)
    ensures
        r@.len() == split_on(s@, c).len(),
        forall|k: int| 0 <= k < r@.len() ==> (#[trigger] r@[k])@ == split_on(s@, c)[k],
{
    let mut parts: Vec<Vec<char>> = Vec::new();
    let mut cur: Vec<char> = Vec::new();
    let mut i: usize = 0;
    while i < s.len()
        invariant
            i <= s.len(),
            parts@.len() + 1 == split_on(s@.take(i as int), c).len(),
            forall|k: int| 0 <= k < parts@.len() ==> (#[trigger] parts@[k])@ == split_on(s@.take(i as int), c)[k],
            cur@ == split_on(s@.take(i as int), c).last(),
        decreases s.len() - i,
    {
        assert(s@.take(i + 1).drop_last() =~= s@.take(i as int));
        assert(s@.take(i + 1).last() == s@[i as int]);
        if s[i] == c {
            parts.push(cur);
            cur = Vec::new();
            assert(cur@ =~= Seq::<char>::empty());
        } else {
            cur.push(s[i]);
        }
        i = i + 1;
    }
    parts.push(cur);
    assert(s@.take(s.len() as int) =~= s@);
    parts
}

impl Ep3Username {
    /// A firm-qualified user name (same as `with_firm`).
    pub fn new(firm_id: String, user_id: String) -> (r: Ep3Username)
        ensures
            r@ == (Ep3UsernameView::WithFirm { firm_id: firm_id@, user_id: user_id@ }),
    {
        Self::with_firm(firm_id, user_id)
    }

    /// A firm-qualified user name.
    pub fn with_firm(firm_id: String, user_id: String) -> (r: Ep3Username)
        ensures
            r@ == (Ep3UsernameView::WithFirm { firm_id: firm_id@, user_id: user_id@ }),
    {
        Ep3Username::WithFirm { firm_id, user_id }
    }

    /// A plain user name.
    pub fn simple(username: String) -> (r: Ep3Username)
        ensures
            r@ == Ep3UsernameView::NoFirm(username@),
    {
        Ep3Username::NoFirm(username)
    }

    /// Reads a full EP3 user-name path (`firms/CHI/users/ADX.USER.971`) or a
    /// plain name (`admin`).
    pub fn from_full_path(full_path: &str) -> (r: Result<Ep3Username, String>)
        ensures
            ep3_username_from_path(full_path@) matches Some(v) ==> (r matches Ok(u) && u@ == v),
            ep3_username_from_path(full_path@) is None ==> (r matches Err(e)
                && e@ == "Invalid EP3 username format: "@ + full_path@),
    {
        let chars = chars_of(full_path);
        let parts = split_chars(chars.as_slice(), '/');
        let firms: Vec<char> = vec!['f', 'i', 'r', 'm', 's'];
        let users: Vec<char> = vec!['u', 's', 'e', 'r', 's'];
        proof {
            reveal_strlit("firms");
            reveal_strlit("users");
            assert(firms@ =~= "firms"@);
            assert(users@ =~= "users"@);
        }
        if parts.len() == 4 && chars_eq(parts[0].as_slice(), firms.as_slice())
            && chars_eq(parts[2].as_slice(), users.as_slice()) {
            let firm_id = string_of_chars(parts[1].as_slice());
            let user_id = string_of_chars(parts[3].as_slice());
            Ok(Self::with_firm(firm_id, user_id))
        } else if parts.len() == 1 {
            Ok(Self::simple(String::from_str(full_path)))
        } else {
            Err(concat_str("Invalid EP3 username format: ", full_path))
        }
    }

    /// The firm, if the name has one.
    pub fn firm_id(&self) -> (r: Option<&str>)
        ensures
            match self@ {
                Ep3UsernameView::WithFirm { firm_id, .. } => r matches Some(f) && f@ == firm_id,
                Ep3UsernameView::NoFirm(_) => r is None,
            },
    {
        match self {
            Ep3Username::WithFirm { firm_id, .. } => Some(firm_id.as_str()),
            Ep3Username::NoFirm(_) => None,
        }
    }

    /// The user part of a firm-qualified name, or the whole plain name.
    pub fn user_id(&self) -> (r: &str)
        ensures
            r@ == match self@ {
                Ep3UsernameView::WithFirm { user_id, .. } => user_id,
                Ep3UsernameView::NoFirm(n) => n,
            },
    {
        match self {
            Ep3Username::WithFirm { user_id, .. } => user_id.as_str(),
            Ep3Username::NoFirm(username) => username.as_str(),
        }
    }

    /// The firm of the name; a plain name belongs to `default_firm` (the
    /// deployment's participant firm).
    pub fn extract_firm(&self, default_firm: &str) -> (r: Ep3Firm)
        ensures
            r.firm_id@ == match self@ {
                Ep3UsernameView::WithFirm { firm_id, .. } => firm_id,
                Ep3UsernameView::NoFirm(_) => default_firm@,
            },
    {
        match self {
            Ep3Username::WithFirm { firm_id, .. } => Ep3Firm::new(firm_id.clone()),
            Ep3Username::NoFirm(_) => Ep3Firm::new(String::from_str(default_firm)),
        }
    }

    /// Whether the name is firm-qualified.
    pub fn has_firm(&self) -> (r: bool)
        ensures
            r == (self@ is WithFirm),
    {
        match self {
            Ep3Username::WithFirm { .. } => true,
            Ep3Username::NoFirm(_) => false,
        }
    }

    /// Whether the name is a plain one.
    pub fn is_simple(&self) -> (r: bool)
        ensures
            r == (self@ is NoFirm),
    {
        match self {
            Ep3Username::WithFirm { .. } => false,
            Ep3Username::NoFirm(_) => true,
        }
    }

    /// The text of the name (its `Display`).
    pub fn to_path(&self) -> (r: String)
        ensures
            r@ == ep3_username_text(self@),
    {
        match self {
            Ep3Username::WithFirm { firm_id, user_id } => {
                let mut s = String::from_str("firms/");
                s.append(firm_id.as_str());
                s.append("/users/");
                s.append(user_id.as_str());
                s
            },
            Ep3Username::NoFirm(username) => username.clone(),
        }
    }
}

/// Reading a path and printing the name it gives returns the path; printing a
/// name whose parts hold no `/` and reading it back gives the name.
pub proof fn lemma_ep3_username_path_round_trip(p: Seq<char>, u: Ep3UsernameView)
    ensures
        ep3_username_from_path(p) matches Some(v) ==> ep3_username_text(v) == p,
        (match u {
            Ep3UsernameView::WithFirm { firm_id, user_id } => free_of(firm_id, '/') && free_of(user_id, '/'),
            Ep3UsernameView::NoFirm(n) => free_of(n, '/'),
        }) ==> ep3_username_from_path(ep3_username_text(u)) == Some(u),
{
    reveal_strlit("firms");
    reveal_strlit("users");
    reveal_strlit("firms/");
    reveal_strlit("/users/");
    let parts = split_on(p, '/');
    lemma_split_join(p, '/');
    if parts.len() == 4 && parts[0] == "firms"@ && parts[2] == "users"@ {
        let p1 = parts.drop_last().drop_last().drop_last();
        let p2 = parts.drop_last().drop_last();
        let p3 = parts.drop_last();
        assert(p1 =~= seq![parts[0]]);
        assert(join_with(p1, '/') == parts[0]);
        assert(join_with(p2, '/') == join_with(p1, '/').push('/') + p2.last());
        assert(join_with(p3, '/') == join_with(p2, '/').push('/') + p3.last());
        assert(join_with(parts, '/') == join_with(p3, '/').push('/') + parts.last());
        assert(join_with(parts, '/') =~= with_firm_path(parts[1], parts[3]));
    }
    match u {
        Ep3UsernameView::WithFirm { firm_id, user_id } => {
            if free_of(firm_id, '/') && free_of(user_id, '/') {
                let text = with_firm_path(firm_id, user_id);
                let firms = "firms"@;
                let users = "users"@;
                assert(free_of(firms, '/'));
                assert(free_of(users, '/'));
                assert(text =~= firms.push('/') + (firm_id.push('/') + (users.push('/') + user_id)));
                lemma_split_free(firms, '/');
                lemma_split_free(firm_id, '/');
                lemma_split_free(users, '/');
                lemma_split_free(user_id, '/');
                lemma_split_concat(users, user_id, '/');
                lemma_split_concat(firm_id, users.push('/') + user_id, '/');
                lemma_split_concat(firms, firm_id.push('/') + (users.push('/') + user_id), '/');
                assert(split_on(text, '/') =~= seq![firms, firm_id, users, user_id]);
            }
        },
        Ep3UsernameView::NoFirm(n) => {
            if free_of(n, '/') {
                lemma_split_free(n, '/');
            }
        },
    }
}

/// An EP3 firm; it prints as `firms/<firm_id>`.
#[derive(Debug, Clone, PartialEq, Eq, Hash)]
pub struct Ep3Firm {
    pub firm_id: String,
}

/// `s` with every leading copy of `p` removed (`str::trim_start_matches`).
pub open spec fn trim_start_matches(s: Seq<char>, p: Seq<char>) -> Seq<char>
    decreases s.len(),
{
    if p.len() > 0 && is_prefix(p, s) {
        trim_start_matches(s.skip(p.len() as int), p)
    } else {
        s
    }
}

impl Ep3Firm {
    /// A firm with the given id.
    pub fn new(firm_id: String) -> (r: Ep3Firm)
        ensures
            r.firm_id@ == firm_id@,
    {
        Ep3Firm { firm_id }
    }

    /// The text of the firm (its `Display`): `firms/<firm_id>`.
    pub fn to_path(&self) -> (r: String)
        ensures
            r@ == "firms/"@ + self.firm_id@,
    {
        concat_str("firms/", self.firm_id.as_str())
    }

    /// Reads a firm from `firms/<firm_id>` or a bare id (the `FromStr` of the
    /// type); every leading `firms/` is dropped and an empty id is refused.
    pub fn from_path(s: &str) -> (r: Result<Ep3Firm, Ep3FirmError>)
        ensures
            trim_start_matches(s@, "firms/"@).len() == 0 <==> r is Err,
            r matches Ok(f) ==> f.firm_id@ == trim_start_matches(s@, "firms/"@),
    {
        let chars = chars_of(s);
        let prefix = chars_of("firms/");
        proof {
            reveal_strlit("firms/");
        }
        let mut start: usize = 0;
        assert(chars@.skip(0) =~= chars@);
        while chars_start_with_at(chars.as_slice(), start, prefix.as_slice())
            invariant
                start <= chars@.len(),
                prefix@ == "firms/"@,
                prefix@.len() == 6,
                trim_start_matches(chars@.skip(start as int), prefix@) == trim_start_matches(chars@, prefix@),
            decreases chars.len() - start,
        {
            assert(chars@.skip(start as int).skip(6) =~= chars@.skip(start + 6));
            start = start + 6;
        }
        let rest = string_of_chars_from(chars.as_slice(), start);
        if rest.as_str().is_empty() {
            Err(Ep3FirmError::InvalidFirmId)
        } else {
            Ok(Ep3Firm::new(rest))
        }
    }
}

/// Why a firm text was refused.
#[derive(Debug, Clone, Copy, PartialEq, Eq, Structural)]
pub enum Ep3FirmError {
    /// Nothing is left of the text once its `firms/` prefixes are dropped.
    InvalidFirmId,
}

impl Ep3FirmError {
    /// The human-readable text of the error.
    pub fn message(&self) -> (r: &'static str)
        ensures
            r@ == "invalid firm ID"@,
    {
        "invalid firm ID"
    }
}

/// Printing a firm and reading it back gives the firm, when its id is not
/// empty and does not itself start with `firms/`.
pub proof fn lemma_ep3_firm_round_trip(id: Seq<char>)
    requires
        id.len() > 0,
        !is_prefix("firms/"@, id),
    ensures
        trim_start_matches("firms/"@ + id, "firms/"@) == id,
{
    reveal_strlit("firms/");
    let p = "firms/"@;
    assert((p + id).take(6) =~= p);
    assert((p + id).skip(6) =~= id);
    assert(trim_start_matches(id, p) == id);
}

} // verus!
