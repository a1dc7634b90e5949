//! Permission evaluation over a role's permission list, stored as a JSON
//! array of capability strings, where the token `"*"` grants the whole
//! catalog.
use vstd::prelude::*;

verus! {

/// What `serde_json` decodes from a text as a JSON array of strings, or
/// `None` where the text is no such array.
pub uninterp spec fn json_string_list(text: Seq<char>) -> Option<Seq<Seq<char>>>;

/// Relies on `serde_json::from_str::<Vec<String>>`: decodes a JSON array of
/// strings, in order, or fails.
#[verifier::external_body]
pub(crate) fn parse_string_list(text: &str) -> (r: Option<Vec<String>>)
    ensures
        r is Some <==> json_string_list(text@) is Some,
        r is Some ==> r->0@.map_values(|s: String| s@) == json_string_list(text@)->0,
{
    serde_json::from_str::<Vec<String>>(text).ok()
}

/// The wildcard capability.
pub open spec fn wildcard() -> Seq<char> {
    seq!['*']
}

/// The fixed catalog of capabilities that the wildcard stands for.
pub open spec fn catalog() -> Seq<Seq<char>> {
    seq![
        "dashboard:read"@,
        "dashboard:write"@,
        "user:read"@,
        "user:write"@,
        "product:read"@,
        "product:write"@,
        "order:read"@,
        "order:write"@,
        "category:read"@,
        "category:write"@,
        "settings:read"@,
        "settings:write"@,
        "logs:read"@,
        "logs:write"@,
    ]
}

/// The capabilities granted by a decoded permission list: every listed
/// capability but the wildcard, and the whole catalog where the wildcard is
/// listed.
pub open spec fn granted(list: Seq<Seq<char>>) -> Set<Seq<char>> {
    Set::new(
        |c: Seq<char>|
            (list.contains(c) && c != wildcard()) || (list.contains(wildcard())
                && catalog().contains(c)),
    )
}

/// The capabilities granted by a stored permission text; a text that does not
/// decode grants nothing.
pub open spec fn permission_set(text: Seq<char>) -> Set<Seq<char>> {
    match json_string_list(text) {
        Some(list) => granted(list),
        None => Set::empty(),
    }
}

pub open spec fn views(v: Seq<String>) -> Seq<Seq<char>> {
    v.map_values(|s: String| s@)
}

fn catalog_strings() -> (r: Vec<String>)
    ensures
        views(r@) == catalog(),
{
    let mut r: Vec<String> = Vec::new();
    r.push("dashboard:read".to_string());
    r.push("dashboard:write".to_string());
    r.push("user:read".to_string());
    r.push("user:write".to_string());
    r.push("product:read".to_string());
    r.push("product:write".to_string());
    r.push("order:read".to_string());
    r.push("order:write".to_string());
    r.push("category:read".to_string());
    r.push("category:write".to_string());
    r.push("settings:read".to_string());
    r.push("settings:write".to_string());
    r.push("logs:read".to_string());
    r.push("logs:write".to_string());
    assert(views(r@) =~= catalog());
    r
}

fn is_wildcard(s: &str) -> (r: bool)
    ensures
        r == (s@ == wildcard()),
{
    let star = "*".to_string();
    proof {
        reveal_strlit("*");
    }
    assert(star@ =~= wildcard());
    let owned = s.to_string();
    let r = owned.eq(&star);
    r
}

/// Whether `v` holds a string whose characters are `s`.
pub fn contains_str(v: &Vec<String>, s: &str) -> (r: bool)
    ensures
        r == views(v@).contains(s@),
{
    let mut i: usize = 0;
    while i < v.len()
        invariant
            0 <= i <= v.len(),
            forall|j: int| 0 <= j < i ==> v@[j]@ != s@,
        decreases v.len() - i,
    {
        if v[i].as_str().to_string().eq(&s.to_string()) {
            assert(views(v@)[i as int] == s@);
            return true;
        }
        i = i + 1;
    }
    assert(!views(v@).contains(s@)) by {
        if views(v@).contains(s@) {
            let k = choose|k: int| 0 <= k < views(v@).len() && views(v@)[k] == s@;
            assert(v@[k]@ == s@);
        }
    }
    false
}

/// A permission text whose list holds the wildcard grants every capability
/// of the catalog; one whose list does not grants exactly the capabilities it
/// lists.
pub proof fn lemma_wildcard_and_exact_match(text: Seq<char>, capability: Seq<char>)
    requires
        json_string_list(text) is Some,
    ensures
        json_string_list(text)->0.contains(wildcard()) && catalog().contains(capability)
            ==> permission_set(text).contains(capability),
        !json_string_list(text)->0.contains(wildcard()) ==> (permission_set(text).contains(
            capability,
        ) <==> json_string_list(text)->0.contains(capability)),
{
}

proof fn lemma_push_contains<A>(s: Seq<A>, x: A, c: A)
    ensures
        s.push(x).contains(c) <==> (s.contains(c) || c == x),
{
    if s.push(x).contains(c) {
        let k = choose|k: int| 0 <= k < s.push(x).len() && s.push(x)[k] == c;
        if k < s.len() {
            assert(s[k] == c);
        }
    }
    if s.contains(c) {
        let k = choose|k: int| 0 <= k < s.len() && s[k] == c;
        assert(s.push(x)[k] == c);
    }
    if c == x {
        assert(s.push(x)[s.len() as int] == c);
    }
}

proof fn lemma_push_no_duplicates<A>(s: Seq<A>, x: A)
    requires
        s.no_duplicates(),
        !s.contains(x),
    ensures
        s.push(x).no_duplicates(),
{
    assert forall|i: int, j: int|
        0 <= i < s.push(x).len() && 0 <= j < s.push(x).len() && i != j implies s.push(x)[i]
        != s.push(x)[j] by {
        if i < s.len() && j == s.len() {
            assert(s[i] != x);
        }
        if j < s.len() && i == s.len() {
            assert(s[j] != x);
        }
    }
}

pub struct Permission;

impl Permission {
    /// The capabilities granted by a decoded list, each once, in the order in
    /// which they are first granted.
    pub fn expand(list: &Vec<String>) -> (r: Vec<String>)
        ensures
            views(r@).to_set() == granted(views(list@)),
            views(r@).no_duplicates(),
    {
        let cat = catalog_strings();
        let mut out: Vec<String> = Vec::new();
        let mut i: usize = 0;
        while i < list.len()
            invariant
                0 <= i <= list.len(),
                views(cat@) == catalog(),
                views(out@).no_duplicates(),
                forall|c: Seq<char>|
                    #![trigger views(out@).contains(c)]
                    views(out@).contains(c) <==> granted(views(list@).subrange(0, i as int)).contains(c),
            decreases list.len() - i,
        {
            let item = list[i].as_str();
            let ghost prev = views(list@).subrange(0, i as int);
            let ghost next = views(list@).subrange(0, i + 1);
            assert(next =~= prev.push(item@));
            let ghost out0 = views(out@);
            if is_wildcard(item) {
                let mut k: usize = 0;
                while k < cat.len()
                    invariant
                        0 <= k <= cat.len(),
                        views(cat@) == catalog(),
                        views(out@).no_duplicates(),
                        forall|c: Seq<char>|
                            #![trigger views(out@).contains(c)]
                            views(out@).contains(c) <==> (out0.contains(c) || catalog().subrange(0, k as int).contains(c)),
                    decreases cat.len() - k,
                {
                    let entry = cat[k].as_str();
                    let ghost cs = catalog().subrange(0, k as int);
                    assert(catalog().subrange(0, k + 1) =~= cs.push(entry@));
                    let ghost o1 = views(out@);
                    if !contains_str(&out, entry) {
                        out.push(entry.to_string());
                        assert(views(out@) =~= o1.push(entry@));
                        proof { lemma_push_no_duplicates(o1, entry@); }
                    }
                    assert forall|c: Seq<char>| #[trigger] views(out@).contains(c) <==> (out0.contains(c) || catalog().subrange(0, k + 1).contains(c)) by {
                        lemma_push_contains(o1, entry@, c);
                        lemma_push_contains(cs, entry@, c);
                    }
                    k = k + 1;
                }
                assert(catalog().subrange(0, cat.len() as int) =~= catalog());
                assert forall|c: Seq<char>| #[trigger] views(out@).contains(c) <==> granted(next).contains(c) by {
                    lemma_push_contains(prev, item@, c);
                    lemma_push_contains(prev, item@, wildcard());
                }
            } else {
                if !contains_str(&out, item) {
                    out.push(item.to_string());
                    assert(views(out@) =~= out0.push(item@));
                    proof { lemma_push_no_duplicates(out0, item@); }
                }
                assert forall|c: Seq<char>| #[trigger] views(out@).contains(c) <==> granted(next).contains(c) by {
                    lemma_push_contains(out0, item@, c);
                    lemma_push_contains(prev, item@, c);
                    lemma_push_contains(prev, item@, wildcard());
                }
            }
            i = i + 1;
        }
        assert(views(list@).subrange(0, list.len() as int) =~= views(list@));
        assert(views(out@).to_set() =~= granted(views(list@)));
        out
    }

    /// Whether a decoded list grants `required`.
    pub fn grants(list: &Vec<String>, required: &str) -> (r: bool)
        ensures
            r == granted(views(list@)).contains(required@),
    {
        let all = Self::expand(list);
        let r = contains_str(&all, required);
        assert(views(all@).to_set().contains(required@) == views(all@).contains(required@));
        r
    }

    /// Whether the stored permission text grants `required`; a text that is
    /// not a JSON array of strings grants nothing.
    pub fn has_permission(user_permissions: &str, required_permission: &str) -> (r: bool)
        ensures
            r == permission_set(user_permissions@).contains(required_permission@),
    {
        match parse_string_list(user_permissions) {
            Some(list) => Self::grants(&list, required_permission),
            None => false,
        }
    }

    /// Whether the stored permission text grants at least one of `required_permissions`.
    pub fn has_any_permission(user_permissions: &str, required_permissions: &[&str]) -> (r: bool)
        ensures
            r == exists|i: int|
                0 <= i < required_permissions@.len() && permission_set(user_permissions@).contains(
                    #[trigger] required_permissions@[i]@,
                ),
    {
        let mut i: usize = 0;
        while i < required_permissions.len()
            invariant
                0 <= i <= required_permissions@.len(),
                forall|j: int|
                    0 <= j < i ==> !permission_set(user_permissions@).contains(
                        #[trigger] required_permissions@[j]@,
                    ),
            decreases required_permissions@.len() - i,
        {
            if Self::has_permission(user_permissions, required_permissions[i]) {
                return true;
            }
            i = i + 1;
        }
        false
    }

    /// Every capability granted by the stored permission text, each once.
    pub fn get_permissions(permissions_json: &str) -> (r: Vec<String>)
        ensures
            views(r@).to_set() == permission_set(permissions_json@),
            views(r@).no_duplicates(),
    {
        match parse_string_list(permissions_json) {
            Some(list) => Self::expand(&list),
            None => {
                let r: Vec<String> = Vec::new();
                assert(views(r@).to_set() =~= Set::empty());
                r
            },
        }
    }
}

} // verus!
