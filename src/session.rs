use vstd::prelude::*;
use vstd::string::StringExecFns;
use crate::value::{find_key, is_first_key, index_of};

verus! {

/// The decimal digit `d`, for `d < 10`.
pub open spec fn digit(d: int) -> char {
    if d == 0 { '0' }
    else if d == 1 { '1' }
    else if d == 2 { '2' }
    else if d == 3 { '3' }
    else if d == 4 { '4' }
    else if d == 5 { '5' }
    else if d == 6 { '6' }
    else if d == 7 { '7' }
    else if d == 8 { '8' }
    else { '9' }
}

/// The decimal text of `n`, without leading zeros.
pub open spec fn decimal(n: nat) -> Seq<char>
    decreases n,
{
    if n < 10 {
        seq![digit(n as int)]
    } else {
        decimal(n / 10).push(digit((n % 10) as int))
    }
}

proof fn lemma_decimal_len(n: nat)
    ensures
        decimal(n).len() >= 1,
        n >= 10 ==> decimal(n).len() >= 2,
    decreases n,
{
    if n >= 10 {
        lemma_decimal_len(n / 10);
    }
}

/// Distinct numbers have distinct decimal texts.
pub proof fn lemma_decimal_injective(a: nat, b: nat)
    requires
        decimal(a) == decimal(b),
    ensures
        a == b,
    decreases a,
{
    lemma_decimal_len(a);
    lemma_decimal_len(b);
    let da = decimal(a);
    assert(da.last() == digit((a % 10) as int));
    assert(decimal(b).last() == digit((b % 10) as int));
    if a >= 10 && b >= 10 {
        assert(decimal(a / 10) == da.drop_last());
        assert(decimal(b / 10) == decimal(b).drop_last());
        lemma_decimal_injective(a / 10, b / 10);
    }
}

fn digit_text(d: u64) -> (r: &'static str)
    requires
        d < 10,
    ensures
        r@ == seq![digit(d as int)],
{
    proof {
        reveal_strlit("0");
        reveal_strlit("1");
        reveal_strlit("2");
        reveal_strlit("3");
        reveal_strlit("4");
        reveal_strlit("5");
        reveal_strlit("6");
        reveal_strlit("7");
        reveal_strlit("8");
        reveal_strlit("9");
    }
    if d == 0 { "0" }
    else if d == 1 { "1" }
    else if d == 2 { "2" }
    else if d == 3 { "3" }
    else if d == 4 { "4" }
    else if d == 5 { "5" }
    else if d == 6 { "6" }
    else if d == 7 { "7" }
    else if d == 8 { "8" }
    else { "9" }
}

/// The decimal text of `n`.
pub fn decimal_text(n: u64) -> (r: String)
    ensures
        r@ == decimal(n as nat),
    decreases n,
{
    if n < 10 {
        String::from_str(digit_text(n))
    } else {
        let mut s = decimal_text(n / 10);
        s.append(digit_text(n % 10));
        s
    }
}

/// The value stored under `name` in a list of string pairs.
pub open spec fn pair_get(s: Seq<(String, String)>, name: Seq<char>) -> Option<Seq<char>> {
    match find_key(s, name) {
        Some(i) => Some(s[i].1@),
        None => None,
    }
}

/// No two pairs share a name.
pub open spec fn unique_names<V>(s: Seq<(String, V)>) -> bool {
    forall|i: int, j: int| 0 <= i < s.len() && 0 <= j < s.len() && i != j ==> s[i].0@ != s[j].0@
}

proof fn lemma_find_same_keys<V, W>(a: Seq<(String, V)>, b: Seq<(String, W)>, k: Seq<char>)
    requires
        a.len() == b.len(),
        forall|j: int| 0 <= j < a.len() ==> a[j].0@ == b[j].0@,
    ensures
        find_key(a, k) == find_key(b, k),
{
    assert forall|i: int| is_first_key(a, k, i) <==> is_first_key(b, k, i) by {
        if is_first_key(a, k, i) {
            assert forall|j: int| 0 <= j < i implies b[j].0@ != k by {
                assert(a[j].0@ != k);
            }
        }
        if is_first_key(b, k, i) {
            assert forall|j: int| 0 <= j < i implies a[j].0@ != k by {
                assert(b[j].0@ != k);
            }
        }
    }
}

proof fn lemma_find_push<V>(s: Seq<(String, V)>, x: (String, V), k: Seq<char>)
    requires
        find_key(s, x.0@) is None,
    ensures
        k == x.0@ ==> find_key(s.push(x), k) == Some(s.len() as int),
        k != x.0@ ==> find_key(s.push(x), k) == find_key(s, k),
{
    let t = s.push(x);
    if k == x.0@ {
        assert forall|j: int| 0 <= j < s.len() implies t[j].0@ != k by {
            if s[j].0@ == k {
                lemma_first_exists(s, k, j);
            }
        }
        assert(is_first_key(t, k, s.len() as int));
    } else {
        assert forall|i: int| is_first_key(t, k, i) <==> is_first_key(s, k, i) by {
            if is_first_key(s, k, i) {
                assert forall|j: int| 0 <= j < i implies t[j].0@ != k by {
                    assert(s[j].0@ != k);
                }
            }
            if is_first_key(t, k, i) {
                assert(i != s.len());
                assert forall|j: int| 0 <= j < i implies s[j].0@ != k by {
                    assert(t[j].0@ != k);
                }
            }
        }
    }
}

/// Where `k` occurs at `j`, a first occurrence exists.
proof fn lemma_first_exists<V>(s: Seq<(String, V)>, k: Seq<char>, j: int)
    requires
        0 <= j < s.len(),
        s[j].0@ == k,
    ensures
        find_key(s, k) is Some,
    decreases j,
{
    if exists|q: int| 0 <= q < j && s[q].0@ == k {
        let q = choose|q: int| 0 <= q < j && s[q].0@ == k;
        lemma_first_exists(s, k, q);
    } else {
        assert(is_first_key(s, k, j));
    }
}

/// Stores one cookie in a jar: a cookie of the same name is replaced,
/// a new name is added at the end.
pub fn store_cookie(jar: &mut Vec<(String, String)>, name: String, value: String)
    requires
        unique_names(old(jar)@),
    ensures
        unique_names(final(jar)@),
        pair_get(final(jar)@, name@) == Some(value@),
        forall|n: Seq<char>| n != name@ ==> pair_get(final(jar)@, n) == pair_get(old(jar)@, n),
{
    let ghost name_v = name@;
    let ghost value_v = value@;
    match index_of(jar, &name) {
        Some(i) => {
            let ghost s0 = jar@;
            jar.remove(i);
            jar.insert(i, (name, value));
            assert(jar@ =~= s0.update(i as int, jar@[i as int]));
            proof {
                assert forall|n: Seq<char>| n != name_v implies pair_get(jar@, n) == pair_get(s0, n) by {
                    lemma_find_same_keys(jar@, s0, n);
                }
                lemma_find_same_keys(jar@, s0, name_v);
            }
        },
        None => {
            let ghost s0 = jar@;
            let x = (name, value);
            proof {
                assert forall|n: Seq<char>| true implies #[trigger] pair_get(s0.push(x), n) == (
                if n == name_v { Some(value_v) } else { pair_get(s0, n) }) by {
                    lemma_find_push(s0, x, n);
                }
                assert forall|j: int| 0 <= j < s0.len() implies s0[j].0@ != name_v by {
                    if s0[j].0@ == name_v {
                        lemma_first_exists(s0, name_v, j);
                    }
                }
            }
            jar.push(x);
            assert(jar@ == s0.push(x));
        },
    }
}

/// The value that the last pair named `n` in `s` gives, if any.
pub open spec fn last_value(s: Seq<(String, String)>, n: Seq<char>) -> Option<Seq<char>>
    decreases s.len(),
{
    if s.len() == 0 {
        None
    } else if s.last().0@ == n {
        Some(s.last().1@)
    } else {
        last_value(s.drop_last(), n)
    }
}

/// The jar after storing `cookies` in order into a jar that held `jar`.
pub open spec fn jar_after(jar: Seq<(String, String)>, cookies: Seq<(String, String)>, n: Seq<char>) -> Option<Seq<char>> {
    match last_value(cookies, n) {
        Some(v) => Some(v),
        None => pair_get(jar, n),
    }
}

/// A session's cookie jar: (name, value) pairs with distinct names.
pub type CookieJar = Vec<(String, String)>;

/// The sessions of one script execution. Session `i` has the handle
/// `decimal(i)`, so handles are unique and never reused.
pub struct SessionStore {
    pub sessions: Vec<(String, CookieJar)>,
}

impl SessionStore {
    pub open spec fn wf(&self) -> bool {
        forall|i: int|
            0 <= i < self.sessions@.len() ==> (#[trigger] self.sessions@[i]).0@ == decimal(i as nat)
                && unique_names(self.sessions@[i].1@)
    }

    /// The jar of session `i`, as a map from names to values.
    pub open spec fn cookie(&self, i: int, n: Seq<char>) -> Option<Seq<char>> {
        pair_get(self.sessions@[i].1@, n)
    }

    /// A store with no sessions.
    pub fn new() -> (r: SessionStore)
        ensures
            r.wf(),
            r.sessions@.len() == 0,
    {
        SessionStore { sessions: Vec::new() }
    }

    /// Opens a session with an empty jar and returns its fresh handle.
    pub fn create_session(&mut self) -> (h: String)
        requires
            old(self).wf(),
            old(self).sessions@.len() < u64::MAX,
        ensures
            final(self).wf(),
            final(self).sessions@.len() == old(self).sessions@.len() + 1,
            final(self).sessions@.drop_last() == old(self).sessions@,
            final(self).sessions@.last().1@.len() == 0,
            h@ == final(self).sessions@.last().0@,
            forall|i: int| 0 <= i < old(self).sessions@.len() ==> old(self).sessions@[i].0@ != h@,
            find_key(final(self).sessions@, h@) == Some(old(self).sessions@.len() as int),
    {
        let n = self.sessions.len();
        let h = decimal_text(n as u64);
        let ghost s0 = self.sessions@;
        proof {
            assert forall|i: int| 0 <= i < s0.len() implies s0[i].0@ != h@ by {
                assert(s0[i].0@ == decimal(i as nat));
                if s0[i].0@ == h@ {
                    lemma_decimal_injective(i as nat, n as nat);
                }
            }
        }
        let jar: CookieJar = Vec::new();
        self.sessions.push((h.clone(), jar));
        proof {
            assert(self.sessions@.drop_last() =~= s0);
            assert(is_first_key(self.sessions@, h@, n as int));
        }
        h
    }

    /// The position of the session with handle `h`, if any.
    pub fn lookup(&self, h: &String) -> (r: Option<usize>)
        ensures
            r is None ==> find_key(self.sessions@, h@) is None,
            r matches Some(i) ==> find_key(self.sessions@, h@) == Some(i as int),
    {
        index_of(&self.sessions, h)
    }

    /// Stores `cookies`, in order, into the jar of session `i`; no other
    /// session changes.
    pub fn store_cookies(&mut self, i: usize, cookies: &Vec<(String, String)>)
        requires
            old(self).wf(),
            i < old(self).sessions@.len(),
        ensures
            final(self).wf(),
            final(self).sessions@.len() == old(self).sessions@.len(),
            forall|j: int| 0 <= j < old(self).sessions@.len() && j != i ==> final(self).sessions@[j] == old(self).sessions@[j],
            final(self).sessions@[i as int].0 == old(self).sessions@[i as int].0,
            forall|n: Seq<char>| #[trigger] final(self).cookie(i as int, n) == jar_after(old(self).sessions@[i as int].1@, cookies@, n),
    {
        let ghost s0 = self.sessions@;
        let (h, mut jar) = self.sessions.remove(i);
        let ghost jar0 = jar@;
        let mut k: usize = 0;
        while k < cookies.len()
            invariant
                k <= cookies@.len(),
                unique_names(jar@),
                forall|n: Seq<char>| #[trigger] pair_get(jar@, n) == jar_after(jar0, cookies@.subrange(0, k as int), n),
            decreases cookies.len() - k,
        {
            let ghost before = jar@;
            store_cookie(&mut jar, cookies[k].0.clone(), cookies[k].1.clone());
            proof {
                let p = cookies@.subrange(0, k as int + 1);
                assert(p.drop_last() =~= cookies@.subrange(0, k as int));
                assert forall|n: Seq<char>| #[trigger] pair_get(jar@, n) == jar_after(jar0, p, n) by {
                    if n != cookies@[k as int].0@ {
                        assert(pair_get(jar@, n) == pair_get(before, n));
                    }
                }
            }
            k = k + 1;
        }
        assert(cookies@.subrange(0, cookies@.len() as int) =~= cookies@);
        self.sessions.insert(i, (h, jar));
        assert(self.sessions@ =~= s0.update(i as int, self.sessions@[i as int]));
    }
}

} // verus!
