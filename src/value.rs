use vstd::prelude::*;

verus! {

/// A dynamically typed value as a guest script hands it to the host, and as
/// the host hands results back.
pub enum GuestValue {
    Nil,
    Bool(bool),
    Number(i64),
    Str(String),
    List(Vec<GuestValue>),
    Table(Vec<(String, GuestValue)>),
}

/// `i` is the first position of `s` whose key is `key`.
pub open spec fn is_first_key<V>(s: Seq<(String, V)>, key: Seq<char>, i: int) -> bool {
    &&& 0 <= i < s.len()
    &&& s[i].0@ == key
    &&& forall|j: int| 0 <= j < i ==> s[j].0@ != key
}

/// The first position of `s` whose key is `key`, if any.
pub open spec fn find_key<V>(s: Seq<(String, V)>, key: Seq<char>) -> Option<int> {
    if exists|i: int| is_first_key(s, key, i) {
        Some(choose|i: int| is_first_key(s, key, i))
    } else {
        None
    }
}

/// The value stored under `key` in `s`; a `Nil` value counts as absent.
pub open spec fn field(s: Seq<(String, GuestValue)>, key: Seq<char>) -> Option<GuestValue> {
    match find_key(s, key) {
        Some(i) => if s[i].1 is Nil {
            None
        } else {
            Some(s[i].1)
        },
        None => None,
    }
}

/// The first position of `key` in `s`, found by a scan.
pub fn index_of<V>(s: &Vec<(String, V)>, key: &String) -> (r: Option<usize>)
    ensures
        r is None ==> find_key(s@, key@) is None,
        r matches Some(i) ==> find_key(s@, key@) == Some(i as int),
{
    let mut i: usize = 0;
    while i < s.len()
        invariant
            i <= s.len(),
            forall|j: int| 0 <= j < i ==> s@[j].0@ != key@,
        decreases s.len() - i,
    {
        if s[i].0 == *key {
            assert(is_first_key(s@, key@, i as int));
            let ghost c = choose|c: int| is_first_key(s@, key@, c);
            assert(c == i as int) by {
                if c < i {
                } else if c > i {
                    assert(s@[i as int].0@ != key@);
                }
            }
            return Some(i);
        }
        i = i + 1;
    }
    assert(!exists|c: int| is_first_key(s@, key@, c));
    None
}

/// A key that occurs exactly once, at `i`, is found there; a key that does
/// not occur is not found.
pub proof fn lemma_find_unique<V>(s: Seq<(String, V)>, key: Seq<char>, i: int)
    ensures
        0 <= i < s.len() && s[i].0@ == key && (forall|j: int|
            0 <= j < s.len() && j != i ==> s[j].0@ != key) ==> find_key(s, key) == Some(i),
        (forall|j: int| 0 <= j < s.len() ==> s[j].0@ != key) ==> find_key(s, key) is None,
{
    if 0 <= i < s.len() && s[i].0@ == key && (forall|j: int|
        0 <= j < s.len() && j != i ==> s[j].0@ != key) {
        assert(is_first_key(s, key, i));
    }
}

} // verus!
