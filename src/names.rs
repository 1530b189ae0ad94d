use vstd::prelude::*;
use vstd::string::*;

verus! {

/// `a` sorts strictly before `b`: at the first character where they differ,
/// `a`'s has the lower code point, or `a` is a proper prefix of `b`. This is
/// the order of `String`'s `Ord`.
pub open spec fn name_before(a: Seq<char>, b: Seq<char>) -> bool
    decreases a.len(),
{
    if b.len() == 0 {
        false
    } else if a.len() == 0 {
        true
    } else if a[0] != b[0] {
        (a[0] as u32) < (b[0] as u32)
    } else {
        name_before(a.drop_first(), b.drop_first())
    }
}

/// The names of `entries` strictly ascend: the shape of a map keyed by name.
pub open spec fn names_ascending<T>(entries: Seq<(String, T)>) -> bool {
    forall|i: int, j: int|
        0 <= i < j < entries.len() ==> name_before(#[trigger] entries[i].0@, #[trigger] entries[j].0@)
}

/// The order on names is transitive.
pub proof fn lemma_name_before_transitive(a: Seq<char>, b: Seq<char>, c: Seq<char>)
    requires
        name_before(a, b),
        name_before(b, c),
    ensures
        name_before(a, c),
    decreases a.len(),
{
    if a.len() > 0 && a[0] == b[0] && b[0] == c[0] {
        lemma_name_before_transitive(a.drop_first(), b.drop_first(), c.drop_first());
    }
}

/// Whether `a` sorts strictly before `b`.
pub fn is_name_before(a: &str, b: &str) -> (r: bool)
    ensures
        r == name_before(a@, b@),
{
    let na = a.unicode_len();
    let nb = b.unicode_len();
    let mut i: usize = 0;
    assert(a@.skip(0) =~= a@);
    assert(b@.skip(0) =~= b@);
    loop
        invariant
            i <= na,
            i <= nb,
            na == a@.len(),
            nb == b@.len(),
            name_before(a@, b@) == name_before(a@.skip(i as int), b@.skip(i as int)),
        decreases na - i,
    {
        if i == nb {
            return false;
        }
        if i == na {
            return true;
        }
        let ca = a.get_char(i);
        let cb = b.get_char(i);
        assert(a@.skip(i as int)[0] == ca);
        assert(b@.skip(i as int)[0] == cb);
        if ca != cb {
            return (ca as u32) < (cb as u32);
        }
        assert(a@.skip(i as int).drop_first() =~= a@.skip(i + 1));
        assert(b@.skip(i as int).drop_first() =~= b@.skip(i + 1));
        i = i + 1;
    }
}

/// Whether the names of `entries` strictly ascend.
pub fn names_are_ascending<T>(entries: &Vec<(String, T)>) -> (r: bool)
    ensures
        r == names_ascending(entries@),
{
    let n = entries.len();
    if n == 0 {
        return true;
    }
    let mut i: usize = 1;
    while i < n
        invariant
            1 <= i <= n,
            n == entries@.len(),
            names_ascending(entries@.take(i as int)),
        decreases n - i,
    {
        if !is_name_before(entries[i - 1].0.as_str(), entries[i].0.as_str()) {
            assert(!names_ascending(entries@)) by {
                assert(!name_before(entries@[i - 1].0@, entries@[i as int].0@));
            }
            return false;
        }
        assert forall|k: int, l: int| 0 <= k < l < i + 1 implies name_before(
            #[trigger] entries@.take(i + 1)[k].0@,
            #[trigger] entries@.take(i + 1)[l].0@,
        ) by {
            if l < i {
                assert(entries@.take(i as int)[k] == entries@[k]);
                assert(entries@.take(i as int)[l] == entries@[l]);
            } else if k < i - 1 {
                assert(entries@.take(i as int)[k] == entries@[k]);
                assert(entries@.take(i as int)[i - 1] == entries@[i - 1]);
                lemma_name_before_transitive(entries@[k].0@, entries@[i - 1].0@, entries@[i as int].0@);
            }
        }
        i = i + 1;
    }
    assert(entries@.take(n as int) =~= entries@);
    true
}

} // verus!
