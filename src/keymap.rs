use vstd::prelude::*;

verus! {

/// The bytes of a key, in UTF-8: the order of keys is the order of these.
pub open spec fn key_bytes(k: Seq<char>) -> Seq<u8> {
    vstd::utf8::encode_utf8(k)
}

/// Lexicographic order on byte strings: a proper prefix comes first.
pub open spec fn bytes_lt(a: Seq<u8>, b: Seq<u8>) -> bool
    decreases a.len(),
{
    if a.len() == 0 {
        b.len() > 0
    } else if b.len() == 0 {
        false
    } else if a[0] != b[0] {
        a[0] < b[0]
    } else {
        bytes_lt(a.drop_first(), b.drop_first())
    }
}

/// The entries of a map stand in strictly increasing order of their keys.
pub open spec fn keys_sorted<T>(m: Seq<(String, T)>) -> bool {
    forall|i: int, j: int|
        0 <= i < j < m.len() ==> bytes_lt(
            #[trigger] key_bytes(m[i].0@),
            #[trigger] key_bytes(m[j].0@),
        )
}

/// The value stored under `k`: that of the first entry with this key.
pub open spec fn find_key<T>(m: Seq<(String, T)>, k: Seq<char>) -> Option<T>
    decreases m.len(),
{
    if m.len() == 0 {
        None
    } else if m[0].0@ == k {
        Some(m[0].1)
    } else {
        find_key(m.drop_first(), k)
    }
}

pub proof fn lemma_bytes_lt_irreflexive(a: Seq<u8>)
    ensures
        !bytes_lt(a, a),
    decreases a.len(),
{
    if a.len() > 0 {
        lemma_bytes_lt_irreflexive(a.drop_first());
    }
}

pub proof fn lemma_bytes_lt_transitive(a: Seq<u8>, b: Seq<u8>, c: Seq<u8>)
    requires
        bytes_lt(a, b),
        bytes_lt(b, c),
    ensures
        bytes_lt(a, c),
    decreases a.len(),
{
    if a.len() > 0 && b.len() > 0 && c.len() > 0 && a[0] == b[0] && b[0] == c[0] {
        lemma_bytes_lt_transitive(a.drop_first(), b.drop_first(), c.drop_first());
    }
}

pub proof fn lemma_bytes_lt_total(a: Seq<u8>, b: Seq<u8>)
    requires
        a != b,
    ensures
        bytes_lt(a, b) || bytes_lt(b, a),
    decreases a.len(),
{
    if a.len() == 0 && b.len() == 0 {
        assert(a =~= b);
    }
    if a.len() > 0 && b.len() > 0 && a[0] == b[0] {
        if a.drop_first() == b.drop_first() {
            assert(a =~= seq![a[0]] + a.drop_first());
            assert(b =~= seq![b[0]] + b.drop_first());
        }
        lemma_bytes_lt_total(a.drop_first(), b.drop_first());
    }
}

/// In a map whose keys are sorted, a key names at most one entry, and
/// `find_key` gives that entry's value.
pub proof fn lemma_find_key_sorted<T>(m: Seq<(String, T)>, j: int)
    requires
        keys_sorted(m),
        0 <= j < m.len(),
    ensures
        find_key(m, m[j].0@) == Some(m[j].1),
    decreases j,
{
    if j > 0 {
        assert(bytes_lt(key_bytes(m[0].0@), key_bytes(m[j].0@)));
        if m[0].0@ == m[j].0@ {
            lemma_bytes_lt_irreflexive(key_bytes(m[0].0@));
        }
        let rest = m.drop_first();
        assert(rest[j - 1] == m[j]);
        assert forall|a: int, b: int| 0 <= a < b < rest.len() implies bytes_lt(
            #[trigger] key_bytes(rest[a].0@),
            #[trigger] key_bytes(rest[b].0@),
        ) by {
            assert(rest[a] == m[a + 1] && rest[b] == m[b + 1]);
        }
        lemma_find_key_sorted(rest, j - 1);
    }
}

/// A key that no entry carries has no value.
pub proof fn lemma_find_key_absent<T>(m: Seq<(String, T)>, k: Seq<char>)
    requires
        forall|i: int| 0 <= i < m.len() ==> (#[trigger] m[i]).0@ != k,
    ensures
        find_key(m, k) is None,
    decreases m.len(),
{
    if m.len() > 0 {
        let rest = m.drop_first();
        assert forall|i: int| 0 <= i < rest.len() implies (#[trigger] rest[i]).0@ != k by {
            assert(rest[i] == m[i + 1]);
        }
        lemma_find_key_absent(rest, k);
    }
}

/// Compares two keys by their UTF-8 bytes: -1, 0 or 1.
pub fn compare_keys(a: &String, b: &String) -> (r: i8)
    ensures
        r == 0 <==> a@ == b@,
        r < 0 <==> bytes_lt(key_bytes(a@), key_bytes(b@)),
        r > 0 <==> bytes_lt(key_bytes(b@), key_bytes(a@)),
{
    let x = a.as_str().as_bytes();
    let y = b.as_str().as_bytes();
    let ghost xs = x@;
    let ghost ys = y@;
    let mut i: usize = 0;
    proof {
        assert(xs.skip(0) =~= xs);
        assert(ys.skip(0) =~= ys);
    }
    while i < x.len() && i < y.len() && x[i] == y[i]
        invariant
            i <= xs.len(),
            i <= ys.len(),
            x@ == xs,
            y@ == ys,
            xs == key_bytes(a@),
            ys == key_bytes(b@),
            xs.subrange(0, i as int) == ys.subrange(0, i as int),
            bytes_lt(xs, ys) == bytes_lt(xs.skip(i as int), ys.skip(i as int)),
            bytes_lt(ys, xs) == bytes_lt(ys.skip(i as int), xs.skip(i as int)),
        decreases x.len() - i,
    {
        proof {
            assert(xs.skip(i as int).drop_first() =~= xs.skip(i + 1));
            assert(ys.skip(i as int).drop_first() =~= ys.skip(i + 1));
            assert(xs.subrange(0, i + 1) =~= xs.subrange(0, i as int).push(xs[i as int]));
            assert(ys.subrange(0, i + 1) =~= ys.subrange(0, i as int).push(ys[i as int]));
        }
        i = i + 1;
    }
    proof {
        if xs == ys {
            lemma_bytes_lt_irreflexive(xs);
        } else {
            lemma_bytes_lt_total(xs, ys);
        }
        if i == xs.len() && i == ys.len() {
            assert(xs =~= xs.subrange(0, i as int));
            assert(ys =~= ys.subrange(0, i as int));
        }
        if a@ == b@ {
            lemma_bytes_lt_irreflexive(xs);
        }
        if xs != ys && bytes_lt(xs, ys) && bytes_lt(ys, xs) {
            lemma_bytes_lt_transitive(xs, ys, xs);
            lemma_bytes_lt_irreflexive(xs);
        }
    }
    if i == x.len() && i == y.len() {
        proof {
            if a@ != b@ {
                vstd::utf8::encode_utf8_decode_utf8(a@);
                vstd::utf8::encode_utf8_decode_utf8(b@);
            }
        }
        0
    } else if i == x.len() {
        proof {
            assert(a@ != b@);
        }
        -1
    } else if i == y.len() {
        1
    } else if x[i] < y[i] {
        -1
    } else {
        1
    }
}

/// The value under `key`, if an entry carries it.
pub fn get_entry<'a, T>(m: &'a Vec<(String, T)>, key: &String) -> (r: Option<&'a T>)
    ensures
        r matches Some(v) ==> find_key(m@, key@) == Some(*v),
        r is None ==> find_key(m@, key@) is None,
{
    let mut i: usize = 0;
    proof {
        assert(m@.skip(0) =~= m@);
    }
    while i < m.len()
        invariant
            i <= m@.len(),
            find_key(m@, key@) == find_key(m@.skip(i as int), key@),
        decreases m.len() - i,
    {
        proof {
            assert(m@.skip(i as int).drop_first() =~= m@.skip(i + 1));
        }
        if m[i].0 == *key {
            return Some(&m[i].1);
        }
        i = i + 1;
    }
    None
}

/// Sets `key` to `value`: an entry with that key is replaced, else one is
/// inserted where the order of the keys puts it.
pub fn insert_entry<T>(m: &mut Vec<(String, T)>, key: String, value: T)
    requires
        keys_sorted(old(m)@),
    ensures
        keys_sorted(final(m)@),
        find_key(final(m)@, key@) == Some(value),
        forall|k: Seq<char>| k != key@ ==> #[trigger] find_key(final(m)@, k) == find_key(old(m)@, k),
        forall|j: int|
            0 <= j < final(m)@.len() ==> (#[trigger] final(m)@[j]).0@ == key@ && final(m)@[j].1 == value
                || old(m)@.contains(final(m)@[j]),
        find_key(old(m)@, key@) is Some ==> final(m)@.len() == old(m)@.len(),
        find_key(old(m)@, key@) is None ==> final(m)@.len() == old(m)@.len() + 1,
{
    let ghost kb = key_bytes(key@);
    let mut i: usize = 0;
    let mut c: i8 = 1;
    while i < m.len()
        invariant
            i <= m@.len(),
            keys_sorted(m@),
            m@ == old(m)@,
            kb == key_bytes(key@),
            forall|j: int| 0 <= j < i ==> bytes_lt(#[trigger] key_bytes(m@[j].0@), kb),
        ensures
            i <= m@.len(),
            keys_sorted(m@),
            m@ == old(m)@,
            forall|j: int| 0 <= j < i ==> bytes_lt(#[trigger] key_bytes(m@[j].0@), kb),
            i < m@.len() ==> c >= 0,
            i < m@.len() ==> (c == 0 <==> m@[i as int].0@ == key@),
            i < m@.len() ==> (c > 0 <==> bytes_lt(kb, key_bytes(m@[i as int].0@))),
        decreases m.len() - i,
    {
        c = compare_keys(&m[i].0, &key);
        if c >= 0 {
            break;
        }
        i = i + 1;
    }
    let ghost before = m@;
    let ghost kv = key@;
    if i < m.len() && c == 0 {
        m.set(i, (key, value));
        proof {
            let after = m@;
            assert(after =~= before.update(i as int, (key, value)));
            lemma_find_key_sorted(before, i as int);
            assert forall|a: int, b: int| 0 <= a < b < after.len() implies bytes_lt(
                #[trigger] key_bytes(after[a].0@),
                #[trigger] key_bytes(after[b].0@),
            ) by {
                assert(key_bytes(before[a].0@) == key_bytes(after[a].0@));
                assert(key_bytes(before[b].0@) == key_bytes(after[b].0@));
            }
            lemma_find_key_sorted(after, i as int);
            assert forall|j: int| 0 <= j < after.len() implies (#[trigger] after[j]).0@ == kv
                && after[j].1 == value || before.contains(after[j]) by {
                if j != i {
                    assert(after[j] == before[j]);
                }
            }
            assert forall|k: Seq<char>| k != kv implies #[trigger] find_key(after, k) == find_key(before, k) by {
                if exists|j: int| 0 <= j < after.len() && after[j].0@ == k {
                    let j = choose|j: int| 0 <= j < after.len() && after[j].0@ == k;
                    lemma_find_key_sorted(after, j);
                    lemma_find_key_sorted(before, j);
                } else {
                    lemma_find_key_absent(after, k);
                    assert forall|j: int| 0 <= j < before.len() implies (#[trigger] before[j]).0@ != k by {
                        if j != i {
                            assert(before[j] == after[j]);
                        }
                    }
                    lemma_find_key_absent(before, k);
                }
            }
        }
    } else {
        m.insert(i, (key, value));
        proof {
            let after = m@;
            assert(after =~= before.insert(i as int, (key, value)));
            assert forall|j: int| 0 <= j < before.len() implies (#[trigger] before[j]).0@ != kv by {
                if j < i {
                    assert(bytes_lt(key_bytes(before[j].0@), kb));
                    if before[j].0@ == kv {
                        lemma_bytes_lt_irreflexive(kb);
                    }
                } else {
                    assert(bytes_lt(kb, key_bytes(before[i as int].0@)));
                    if j > i {
                        assert(bytes_lt(key_bytes(before[i as int].0@), key_bytes(before[j].0@)));
                        lemma_bytes_lt_transitive(kb, key_bytes(before[i as int].0@), key_bytes(before[j].0@));
                    }
                    if before[j].0@ == kv {
                        lemma_bytes_lt_irreflexive(kb);
                    }
                }
            }
            lemma_find_key_absent(before, kv);
            assert forall|a: int, b: int| 0 <= a < b < after.len() implies bytes_lt(
                #[trigger] key_bytes(after[a].0@),
                #[trigger] key_bytes(after[b].0@),
            ) by {
                if b < i {
                } else if b == i {
                } else if a < i {
                    assert(after[b] == before[b - 1]);
                } else if a == i {
                    assert(after[b] == before[b - 1]);
                    if b - 1 > i {
                        assert(bytes_lt(key_bytes(before[i as int].0@), key_bytes(before[b - 1].0@)));
                        lemma_bytes_lt_transitive(kb, key_bytes(before[i as int].0@), key_bytes(before[b - 1].0@));
                    }
                } else {
                    assert(after[a] == before[a - 1]);
                    assert(after[b] == before[b - 1]);
                }
            }
            lemma_find_key_sorted(after, i as int);
            assert forall|j: int| 0 <= j < after.len() implies (#[trigger] after[j]).0@ == kv
                && after[j].1 == value || before.contains(after[j]) by {
                if j < i {
                    assert(after[j] == before[j]);
                } else if j > i {
                    assert(after[j] == before[j - 1]);
                }
            }
            assert forall|k: Seq<char>| k != kv implies #[trigger] find_key(after, k) == find_key(before, k) by {
                if exists|j: int| 0 <= j < before.len() && before[j].0@ == k {
                    let j = choose|j: int| 0 <= j < before.len() && before[j].0@ == k;
                    lemma_find_key_sorted(before, j);
                    if j < i {
                        assert(after[j] == before[j]);
                        lemma_find_key_sorted(after, j);
                    } else {
                        assert(after[j + 1] == before[j]);
                        lemma_find_key_sorted(after, j + 1);
                    }
                } else {
                    lemma_find_key_absent(before, k);
                    assert forall|j: int| 0 <= j < after.len() implies (#[trigger] after[j]).0@ != k by {
                        if j < i {
                            assert(after[j] == before[j]);
                        } else if j > i {
                            assert(after[j] == before[j - 1]);
                        }
                    }
                    lemma_find_key_absent(after, k);
                }
            }
        }
    }
}

} // verus!
