//! Lists of names kept without repetition.
use vstd::prelude::*;
use crate::registry::{texts, Registry};
use crate::text::{ascii_lower, to_ascii_lower};

verus! {

/// Whether `v` holds the text `s`.
pub fn holds_name(v: &Vec<String>, s: &str) -> (r: bool)
    ensures
        r == texts(v@).contains(s@),
{
    let owned = s.to_owned();
    let mut i: usize = 0;
    while i < v.len()
        invariant
            i <= v@.len(),
            owned@ == s@,
            forall|k: int| 0 <= k < i ==> #[trigger] v@[k]@ != s@,
        decreases v@.len() - i,
    {
        if v[i] == owned {
            assert(texts(v@)[i as int] == s@);
            return true;
        }
        i = i + 1;
    }
    assert(!texts(v@).contains(s@)) by {
        if texts(v@).contains(s@) {
            let k = choose|k: int| 0 <= k < texts(v@).len() && texts(v@)[k] == s@;
            assert(v@[k]@ == s@);
        }
    }
    false
}

/// Adds `s` to `v` unless it is there already.
pub fn insert_name(v: &mut Vec<String>, s: String)
    requires
        texts(old(v)@).no_duplicates(),
    ensures
        texts(final(v)@).no_duplicates(),
        texts(old(v)@).contains(s@) ==> texts(final(v)@) == texts(old(v)@),
        !texts(old(v)@).contains(s@) ==> texts(final(v)@) == texts(old(v)@).push(s@),
{
    if !holds_name(v, s.as_str()) {
        let ghost prev = texts(v@);
        let ghost t = s@;
        v.push(s);
        assert(texts(v@) =~= prev.push(t));
    }
}

/// Adds the ASCII-lowercased form of each of `names`, or each as it is, to `v`.
pub fn insert_names(v: &mut Vec<String>, names: &Vec<String>, lower: bool)
    requires
        texts(old(v)@).no_duplicates(),
    ensures
        texts(final(v)@).no_duplicates(),
        forall|s: Seq<char>|
            #![trigger texts(final(v)@).contains(s)]
            texts(final(v)@).contains(s) <==> (texts(old(v)@).contains(s) || exists|i: int|
                0 <= i < names@.len() && s == (if lower {
                    ascii_lower(#[trigger] names@[i]@)
                } else {
                    names@[i]@
                })),
{
    let mut i: usize = 0;
    while i < names.len()
        invariant
            i <= names@.len(),
            texts(v@).no_duplicates(),
            forall|s: Seq<char>|
                #![trigger texts(v@).contains(s)]
                texts(v@).contains(s) <==> (texts(old(v)@).contains(s) || exists|k: int|
                    0 <= k < i && s == (if lower {
                        ascii_lower(#[trigger] names@[k]@)
                    } else {
                        names@[k]@
                    })),
        decreases names@.len() - i,
    {
        let n = if lower {
            to_ascii_lower(names[i].as_str())
        } else {
            names[i].clone()
        };
        let ghost prev = texts(v@);
        let ghost t = n@;
        insert_name(v, n);
        proof {
            if !prev.contains(t) {
                assert(texts(v@)[prev.len() as int] == t);
                assert forall|x: Seq<char>| prev.contains(x) implies texts(v@).contains(x) by {
                    let j = choose|j: int| 0 <= j < prev.len() && prev[j] == x;
                    assert(texts(v@)[j] == x);
                }
            }
            assert(texts(v@).contains(t));
        }
        assert forall|s: Seq<char>|
            #![trigger texts(v@).contains(s)]
            texts(v@).contains(s) <==> (texts(old(v)@).contains(s) || exists|k: int|
                0 <= k < i + 1 && s == (if lower {
                    ascii_lower(#[trigger] names@[k]@)
                } else {
                    names@[k]@
                })) by {
            if texts(v@).contains(s) && s != t {
                assert(prev.contains(s));
            }
            if s == t {
                assert(texts(v@).contains(s));
            }
            if exists|k: int|
                0 <= k < i + 1 && s == (if lower {
                    ascii_lower(#[trigger] names@[k]@)
                } else {
                    names@[k]@
                }) {
                let k = choose|k: int|
                    0 <= k < i + 1 && s == (if lower {
                        ascii_lower(#[trigger] names@[k]@)
                    } else {
                        names@[k]@
                    });
                if k < i {
                    assert(prev.contains(s));
                } else {
                    assert(s == t);
                }
                assert(texts(v@).contains(s));
            }
            if texts(old(v)@).contains(s) {
                assert(prev.contains(s));
            }
        }
        i = i + 1;
    }
}

/// The names of `v` that `reg` registers, in the order of `v`.
pub fn retain_registered(v: &Vec<String>, reg: &Registry) -> (r: Vec<String>)
    requires
        texts(v@).no_duplicates(),
    ensures
        texts(r@).no_duplicates(),
        forall|s: Seq<char>|
            #![trigger texts(r@).contains(s)]
            texts(r@).contains(s) <==> texts(v@).contains(s) && reg.has(s),
{
    let mut out: Vec<String> = Vec::new();
    let mut i: usize = 0;
    while i < v.len()
        invariant
            i <= v@.len(),
            texts(v@).no_duplicates(),
            texts(out@).no_duplicates(),
            forall|s: Seq<char>|
                #![trigger texts(out@).contains(s)]
                texts(out@).contains(s) <==> texts(v@).take(i as int).contains(s) && reg.has(s),
        decreases v@.len() - i,
    {
        let ghost prev = texts(out@);
        let ghost t = v@[i as int]@;
        let ghost pre = texts(v@).take(i as int);
        let ghost pre1 = texts(v@).take(i as int + 1);
        assert(pre1 =~= pre.push(t));
        assert(pre1[i as int] == t);
        assert(forall|x: Seq<char>| prev.contains(x) <==> pre.contains(x) && reg.has(x));
        if reg.contains(v[i].as_str()) {
            out.push(v[i].clone());
            proof {
                assert(texts(out@) =~= prev.push(t));
                assert(!prev.contains(t)) by {
                    if prev.contains(t) {
                        let j = choose|j: int| 0 <= j < i && texts(v@)[j] == t;
                        assert(texts(v@)[i as int] == t);
                    }
                }
                assert forall|s: Seq<char>|
                    #![trigger texts(out@).contains(s)]
                    texts(out@).contains(s) <==> pre1.contains(s) && reg.has(s) by {
                    if texts(out@).contains(s) && s != t {
                        let j = choose|j: int| 0 <= j < texts(out@).len() && texts(out@)[j] == s;
                        assert(prev[j] == s);
                    }
                    if s == t {
                        assert(texts(out@)[prev.len() as int] == t);
                    }
                    if prev.contains(s) {
                        let j = choose|j: int| 0 <= j < prev.len() && prev[j] == s;
                        assert(texts(out@)[j] == s);
                    }
                    if pre.contains(s) {
                        let j = choose|j: int| 0 <= j < pre.len() && #[trigger] pre[j] == s;
                        assert(pre1[j] == s);
                    }
                    if pre1.contains(s) && s != t {
                        let j = choose|j: int| 0 <= j < pre1.len() && #[trigger] pre1[j] == s;
                        assert(pre[j] == s);
                    }
                }
            }
        } else {
            proof {
                assert forall|s: Seq<char>|
                    #![trigger texts(out@).contains(s)]
                    texts(out@).contains(s) <==> pre1.contains(s) && reg.has(s) by {
                    if pre.contains(s) {
                        let j = choose|j: int| 0 <= j < pre.len() && #[trigger] pre[j] == s;
                        assert(pre1[j] == s);
                    }
                    if pre1.contains(s) && s != t {
                        let j = choose|j: int| 0 <= j < pre1.len() && #[trigger] pre1[j] == s;
                        assert(pre[j] == s);
                    }
                }
            }
        }
        i = i + 1;
    }
    assert(texts(v@).take(v@.len() as int) =~= texts(v@));
    out
}

} // verus!
