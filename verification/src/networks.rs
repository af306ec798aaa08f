//! The networks in reach, as the page lists them.

use vstd::prelude::*;

use crate::text::{chars_of, same_text};

verus! {

/// `a` comes before `b`: by the first character in which they differ, and a
/// beginning before what it is the beginning of. This is also the order of
/// their bytes in UTF-8.
pub open spec fn precedes(a: Seq<char>, b: Seq<char>) -> bool
    decreases a.len(),
{
    if b.len() == 0 {
        false
    } else if a.len() == 0 {
        true
    } else if a[0] != b[0] {
        (a[0] as int) < b[0] as int
    } else {
        precedes(a.skip(1), b.skip(1))
    }
}

proof fn precedes_is_an_order(a: Seq<char>, b: Seq<char>, c: Seq<char>)
    ensures
        !precedes(a, a),
        a != b && !precedes(a, b) ==> precedes(b, a),
        precedes(a, b) && precedes(b, c) ==> precedes(a, c),
    decreases a.len() + b.len() + c.len(),
{
    if a.len() > 0 {
        if b.len() > 0 {
            precedes_is_an_order(
                a.skip(1),
                b.skip(1),
                if c.len() > 0 {
                    c.skip(1)
                } else {
                    c
                },
            );
            if a[0] == b[0] && a.skip(1) == b.skip(1) {
                assert(a =~= seq![a[0]] + a.skip(1));
                assert(b =~= seq![b[0]] + b.skip(1));
            }
        } else {
            precedes_is_an_order(a.skip(1), b, c);
        }
    } else if b.len() == 0 {
        assert(a =~= b);
    }
}

/// A text up to the place where it still agrees with another says nothing of
/// their order.
proof fn agreeing_starts_decide_nothing(a: Seq<char>, b: Seq<char>, n: int)
    requires
        0 <= n <= a.len(),
        n <= b.len(),
        forall|i: int| 0 <= i < n ==> a[i] == b[i],
    ensures
        precedes(a, b) == precedes(a.skip(n), b.skip(n)),
    decreases n,
{
    if n == 0 {
        assert(a.skip(0) =~= a);
        assert(b.skip(0) =~= b);
    } else {
        agreeing_starts_decide_nothing(a.skip(1), b.skip(1), n - 1);
        assert(a.skip(1).skip(n - 1) =~= a.skip(n));
        assert(b.skip(1).skip(n - 1) =~= b.skip(n));
    }
}

fn comes_before(a: &str, b: &str) -> (before: bool)
    ensures
        before == precedes(a@, b@),
{
    let x = chars_of(a);
    let y = chars_of(b);
    let mut i: usize = 0;
    while i < x.len() && i < y.len()
        invariant
            x@ == a@,
            y@ == b@,
            i <= x.len(),
            i <= y.len(),
            forall|j: int| 0 <= j < i ==> x@[j] == y@[j],
        decreases x.len() - i,
    {
        if x[i] != y[i] {
            proof {
                agreeing_starts_decide_nothing(x@, y@, i as int);
            }
            return x[i] < y[i];
        }
        i = i + 1;
    }
    proof {
        agreeing_starts_decide_nothing(x@, y@, i as int);
    }
    i < y.len()
}

/// The names, by what they hold.
pub open spec fn names(ssids: Seq<String>) -> Seq<Seq<char>> {
    ssids.map_values(|s: String| s@)
}

/// Each name comes before all that follow it, so that none occurs twice.
pub open spec fn ascending(list: Seq<Seq<char>>) -> bool {
    forall|i: int, j: int|
        0 <= i < j < list.len() ==> precedes(#[trigger] list[i], #[trigger] list[j])
}

/// Put a name where it belongs, unless it is there already.
fn add_name(list: &mut Vec<String>, name: &String)
    requires
        ascending(names(old(list)@)),
    ensures
        ascending(names(final(list)@)),
        forall|s: Seq<char>|
            #[trigger] names(final(list)@).contains(s) <==> names(old(list)@).contains(s) || s
                == name@,
{
    let ghost before = names(list@);
    let mut at: usize = 0;
    while at < list.len() && comes_before(list[at].as_str(), name.as_str())
        invariant
            at <= list.len(),
            names(list@) == before,
            forall|j: int| 0 <= j < at ==> precedes(#[trigger] before[j], name@),
        decreases list.len() - at,
    {
        assert(before[at as int] == list@[at as int]@);
        at = at + 1;
    }
    if at < list.len() && same_text(list[at].as_str(), name.as_str()) {
        assert(before[at as int] == name@);
        assert(before.contains(name@));
        return;
    }
    let ghost after = before.insert(at as int, name@);
    proof {
        assert forall|j: int| at <= j < before.len() implies precedes(
            name@,
            #[trigger] before[j],
        ) by {
            assert(before[at as int] == list@[at as int]@);
            precedes_is_an_order(before[at as int], name@, name@);
            precedes_is_an_order(name@, before[at as int], before[j]);
        }
        assert forall|i: int, j: int| 0 <= i < j < after.len() implies precedes(
            #[trigger] after[i],
            #[trigger] after[j],
        ) by {
            let bi = if i < at {
                i
            } else {
                i - 1
            };
            let bj = if j < at {
                j
            } else {
                j - 1
            };
            if i != at {
                assert(after[i] == before[bi]);
            }
            if j != at {
                assert(after[j] == before[bj]);
            }
        }
        assert forall|s: Seq<char>| #[trigger] after.contains(s) <==> before.contains(s) || s
            == name@ by {
            if before.contains(s) {
                let k = choose|k: int| 0 <= k < before.len() && before[k] == s;
                if k < at {
                    assert(after[k] == s);
                } else {
                    assert(after[k + 1] == s);
                }
            }
            if s == name@ {
                assert(after[at as int] == s);
            }
            if after.contains(s) {
                let k = choose|k: int| 0 <= k < after.len() && after[k] == s;
                if k < at {
                    assert(before[k] == s);
                } else if k > at {
                    assert(before[k - 1] == s);
                }
            }
        }
    }
    list.insert(at, name.clone());
    assert(names(list@) =~= after);
}

/// The names of the networks that a scan found, in order: each one once, and
/// none that is hidden behind an empty name.
pub fn scan_ssids(found: &[String]) -> (ssids: Vec<String>)
    ensures
        ascending(names(ssids@)),
        forall|s: Seq<char>|
            #[trigger] names(ssids@).contains(s) <==> s.len() > 0 && names(found@).contains(s),
{
    let mut ssids: Vec<String> = Vec::new();
    let mut i: usize = 0;
    while i < found.len()
        invariant
            i <= found.len(),
            ascending(names(ssids@)),
            forall|s: Seq<char>|
                #[trigger] names(ssids@).contains(s) <==> s.len() > 0 && names(
                    found@.take(i as int),
                ).contains(s),
        decreases found.len() - i,
    {
        let ghost so_far = names(found@.take(i as int));
        let ghost with_next = names(found@.take(i + 1));
        proof {
            assert(with_next =~= so_far.push(found@[i as int]@));
            assert forall|s: Seq<char>| #[trigger] with_next.contains(s) <==> so_far.contains(s)
                || s == found@[i as int]@ by {
                if so_far.contains(s) {
                    let k = choose|k: int| 0 <= k < so_far.len() && so_far[k] == s;
                    assert(with_next[k] == s);
                }
                assert(with_next[i as int] == found@[i as int]@);
            }
        }
        if !found[i].as_str().is_empty() {
            add_name(&mut ssids, &found[i]);
        }
        i = i + 1;
    }
    assert(found@.take(i as int) =~= found@);
    ssids
}

proof fn first_of_ascending(a: Seq<Seq<char>>, b: Seq<Seq<char>>)
    requires
        ascending(a),
        ascending(b),
        forall|s: Seq<char>| a.contains(s) <==> b.contains(s),
        a.len() > 0,
        b.len() > 0,
    ensures
        a[0] == b[0],
{
    assert(a.contains(a[0]));
    assert(b.contains(b[0]));
    let i = choose|i: int| 0 <= i < b.len() && b[i] == a[0];
    let j = choose|j: int| 0 <= j < a.len() && a[j] == b[0];
    if i > 0 && j > 0 {
        assert(precedes(b[0], b[i]));
        assert(precedes(a[0], a[j]));
        precedes_is_an_order(a[0], b[0], a[0]);
    }
}

/// The list depends only on which networks are in reach, not on the order in
/// which a scan happens to find them or how often it finds each.
pub proof fn the_list_does_not_depend_on_the_scan(a: Seq<Seq<char>>, b: Seq<Seq<char>>)
    requires
        ascending(a),
        ascending(b),
        forall|s: Seq<char>| a.contains(s) <==> b.contains(s),
    ensures
        a == b,
    decreases a.len(),
{
    if a.len() == 0 {
        if b.len() > 0 {
            assert(b.contains(b[0]));
        }
        assert(a =~= b);
    } else if b.len() == 0 {
        assert(a.contains(a[0]));
    } else {
        first_of_ascending(a, b);
        let ra = a.skip(1);
        let rb = b.skip(1);
        assert(ascending(ra)) by {
            assert forall|i: int, j: int| 0 <= i < j < ra.len() implies precedes(
                #[trigger] ra[i],
                #[trigger] ra[j],
            ) by {
                assert(precedes(a[i + 1], a[j + 1]));
            }
        }
        assert(ascending(rb)) by {
            assert forall|i: int, j: int| 0 <= i < j < rb.len() implies precedes(
                #[trigger] rb[i],
                #[trigger] rb[j],
            ) by {
                assert(precedes(b[i + 1], b[j + 1]));
            }
        }
        assert forall|s: Seq<char>| ra.contains(s) <==> rb.contains(s) by {
            rest_of_ascending(a, s);
            rest_of_ascending(b, s);
            assert(a.contains(s) <==> b.contains(s));
        }
        the_list_does_not_depend_on_the_scan(ra, rb);
        assert(a =~= seq![a[0]] + ra);
        assert(b =~= seq![b[0]] + rb);
    }
}

proof fn rest_of_ascending(a: Seq<Seq<char>>, s: Seq<char>)
    requires
        ascending(a),
        a.len() > 0,
    ensures
        a.skip(1).contains(s) <==> a.contains(s) && s != a[0],
{
    let rest = a.skip(1);
    if rest.contains(s) {
        let k = choose|k: int| 0 <= k < rest.len() && rest[k] == s;
        assert(a[k + 1] == s);
        assert(precedes(a[0], a[k + 1]));
        precedes_is_an_order(a[0], a[0], a[0]);
    }
    if a.contains(s) && s != a[0] {
        let k = choose|k: int| 0 <= k < a.len() && a[k] == s;
        assert(rest[k - 1] == s);
    }
}

/// Names stand in the order of a dictionary: the first character in which two of
/// them differ decides, and a name that another one begins with comes first.
pub proof fn the_first_difference_decides(a: Seq<char>, b: Seq<char>, i: int)
    requires
        0 <= i <= a.len(),
        i < b.len(),
        forall|j: int| 0 <= j < i ==> a[j] == b[j],
        i < a.len() ==> (a[i] as int) < b[i] as int,
    ensures
        precedes(a, b),
        !precedes(b, a),
{
    agreeing_starts_decide_nothing(a, b, i);
    agreeing_starts_decide_nothing(b, a, i);
    if i < a.len() {
        assert(a.skip(i)[0] == a[i]);
        assert(b.skip(i)[0] == b[i]);
    }
}

} // verus!
