use vstd::prelude::*;
use crate::error::{lemma_strings_view_push, strings_view};
use crate::search::{first_failing, lemma_first_failing_none, lemma_first_failing_some, lemma_first_failing_stable};
use crate::types::{ColumnDescriptor, TargetField};

verus! {

pub open spec fn column_names(cols: Seq<ColumnDescriptor>) -> Seq<Seq<char>> {
    cols.map_values(|c: ColumnDescriptor| c.name@)
}

pub open spec fn field_names(fields: Seq<TargetField>) -> Seq<Seq<char>> {
    fields.map_values(|f: TargetField| f.name@)
}

pub open spec fn differs_from(names: Seq<Seq<char>>, name: Seq<char>) -> spec_fn(int) -> bool {
    |k: int| names[k] != name
}

pub proof fn lemma_differs_from(names: Seq<Seq<char>>, name: Seq<char>)
    ensures
        forall|k: int| #[trigger] differs_from(names, name)(k) == (names[k] != name),
{
}

/// The first of the first `n` names that equals `name`.
pub open spec fn first_index(names: Seq<Seq<char>>, name: Seq<char>, n: nat) -> Option<nat> {
    first_failing(differs_from(names, name), n)
}

pub open spec fn new_at(names: Seq<Seq<char>>) -> spec_fn(int) -> bool {
    |j: int| first_index(names, names[j], j as nat) is None
}

/// The first name that repeats an earlier one, among the first `n`.
pub open spec fn first_duplicate(names: Seq<Seq<char>>, n: nat) -> Option<nat> {
    first_failing(new_at(names), n)
}

/// The first `n` names of `a` that do not occur in `b`, in order.
pub open spec fn names_absent(a: Seq<Seq<char>>, b: Seq<Seq<char>>, n: nat) -> Seq<Seq<char>>
    decreases n,
{
    if n == 0 {
        Seq::empty()
    } else if b.contains(a[n - 1]) {
        names_absent(a, b, (n - 1) as nat)
    } else {
        names_absent(a, b, (n - 1) as nat).push(a[n - 1])
    }
}

pub proof fn lemma_first_index(names: Seq<Seq<char>>, name: Seq<char>, n: nat)
    requires
        n <= names.len(),
    ensures
        first_index(names, name, n) is None <==> forall|k: int| 0 <= k < n ==> names[k] != name,
        first_index(names, name, n) matches Some(p) ==> p < n && names[p as int] == name,
        n == names.len() ==> (first_index(names, name, n) is None <==> !names.contains(name)),
{
    lemma_differs_from(names, name);
    lemma_first_failing_none(differs_from(names, name), n);
    lemma_first_failing_some(differs_from(names, name), n);
    if forall|k: int| 0 <= k < n ==> names[k] != name {
        assert forall|k: int| 0 <= k < n implies #[trigger] differs_from(names, name)(k) by {}
    }
    if first_index(names, name, n) is None {
        assert forall|k: int| 0 <= k < n implies names[k] != name by {
            assert(differs_from(names, name)(k));
        }
    }
    if n == names.len() && first_index(names, name, n) is None {
        assert forall|k: int| 0 <= k < names.len() implies names[k] != name by {
            assert(differs_from(names, name)(k));
        }
    }
}

pub fn column_names_of(cols: &Vec<ColumnDescriptor>) -> (r: Vec<String>)
    ensures
        strings_view(r@) == column_names(cols@),
{
    let mut r: Vec<String> = Vec::new();
    let mut i: usize = 0;
    while i < cols.len()
        invariant
            i <= cols@.len(),
            strings_view(r@) =~= column_names(cols@).take(i as int),
        decreases cols@.len() - i,
    {
        proof {
            lemma_strings_view_push(r@, cols@[i as int].name);
        }
        r.push(cols[i].name.clone());
        i = i + 1;
    }
    assert(column_names(cols@).take(cols@.len() as int) =~= column_names(cols@));
    r
}

pub fn field_names_of(fields: &Vec<TargetField>) -> (r: Vec<String>)
    ensures
        strings_view(r@) == field_names(fields@),
{
    let mut r: Vec<String> = Vec::new();
    let mut i: usize = 0;
    while i < fields.len()
        invariant
            i <= fields@.len(),
            strings_view(r@) =~= field_names(fields@).take(i as int),
        decreases fields@.len() - i,
    {
        proof {
            lemma_strings_view_push(r@, fields@[i as int].name);
        }
        r.push(fields[i].name.clone());
        i = i + 1;
    }
    assert(field_names(fields@).take(fields@.len() as int) =~= field_names(fields@));
    r
}

/// The index of the first of the first `upto` names that equals `name`.
pub fn position_of(names: &Vec<String>, name: &String, upto: usize) -> (r: Option<usize>)
    requires
        upto <= names@.len(),
    ensures
        r matches Some(p) ==> p < upto,
        first_index(strings_view(names@), name@, upto as nat) == match r {
            Some(p) => Some(p as nat),
            None => None::<nat>,
        },
{
    let ghost v = strings_view(names@);
    proof {
        lemma_differs_from(v, name@);
    }
    let mut i: usize = 0;
    while i < upto
        invariant
            i <= upto <= names@.len(),
            v == strings_view(names@),
            first_failing(differs_from(v, name@), i as nat) is None,
        decreases upto - i,
    {
        assert(v[i as int] == names@[i as int]@);
        if names[i] == *name {
            proof {
                lemma_first_failing_stable(differs_from(v, name@), (i + 1) as nat, upto as nat);
            }
            return Some(i);
        }
        i = i + 1;
    }
    None
}

/// The index of the first name that repeats an earlier one.
pub fn find_duplicate(names: &Vec<String>) -> (r: Option<usize>)
    ensures
        r matches Some(p) ==> p < names@.len(),
        first_duplicate(strings_view(names@), names@.len()) == match r {
            Some(p) => Some(p as nat),
            None => None::<nat>,
        },
{
    let ghost v = strings_view(names@);
    let mut j: usize = 0;
    while j < names.len()
        invariant
            j <= names@.len(),
            v == strings_view(names@),
            first_failing(new_at(v), j as nat) is None,
        decreases names@.len() - j,
    {
        assert(v[j as int] == names@[j as int]@);
        assert(new_at(v)(j as int) == (first_index(v, v[j as int], j as nat) is None));
        let earlier = position_of(names, &names[j], j);
        if earlier.is_some() {
            proof {
                lemma_first_failing_stable(new_at(v), (j + 1) as nat, names@.len());
            }
            return Some(j);
        }
        j = j + 1;
    }
    None
}

/// The names of `a` that do not occur in `b`, in the order of `a`.
pub fn absent_names(a: &Vec<String>, b: &Vec<String>) -> (r: Vec<String>)
    ensures
        strings_view(r@) == names_absent(strings_view(a@), strings_view(b@), a@.len()),
{
    let ghost va = strings_view(a@);
    let ghost vb = strings_view(b@);
    let mut r: Vec<String> = Vec::new();
    let mut i: usize = 0;
    while i < a.len()
        invariant
            i <= a@.len(),
            va == strings_view(a@),
            vb == strings_view(b@),
            strings_view(r@) =~= names_absent(va, vb, i as nat),
        decreases a@.len() - i,
    {
        let found = position_of(b, &a[i], b.len());
        proof {
            lemma_first_index(vb, va[i as int], vb.len());
        }
        if found.is_none() {
            proof {
                lemma_strings_view_push(r@, a@[i as int]);
            }
            r.push(a[i].clone());
        }
        i = i + 1;
    }
    r
}

} // verus!
