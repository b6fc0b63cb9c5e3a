//! Environment variables written into configuration text as `${NAME}`.
use vstd::prelude::*;
use crate::text::{chars_of, same_text};
use vstd::string::StrSliceExecFns;

verus! {

/// Index of the first `}` in `t` at or after `from`, or `-1` when there is none.
pub open spec fn close_brace_from(t: Seq<char>, from: int) -> int
    decreases t.len() - from,
{
    if from < 0 || from >= t.len() {
        -1
    } else if t[from] == '}' {
        from
    } else {
        close_brace_from(t, from + 1)
    }
}

/// The value of the first variable named `name` in `vars`.
pub open spec fn variable_value(vars: Seq<(Seq<char>, Seq<char>)>, name: Seq<char>) -> Option<Seq<char>>
    decreases vars.len(),
{
    if vars.len() == 0 {
        None
    } else if vars[0].0 == name {
        Some(vars[0].1)
    } else {
        variable_value(vars.drop_first(), name)
    }
}

/// The views of name/value pairs.
pub open spec fn pair_texts(vars: Seq<(String, String)>) -> Seq<(Seq<char>, Seq<char>)> {
    vars.map_values(|p: (String, String)| (p.0@, p.1@))
}

/// `t` from index `i` on, with each `${NAME}` whose variable is set replaced
/// by its value; a reference to an unset variable, and a `${` with no closing
/// `}`, stay as written.
pub open spec fn substituted_from(t: Seq<char>, i: int, vars: Seq<(Seq<char>, Seq<char>)>) -> Seq<char>
    decreases t.len() - i,
{
    if i < 0 || i >= t.len() {
        Seq::empty()
    } else if i + 1 < t.len() && t[i] == '$' && t[i + 1] == '{'
        && i + 2 <= close_brace_from(t, i + 2) < t.len() {
        let k = close_brace_from(t, i + 2);
        match variable_value(vars, t.subrange(i + 2, k)) {
            Some(v) => v + substituted_from(t, k + 1, vars),
            None => t.subrange(i, k + 1) + substituted_from(t, k + 1, vars),
        }
    } else {
        seq![t[i]] + substituted_from(t, i + 1, vars)
    }
}

/// `t` with the set variables it references written in.
pub open spec fn substituted(t: Seq<char>, vars: Seq<(Seq<char>, Seq<char>)>) -> Seq<char> {
    substituted_from(t, 0, vars)
}

proof fn lemma_close_brace_range(t: Seq<char>, from: int)
    ensures
        close_brace_from(t, from) == -1 || (from <= close_brace_from(t, from) < t.len()),
    decreases t.len() - from,
{
    if 0 <= from < t.len() && t[from] != '}' {
        lemma_close_brace_range(t, from + 1);
    }
}

fn find_variable(vars: &Vec<(String, String)>, name: &str) -> (r: Option<String>)
    ensures
        r.deep_view() == variable_value(pair_texts(vars@), name@),
{
    let ghost all = pair_texts(vars@);
    assert(all.subrange(0, all.len() as int) =~= all);
    let mut i: usize = 0;
    while i < vars.len()
        invariant
            i <= vars@.len(),
            all == pair_texts(vars@),
            variable_value(all, name@) == variable_value(all.subrange(i as int, all.len() as int), name@),
        decreases vars.len() - i,
    {
        let ghost rest = all.subrange(i as int, all.len() as int);
        assert(rest[0] == (vars@[i as int].0@, vars@[i as int].1@));
        if same_text(vars[i].0.as_str(), name) {
            return Some(vars[i].1.clone());
        }
        assert(rest.drop_first() =~= all.subrange(i + 1, all.len() as int));
        i = i + 1;
    }
    None
}

/// Writes the values of the set variables into `text`: each `${NAME}` whose
/// variable is among `vars` (the first pair of that name counts) becomes its
/// value; other references, and a `${` with no closing `}`, stay as written.
pub fn substitute_variables(text: &str, vars: &Vec<(String, String)>) -> (r: String)
    ensures
        r@ == substituted(text@, pair_texts(vars@)),
{
    let ghost vs = pair_texts(vars@);
    let cs = chars_of(text);
    let n = cs.len();
    let mut out = String::new();
    let mut i: usize = 0;
    while i < n
        invariant
            cs@ == text@,
            n == cs@.len(),
            i <= n,
            vs == pair_texts(vars@),
            substituted(text@, vs) == out@ + substituted_from(text@, i as int, vs),
        decreases n - i,
    {
        let ghost before = out@;
        let mut resolved = false;
        if i + 1 < n && cs[i] == '$' && cs[i + 1] == '{' {
            let mut k: usize = i + 2;
            while k < n && cs[k] != '}'
                invariant
                    cs@ == text@,
                    n == cs@.len(),
                    i + 2 <= k <= n,
                    close_brace_from(text@, i + 2) == close_brace_from(text@, k as int),
                decreases n - k,
            {
                k = k + 1;
            }
            if k < n {
                assert(close_brace_from(text@, i + 2) == k as int);
                let name = text.substring_char(i + 2, k);
                match find_variable(vars, name) {
                    Some(v) => {
                        out.append(v.as_str());
                    },
                    None => {
                        let written = text.substring_char(i, k + 1);
                        out.append(written);
                    },
                }
                assert(out@ + substituted_from(text@, k + 1, vs) =~= before + substituted_from(text@, i as int, vs));
                i = k + 1;
                resolved = true;
            } else {
                proof { lemma_close_brace_range(text@, (i + 2) as int); }
                assert(close_brace_from(text@, (i + 2) as int) == -1);
            }
        }
        if !resolved {
            let one = text.substring_char(i, i + 1);
            out.append(one);
            assert(one@ =~= seq![text@[i as int]]);
            assert(out@ + substituted_from(text@, i + 1, vs) =~= before + substituted_from(text@, i as int, vs));
            i = i + 1;
        }
    }
    out
}

proof fn lemma_plain_suffix(t: Seq<char>, i: int, vars: Seq<(Seq<char>, Seq<char>)>)
    requires
        0 <= i <= t.len(),
        forall|j: int| 0 <= j < t.len() ==> t[j] != '$',
    ensures
        substituted_from(t, i, vars) == t.subrange(i, t.len() as int),
    decreases t.len() - i,
{
    if i < t.len() {
        lemma_plain_suffix(t, i + 1, vars);
        assert(t.subrange(i, t.len() as int) =~= seq![t[i]] + t.subrange(i + 1, t.len() as int));
    } else {
        assert(t.subrange(i, t.len() as int) =~= Seq::<char>::empty());
    }
}

/// Text that references no variable (has no `$`) is left as it is.
pub proof fn text_without_references_is_unchanged(t: Seq<char>, vars: Seq<(Seq<char>, Seq<char>)>)
    requires
        forall|j: int| 0 <= j < t.len() ==> t[j] != '$',
    ensures
        substituted(t, vars) == t,
{
    lemma_plain_suffix(t, 0, vars);
    assert(t.subrange(0, t.len() as int) =~= t);
}

proof fn lemma_first_named(vars: Seq<(Seq<char>, Seq<char>)>, name: Seq<char>, i: int)
    requires
        0 <= i < vars.len(),
        vars[i].0 == name,
        forall|j: int| 0 <= j < i ==> vars[j].0 != name,
    ensures
        variable_value(vars, name) == Some(vars[i].1),
    decreases i,
{
    if i > 0 {
        assert(vars[0].0 != name);
        let rest = vars.drop_first();
        assert forall|j: int| 0 <= j < i - 1 implies rest[j].0 != name by {
            assert(rest[j] == vars[j + 1]);
        }
        lemma_first_named(rest, name, i - 1);
    }
}

proof fn lemma_value_is_named(vars: Seq<(Seq<char>, Seq<char>)>, name: Seq<char>)
    ensures
        variable_value(vars, name) is Some ==> exists|i: int|
            0 <= i < vars.len() && vars[i].0 == name && variable_value(vars, name) == Some(vars[i].1)
            && (forall|j: int| 0 <= j < i ==> vars[j].0 != name),
        (forall|i: int| 0 <= i < vars.len() ==> vars[i].0 != name) ==> variable_value(vars, name) is None,
    decreases vars.len(),
{
    if vars.len() > 0 && vars[0].0 != name {
        let rest = vars.drop_first();
        lemma_value_is_named(rest, name);
        if variable_value(vars, name) is Some {
            let i = choose|i: int|
                0 <= i < rest.len() && rest[i].0 == name && variable_value(rest, name) == Some(rest[i].1)
                && (forall|j: int| 0 <= j < i ==> rest[j].0 != name);
            assert(vars[i + 1] == rest[i]);
            assert forall|j: int| 0 <= j < i + 1 implies vars[j].0 != name by {
                if j > 0 {
                    assert(vars[j] == rest[j - 1]);
                }
            }
        }
        if forall|i: int| 0 <= i < vars.len() ==> vars[i].0 != name {
            assert forall|i: int| 0 <= i < rest.len() implies rest[i].0 != name by {
                assert(rest[i] == vars[i + 1]);
            }
        }
    } else if vars.len() > 0 {
        assert(vars[0].0 == name);
    }
}

/// A variable is looked up by its exact name: the value used for `NAME` is
/// that of the first pair whose name is exactly `NAME`, and there is none when
/// no pair has that name. A pair whose name only begins or ends like `NAME`
/// is never used.
pub proof fn variable_lookup_is_exact(vars: Seq<(Seq<char>, Seq<char>)>, name: Seq<char>)
    ensures
        forall|i: int|
            0 <= i < vars.len() && #[trigger] vars[i].0 == name
                && (forall|j: int| 0 <= j < i ==> vars[j].0 != name)
            ==> variable_value(vars, name) == Some(vars[i].1),
        (forall|i: int| 0 <= i < vars.len() ==> vars[i].0 != name) ==> variable_value(vars, name) is None,
        variable_value(vars, name) is Some ==> exists|i: int|
            0 <= i < vars.len() && vars[i].0 == name && variable_value(vars, name) == Some(vars[i].1),
{
    lemma_value_is_named(vars, name);
    assert forall|i: int|
        0 <= i < vars.len() && #[trigger] vars[i].0 == name
            && (forall|j: int| 0 <= j < i ==> vars[j].0 != name)
        implies variable_value(vars, name) == Some(vars[i].1) by {
        lemma_first_named(vars, name, i);
    }
}

proof fn lemma_plain_run(t: Seq<char>, i: int, e: int, vars: Seq<(Seq<char>, Seq<char>)>)
    requires
        0 <= i <= e <= t.len(),
        forall|j: int| i <= j < e ==> t[j] != '$',
    ensures
        substituted_from(t, i, vars) == t.subrange(i, e) + substituted_from(t, e, vars),
    decreases e - i,
{
    if i < e {
        lemma_plain_run(t, i + 1, e, vars);
        assert(t.subrange(i, e) =~= seq![t[i]] + t.subrange(i + 1, e));
    } else {
        assert(t.subrange(i, e) =~= Seq::<char>::empty());
    }
}

proof fn lemma_close_brace_at(t: Seq<char>, from: int, k: int)
    requires
        0 <= from <= k < t.len(),
        t[k] == '}',
        forall|j: int| from <= j < k ==> t[j] != '}',
    ensures
        close_brace_from(t, from) == k,
    decreases k - from,
{
    if from < k {
        lemma_close_brace_at(t, from + 1, k);
    }
}

/// A reference `${NAME}` is replaced by the value of the first pair whose name
/// is exactly `NAME`; the text around it stays as written.
pub proof fn reference_takes_the_exactly_named_value(
    before: Seq<char>,
    name: Seq<char>,
    after: Seq<char>,
    vars: Seq<(Seq<char>, Seq<char>)>,
    i: int,
)
    requires
        forall|j: int| 0 <= j < before.len() ==> before[j] != '$',
        forall|j: int| 0 <= j < after.len() ==> after[j] != '$',
        forall|j: int| 0 <= j < name.len() ==> name[j] != '}',
        0 <= i < vars.len(),
        vars[i].0 == name,
        forall|j: int| 0 <= j < i ==> vars[j].0 != name,
    ensures
        substituted(before + seq!['$', '{'] + name + seq!['}'] + after, vars)
            == before + vars[i].1 + after,
{
    let t = before + seq!['$', '{'] + name + seq!['}'] + after;
    let p = before.len() as int;
    let k = p + 2 + name.len();
    lemma_plain_run(t, 0, p, vars);
    lemma_close_brace_at(t, p + 2, k);
    assert(t.subrange(p + 2, k) =~= name);
    lemma_first_named(vars, name, i);
    lemma_plain_run(t, k + 1, t.len() as int, vars);
    assert(t.subrange(0, p) =~= before);
    assert(t.subrange(k + 1, t.len() as int) =~= after);
    assert(substituted_from(t, t.len() as int, vars) =~= Seq::<char>::empty());
    assert(substituted(t, vars) =~= before + vars[i].1 + after);
}

/// A reference to a variable that no pair names stays as written.
pub proof fn unset_reference_stays(
    before: Seq<char>,
    name: Seq<char>,
    after: Seq<char>,
    vars: Seq<(Seq<char>, Seq<char>)>,
)
    requires
        forall|j: int| 0 <= j < before.len() ==> before[j] != '$',
        forall|j: int| 0 <= j < after.len() ==> after[j] != '$',
        forall|j: int| 0 <= j < name.len() ==> name[j] != '}',
        forall|j: int| 0 <= j < vars.len() ==> vars[j].0 != name,
    ensures
        substituted(before + seq!['$', '{'] + name + seq!['}'] + after, vars)
            == before + seq!['$', '{'] + name + seq!['}'] + after,
{
    let t = before + seq!['$', '{'] + name + seq!['}'] + after;
    let p = before.len() as int;
    let k = p + 2 + name.len();
    lemma_plain_run(t, 0, p, vars);
    lemma_close_brace_at(t, p + 2, k);
    assert(t.subrange(p + 2, k) =~= name);
    lemma_value_is_named(vars, name);
    lemma_plain_run(t, k + 1, t.len() as int, vars);
    assert(t.subrange(0, p) =~= before);
    assert(t.subrange(p, k + 1) =~= seq!['$', '{'] + name + seq!['}']);
    assert(t.subrange(k + 1, t.len() as int) =~= after);
    assert(substituted_from(t, t.len() as int, vars) =~= Seq::<char>::empty());
    assert(substituted(t, vars) =~= t);
}

}
