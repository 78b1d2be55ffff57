//! The string-templating engine. A template may contain `%name%`
//! placeholders; expansion replaces each with the value bound to `name` in
//! the variable store. A placeholder whose name is unbound, or bound to a
//! boolean, stays literal and its name is recorded as a warning. Expanded
//! output is not scanned again.

use vstd::prelude::*;

use crate::text::{chars_of, dec_chars, push_range, spec_dec, string_of};
use crate::vars::{ScalarValue, SpecScalar, VarStore};

verus! {

/// The first position at or after `from` where `c` occurs in `s`.
pub open spec fn spec_find_from(s: Seq<char>, c: char, from: int) -> Option<int>
    decreases s.len() - from,
{
    if from < 0 || from >= s.len() {
        None
    } else if s[from] == c {
        Some(from)
    } else {
        spec_find_from(s, c, from + 1)
    }
}

/// What `spec_find_from` finds: the first occurrence, within bounds.
pub proof fn lemma_find_from(s: Seq<char>, c: char, from: int)
    requires
        0 <= from,
    ensures
        match spec_find_from(s, c, from) {
            Some(i) => from <= i < s.len() && s[i] == c && forall|l: int|
                from <= l < i ==> s[l] != c,
            None => forall|l: int| from <= l < s.len() && 0 <= l ==> s[l] != c,
        },
    decreases s.len() - from,
{
    if from < s.len() && s[from] != c {
        lemma_find_from(s, c, from + 1);
    }
}

/// Searching a suffix finds the same occurrence, shifted.
pub proof fn lemma_find_shift(s: Seq<char>, c: char, k: int, from: int)
    requires
        0 <= k <= s.len(),
        0 <= from,
    ensures
        spec_find_from(s.skip(k), c, from) == match spec_find_from(s, c, from + k) {
            Some(i) => Some(i - k),
            None => None::<int>,
        },
    decreases s.len() - k - from,
{
    if from < s.skip(k).len() {
        assert(s.skip(k)[from] == s[from + k]);
        if s[from + k] != c {
            lemma_find_shift(s, c, k, from + 1);
        }
    }
}

/// The outcome of expanding a template: the rewritten text and the names of
/// the placeholders that could not be resolved, in order of appearance.
pub struct SpecExpansion {
    pub text: Seq<char>,
    pub missing: Seq<Seq<char>>,
}

/// Expansion of `s` against the bindings `m`. The scanner repeatedly takes
/// the leftmost `%`, the next `%` after it, and the name between them: a
/// string binding substitutes itself, an unsigned integer binding its decimal
/// rendering, and anything else leaves the placeholder literal and records
/// the name. The rest of the string is then scanned the same way; substituted
/// text is never rescanned.
pub open spec fn spec_expand(s: Seq<char>, m: Map<Seq<char>, SpecScalar>) -> SpecExpansion
    decreases s.len(),
    via spec_expand_decreases
{
    match spec_find_from(s, '%', 0) {
        None => SpecExpansion { text: s, missing: Seq::empty() },
        Some(i) => match spec_find_from(s, '%', i + 1) {
            None => SpecExpansion { text: s, missing: Seq::empty() },
            Some(j) => {
                let head = s.subrange(0, i);
                let name = s.subrange(i + 1, j);
                let rest = spec_expand(s.skip(j + 1), m);
                if m.contains_key(name) && m[name] is Str {
                    SpecExpansion { text: head + m[name]->Str_0 + rest.text, missing: rest.missing }
                } else if m.contains_key(name) && m[name] is UInt {
                    SpecExpansion {
                        text: head + spec_dec(m[name]->UInt_0 as int) + rest.text,
                        missing: rest.missing,
                    }
                } else {
                    SpecExpansion {
                        text: head + s.subrange(i, j + 1) + rest.text,
                        missing: seq![name] + rest.missing,
                    }
                }
            },
        },
    }
}

#[via_fn]
proof fn spec_expand_decreases(s: Seq<char>, m: Map<Seq<char>, SpecScalar>) {
    lemma_find_from(s, '%', 0);
    if let Some(i) = spec_find_from(s, '%', 0) {
        lemma_find_from(s, '%', i + 1);
    }
}

/// A template without two `%` characters expands to itself, with no warning.
pub proof fn lemma_expand_identity(s: Seq<char>, m: Map<Seq<char>, SpecScalar>)
    requires
        forall|i: int, j: int| 0 <= i < j < s.len() ==> !(s[i] == '%' && s[j] == '%'),
    ensures
        spec_expand(s, m).text == s,
        spec_expand(s, m).missing == Seq::<Seq<char>>::empty(),
{
    lemma_find_from(s, '%', 0);
    if let Some(i) = spec_find_from(s, '%', 0) {
        lemma_find_from(s, '%', i + 1);
        if let Some(j) = spec_find_from(s, '%', i + 1) {
            assert(s[i] == '%' && s[j] == '%' && i < j);
        }
    }
}

/// The first position at or after `from` where `c` occurs in `v`.
pub fn find_char(v: &Vec<char>, c: char, from: usize) -> (r: Option<usize>)
    ensures
        match r {
            Some(i) => spec_find_from(v@, c, from as int) == Some(i as int) && from <= i < v@.len(),
            None => spec_find_from(v@, c, from as int) is None,
        },
{
    let mut i: usize = from;
    if i >= v.len() {
        return None;
    }
    while i < v.len()
        invariant
            from <= i <= v@.len(),
            spec_find_from(v@, c, from as int) == spec_find_from(v@, c, i as int),
        decreases v@.len() - i,
    {
        if v[i] == c {
            return Some(i);
        }
        i = i + 1;
    }
    None
}

/// Appends the characters of `s` to `out`.
fn push_str_chars(out: &mut Vec<char>, s: &str)
    ensures
        final(out)@ == old(out)@ + s@,
{
    let n = s.unicode_len();
    let mut k: usize = 0;
    assert(old(out)@ + s@.subrange(0, 0) =~= old(out)@);
    while k < n
        invariant
            k <= n,
            n == s@.len(),
            out@ == old(out)@ + s@.subrange(0, k as int),
        decreases n - k,
    {
        out.push(s.get_char(k));
        k = k + 1;
        assert(old(out)@ + s@.subrange(0, k as int) =~= (old(out)@ + s@.subrange(0, k - 1)).push(
            s@[k - 1],
        ));
    }
    assert(old(out)@ + s@.subrange(0, n as int) =~= old(out)@ + s@);
}

/// Expands every `%name%` placeholder of `input` against `vars`, appending
/// the names of unresolved placeholders to `warnings`.
pub fn expand_string(input: &str, vars: &VarStore, warnings: &mut Vec<String>) -> (r: String)
    ensures
        r@ == spec_expand(input@, vars@).text,
        final(warnings)@.map_values(|w: String| w@) == old(warnings)@.map_values(|w: String| w@)
            + spec_expand(input@, vars@).missing,
{
    let v = chars_of(input);
    let e = expand_chars(&v, vars, warnings);
    string_of(&e)
}

/// Expands every `%name%` placeholder of `v` against `vars`, appending the
/// names of unresolved placeholders to `warnings`.
pub fn expand_chars(v: &Vec<char>, vars: &VarStore, warnings: &mut Vec<String>) -> (r: Vec<char>)
    ensures
        r@ == spec_expand(v@, vars@).text,
        final(warnings)@.map_values(|w: String| w@) == old(warnings)@.map_values(|w: String| w@)
            + spec_expand(v@, vars@).missing,
{
    let ghost m = vars@;
    let mut out: Vec<char> = Vec::new();
    let mut pos: usize = 0;
    let ghost mut done: Seq<Seq<char>> = Seq::empty();
    proof {
        assert(v@.skip(0) =~= v@);
        assert(Seq::<char>::empty() + spec_expand(v@, m).text =~= spec_expand(v@, m).text);
        assert(Seq::<Seq<char>>::empty() + spec_expand(v@, m).missing =~= spec_expand(
            v@,
            m,
        ).missing);
        assert(old(warnings)@.map_values(|w: String| w@) + Seq::<Seq<char>>::empty() =~= old(
            warnings,
        )@.map_values(|w: String| w@));
    }
    loop
        invariant
            pos <= v@.len(),
            spec_expand(v@, m).text == out@ + spec_expand(v@.skip(pos as int), m).text,
            spec_expand(v@, m).missing == done + spec_expand(v@.skip(pos as int), m).missing,
            warnings@.map_values(|w: String| w@) == old(warnings)@.map_values(|w: String| w@)
                + done,
            m == vars@,
        decreases v@.len() - pos,
    {
        let ghost rem = v@.skip(pos as int);
        let found = find_char(v, '%', pos);
        proof {
            lemma_find_shift(v@, '%', pos as int, 0);
        }
        match found {
            None => {
                // no further placeholder: the rest is literal
                assert(spec_find_from(rem, '%', 0) is None);
                push_range(&mut out, v, pos, v.len());
                assert(v@.subrange(pos as int, v@.len() as int) =~= rem);
                return out;
            },
            Some(i) => {
                assert(i < v.len());
                let j_found = find_char(v, '%', i + 1);
                proof {
                    lemma_find_shift(v@, '%', pos as int, i + 1 - pos as int);
                    assert(spec_find_from(rem, '%', 0) == Some(i - pos as int));
                }
                match j_found {
                    None => {
                        assert(spec_find_from(rem, '%', i + 1 - pos as int) is None);
                        push_range(&mut out, v, pos, v.len());
                        assert(v@.subrange(pos as int, v@.len() as int) =~= rem);
                        return out;
                    },
                    Some(j) => {
                        assert(j < v.len());
                        assert(spec_find_from(rem, '%', i + 1 - pos as int) == Some(
                            j - pos as int,
                        ));
                        let ghost i_rel = i - pos as int;
                        let ghost j_rel = j - pos as int;
                        let ghost head = rem.subrange(0, i_rel);
                        let ghost name = rem.subrange(i_rel + 1, j_rel);
                        let ghost rest = rem.skip(j_rel + 1);
                        proof {
                            assert(rem.subrange(0, i_rel) =~= v@.subrange(pos as int, i as int));
                            assert(rem.subrange(i_rel + 1, j_rel) =~= v@.subrange(i + 1, j as int));
                            assert(rem.subrange(i_rel, j_rel + 1) =~= v@.subrange(i as int, j + 1));
                            assert(rem.skip(j_rel + 1) =~= v@.skip(j + 1));
                        }
                        let ghost out0 = out@;
                        let ghost warn0 = warnings@;
                        let ghost e_rem = spec_expand(rem, m);
                        let ghost e_rest = spec_expand(rest, m);
                        push_range(&mut out, v, pos, i);
                        let mut name_vec: Vec<char> = Vec::new();
                        push_range(&mut name_vec, v, i + 1, j);
                        assert(name_vec@ =~= name);
                        let name_string = string_of(&name_vec);
                        let looked = vars.get(name_string.as_str());
                        match looked {
                            Some(ScalarValue::Str(sv)) => {
                                assert(m.contains_key(name) && m[name] is Str && m[name]->Str_0
                                    == sv@);
                                push_str_chars(&mut out, sv.as_str());
                                proof {
                                    assert(e_rem.text == head + sv@ + e_rest.text);
                                    assert(e_rem.missing == e_rest.missing);
                                    assert(out@ =~= out0 + head + sv@);
                                    assert(out0 + (head + sv@ + e_rest.text) =~= (out0 + head
                                        + sv@) + e_rest.text);
                                }
                            },
                            Some(ScalarValue::UInt(n)) => {
                                assert(m.contains_key(name) && m[name] is UInt && m[name]->UInt_0
                                    == *n);
                                let d = dec_chars(*n);
                                push_range(&mut out, &d, 0, d.len());
                                proof {
                                    assert(d@.subrange(0, d@.len() as int) =~= d@);
                                    assert(e_rem.text == head + spec_dec(*n as int) + e_rest.text);
                                    assert(e_rem.missing == e_rest.missing);
                                    assert(out@ =~= out0 + head + d@);
                                    assert(out0 + (head + d@ + e_rest.text) =~= (out0 + head + d@)
                                        + e_rest.text);
                                }
                            },
                            Some(ScalarValue::Bool(_)) => {
                                push_range(&mut out, v, i, j + 1);
                                warnings.push(name_string);
                                proof {
                                    done = done.push(name);
                                    let lit = rem.subrange(i_rel, j_rel + 1);
                                    assert(e_rem.text == head + lit + e_rest.text);
                                    assert(e_rem.missing == seq![name] + e_rest.missing);
                                    assert(out@ =~= out0 + head + lit);
                                    assert(out0 + (head + lit + e_rest.text) =~= (out0 + head
                                        + lit) + e_rest.text);
                                    assert(done.drop_last() + (seq![name] + e_rest.missing) =~= done
                                        + e_rest.missing);
                                    assert(warnings@.map_values(|w: String| w@) =~= warn0
                                        .map_values(|w: String| w@).push(name));
                                    assert(warn0.map_values(|w: String| w@).push(name) =~= old(
                                        warnings,
                                    )@.map_values(|w: String| w@) + done);
                                }
                            },
                            None => {
                                push_range(&mut out, v, i, j + 1);
                                warnings.push(name_string);
                                proof {
                                    done = done.push(name);
                                    let lit = rem.subrange(i_rel, j_rel + 1);
                                    assert(e_rem.text == head + lit + e_rest.text);
                                    assert(e_rem.missing == seq![name] + e_rest.missing);
                                    assert(out@ =~= out0 + head + lit);
                                    assert(out0 + (head + lit + e_rest.text) =~= (out0 + head
                                        + lit) + e_rest.text);
                                    assert(done.drop_last() + (seq![name] + e_rest.missing) =~= done
                                        + e_rest.missing);
                                    assert(warnings@.map_values(|w: String| w@) =~= warn0
                                        .map_values(|w: String| w@).push(name));
                                    assert(warn0.map_values(|w: String| w@).push(name) =~= old(
                                        warnings,
                                    )@.map_values(|w: String| w@) + done);
                                }
                            },
                        }
                        pos = j + 1;
                    },
                }
            },
        }
    }
}

} // verus!
