//! The start-with-Windows `Run` value: the executable path without the
//! verbatim prefix, in quotes, with inner quotes doubled.

use vstd::prelude::*;
use crate::text::{chars_of, push_char, starts_with};

verus! {

/// The verbatim path prefix `\\?\`.
pub open spec fn verbatim_prefix() -> Seq<char> {
    seq!['\\', '\\', '?', '\\']
}

/// The verbatim UNC prefix that follows it, `UNC\`.
pub open spec fn unc_prefix() -> Seq<char> {
    seq!['U', 'N', 'C', '\\']
}

/// `path` without a leading `\\?\`, except for verbatim UNC paths (`\\?\UNC\…`),
/// which are kept whole.
pub open spec fn strip_verbatim_spec(path: Seq<char>) -> Seq<char> {
    if path.len() >= 4 && path.subrange(0, 4) == verbatim_prefix() {
        let rest = path.subrange(4, path.len() as int);
        if rest.len() >= 4 && rest.subrange(0, 4) == unc_prefix() {
            path
        } else {
            rest
        }
    } else {
        path
    }
}

/// The path without the verbatim prefix that canonical Windows paths carry.
pub fn strip_verbatim_prefix(path: &str) -> (r: String)
    ensures
        r@ == strip_verbatim_spec(path@),
{
    let v = chars_of(path);
    let has_prefix = v.len() >= 4 && v[0] == '\\' && v[1] == '\\' && v[2] == '?' && v[3] == '\\';
    proof {
        if v@.len() >= 4 {
            assert(has_prefix == (v@.subrange(0, 4) =~= verbatim_prefix()));
        }
    }
    if !has_prefix {
        return path.to_owned();
    }
    let is_unc = v.len() >= 8 && v[4] == 'U' && v[5] == 'N' && v[6] == 'C' && v[7] == '\\';
    proof {
        let rest = v@.subrange(4, v@.len() as int);
        if rest.len() >= 4 {
            assert(is_unc == (rest.subrange(0, 4) =~= unc_prefix()));
        }
    }
    if is_unc {
        return path.to_owned();
    }
    let mut out = String::new();
    let mut i: usize = 4;
    while i < v.len()
        invariant
            4 <= i <= v@.len(),
            out@ == v@.subrange(4, i as int),
        decreases v@.len() - i,
    {
        push_char(&mut out, v[i]);
        assert(v@.subrange(4, i as int + 1) =~= v@.subrange(4, i as int).push(v@[i as int]));
        i = i + 1;
    }
    out
}

/// `s` with every `"` doubled.
pub open spec fn doubled_quotes(s: Seq<char>) -> Seq<char>
    decreases s.len(),
{
    if s.len() == 0 {
        Seq::empty()
    } else if s[0] == '"' {
        seq!['"', '"'] + doubled_quotes(s.drop_first())
    } else {
        seq![s[0]] + doubled_quotes(s.drop_first())
    }
}

/// The `Run` value for a path: in quotes, inner quotes doubled.
pub open spec fn run_value_spec(path: Seq<char>) -> Seq<char> {
    seq!['"'] + doubled_quotes(strip_verbatim_spec(path)) + seq!['"']
}

proof fn lemma_doubled_push(s: Seq<char>, c: char)
    ensures
        doubled_quotes(s.push(c)) == doubled_quotes(s) + (if c == '"' {
            seq!['"', '"']
        } else {
            seq![c]
        }),
    decreases s.len(),
{
    let tail = if c == '"' {
        seq!['"', '"']
    } else {
        seq![c]
    };
    if s.len() == 0 {
        assert(s.push(c).drop_first() =~= Seq::<char>::empty());
        assert(doubled_quotes(s.push(c).drop_first()) == Seq::<char>::empty());
        assert(s.push(c)[0] == c);
        assert(doubled_quotes(s.push(c)) =~= tail + Seq::<char>::empty());
        assert(doubled_quotes(s) =~= Seq::<char>::empty());
        assert(doubled_quotes(s.push(c)) =~= doubled_quotes(s) + tail);
    } else {
        assert(s.push(c).drop_first() =~= s.drop_first().push(c));
        lemma_doubled_push(s.drop_first(), c);
        let head = if s[0] == '"' {
            seq!['"', '"']
        } else {
            seq![s[0]]
        };
        assert(doubled_quotes(s) == head + doubled_quotes(s.drop_first()));
        assert(doubled_quotes(s.push(c)) == head + doubled_quotes(s.drop_first().push(c)));
        assert(doubled_quotes(s.push(c)) =~= doubled_quotes(s) + tail);
    }
}

/// The value written under the `Run` key for an executable path: the path
/// without its verbatim prefix, in double quotes, inner quotes doubled.
pub fn run_value_for_path(path: &str) -> (r: String)
    ensures
        r@ == run_value_spec(path@),
{
    let p = strip_verbatim_prefix(path);
    let v = chars_of(p.as_str());
    let mut out = String::new();
    push_char(&mut out, '"');
    let mut i: usize = 0;
    while i < v.len()
        invariant
            i <= v@.len(),
            out@ == seq!['"'] + doubled_quotes(v@.take(i as int)),
        decreases v@.len() - i,
    {
        let c = v[i];
        proof {
            lemma_doubled_push(v@.take(i as int), c);
            assert(v@.take(i as int + 1) =~= v@.take(i as int).push(c));
        }
        if c == '"' {
            push_char(&mut out, '"');
            push_char(&mut out, '"');
        } else {
            push_char(&mut out, c);
        }
        i = i + 1;
    }
    assert(v@.take(v@.len() as int) =~= v@);
    push_char(&mut out, '"');
    out
}

/// The text inside a quoted value, with each doubled quote read as one.
pub open spec fn undoubled(s: Seq<char>) -> Seq<char>
    decreases s.len(),
{
    if s.len() >= 2 && s[0] == '"' && s[1] == '"' {
        seq!['"'] + undoubled(s.subrange(2, s.len() as int))
    } else if s.len() > 0 {
        seq![s[0]] + undoubled(s.drop_first())
    } else {
        Seq::empty()
    }
}

proof fn lemma_undouble_doubled(s: Seq<char>)
    ensures
        undoubled(doubled_quotes(s)) == s,
    decreases s.len(),
{
    if s.len() > 0 {
        lemma_undouble_doubled(s.drop_first());
        let d = doubled_quotes(s);
        if s[0] == '"' {
            assert(d.subrange(2, d.len() as int) =~= doubled_quotes(s.drop_first()));
        } else {
            assert(d.drop_first() =~= doubled_quotes(s.drop_first()));
        }
        assert(s =~= seq![s[0]] + s.drop_first());
    }
}

/// The `Run` value reads back as the path that was written: stripping the
/// outer quotes and undoubling the inner ones gives the path (without its
/// verbatim prefix).
pub proof fn run_value_round_trip(path: Seq<char>)
    ensures
        ({
            let v = run_value_spec(path);
            &&& v.len() >= 2
            &&& v[0] == '"' && v.last() == '"'
            &&& undoubled(v.subrange(1, v.len() - 1)) == strip_verbatim_spec(path)
        }),
{
    let inner = doubled_quotes(strip_verbatim_spec(path));
    let v = run_value_spec(path);
    assert(v.subrange(1, v.len() - 1) =~= inner);
    lemma_undouble_doubled(strip_verbatim_spec(path));
}

} // verus!
