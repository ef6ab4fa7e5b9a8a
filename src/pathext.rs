//! The PATHEXT list: a `;`-separated sequence of extension tokens, compared
//! without regard to ASCII case.
use vstd::prelude::*;
use vstd::string::StrSliceExecFns;
use vstd::string::StringExecFns;
use itertools::Itertools;
use crate::assoc::{ext_token, ext_token_text};

verus! {

/// The separator between tokens.
pub open spec fn sep() -> char {
    ';'
}

/// The tokens of `s`, as `str::split(';')` yields them: always at least one,
/// and empty ones kept.
pub open spec fn split_spec(s: Seq<char>) -> Seq<Seq<char>>
    decreases s.len(),
{
    if s.len() == 0 {
        seq![Seq::<char>::empty()]
    } else {
        let prev = split_spec(s.drop_last());
        if s.last() == sep() {
            prev.push(Seq::<char>::empty())
        } else {
            prev.update(prev.len() - 1, prev.last().push(s.last()))
        }
    }
}

/// The tokens written one after another with `sep` between them.
pub open spec fn join_spec(toks: Seq<Seq<char>>, sep: Seq<char>) -> Seq<char>
    decreases toks.len(),
{
    if toks.len() == 0 {
        Seq::<char>::empty()
    } else if toks.len() == 1 {
        toks[0]
    } else {
        join_spec(toks.drop_last(), sep) + sep + toks.last()
    }
}

/// The list written back with `;` between its tokens.
pub open spec fn join_list(toks: Seq<Seq<char>>) -> Seq<char> {
    join_spec(toks, seq![sep()])
}

/// A character with ASCII upper case folded to lower case.
pub open spec fn fold(c: char) -> u32 {
    if 'A' <= c && c <= 'Z' {
        (c as u32 + 32) as u32
    } else {
        c as u32
    }
}

/// Two strings equal but for ASCII case.
pub open spec fn eq_ignore_case(a: Seq<char>, b: Seq<char>) -> bool {
    a.len() == b.len() && forall|i: int| 0 <= i < a.len() ==> fold(#[trigger] a[i]) == fold(b[i])
}

/// Whether some token equals `tok` but for ASCII case.
pub open spec fn has_token(toks: Seq<Seq<char>>, tok: Seq<char>) -> bool {
    exists|i: int| 0 <= i < toks.len() && eq_ignore_case(#[trigger] toks[i], tok)
}

/// The tokens that do not equal `tok` but for ASCII case, in their order.
pub open spec fn without_token(toks: Seq<Seq<char>>, tok: Seq<char>) -> Seq<Seq<char>>
    decreases toks.len(),
{
    if toks.len() == 0 {
        toks
    } else {
        let rest = without_token(toks.drop_last(), tok);
        if eq_ignore_case(toks.last(), tok) {
            rest
        } else {
            rest.push(toks.last())
        }
    }
}

/// `list` with `tok` appended, unless a token of it already equals `tok`
/// but for ASCII case.
pub open spec fn add_spec(list: Seq<char>, tok: Seq<char>) -> Seq<char> {
    if has_token(split_spec(list), tok) {
        list
    } else {
        join_list(split_spec(list).push(tok))
    }
}

/// `list` without the tokens that equal `tok` but for ASCII case; `list`
/// itself where there are none.
pub open spec fn remove_spec(list: Seq<char>, tok: Seq<char>) -> Seq<char> {
    if has_token(split_spec(list), tok) {
        join_list(without_token(split_spec(list), tok))
    } else {
        list
    }
}

/// A token that can stand in the list: not empty, and free of the separator.
pub open spec fn valid_token(tok: Seq<char>) -> bool {
    tok.len() > 0 && !tok.contains(sep())
}

pub proof fn lemma_split_nonempty(s: Seq<char>)
    ensures
        split_spec(s).len() >= 1,
    decreases s.len(),
{
    if s.len() > 0 {
        lemma_split_nonempty(s.drop_last());
    }
}

/// Splits `s` at each `;`.
pub fn split_tokens(s: &str) -> (r: Vec<String>)
    ensures
        r.deep_view() == split_spec(s@),
{
    let n = s.unicode_len();
    let mut toks: Vec<String> = Vec::new();
    let mut start: usize = 0;
    let mut i: usize = 0;
    assert(toks.deep_view() =~= Seq::<Seq<char>>::empty());
    assert(s@.subrange(0, 0) =~= Seq::<char>::empty());
    assert(toks.deep_view().push(s@.subrange(0, 0)) =~= split_spec(Seq::<char>::empty()));
    while i < n
        invariant
            n == s@.len(),
            start <= i <= n,
            toks.deep_view().push(s@.subrange(start as int, i as int)) == split_spec(
                s@.subrange(0, i as int),
            ),
        decreases n - i,
    {
        let c = s.get_char(i);
        let ghost pre = s@.subrange(0, i as int);
        assert(s@.subrange(0, i + 1).drop_last() == pre);
        if c == ';' {
            let piece = String::from_str(s.substring_char(start, i));
            toks.push(piece);
            assert(s@.subrange(i + 1, i + 1) == Seq::<char>::empty());
            assert(toks.deep_view() == split_spec(pre)) by {
                assert(split_spec(pre).drop_last().push(split_spec(pre).last()) == split_spec(pre));
            }
            start = i + 1;
        } else {
            assert(s@.subrange(start as int, i + 1) == s@.subrange(start as int, i as int).push(c));
        }
        i = i + 1;
    }
    assert(s@.subrange(0, n as int) == s@);
    let last = String::from_str(s.substring_char(start, n));
    toks.push(last);
    toks
}

/// Relies on itertools' `Itertools::join`: the items' text one after
/// another with `sep` between them, and the empty string for no items.
#[verifier::external_body]
fn join_with(toks: &Vec<String>, sep: &str) -> (r: String)
    ensures
        r@ == join_spec(toks.deep_view(), sep@),
{
    toks.iter().join(sep)
}

/// Writes the tokens back with `;` between them.
pub fn join_tokens(toks: &Vec<String>) -> (r: String)
    ensures
        r@ == join_list(toks.deep_view()),
{
    let r = join_with(toks, ";");
    proof {
        reveal_strlit(";");
        assert(";"@ =~= seq![sep()]);
    }
    r
}

/// Whether `a` and `b` are equal but for ASCII case.
pub fn same_token(a: &str, b: &str) -> (r: bool)
    ensures
        r == eq_ignore_case(a@, b@),
{
    let n = a.unicode_len();
    if n != b.unicode_len() {
        return false;
    }
    let mut i: usize = 0;
    while i < n
        invariant
            n == a@.len() == b@.len(),
            i <= n,
            forall|j: int| 0 <= j < i ==> fold(#[trigger] a@[j]) == fold(b@[j]),
        decreases n - i,
    {
        let x = a.get_char(i);
        let y = b.get_char(i);
        let fx: u32 = if 'A' <= x && x <= 'Z' { x as u32 + 32 } else { x as u32 };
        let fy: u32 = if 'A' <= y && y <= 'Z' { y as u32 + 32 } else { y as u32 };
        if fx != fy {
            return false;
        }
        i = i + 1;
    }
    true
}

/// Whether some token equals `tok` but for ASCII case.
pub fn contains_token(toks: &Vec<String>, tok: &str) -> (r: bool)
    ensures
        r == has_token(toks.deep_view(), tok@),
{
    let mut i: usize = 0;
    while i < toks.len()
        invariant
            i <= toks.len(),
            forall|j: int| 0 <= j < i ==> !eq_ignore_case(#[trigger] toks.deep_view()[j], tok@),
        decreases toks.len() - i,
    {
        if same_token(toks[i].as_str(), tok) {
            assert(toks.deep_view()[i as int] == toks[i as int]@);
            return true;
        }
        i = i + 1;
    }
    false
}

/// The tokens that do not equal `tok` but for ASCII case, in their order.
pub fn drop_token(toks: &Vec<String>, tok: &str) -> (r: Vec<String>)
    ensures
        r.deep_view() == without_token(toks.deep_view(), tok@),
{
    let mut kept: Vec<String> = Vec::new();
    let mut i: usize = 0;
    while i < toks.len()
        invariant
            i <= toks.len(),
            kept.deep_view() == without_token(toks.deep_view().subrange(0, i as int), tok@),
        decreases toks.len() - i,
    {
        let ghost sub = toks.deep_view().subrange(0, i + 1);
        assert(sub.drop_last() == toks.deep_view().subrange(0, i as int));
        assert(sub.last() == toks[i as int]@);
        if !same_token(toks[i].as_str(), tok) {
            kept.push(toks[i].clone());
        }
        i = i + 1;
    }
    assert(toks.deep_view().subrange(0, toks.len() as int) == toks.deep_view());
    kept
}

/// `list` with the tool's token appended in its upper-case form `.CRS`,
/// unless a token of it already equals `.crs` but for ASCII case.
pub fn add_token(list: &str) -> (r: String)
    ensures
        r@ == add_spec(list@, ext_token()),
{
    let tok = ext_token_text();
    let mut toks = split_tokens(list);
    if contains_token(&toks, tok.as_str()) {
        String::from_str(list)
    } else {
        let ghost before = toks.deep_view();
        toks.push(tok);
        assert(toks.deep_view() =~= before.push(ext_token()));
        join_tokens(&toks)
    }
}

/// `list` without the tokens that equal `.crs` but for ASCII case, whatever
/// their case; `list` unchanged where there are none.
pub fn remove_token(list: &str) -> (r: String)
    ensures
        r@ == remove_spec(list@, ext_token()),
{
    let tok = ext_token_text();
    let toks = split_tokens(list);
    if contains_token(&toks, tok.as_str()) {
        join_tokens(&drop_token(&toks, tok.as_str()))
    } else {
        String::from_str(list)
    }
}

/// Appending a piece free of `;` to a string extends its last token.
pub proof fn lemma_split_extend(x: Seq<char>, y: Seq<char>)
    requires
        !y.contains(sep()),
    ensures
        split_spec(x + y) == split_spec(x).update(
            split_spec(x).len() - 1,
            split_spec(x).last() + y,
        ),
    decreases y.len(),
{
    lemma_split_nonempty(x);
    if y.len() == 0 {
        assert(x + y =~= x);
        assert(split_spec(x).last() + y =~= split_spec(x).last());
        assert(split_spec(x).update(split_spec(x).len() - 1, split_spec(x).last())
            =~= split_spec(x));
    } else {
        let y0 = y.drop_last();
        assert(!y0.contains(sep())) by {
            if y0.contains(sep()) {
                let k = choose|k: int| 0 <= k < y0.len() && y0[k] == sep();
                assert(y[k] == sep());
            }
        }
        assert(y.last() != sep()) by {
            assert(y[y.len() - 1] == y.last());
        }
        lemma_split_extend(x, y0);
        assert((x + y).drop_last() =~= x + y0);
        assert((x + y).last() == y.last());
        assert(split_spec(x).last() + y =~= (split_spec(x).last() + y0).push(y.last()));
        assert(split_spec(x + y) =~= split_spec(x).update(
            split_spec(x).len() - 1,
            split_spec(x).last() + y,
        ));
    }
}

/// Writing the tokens of a string back gives the string.
pub proof fn lemma_join_split(s: Seq<char>)
    ensures
        join_list(split_spec(s)) == s,
    decreases s.len(),
{
    if s.len() > 0 {
        let p = s.drop_last();
        lemma_join_split(p);
        lemma_split_nonempty(p);
        let t = split_spec(p);
        let n = t.len();
        if s.last() == sep() {
            assert(t.push(Seq::<char>::empty()).drop_last() =~= t);
            assert(join_list(t.push(Seq::<char>::empty())) =~= p + seq![sep()]);
        } else {
            let u = t.update(n - 1, t.last().push(s.last()));
            if n == 1 {
                assert(join_list(u) =~= t[0].push(s.last()));
            } else {
                assert(u.drop_last() =~= t.drop_last());
                assert(join_list(u) =~= join_list(t).push(s.last()));
            }
        }
        assert(s =~= p.push(s.last()));
    }
}

/// Splitting a list written from tokens free of `;` gives those tokens back.
pub proof fn lemma_split_join(toks: Seq<Seq<char>>)
    requires
        toks.len() >= 1,
        forall|i: int| 0 <= i < toks.len() ==> !(#[trigger] toks[i]).contains(sep()),
    ensures
        split_spec(join_list(toks)) == toks,
    decreases toks.len(),
{
    if toks.len() == 1 {
        let e = Seq::<char>::empty();
        lemma_split_extend(e, toks[0]);
        assert(e + toks[0] =~= toks[0]);
        assert(split_spec(e) =~= seq![e]);
        assert(e + toks[0] =~= toks[0]);
        assert(split_spec(toks[0]) =~= toks);
    } else {
        let pre = toks.drop_last();
        assert forall|i: int| 0 <= i < pre.len() implies !(#[trigger] pre[i]).contains(sep()) by {
            assert(pre[i] == toks[i]);
        }
        lemma_split_join(pre);
        let a = join_list(pre) + seq![sep()];
        assert(a.drop_last() =~= join_list(pre));
        assert(split_spec(a) == pre.push(Seq::<char>::empty()));
        assert(!toks.last().contains(sep())) by {
            assert(toks[toks.len() - 1] == toks.last());
        }
        lemma_split_extend(a, toks.last());
        assert(join_list(toks) =~= a + toks.last());
        assert(Seq::<char>::empty() + toks.last() =~= toks.last());
        assert(pre.push(Seq::<char>::empty()).update(pre.len() as int, toks.last()) =~= toks);
    }
}

/// No token of a split string holds the separator.
pub proof fn lemma_split_tokens_clean(s: Seq<char>)
    ensures
        forall|i: int|
            0 <= i < split_spec(s).len() ==> !(#[trigger] split_spec(s)[i]).contains(sep()),
    decreases s.len(),
{
    if s.len() > 0 {
        let p = s.drop_last();
        lemma_split_tokens_clean(p);
        lemma_split_nonempty(p);
        let t = split_spec(p);
        if s.last() != sep() {
            let w = t.last().push(s.last());
            assert(!w.contains(sep())) by {
                if w.contains(sep()) {
                    let k = choose|k: int| 0 <= k < w.len() && w[k] == sep();
                    if k < w.len() - 1 {
                        assert(t.last()[k] == sep());
                        assert(t[t.len() - 1] == t.last());
                    }
                }
            }
        } else {
            assert(!Seq::<char>::empty().contains(sep()));
        }
        assert forall|i: int|
            0 <= i < split_spec(s).len() implies !(#[trigger] split_spec(s)[i]).contains(sep()) by {
            if i < t.len() - 1 {
                assert(split_spec(s)[i] == t[i]);
            }
        }
    }
}

/// What is left after dropping the matches of a token holds none, and keeps
/// every other token clean of the separator.
pub proof fn lemma_without_token(toks: Seq<Seq<char>>, tok: Seq<char>)
    requires
        forall|i: int| 0 <= i < toks.len() ==> !(#[trigger] toks[i]).contains(sep()),
    ensures
        !has_token(without_token(toks, tok), tok),
        forall|i: int|
            0 <= i < without_token(toks, tok).len() ==> !(#[trigger] without_token(
                toks,
                tok,
            )[i]).contains(sep()),
        !has_token(toks, tok) ==> without_token(toks, tok) == toks,
    decreases toks.len(),
{
    if toks.len() > 0 {
        let pre = toks.drop_last();
        assert forall|i: int| 0 <= i < pre.len() implies !(#[trigger] pre[i]).contains(sep()) by {
            assert(pre[i] == toks[i]);
        }
        lemma_without_token(pre, tok);
        let rest = without_token(pre, tok);
        let w = without_token(toks, tok);
        assert(!has_token(w, tok)) by {
            if has_token(w, tok) {
                let i = choose|i: int| 0 <= i < w.len() && eq_ignore_case(#[trigger] w[i], tok);
                if i < rest.len() {
                    assert(w[i] == rest[i]);
                }
            }
        }
        assert forall|i: int| 0 <= i < w.len() implies !(#[trigger] w[i]).contains(sep()) by {
            if i < rest.len() {
                assert(w[i] == rest[i]);
            } else {
                assert(toks[toks.len() - 1] == toks.last());
            }
        }
        if !has_token(toks, tok) {
            assert(!has_token(pre, tok)) by {
                if has_token(pre, tok) {
                    let i = choose|i: int| 0 <= i < pre.len() && eq_ignore_case(#[trigger] pre[i], tok);
                    assert(toks[i] == pre[i]);
                }
            }
            assert(!eq_ignore_case(toks.last(), tok)) by {
                assert(toks[toks.len() - 1] == toks.last());
            }
            assert(pre.push(toks.last()) =~= toks);
        }
    }
}

/// Splitting a list written from clean tokens gives those tokens, and the
/// empty list back for none.
proof fn lemma_split_join_any(toks: Seq<Seq<char>>)
    requires
        forall|i: int| 0 <= i < toks.len() ==> !(#[trigger] toks[i]).contains(sep()),
    ensures
        toks.len() >= 1 ==> split_spec(join_list(toks)) == toks,
        toks.len() == 0 ==> split_spec(join_list(toks)) == seq![Seq::<char>::empty()],
{
    if toks.len() >= 1 {
        lemma_split_join(toks);
    } else {
        assert(split_spec(Seq::<char>::empty()) =~= seq![Seq::<char>::empty()]);
    }
}

/// After adding a token some token of the list equals it but for ASCII case.
pub proof fn lemma_add_token_present(list: Seq<char>, tok: Seq<char>)
    requires
        valid_token(tok),
    ensures
        has_token(split_spec(add_spec(list, tok)), tok),
{
    if !has_token(split_spec(list), tok) {
        let toks = split_spec(list).push(tok);
        lemma_split_tokens_clean(list);
        assert forall|i: int| 0 <= i < toks.len() implies !(#[trigger] toks[i]).contains(sep()) by {
            if i < toks.len() - 1 {
                assert(toks[i] == split_spec(list)[i]);
            }
        }
        lemma_split_join(toks);
        assert(eq_ignore_case(toks[toks.len() - 1], tok));
    }
}

/// Adding a token twice leaves the list as adding it once does.
pub proof fn lemma_add_token_idempotent(list: Seq<char>, tok: Seq<char>)
    requires
        valid_token(tok),
    ensures
        add_spec(add_spec(list, tok), tok) == add_spec(list, tok),
{
    lemma_add_token_present(list, tok);
}

/// After removing a token no token of the list equals it but for ASCII case.
pub proof fn lemma_remove_token_leaves_none(list: Seq<char>, tok: Seq<char>)
    requires
        valid_token(tok),
    ensures
        !has_token(split_spec(remove_spec(list, tok)), tok),
{
    lemma_split_tokens_clean(list);
    lemma_without_token(split_spec(list), tok);
    if has_token(split_spec(list), tok) {
        let w = without_token(split_spec(list), tok);
        lemma_split_join_any(w);
        if w.len() == 0 {
            let e = seq![Seq::<char>::empty()];
            assert(!has_token(e, tok)) by {
                if has_token(e, tok) {
                    assert(eq_ignore_case(e[0], tok));
                }
            }
        }
    }
}

/// Removing a token twice leaves the list as removing it once does.
pub proof fn lemma_remove_token_idempotent(list: Seq<char>, tok: Seq<char>)
    requires
        valid_token(tok),
    ensures
        remove_spec(remove_spec(list, tok), tok) == remove_spec(list, tok),
{
    lemma_remove_token_leaves_none(list, tok);
}

/// Adding a token that the list lacks and then removing it gives the list
/// back, with its tokens in their order and case.
pub proof fn lemma_add_then_remove(list: Seq<char>, tok: Seq<char>)
    requires
        valid_token(tok),
        !has_token(split_spec(list), tok),
    ensures
        remove_spec(add_spec(list, tok), tok) == list,
{
    let t = split_spec(list);
    let toks = t.push(tok);
    lemma_split_tokens_clean(list);
    assert forall|i: int| 0 <= i < toks.len() implies !(#[trigger] toks[i]).contains(sep()) by {
        if i < toks.len() - 1 {
            assert(toks[i] == t[i]);
        }
    }
    lemma_split_join(toks);
    assert(eq_ignore_case(toks[toks.len() - 1], tok));
    assert(toks.drop_last() =~= t);
    lemma_without_token(t, tok);
    lemma_join_split(list);
}

} // verus!
