//! Shader-source templating: replacing `$name` placeholders.
//!
//! Shader sources carry named `$key` placeholders that are substituted with
//! code snippets before compilation.  The substitution is plain text logic
//! and is verified here over byte strings: each `(key, value)` pair
//! replaces every occurrence of `$key`, leftmost first and without overlap,
//! and the pairs apply in list order, so the result is a function of the
//! inputs.

use vstd::prelude::*;

verus! {

/// `text` with every occurrence of `pat` replaced by `sub`, scanning left
/// to right without overlap.  An empty pattern replaces nothing.
pub open spec fn replace_bytes(text: Seq<u8>, pat: Seq<u8>, sub: Seq<u8>) -> Seq<u8>
    decreases text.len(),
{
    if pat.len() == 0 || text.len() < pat.len() {
        text
    } else if text.take(pat.len() as int) == pat {
        sub + replace_bytes(text.skip(pat.len() as int), pat, sub)
    } else {
        text.take(1) + replace_bytes(text.skip(1), pat, sub)
    }
}

/// The text after applying the first k parameter pairs in order, each
/// replacing `$key` by its value.
pub open spec fn parametrized(text: Seq<u8>, params: Seq<(Seq<u8>, Seq<u8>)>, k: int) -> Seq<u8>
    decreases k,
{
    if k <= 0 {
        text
    } else {
        replace_bytes(
            parametrized(text, params, k - 1),
            seq![0x24u8] + params[k - 1].0,
            params[k - 1].1,
        )
    }
}

/// Whether `pat` occurs in `text` at position i.
fn matches_at(text: &Vec<u8>, i: usize, pat: &Vec<u8>) -> (b: bool)
    requires
        i + pat@.len() <= text@.len(),
    ensures
        b == (text@.skip(i as int).take(pat@.len() as int) == pat@),
{
    let tl = text.len();
    let mut k: usize = 0;
    while k < pat.len()
        invariant
            tl == text@.len(),
            i + pat@.len() <= text@.len(),
            k <= pat@.len(),
            forall|j: int| 0 <= j < k ==> text@[i + j] == pat@[j],
        decreases pat@.len() - k,
    {
        proof {
            assert(i + k < tl);
        }
        if text[i + k] != pat[k] {
            proof {
                assert(text@.skip(i as int).take(pat@.len() as int)[k as int] != pat@[k as int]);
            }
            return false;
        }
        k = k + 1;
    }
    proof {
        assert(text@.skip(i as int).take(pat@.len() as int) =~= pat@);
    }
    true
}

/// `text` with every occurrence of `pat` replaced by `sub`.
pub fn replace_all(text: &Vec<u8>, pat: &Vec<u8>, sub: &Vec<u8>) -> (r: Vec<u8>)
    ensures
        r@ == replace_bytes(text@, pat@, sub@),
{
    let mut out: Vec<u8> = Vec::new();
    if pat.len() == 0 {
        let mut i: usize = 0;
        while i < text.len()
            invariant
                i <= text@.len(),
                out@ == text@.take(i as int),
            decreases text@.len() - i,
        {
            out.push(text[i]);
            proof {
                assert(out@ =~= text@.take(i + 1));
            }
            i = i + 1;
        }
        proof {
            assert(out@ =~= text@);
        }
        return out;
    }
    let mut i: usize = 0;
    proof {
        assert(text@.skip(0) =~= text@);
        assert(out@ + replace_bytes(text@, pat@, sub@) =~= replace_bytes(text@, pat@, sub@));
    }
    while i < text.len()
        invariant
            pat@.len() >= 1,
            i <= text@.len(),
            replace_bytes(text@, pat@, sub@) == out@ + replace_bytes(
                text@.skip(i as int),
                pat@,
                sub@,
            ),
        decreases text@.len() - i,
    {
        let ghost pre = out@;
        if pat.len() <= text.len() - i && matches_at(text, i, pat) {
            let mut k: usize = 0;
            while k < sub.len()
                invariant
                    k <= sub@.len(),
                    out@ == pre + sub@.take(k as int),
                decreases sub@.len() - k,
            {
                out.push(sub[k]);
                proof {
                    assert(out@ =~= pre + sub@.take(k + 1));
                }
                k = k + 1;
            }
            proof {
                assert(out@ =~= pre + sub@);
                lemma_replace_step_match(text@, pat@, sub@, i as int);
                assert((pre + sub@) + replace_bytes(text@.skip(i + pat@.len()), pat@, sub@) =~= pre
                    + (sub@ + replace_bytes(text@.skip(i + pat@.len()), pat@, sub@)));
            }
            i = i + pat.len();
        } else {
            out.push(text[i]);
            proof {
                lemma_replace_step_nomatch(text@, pat@, sub@, i as int);
                assert(out@ =~= pre + seq![text@[i as int]]);
                assert((pre + seq![text@[i as int]]) + replace_bytes(text@.skip(i + 1), pat@, sub@)
                    =~= pre + (seq![text@[i as int]] + replace_bytes(text@.skip(i + 1), pat@, sub@)));
            }
            i = i + 1;
        }
    }
    proof {
        assert(text@.skip(i as int) =~= Seq::empty());
        assert(replace_bytes(Seq::empty(), pat@, sub@) == Seq::<u8>::empty());
        assert(out@ =~= out@ + Seq::<u8>::empty());
    }
    out
}


/// One step of the replacement at a match: the suffix at i starts with the
/// pattern, so its replacement is the substitute followed by the
/// replacement of the suffix past the pattern.
proof fn lemma_replace_step_match(text: Seq<u8>, pat: Seq<u8>, sub: Seq<u8>, i: int)
    requires
        0 <= i,
        i + pat.len() <= text.len(),
        pat.len() >= 1,
        text.skip(i).take(pat.len() as int) == pat,
    ensures
        replace_bytes(text.skip(i), pat, sub) == sub + replace_bytes(
            text.skip(i + pat.len()),
            pat,
            sub,
        ),
{
    assert(text.skip(i).skip(pat.len() as int) =~= text.skip(i + pat.len()));
}

/// One step of the replacement at a mismatch (or too short a suffix): the
/// replacement keeps the byte at i and continues past it.
proof fn lemma_replace_step_nomatch(text: Seq<u8>, pat: Seq<u8>, sub: Seq<u8>, i: int)
    requires
        0 <= i < text.len(),
        pat.len() >= 1,
        i + pat.len() <= text.len() ==> text.skip(i).take(pat.len() as int) != pat,
    ensures
        replace_bytes(text.skip(i), pat, sub) == seq![text[i]] + replace_bytes(
            text.skip(i + 1),
            pat,
            sub,
        ),
{
    let rest = text.skip(i);
    if rest.len() >= pat.len() {
        assert(rest.take(1) =~= seq![text[i]]);
        assert(rest.skip(1) =~= text.skip(i + 1));
    } else {
        // The suffix is shorter than the pattern: nothing is replaced in
        // it, nor in the suffix one byte later.
        assert(replace_bytes(rest, pat, sub) == rest);
        assert(text.skip(i + 1).len() < pat.len());
        assert(replace_bytes(text.skip(i + 1), pat, sub) == text.skip(i + 1));
        assert(rest =~= seq![text[i]] + text.skip(i + 1));
    }
}

/// A template that placeholder substitution applies to.
pub trait Parametrized {
    /// What the substituted text satisfies.
    spec fn parametrize_post(&self, params: &Vec<(Vec<u8>, Vec<u8>)>, r: Seq<u8>) -> bool;

    /// Every pair's `$key` replaced by its value, pairs in list order.
    fn parametrize(&self, params: &Vec<(Vec<u8>, Vec<u8>)>) -> (r: Vec<u8>)
        ensures
            self.parametrize_post(params, r@),
    ;
}

/// The substitution with its exact contract.
pub fn parametrize_bytes(text: &Vec<u8>, params: &Vec<(Vec<u8>, Vec<u8>)>) -> (r: Vec<u8>)
    ensures
        r@ == parametrized(
            text@,
            params@.map_values(|p: (Vec<u8>, Vec<u8>)| (p.0@, p.1@)),
            params@.len() as int,
        ),
{
    let ghost pview = params@.map_values(|p: (Vec<u8>, Vec<u8>)| (p.0@, p.1@));
    let mut copy: Vec<u8> = Vec::new();
    let mut j: usize = 0;
    while j < text.len()
        invariant
            j <= text@.len(),
            copy@ == text@.take(j as int),
        decreases text@.len() - j,
    {
        copy.push(text[j]);
        proof {
            assert(copy@ =~= text@.take(j + 1));
        }
        j = j + 1;
    }
    proof {
        assert(copy@ =~= text@);
    }
    let mut g: usize = 0;
    while g < params.len()
        invariant
            pview == params@.map_values(|p: (Vec<u8>, Vec<u8>)| (p.0@, p.1@)),
            g <= params@.len(),
            copy@ == parametrized(text@, pview, g as int),
        decreases params@.len() - g,
    {
        let (key, value) = &params[g];
        let mut pat: Vec<u8> = Vec::new();
        pat.push(0x24);
        let mut k: usize = 0;
        while k < key.len()
            invariant
                key@ == params@[g as int].0@,
                k <= key@.len(),
                pat@ == seq![0x24u8] + key@.take(k as int),
            decreases key@.len() - k,
        {
            pat.push(key[k]);
            proof {
                assert(pat@ =~= seq![0x24u8] + key@.take(k + 1));
            }
            k = k + 1;
        }
        proof {
            assert(pat@ =~= seq![0x24u8] + pview[g as int].0);
        }
        copy = replace_all(&copy, &pat, value);
        g = g + 1;
    }
    copy
}

impl Parametrized for Vec<u8> {
    /// The result is exactly the pairs applied in list order.
    open spec fn parametrize_post(&self, params: &Vec<(Vec<u8>, Vec<u8>)>, r: Seq<u8>) -> bool {
        r == parametrized(
            self@,
            params@.map_values(|p: (Vec<u8>, Vec<u8>)| (p.0@, p.1@)),
            params@.len() as int,
        )
    }

    fn parametrize(&self, params: &Vec<(Vec<u8>, Vec<u8>)>) -> (r: Vec<u8>) {
        parametrize_bytes(self, params)
    }
}

} // verus!
