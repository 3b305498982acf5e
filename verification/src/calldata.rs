//! On-chain calldata: formatting a proof for the verifier contract, and
//! parsing the proving toolchain's textual calldata output.
//!
//! The formatter emits decimal strings.  The G2 point's two extension-field
//! components are emitted in reversed order (`[c1, c0]`) relative to the
//! internal storage order, because that is the convention the target
//! verifier contract expects.
//!
//! The parser extracts the double-quoted tokens of the toolchain's output in
//! textual order, assigns them positionally, and holds the punctuation
//! around them to the layout's bracket-and-comma skeleton; an unmatched
//! quote, too few tokens or punctuation off the layout is reported as
//! `CalldataUnavailable` — placeholder values are never substituted.

use vstd::prelude::*;
use vstd::string::StrSliceExecFns;
use crate::errors::ZkError;
use crate::field::ScalarElement;
use crate::numeric::{dec_ok, dec_val};
use crate::proofs::Proof;

verus! {

/// Proof arguments in the verifier contract's layout: `a` and `c` are pairs
/// of decimal strings, `b` is a 2x2 nesting with each component pair
/// reversed, `inputs` the ordered public-input strings.
pub struct SolidityCalldata {
    pub a: Vec<String>,
    pub b: Vec<Vec<String>>,
    pub c: Vec<String>,
    pub inputs: Vec<String>,
}

/// Formats a proof and its public inputs for the on-chain verifier.  All
/// strings are canonical decimals; `b` carries each extension-field pair in
/// the reversed order `[c1, c0]`.
pub fn to_calldata(proof: &Proof, public_inputs: &Vec<ScalarElement>) -> (r: SolidityCalldata)
    requires
        proof.wf(),
    ensures
        r.a@.len() == 2,
        r.b@.len() == 2,
        r.b@[0]@.len() == 2,
        r.b@[1]@.len() == 2,
        r.c@.len() == 2,
        dec_ok(r.a@[0]@) && dec_val(r.a@[0]@) == proof.a.x.value(),
        dec_ok(r.a@[1]@) && dec_val(r.a@[1]@) == proof.a.y.value(),
        dec_ok(r.b@[0]@[0]@) && dec_val(r.b@[0]@[0]@) == proof.b.x_c1.value(),
        dec_ok(r.b@[0]@[1]@) && dec_val(r.b@[0]@[1]@) == proof.b.x_c0.value(),
        dec_ok(r.b@[1]@[0]@) && dec_val(r.b@[1]@[0]@) == proof.b.y_c1.value(),
        dec_ok(r.b@[1]@[1]@) && dec_val(r.b@[1]@[1]@) == proof.b.y_c0.value(),
        dec_ok(r.c@[0]@) && dec_val(r.c@[0]@) == proof.c.x.value(),
        dec_ok(r.c@[1]@) && dec_val(r.c@[1]@) == proof.c.y.value(),
        r.inputs@.len() == public_inputs@.len(),
        forall|k: int|
            0 <= k < public_inputs@.len() ==> dec_ok(#[trigger] r.inputs@[k]@) && dec_val(
                r.inputs@[k]@,
            ) == public_inputs@[k].value(),
{
    let a = vec![proof.a.x.to_decimal(), proof.a.y.to_decimal()];
    let b_row0 = vec![proof.b.x_c1.to_decimal(), proof.b.x_c0.to_decimal()];
    let b_row1 = vec![proof.b.y_c1.to_decimal(), proof.b.y_c0.to_decimal()];
    let b = vec![b_row0, b_row1];
    let c = vec![proof.c.x.to_decimal(), proof.c.y.to_decimal()];
    let mut inputs: Vec<String> = Vec::new();
    let mut k: usize = 0;
    while k < public_inputs.len()
        invariant
            k <= public_inputs@.len(),
            inputs@.len() == k,
            forall|m: int|
                0 <= m < k ==> dec_ok(#[trigger] inputs@[m]@) && dec_val(inputs@[m]@)
                    == public_inputs@[m].value(),
        decreases public_inputs@.len() - k,
    {
        inputs.push(public_inputs[k].to_decimal());
        k = k + 1;
    }
    SolidityCalldata { a, b, c, inputs }
}

/// The index of the first double quote in `s`, or `s.len()` if there is
/// none.
pub open spec fn spec_close_quote(s: Seq<char>) -> int
    decreases s.len(),
{
    if s.len() == 0 {
        0
    } else if s[0] == '"' {
        0
    } else {
        1 + spec_close_quote(s.drop_first())
    }
}

pub proof fn lemma_close_quote_bounds(s: Seq<char>)
    ensures
        0 <= spec_close_quote(s) <= s.len(),
    decreases s.len(),
{
    if s.len() > 0 && s[0] != '"' {
        lemma_close_quote_bounds(s.drop_first());
    }
}

/// `spec_close_quote` is the least quote position: if the first `k`
/// characters hold no quote and position `k` (if inside) holds one, the
/// function returns `k`.
pub proof fn lemma_close_quote_at(s: Seq<char>, k: int)
    requires
        0 <= k <= s.len(),
        forall|m: int| 0 <= m < k ==> s[m] != '"',
        k < s.len() ==> s[k] == '"',
    ensures
        k < s.len() ==> spec_close_quote(s) == k,
        k == s.len() ==> spec_close_quote(s) >= s.len(),
    decreases k,
{
    if s.len() == 0 {
    } else if k == 0 {
    } else {
        assert(s[0] != '"');
        lemma_close_quote_at(s.drop_first(), k - 1);
    }
}

/// The double-quoted tokens of `s`, in textual order; `None` when a quote
/// is left unmatched.
pub open spec fn spec_tokens(s: Seq<char>) -> Option<Seq<Seq<char>>>
    decreases s.len(),
    via spec_tokens_decreases
{
    if s.len() == 0 {
        Some(Seq::empty())
    } else if s[0] != '"' {
        spec_tokens(s.drop_first())
    } else {
        let body = s.drop_first();
        let k = spec_close_quote(body);
        if k >= body.len() {
            None
        } else {
            match spec_tokens(body.skip(k + 1)) {
                Some(rest) => Some(seq![body.subrange(0, k)] + rest),
                None => None,
            }
        }
    }
}

#[via_fn]
proof fn spec_tokens_decreases(s: Seq<char>) {
    if s.len() != 0 && s[0] == '"' {
        lemma_close_quote_bounds(s.drop_first());
    }
}

/// Whitespace tolerated between the layout's punctuation.
pub open spec fn is_layout_ws(c: char) -> bool {
    c == ' ' || c == '\n' || c == '\r' || c == '\t'
}

/// The punctuation skeleton of `s`: every character standing outside the
/// double-quoted tokens, with whitespace dropped.  (For text with an
/// unmatched quote the value is immaterial: `spec_tokens` is already
/// `None`.)
pub open spec fn spec_skeleton(s: Seq<char>) -> Seq<char>
    decreases s.len(),
    via spec_skeleton_decreases
{
    if s.len() == 0 {
        Seq::empty()
    } else if s[0] != '"' {
        if is_layout_ws(s[0]) {
            spec_skeleton(s.drop_first())
        } else {
            seq![s[0]] + spec_skeleton(s.drop_first())
        }
    } else {
        let body = s.drop_first();
        let k = spec_close_quote(body);
        if k >= body.len() {
            Seq::empty()
        } else {
            spec_skeleton(body.skip(k + 1))
        }
    }
}

#[via_fn]
proof fn spec_skeleton_decreases(s: Seq<char>) {
    if s.len() != 0 && s[0] == '"' {
        lemma_close_quote_bounds(s.drop_first());
    }
}

/// `n` commas.
pub open spec fn spec_commas(n: int) -> Seq<char>
    decreases n,
{
    if n <= 0 {
        Seq::empty()
    } else {
        spec_commas(n - 1).push(',')
    }
}

/// The punctuation skeleton of a well-formed calldata text with `n_inputs`
/// public inputs: the `a` pair, the 2x2 `b` nesting, the `c` pair, and the
/// input array.
pub open spec fn spec_expected_skeleton(n_inputs: int) -> Seq<char> {
    seq![
        '[', ',', ']', ',', '[', '[', ',', ']', ',', '[', ',', ']', ']', ',', '[', ',', ']', ',',
        '[',
    ] + spec_commas(n_inputs - 1) + seq![']']
}

/// Parses the toolchain's textual calldata: collects the double-quoted
/// tokens in order and assigns them positionally — two for `a`, four for
/// `b` (row-major, already in the contract's reversed component order),
/// two for `c`, the rest as public inputs — and checks that the punctuation
/// around them is exactly the calldata layout's bracket-and-comma skeleton
/// (whitespace tolerated).  Anything else — an unmatched quote, too few
/// tokens, punctuation off the layout — is reported as unavailable;
/// placeholder values are never substituted.
#[verifier::loop_isolation(false)]
pub fn parse_solidity_calldata(s: &str) -> (r: Result<SolidityCalldata, ZkError>)
    ensures
        (r matches Ok(_)) <==> (spec_tokens(s@) matches Some(ts) && ts.len() >= 8
            && spec_skeleton(s@) == spec_expected_skeleton(ts.len() - 8)),
        r matches Err(e) ==> e == ZkError::CalldataUnavailable,
        spec_tokens(s@) matches Some(ts) ==> (ts.len() >= 8 && spec_skeleton(s@)
            == spec_expected_skeleton(ts.len() - 8)) ==> (r matches Ok(cd) && cd.a@.len() == 2
            && cd.b@.len() == 2 && cd.b@[0]@.len() == 2 && cd.b@[1]@.len() == 2 && cd.c@.len() == 2
            && cd.a@[0]@ == ts[0] && cd.a@[1]@ == ts[1] && cd.b@[0]@[0]@ == ts[2] && cd.b@[0]@[1]@
            == ts[3] && cd.b@[1]@[0]@ == ts[4] && cd.b@[1]@[1]@ == ts[5] && cd.c@[0]@ == ts[6]
            && cd.c@[1]@ == ts[7] && cd.inputs@.len() == ts.len() - 8 && (forall|m: int|
            0 <= m < ts.len() - 8 ==> #[trigger] cd.inputs@[m]@ == ts[m + 8])),
{
    let n = s.unicode_len();
    let mut toks: Vec<String> = Vec::new();
    let mut skel: Vec<char> = Vec::new();
    let mut i: usize = 0;
    proof {
        assert(s@.skip(0) =~= s@);
        if spec_tokens(s@) is Some {
            assert(toks.deep_view() + spec_tokens(s@)->Some_0 =~= spec_tokens(s@)->Some_0);
        }
        assert(skel@ + spec_skeleton(s@) =~= spec_skeleton(s@));
    }
    while i < n
        invariant
            i <= n,
            spec_tokens(s@) == (match spec_tokens(s@.skip(i as int)) {
                Some(rest) => Some(toks.deep_view() + rest),
                None => None::<Seq<Seq<char>>>,
            }),
            spec_skeleton(s@) == skel@ + spec_skeleton(s@.skip(i as int)),
        decreases n - i,
    {
        let c = s.get_char(i);
        if c != '"' {
            proof {
                assert(s@.skip(i as int).drop_first() =~= s@.skip(i as int + 1));
            }
            let is_ws = c == ' ' || c == '\n' || c == '\r' || c == '\t';
            if !is_ws {
                let ghost skel0 = skel@;
                skel.push(c);
                proof {
                    assert(skel0 + (seq![c] + spec_skeleton(s@.skip(i as int + 1))) =~= skel@
                        + spec_skeleton(s@.skip(i as int + 1)));
                }
            }
            i = i + 1;
        } else {
            let ghost body = s@.skip(i as int + 1);
            let mut j: usize = i + 1;
            while j < n && s.get_char(j) != '"'
                invariant
                    i + 1 <= j <= n,
                    forall|m: int| i + 1 <= m < j ==> s@[m] != '"',
                decreases n - j,
            {
                j = j + 1;
            }
            proof {
                assert(s@.skip(i as int).drop_first() =~= body);
                assert(forall|m: int|
                    0 <= m < j - (i + 1) ==> body[m] == s@[m + i + 1] && #[trigger] body[m] != '"');
                lemma_close_quote_at(body, j - (i + 1));
            }
            if j >= n {
                assert(spec_tokens(s@) is None);
                return Err(ZkError::CalldataUnavailable);
            }
            let t = s.substring_char(i + 1, j).to_owned();
            proof {
                assert(t@ =~= body.subrange(0, j - (i + 1)));
            }
            let ghost toks0 = toks.deep_view();
            toks.push(t);
            proof {
                assert(toks.deep_view() =~= toks0.push(t@));
                assert(body.skip(j - (i + 1) + 1) =~= s@.skip(j as int + 1));
                if spec_tokens(s@.skip(j as int + 1)) is Some {
                    let rest = spec_tokens(s@.skip(j as int + 1))->Some_0;
                    assert(toks0 + (seq![t@] + rest) =~= toks.deep_view() + rest);
                }
            }
            i = j + 1;
        }
    }
    proof {
        assert(s@.skip(n as int).len() == 0);
        assert(toks.deep_view() + Seq::<Seq<char>>::empty() =~= toks.deep_view());
        assert(skel@ + Seq::<char>::empty() =~= skel@);
    }
    if toks.len() < 8 {
        return Err(ZkError::CalldataUnavailable);
    }
    let n_inputs = toks.len() - 8;
    let mut expected: Vec<char> = vec![
        '[', ',', ']', ',', '[', '[', ',', ']', ',', '[', ',', ']', ']', ',', '[', ',', ']', ',',
        '[',
    ];
    let commas: usize = if n_inputs == 0 {
        0
    } else {
        n_inputs - 1
    };
    let ghost fixed = expected@;
    let mut m: usize = 0;
    while m < commas
        invariant
            m <= commas,
            expected@ == fixed + spec_commas(m as int),
        decreases commas - m,
    {
        expected.push(',');
        proof {
            assert(expected@ =~= fixed + spec_commas(m as int + 1));
        }
        m = m + 1;
    }
    expected.push(']');
    proof {
        assert(spec_commas(0) =~= Seq::<char>::empty());
        assert(expected@ =~= spec_expected_skeleton(n_inputs as int));
    }
    if !chars_eq(&skel, &expected) {
        return Err(ZkError::CalldataUnavailable);
    }
    let a = vec![toks[0].clone(), toks[1].clone()];
    let b_row0 = vec![toks[2].clone(), toks[3].clone()];
    let b_row1 = vec![toks[4].clone(), toks[5].clone()];
    let b = vec![b_row0, b_row1];
    let c = vec![toks[6].clone(), toks[7].clone()];
    let mut inputs: Vec<String> = Vec::new();
    let mut k: usize = 8;
    while k < toks.len()
        invariant
            8 <= k <= toks@.len(),
            inputs@.len() == k - 8,
            forall|m: int| 0 <= m < k - 8 ==> #[trigger] inputs@[m]@ == toks@[m + 8]@,
        decreases toks@.len() - k,
    {
        inputs.push(toks[k].clone());
        k = k + 1;
    }
    Ok(SolidityCalldata { a, b, c, inputs })
}

/// Exact equality of two character vectors.
fn chars_eq(a: &Vec<char>, b: &Vec<char>) -> (r: bool)
    ensures
        r == (a@ == b@),
{
    if a.len() != b.len() {
        return false;
    }
    let mut i: usize = 0;
    while i < a.len()
        invariant
            i <= a@.len(),
            a@.len() == b@.len(),
            forall|j: int| 0 <= j < i ==> a@[j] == b@[j],
        decreases a@.len() - i,
    {
        if a[i] != b[i] {
            return false;
        }
        i = i + 1;
    }
    proof {
        assert(a@ =~= b@);
    }
    true
}

} // verus!
