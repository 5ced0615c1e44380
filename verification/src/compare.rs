//! The output comparator: exact equality first, then equality up to ASCII
//! whitespace and ASCII letter case.

use crate::verdict::JudgeStatus;
use vstd::prelude::*;

verus! {

/// Space, tab, line feed, vertical tab, form feed, carriage return.
pub open spec fn is_blank(b: u8) -> bool {
    b == 0x20 || (0x09 <= b <= 0x0d)
}

/// The byte with ASCII lower-case letters raised to upper case.
pub open spec fn upper(b: u8) -> u8 {
    if 0x61 <= b <= 0x7a {
        (b - 0x20) as u8
    } else {
        b
    }
}

/// The bytes of `s` without blanks, letters in upper case.
pub open spec fn canonical(s: Seq<u8>) -> Seq<u8> {
    s.filter(|b: u8| !is_blank(b)).map_values(|b: u8| upper(b))
}

/// The comparator's verdict on a reference and a captured output.
pub open spec fn compare_spec(reference: Seq<u8>, output: Seq<u8>) -> JudgeStatus {
    if reference == output {
        JudgeStatus::Accepted
    } else if canonical(reference) == canonical(output) {
        JudgeStatus::PresentationError
    } else {
        JudgeStatus::WrongAnswer
    }
}

/// `t` can be had from `s` by inserting or removing blanks and by changing
/// the case of ASCII letters.
pub open spec fn presentation_variant(s: Seq<u8>, t: Seq<u8>) -> bool
    decreases s.len() + t.len(),
{
    if s.len() == 0 && t.len() == 0 {
        true
    } else {
        ||| s.len() > 0 && is_blank(s[0]) && presentation_variant(s.drop_first(), t)
        ||| t.len() > 0 && is_blank(t[0]) && presentation_variant(s, t.drop_first())
        ||| s.len() > 0 && t.len() > 0 && upper(s[0]) == upper(t[0]) && presentation_variant(
            s.drop_first(),
            t.drop_first(),
        )
    }
}

pub fn is_blank_byte(b: u8) -> (r: bool)
    ensures
        r == is_blank(b),
{
    b == 0x20 || (0x09 <= b && b <= 0x0d)
}

pub fn to_upper(b: u8) -> (r: u8)
    ensures
        r == upper(b),
{
    if 0x61 <= b && b <= 0x7a {
        b - 0x20
    } else {
        b
    }
}

/// Whether two byte strings are equal, element by element and in length.
pub fn same_bytes(a: &[u8], b: &[u8]) -> (r: bool)
    ensures
        r == (a@ == b@),
{
    if a.len() != b.len() {
        return false;
    }
    let mut i: usize = 0;
    while i < a.len()
        invariant
            a.len() == b.len(),
            i <= a.len(),
            forall|k: int| 0 <= k < i ==> a@[k] == b@[k],
        decreases a.len() - i,
    {
        if a[i] != b[i] {
            return false;
        }
        i = i + 1;
    }
    assert(a@ =~= b@);
    true
}

/// The canonical form of `s`, for the forgiving pass.
pub fn canonicalize(s: &[u8]) -> (out: Vec<u8>)
    ensures
        out@ == canonical(s@),
{
    let mut out: Vec<u8> = Vec::new();
    let mut i: usize = 0;
    let ghost keep = |b: u8| !is_blank(b);
    let ghost fold = |b: u8| upper(b);
    proof {
        reveal(Seq::filter);
        assert(s@.take(0).filter(keep).map_values(fold) =~= out@);
    }
    while i < s.len()
        invariant
            i <= s.len(),
            keep == (|b: u8| !is_blank(b)),
            fold == (|b: u8| upper(b)),
            out@ == s@.take(i as int).filter(keep).map_values(fold),
        decreases s.len() - i,
    {
        let b = s[i];
        proof {
            let prefix = s@.take(i as int);
            assert(s@.take(i + 1) =~= prefix.push(b));
            prefix.lemma_filter_push(b, keep);
            if !is_blank(b) {
                assert(prefix.filter(keep).push(b).map_values(fold) =~= prefix.filter(
                    keep,
                ).map_values(fold).push(upper(b)));
            }
        }
        if !is_blank_byte(b) {
            out.push(to_upper(b));
        }
        i = i + 1;
    }
    assert(s@.take(s.len() as int) =~= s@);
    out
}

/// Compares a captured output with the reference.
///
/// Byte-identical contents are `Accepted`; contents that agree once blanks
/// are dropped and letters are raised to upper case are `PresentationError`;
/// anything else is `WrongAnswer`.
pub fn compare_content(reference: &[u8], output: &[u8]) -> (status: JudgeStatus)
    ensures
        status == compare_spec(reference@, output@),
{
    if same_bytes(reference, output) {
        JudgeStatus::Accepted
    } else {
        let left = canonicalize(reference);
        let right = canonicalize(output);
        if same_bytes(left.as_slice(), right.as_slice()) {
            JudgeStatus::PresentationError
        } else {
            JudgeStatus::WrongAnswer
        }
    }
}

/// The canonical form of a non-empty string, read from its first byte.
pub proof fn lemma_canonical_first(s: Seq<u8>)
    requires
        s.len() > 0,
    ensures
        canonical(s) == (if is_blank(s[0]) {
            Seq::<u8>::empty()
        } else {
            seq![upper(s[0])]
        }) + canonical(s.drop_first()),
{
    let keep = |b: u8| !is_blank(b);
    let fold = |b: u8| upper(b);
    let rest = s.drop_first();
    assert(s =~= seq![s[0]] + rest);
    rest.lemma_filter_prepend(s[0], keep);
    let head = if is_blank(s[0]) {
        Seq::<u8>::empty()
    } else {
        seq![s[0]]
    };
    assert((head + rest.filter(keep)).map_values(fold) =~= head.map_values(fold) + rest.filter(
        keep,
    ).map_values(fold));
    assert(head.map_values(fold) =~= (if is_blank(s[0]) {
        Seq::<u8>::empty()
    } else {
        seq![upper(s[0])]
    }));
}

/// Any byte string compared with itself is `Accepted`.
pub proof fn lemma_compare_identical(s: Seq<u8>)
    ensures
        compare_spec(s, s) == JudgeStatus::Accepted,
{
}

/// Two byte strings have the same canonical form exactly when one can be had
/// from the other by inserting or removing blanks and changing letter case.
pub proof fn lemma_canonical_iff_variant(s: Seq<u8>, t: Seq<u8>)
    ensures
        presentation_variant(s, t) <==> canonical(s) == canonical(t),
    decreases s.len() + t.len(),
{
    if s.len() > 0 {
        lemma_canonical_first(s);
    }
    if t.len() > 0 {
        lemma_canonical_first(t);
    }
    if s.len() == 0 && t.len() == 0 {
        assert(s =~= t);
    } else {
        if s.len() > 0 {
            lemma_canonical_iff_variant(s.drop_first(), t);
        }
        if t.len() > 0 {
            lemma_canonical_iff_variant(s, t.drop_first());
        }
        if s.len() > 0 && t.len() > 0 {
            lemma_canonical_iff_variant(s.drop_first(), t.drop_first());
        }
        let cs = canonical(s);
        let ct = canonical(t);
        if s.len() > 0 && !is_blank(s[0]) && t.len() > 0 && !is_blank(t[0]) {
            let cs1 = canonical(s.drop_first());
            let ct1 = canonical(t.drop_first());
            assert(cs[0] == upper(s[0]));
            assert(ct[0] == upper(t[0]));
            assert(cs.drop_first() =~= cs1);
            assert(ct.drop_first() =~= ct1);
            if upper(s[0]) == upper(t[0]) && cs1 == ct1 {
                assert(cs =~= ct);
            }
        } else if s.len() > 0 && !is_blank(s[0]) && t.len() == 0 {
            assert(cs.len() > 0);
            assert(ct =~= Seq::<u8>::empty()) by {
                reveal(Seq::filter);
            }
        } else if t.len() > 0 && !is_blank(t[0]) && s.len() == 0 {
            assert(ct.len() > 0);
            assert(cs =~= Seq::<u8>::empty()) by {
                reveal(Seq::filter);
            }
        } else {
            if s.len() > 0 && is_blank(s[0]) {
                assert(cs =~= canonical(s.drop_first()));
            }
            if t.len() > 0 && is_blank(t[0]) {
                assert(ct =~= canonical(t.drop_first()));
            }
        }
    }
}

/// It makes no difference which of the two is the reference.
pub proof fn lemma_compare_symmetric(a: Seq<u8>, b: Seq<u8>)
    ensures
        compare_spec(a, b) == compare_spec(b, a),
{
}

/// An output that differs from the reference only in blanks and in letter
/// case is never a `WrongAnswer`: it is `Accepted` when the two are
/// byte-identical and `PresentationError` otherwise.
pub proof fn lemma_compare_variant(reference: Seq<u8>, output: Seq<u8>)
    requires
        presentation_variant(reference, output),
    ensures
        compare_spec(reference, output) == (if reference == output {
            JudgeStatus::Accepted
        } else {
            JudgeStatus::PresentationError
        }),
{
    lemma_canonical_iff_variant(reference, output);
}

/// `WrongAnswer` is returned exactly for outputs that differ from the
/// reference in more than blanks and letter case.
pub proof fn lemma_wrong_answer_iff_not_variant(reference: Seq<u8>, output: Seq<u8>)
    ensures
        compare_spec(reference, output) == JudgeStatus::WrongAnswer <==> !presentation_variant(
            reference,
            output,
        ),
{
    lemma_canonical_iff_variant(reference, output);
    lemma_canonical_iff_variant(reference, reference);
}

} // verus!
