//! Properties of resolution and conversion, stated over the models that the
//! executable functions are proved against.

use vstd::prelude::*;
use crate::charset::{bom_of, encoded};
use crate::pipeline::{
    clean_under, conversion, first_clean, first_clean_from, outcome_is, resolution, source_text,
    successes, usable_guess, Conversion, ConvertError, Source,
};

verus! {

/// A buffer that starts with a byte-order mark resolves to the encoding the
/// mark announces, with the mark's length, whatever the fallback list holds.
pub proof fn lemma_bom_precedence(b: Seq<u8>, labels: Seq<Seq<char>>, e: Seq<char>, n: nat)
    requires
        bom_of(b) == Some((e, n)),
    ensures
        resolution(b, labels) == Some((e, n, Source::Bom)),
{
}

/// Without a mark or a usable guess, the fallback labels are tried in order:
/// with `[a, m, c]`, `a` lossy and `m` clean, `m` is chosen.
pub proof fn lemma_fallback_order(b: Seq<u8>, a: Seq<char>, m: Seq<char>, c: Seq<char>)
    requires
        bom_of(b) is None,
        !usable_guess(b),
        !clean_under(a, b),
        clean_under(m, b),
    ensures
        resolution(b, seq![a, m, c]) == Some((m, 0nat, Source::Fallback)),
{
    let ls = seq![a, m, c];
    assert(ls[0] == a && ls[1] == m);
    assert(first_clean_from(ls, b, 1) == Some(1int));
    assert(first_clean(ls, b) == Some(1int));
}

/// No label from index `i` on decodes cleanly: the scan from `i` finds none.
proof fn lemma_none_clean_from(labels: Seq<Seq<char>>, b: Seq<u8>, i: int)
    requires
        0 <= i,
        forall|j: int| i <= j < labels.len() ==> !clean_under(#[trigger] labels[j], b),
    ensures
        first_clean_from(labels, b, i) is None,
    decreases labels.len() - i,
{
    if i < labels.len() {
        lemma_none_clean_from(labels, b, i + 1);
    }
}

/// Without a mark or a usable guess, and with no fallback label that decodes
/// cleanly, resolution fails and conversion produces no bytes.
pub proof fn lemma_exhaustion(b: Seq<u8>, target: Seq<char>, labels: Seq<Seq<char>>)
    requires
        bom_of(b) is None,
        !usable_guess(b),
        forall|j: int| 0 <= j < labels.len() ==> !clean_under(#[trigger] labels[j], b),
    ensures
        resolution(b, labels) is None,
        conversion(b, target, labels) == Err::<(Seq<u8>, Seq<char>), ConvertError>(
            ConvertError::NoEncodingResolved,
        ),
{
    lemma_none_clean_from(labels, b, 0);
}

/// Text that the target encoding can only write with substitutions is never
/// converted: the outcome is a refusal, with no bytes.
pub proof fn lemma_lossy_target_rejected(
    b: Seq<u8>,
    target: Seq<char>,
    labels: Seq<Seq<char>>,
    used: Seq<char>,
    text: Seq<char>,
)
    requires
        source_text(b, labels) == Some((used, text)),
        encoded(target, text).1,
    ensures
        conversion(b, target, labels) == Err::<(Seq<u8>, Seq<char>), ConvertError>(
            ConvertError::TargetUnrepresentable,
        ),
{
}

/// The number of files among the first `n` of a batch that convert on their
/// own.
pub open spec fn converted_count(
    files: Seq<Seq<u8>>,
    target: Seq<char>,
    labels: Seq<Seq<char>>,
    n: int,
) -> nat
    decreases n,
{
    if n <= 0 || n > files.len() {
        0
    } else {
        converted_count(files, target, labels, n - 1) + if conversion(
            files[n - 1],
            target,
            labels,
        ) is Ok {
            1nat
        } else {
            0nat
        }
    }
}

/// A batch whose outcomes are each file's own conversion reports as many
/// successes as there are files that convert on their own: a failing file
/// neither stops the batch nor changes the count of the others.
pub proof fn lemma_batch_report(
    files: Seq<Seq<u8>>,
    target: Seq<char>,
    labels: Seq<Seq<char>>,
    results: Seq<Result<Conversion, ConvertError>>,
    n: int,
)
    requires
        results.len() == files.len(),
        0 <= n <= files.len(),
        forall|i: int|
            0 <= i < files.len() ==> #[trigger] outcome_is(
                results[i],
                conversion(files[i], target, labels),
            ),
    ensures
        successes(results, n) == converted_count(files, target, labels, n),
    decreases n,
{
    if n > 0 {
        lemma_batch_report(files, target, labels, results, n - 1);
        assert(outcome_is(results[n - 1], conversion(files[n - 1], target, labels)));
    }
}

} // verus!
