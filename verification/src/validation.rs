//! Prime-label rules. A Nest may carry at most one "prime" label (project XOR
//! tension XOR role …); naming more than one is a semantic conflict the API would
//! reject, so it is caught before any request is sent.

use vstd::prelude::*;

use crate::text::{decimal, join, push_decimal, push_str, str_eq, to_owned_string, views};

verus! {

/// The labels that define what a Nest fundamentally *is*, in sorted order.
pub open spec fn spec_prime_labels() -> Seq<Seq<char>> {
    seq![
        "anchor-circle"@,
        "checklist"@,
        "circle"@,
        "feedback"@,
        "goal"@,
        "meeting"@,
        "metric"@,
        "project"@,
        "result"@,
        "role"@,
        "tension"@,
    ]
}

pub open spec fn is_prime_spec(label: Seq<char>) -> bool {
    spec_prime_labels().contains(label)
}

/// The prime labels of `labels`, in their original order.
pub open spec fn primes_of(labels: Seq<Seq<char>>) -> Seq<Seq<char>>
    decreases labels.len(),
{
    if labels.len() == 0 {
        seq![]
    } else {
        let p = primes_of(labels.drop_last());
        if is_prime_spec(labels.last()) {
            p.push(labels.last())
        } else {
            p
        }
    }
}

/// The views of a list of strings.
pub open spec fn string_views(v: Seq<String>) -> Seq<Seq<char>> {
    v.map_values(|s: String| s@)
}

/// Why a label set was refused.
#[derive(Debug)]
pub enum LabelError {
    /// More than one prime label was given; holds them in the order given.
    TooManyPrimes { primes: Vec<String> },
    /// The nest already carries `current`, a different prime than `adding`.
    PrimeConflict { current: String, adding: String },
}

pub open spec fn too_many_primes_message(primes: Seq<Seq<char>>) -> Seq<char> {
    "A nest can have only one prime label, but "@ + decimal(primes.len()) + " were given: "@
        + join(primes, ", "@) + ". Pick one, or link separate nests instead."@
}

pub open spec fn prime_conflict_message(current: Seq<char>, adding: Seq<char>) -> Seq<char> {
    "This nest is already a '"@ + current + "' — a nest can have only one prime label. Remove '"@
        + current + "' first, or use `nests update --label "@ + adding
        + "` to replace the set."@
}

impl LabelError {
    pub open spec fn message(&self) -> Seq<char> {
        match self {
            LabelError::TooManyPrimes { primes } => too_many_primes_message(string_views(primes@)),
            LabelError::PrimeConflict { current, adding } => prime_conflict_message(
                current@,
                adding@,
            ),
        }
    }

    /// The message shown to the user.
    pub fn to_string(&self) -> (r: String)
        ensures
            r@ == self.message(),
    {
        match self {
            LabelError::TooManyPrimes { primes } => {
                let mut s = to_owned_string("A nest can have only one prime label, but ");
                push_decimal(&mut s, primes.len() as u64);
                push_str(&mut s, " were given: ");
                let mut i: usize = 0;
                let ghost head = s@;
                while i < primes.len()
                    invariant
                        i <= primes.len(),
                        s@ == head + join(string_views(primes@).take(i as int), ", "@),
                    decreases primes.len() - i,
                {
                    proof {
                        let q = string_views(primes@).take(i as int);
                        assert(string_views(primes@).take(i + 1) =~= q.push(primes@[i as int]@));
                        crate::text::lemma_join_push(q, primes@[i as int]@, ", "@);
                    }
                    if i > 0 {
                        push_str(&mut s, ", ");
                    }
                    push_str(&mut s, primes[i].as_str());
                    proof {
                        assert(s@ =~= head + join(string_views(primes@).take(i + 1), ", "@));
                    }
                    i = i + 1;
                }
                proof {
                    assert(string_views(primes@).take(primes.len() as int) =~= string_views(
                        primes@,
                    ));
                }
                push_str(&mut s, ". Pick one, or link separate nests instead.");
                proof {
                    assert(s@ =~= self.message());
                }
                s
            },
            LabelError::PrimeConflict { current, adding } => {
                let mut s = to_owned_string("This nest is already a '");
                push_str(&mut s, current.as_str());
                push_str(&mut s, "' — a nest can have only one prime label. Remove '");
                push_str(&mut s, current.as_str());
                push_str(&mut s, "' first, or use `nests update --label ");
                push_str(&mut s, adding.as_str());
                push_str(&mut s, "` to replace the set.");
                proof {
                    assert(s@ =~= self.message());
                }
                s
            },
        }
    }
}

/// The prime labels, in sorted order.
pub fn prime_labels() -> (r: Vec<&'static str>)
    ensures
        r@.map_values(|s: &str| s@) == spec_prime_labels(),
{
    let v = vec![
        "anchor-circle",
        "checklist",
        "circle",
        "feedback",
        "goal",
        "meeting",
        "metric",
        "project",
        "result",
        "role",
        "tension",
    ];
    assert(v@.map_values(|s: &str| s@) =~= spec_prime_labels());
    v
}

/// True if `label` is a prime label — one that defines what a Nest fundamentally *is*.
pub fn is_prime(label: &str) -> (r: bool)
    ensures
        r == is_prime_spec(label@),
{
    let all = prime_labels();
    let ghost spec_all = spec_prime_labels();
    let mut i: usize = 0;
    while i < all.len()
        invariant
            i <= all.len(),
            all@.map_values(|s: &str| s@) == spec_all,
            spec_all == spec_prime_labels(),
            forall|j: int| 0 <= j < i ==> spec_all[j] != label@,
        decreases all.len() - i,
    {
        assert(spec_all[i as int] == all@[i as int]@);
        if str_eq(all[i], label) {
            assert(spec_all[i as int] == label@);
            return true;
        }
        i = i + 1;
    }
    proof {
        if spec_all.contains(label@) {
            let j = choose|j: int| 0 <= j < spec_all.len() && spec_all[j] == label@;
            assert(false);
        }
    }
    false
}

/// Reject a label set that names more than one prime label.
pub fn validate_prime_labels(labels: &[String]) -> (r: Result<(), LabelError>)
    ensures
        r is Ok <==> primes_of(string_views(labels@)).len() <= 1,
        r matches Err(e) ==> e matches LabelError::TooManyPrimes { primes } && string_views(
            primes@,
        ) == primes_of(string_views(labels@)),
{
    let mut primes: Vec<String> = Vec::new();
    let mut i: usize = 0;
    while i < labels.len()
        invariant
            i <= labels.len(),
            string_views(primes@) == primes_of(string_views(labels@).take(i as int)),
        decreases labels.len() - i,
    {
        proof {
            let t = string_views(labels@).take(i + 1);
            assert(t.drop_last() =~= string_views(labels@).take(i as int));
            assert(t.last() == labels@[i as int]@);
        }
        if is_prime(labels[i].as_str()) {
            let ghost before = string_views(primes@);
            primes.push(labels[i].clone());
            assert(string_views(primes@) =~= before.push(labels@[i as int]@));
        }
        i = i + 1;
    }
    assert(string_views(labels@).take(labels.len() as int) =~= string_views(labels@));
    if primes.len() > 1 {
        Err(LabelError::TooManyPrimes { primes })
    } else {
        Ok(())
    }
}

/// Whether `labels` holds a prime label other than `adding`; the first such one.
pub open spec fn first_other_prime(labels: Seq<Seq<char>>, adding: Seq<char>) -> Option<Seq<char>>
    decreases labels.len(),
{
    if labels.len() == 0 {
        None
    } else {
        let rest = first_other_prime(labels.drop_last(), adding);
        if rest is Some {
            rest
        } else if is_prime_spec(labels.last()) && labels.last() != adding {
            Some(labels.last())
        } else {
            None
        }
    }
}

/// Reject adding a prime label to a nest that already carries a *different* one.
/// Adding a non-prime label, or re-adding the same prime, is always allowed.
/// `existing` are the nest's current label codes.
pub fn validate_added_prime(existing: &[String], adding: &str) -> (r: Result<(), LabelError>)
    ensures
        r is Ok <==> !is_prime_spec(adding@) || first_other_prime(
            string_views(existing@),
            adding@,
        ) is None,
        r matches Err(e) ==> e matches LabelError::PrimeConflict { current, adding: a } && Some(
            current@,
        ) == first_other_prime(string_views(existing@), adding@) && a@ == adding@,
{
    if !is_prime(adding) {
        return Ok(());
    }
    let mut i: usize = 0;
    while i < existing.len()
        invariant
            i <= existing.len(),
            first_other_prime(string_views(existing@).take(i as int), adding@) is None,
            is_prime_spec(adding@),
        decreases existing.len() - i,
    {
        proof {
            let t = string_views(existing@).take(i + 1);
            assert(t.drop_last() =~= string_views(existing@).take(i as int));
            assert(t.last() == existing@[i as int]@);
        }
        let l = existing[i].as_str();
        if is_prime(l) && !str_eq(l, adding) {
            proof {
                assert(first_other_prime(string_views(existing@).take(i + 1), adding@) == Some(
                    existing@[i as int]@,
                ));
                lemma_first_other_prime_prefix(string_views(existing@), adding@, i + 1);
            }
            return Err(
                LabelError::PrimeConflict {
                    current: existing[i].clone(),
                    adding: to_owned_string(adding),
                },
            );
        }
        i = i + 1;
    }
    assert(string_views(existing@).take(existing.len() as int) =~= string_views(existing@));
    Ok(())
}

/// Once a prefix has a conflicting prime, the whole sequence reports the same one.
proof fn lemma_first_other_prime_prefix(labels: Seq<Seq<char>>, adding: Seq<char>, n: int)
    requires
        0 <= n <= labels.len(),
        first_other_prime(labels.take(n), adding) is Some,
    ensures
        first_other_prime(labels, adding) == first_other_prime(labels.take(n), adding),
    decreases labels.len() - n,
{
    if n < labels.len() {
        let t = labels.take(n + 1);
        assert(t.drop_last() =~= labels.take(n));
        assert(first_other_prime(t, adding) == first_other_prime(labels.take(n), adding));
        lemma_first_other_prime_prefix(labels, adding, n + 1);
    } else {
        assert(labels.take(n) =~= labels);
    }
}


/// When no label of `labels` is a prime other than `adding`, every prime label in
/// `labels` is `adding` itself.
proof fn lemma_no_other_prime_means_all_equal(labels: Seq<Seq<char>>, adding: Seq<char>)
    requires
        first_other_prime(labels, adding) is None,
    ensures
        forall|i: int| 0 <= i < primes_of(labels).len() ==> #[trigger] primes_of(labels)[i] == adding,
    decreases labels.len(),
{
    if labels.len() > 0 {
        let rest = labels.drop_last();
        lemma_no_other_prime_means_all_equal(rest, adding);
        let p = primes_of(labels);
        let q = primes_of(rest);
        assert forall|i: int| 0 <= i < p.len() implies #[trigger] p[i] == adding by {
            if i < q.len() {
                assert(p[i] == q[i]);
            }
        }
    }
}

/// Adding a label that `validate_added_prime` accepts to a nest whose labels carry at
/// most one prime keeps it at one prime label: every prime label among the existing
/// labels plus the added one names the same prime.
pub proof fn lemma_added_prime_keeps_one_prime(existing: Seq<Seq<char>>, adding: Seq<char>)
    requires
        primes_of(existing).len() <= 1,
        !is_prime_spec(adding) || first_other_prime(existing, adding) is None,
    ensures
        forall|i: int, j: int|
            0 <= i < primes_of(existing.push(adding)).len() && 0 <= j < primes_of(
                existing.push(adding),
            ).len() ==> #[trigger] primes_of(existing.push(adding))[i] == #[trigger] primes_of(
                existing.push(adding),
            )[j],
{
    let all = existing.push(adding);
    assert(all.drop_last() =~= existing);
    if is_prime_spec(adding) {
        lemma_no_other_prime_means_all_equal(existing, adding);
        let p = primes_of(all);
        assert(p == primes_of(existing).push(adding));
        assert forall|i: int| 0 <= i < p.len() implies #[trigger] p[i] == adding by {
            if i < p.len() - 1 {
                assert(p[i] == primes_of(existing)[i]);
            }
        }
    }
}


/// The prime labels are exactly anchor-circle, checklist, circle, feedback, goal,
/// meeting, metric, project, result, role and tension.
pub proof fn lemma_prime_label_set(label: Seq<char>)
    ensures
        is_prime_spec(label) <==> (label == "anchor-circle"@ || label == "checklist"@ || label
            == "circle"@ || label == "feedback"@ || label == "goal"@ || label == "meeting"@ || label
            == "metric"@ || label == "project"@ || label == "result"@ || label == "role"@ || label
            == "tension"@),
{
    let p = spec_prime_labels();
    if is_prime_spec(label) {
        let i = choose|i: int| 0 <= i < p.len() && p[i] == label;
    }
    if label == "anchor-circle"@ { assert(p[0] == label); }
    if label == "checklist"@ { assert(p[1] == label); }
    if label == "circle"@ { assert(p[2] == label); }
    if label == "feedback"@ { assert(p[3] == label); }
    if label == "goal"@ { assert(p[4] == label); }
    if label == "meeting"@ { assert(p[5] == label); }
    if label == "metric"@ { assert(p[6] == label); }
    if label == "project"@ { assert(p[7] == label); }
    if label == "result"@ { assert(p[8] == label); }
    if label == "role"@ { assert(p[9] == label); }
    if label == "tension"@ { assert(p[10] == label); }
}

/// A list that holds a prime label has at least one prime.
proof fn lemma_primes_of_nonempty(labels: Seq<Seq<char>>, i: int)
    requires
        0 <= i < labels.len(),
        is_prime_spec(labels[i]),
    ensures
        primes_of(labels).len() >= 1,
    decreases labels.len(),
{
    if i < labels.len() - 1 {
        assert(labels.drop_last()[i] == labels[i]);
        lemma_primes_of_nonempty(labels.drop_last(), i);
    }
}

/// A label list that holds two prime labels (at two positions) is refused by
/// `validate_prime_labels`: it has more than one prime.
pub proof fn lemma_two_primes_refused(labels: Seq<Seq<char>>, i: int, j: int)
    requires
        0 <= i < j < labels.len(),
        is_prime_spec(labels[i]),
        is_prime_spec(labels[j]),
    ensures
        primes_of(labels).len() >= 2,
    decreases labels.len(),
{
    if j < labels.len() - 1 {
        assert(labels.drop_last()[i] == labels[i]);
        assert(labels.drop_last()[j] == labels[j]);
        lemma_two_primes_refused(labels.drop_last(), i, j);
    } else {
        assert(labels.drop_last()[i] == labels[i]);
        lemma_primes_of_nonempty(labels.drop_last(), i);
    }
}

} // verus!
