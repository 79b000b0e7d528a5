//! Instance naming: a deterministic identifier derived from a job's run id
//! and job id, kept within what the compute backend accepts as a name.

use crate::webhook::{instance_name_of, job_id_of, run_id_of, WorkflowJobWebhookEventPayload};
use vstd::prelude::*;

verus! {

/// Longest instance name the compute backend accepts, in characters.
pub const NAME_LIMIT: usize = 63;

/// The character that stands for the decimal digit `d`.
pub open spec fn digit_char(d: int) -> char
    recommends
        0 <= d < 10,
{
    (48 + d) as char
}

/// Decimal digits of a natural number, most significant first, without
/// leading zeros.
pub open spec fn decimal_digits(n: nat) -> Seq<char>
    decreases n,
{
    if n < 10 {
        seq![digit_char(n as int)]
    } else {
        decimal_digits(n / 10).push(digit_char((n % 10) as int))
    }
}

/// Decimal representation of an integer, with a leading `-` when negative.
pub open spec fn decimal(n: int) -> Seq<char> {
    if n < 0 {
        seq!['-'] + decimal_digits((-n) as nat)
    } else {
        decimal_digits(n as nat)
    }
}

/// The name of a job's instance before it is normalised:
/// `gha-<run_id>-<job_id>`.
pub open spec fn raw_instance_name(run_id: int, job_id: int) -> Seq<char> {
    seq!['g', 'h', 'a', '-'] + decimal(run_id) + seq!['-'] + decimal(job_id)
}

/// Characters that may appear in an instance name: `a`-`z`, `0`-`9`, `-`.
pub open spec fn is_name_char(c: char) -> bool {
    ('a' <= c && c <= 'z') || ('0' <= c && c <= '9') || c == '-'
}

/// The first `limit` elements of `s`, or all of `s` when it is shorter.
pub open spec fn truncated(s: Seq<char>, limit: int) -> Seq<char> {
    if s.len() <= limit {
        s
    } else {
        s.take(limit)
    }
}

/// What remains of an already lowercased name: the name characters, in
/// order, cut off after `NAME_LIMIT` of them.
pub open spec fn retained(lowered: Seq<char>) -> Seq<char> {
    truncated(lowered.filter(|c: char| is_name_char(c)), NAME_LIMIT as int)
}

/// What `str::to_lowercase` makes of a string: its lowercase equivalent under
/// the Unicode case mapping that the standard library implements.
pub uninterp spec fn lowercase_of(s: Seq<char>) -> Seq<char>;

/// `str::to_lowercase` returns the lowercase equivalent of the slice as a new
/// string. Trusted: the result is only named, as a function of the input's
/// characters; nothing is claimed about which characters it holds.
pub assume_specification[ str::to_lowercase ](s: &str) -> (lowered: String)
    ensures
        lowered@ == lowercase_of(s@),
;

/// The normalised form of a raw name: lowercased, reduced to name
/// characters, and cut off after `NAME_LIMIT` characters.
pub open spec fn sanitized(raw: Seq<char>) -> Seq<char> {
    retained(lowercase_of(raw))
}

/// The instance name for a job: what is retained of
/// `gha-<run_id>-<job_id>`. The prefix, the digits and the hyphens are
/// lowercase as they stand, so there is nothing to lowercase first.
pub open spec fn instance_name(run_id: int, job_id: int) -> Seq<char> {
    retained(raw_instance_name(run_id, job_id))
}

/// A valid instance name holds only name characters and at most
/// `NAME_LIMIT` of them.
pub open spec fn is_valid_name(name: Seq<char>) -> bool {
    &&& name.len() <= NAME_LIMIT
    &&& forall|i: int| 0 <= i < name.len() ==> is_name_char(#[trigger] name[i])
}

/// Whatever goes in, what is retained is a valid instance name.
pub proof fn lemma_retained_is_valid(lowered: Seq<char>)
    ensures
        is_valid_name(retained(lowered)),
{
    let keep = |c: char| is_name_char(c);
    let kept = lowered.filter(keep);
    assert forall|i: int| 0 <= i < retained(lowered).len() implies is_name_char(
        #[trigger] retained(lowered)[i],
    ) by {
        assert(retained(lowered)[i] == kept[i]);
        lowered.lemma_filter_pred(keep, i);
        assert(keep(kept[i]));
    }
}

/// Retaining leaves a valid name as it is.
pub proof fn lemma_retained_keeps_valid_name(name: Seq<char>)
    requires
        is_valid_name(name),
    ensures
        retained(name) == name,
    decreases name.len(),
{
    let keep = |c: char| is_name_char(c);
    reveal(Seq::filter);
    if name.len() > 0 {
        let front = name.drop_last();
        assert(is_valid_name(front)) by {
            assert forall|i: int| 0 <= i < front.len() implies is_name_char(
                #[trigger] front[i],
            ) by {
                assert(front[i] == name[i]);
            }
        }
        lemma_retained_keeps_valid_name(front);
        assert(front.filter(keep) == front);
        assert(is_name_char(name[name.len() - 1]));
        assert(name.filter(keep) =~= front.push(name.last()));
        assert(front.push(name.last()) =~= name);
    } else {
        assert(name.filter(keep) =~= name);
    }
}

/// Retaining twice changes nothing more than retaining once.
pub proof fn lemma_retained_is_idempotent(lowered: Seq<char>)
    ensures
        retained(retained(lowered)) == retained(lowered),
{
    lemma_retained_is_valid(lowered);
    lemma_retained_keeps_valid_name(retained(lowered));
}

/// Ten to the power of `exponent`.
pub open spec fn pow10(exponent: nat) -> nat
    decreases exponent,
{
    if exponent == 0 {
        1
    } else {
        10 * pow10((exponent - 1) as nat)
    }
}

/// A number below `10^width` has at most `width` decimal digits.
pub proof fn lemma_decimal_digits_len(n: nat, width: nat)
    requires
        width >= 1,
        n < pow10(width),
    ensures
        decimal_digits(n).len() <= width,
    decreases n,
{
    if n >= 10 {
        assert(pow10(1) == 10) by {
            reveal_with_fuel(pow10, 2);
        }
        assert(width >= 2);
        assert(pow10(width) == 10 * pow10((width - 1) as nat));
        lemma_decimal_digits_len(n / 10, (width - 1) as nat);
    }
}

/// The name `gha-<run_id>-<job_id>` of a job is a valid instance name as it
/// stands: it has no character that would be dropped and is never long
/// enough to be cut off.
pub proof fn lemma_raw_instance_name_is_valid(run_id: i64, job_id: i64)
    ensures
        is_valid_name(raw_instance_name(run_id as int, job_id as int)),
        raw_instance_name(run_id as int, job_id as int).len() <= 45,
        retained(raw_instance_name(run_id as int, job_id as int)) == raw_instance_name(
            run_id as int,
            job_id as int,
        ),
{
    let run = decimal(run_id as int);
    let job = decimal(job_id as int);
    lemma_decimal_is_valid(run_id);
    lemma_decimal_is_valid(job_id);
    let name = raw_instance_name(run_id as int, job_id as int);
    let head = seq!['g', 'h', 'a', '-'];
    assert(name.len() == 4 + run.len() + 1 + job.len());
    assert forall|i: int| 0 <= i < name.len() implies is_name_char(#[trigger] name[i]) by {
        if i < 4 {
            assert(name[i] == head[i]);
        } else if i < 4 + run.len() {
            assert(name[i] == run[i - 4]);
        } else if i == 4 + run.len() {
            assert(name[i] == '-');
        } else {
            assert(name[i] == job[i - 5 - run.len()]);
        }
    }
    lemma_retained_keeps_valid_name(name);
}

/// The decimal representation of a 64-bit integer has at most 20
/// characters, each of them a digit or `-`.
pub proof fn lemma_decimal_is_valid(n: i64)
    ensures
        1 <= decimal(n as int).len() <= 20,
        forall|i: int|
            0 <= i < decimal(n as int).len() ==> is_name_char(#[trigger] decimal(n as int)[i]),
{
    assert(pow10(19) == 10_000_000_000_000_000_000nat) by {
        reveal_with_fuel(pow10, 20);
    }
    let magnitude = if n < 0 { (-(n as int)) as nat } else { n as nat };
    lemma_decimal_digits_len(magnitude, 19);
    lemma_decimal_is_injective(n as int, n as int);
    assert forall|i: int| 0 <= i < decimal(n as int).len() implies is_name_char(
        #[trigger] decimal(n as int)[i],
    ) by {
        if i == 0 && n >= 0 {
            lemma_decimal_digits_value(magnitude);
        }
    }
}

/// The number that a sequence of decimal digits stands for.
pub open spec fn digits_value(digits: Seq<char>) -> int
    decreases digits.len(),
{
    if digits.len() == 0 {
        0
    } else {
        digits_value(digits.drop_last()) * 10 + (digits.last() as int - 48)
    }
}

/// The decimal digits of a number are digits, at least one of them, and
/// stand for that number.
pub proof fn lemma_decimal_digits_value(n: nat)
    ensures
        decimal_digits(n).len() >= 1,
        forall|i: int|
            0 <= i < decimal_digits(n).len() ==> '0' <= #[trigger] decimal_digits(n)[i] <= '9',
        digits_value(decimal_digits(n)) == n,
    decreases n,
{
    let digits = decimal_digits(n);
    if n < 10 {
        assert(digits.drop_last() =~= Seq::<char>::empty());
        assert(digits_value(digits.drop_last()) == 0);
        assert(digits.last() as int == 48 + n);
    } else {
        lemma_decimal_digits_value(n / 10);
        let front = decimal_digits(n / 10);
        assert(digits.drop_last() =~= front);
        assert(digits.last() as int == 48 + n % 10);
        assert forall|i: int| 0 <= i < digits.len() implies '0' <= #[trigger] digits[i]
            <= '9' by {
            if i < front.len() {
                assert(digits[i] == front[i]);
            }
        }
    }
}

/// Different integers have different decimal representations. What is
/// more, a representation is never empty and only its first character can
/// be a `-`.
pub proof fn lemma_decimal_is_injective(a: int, b: int)
    ensures
        decimal(a).len() >= 1,
        forall|i: int| 1 <= i < decimal(a).len() ==> '0' <= #[trigger] decimal(a)[i] <= '9',
        decimal(a) == decimal(b) ==> a == b,
{
    let magnitude_a = if a < 0 { (-a) as nat } else { a as nat };
    let magnitude_b = if b < 0 { (-b) as nat } else { b as nat };
    let digits_a = decimal_digits(magnitude_a);
    let digits_b = decimal_digits(magnitude_b);
    lemma_decimal_digits_value(magnitude_a);
    lemma_decimal_digits_value(magnitude_b);
    if a < 0 {
        assert forall|i: int| 1 <= i < decimal(a).len() implies '0' <= #[trigger] decimal(a)[i]
            <= '9' by {
            assert(decimal(a)[i] == digits_a[i - 1]);
        }
    }
    if decimal(a) == decimal(b) {
        if a < 0 {
            assert(decimal(a)[0] == '-');
            if b >= 0 {
                assert(decimal(b)[0] == digits_b[0]);
            } else {
                assert(digits_a =~= decimal(a).skip(1));
                assert(digits_b =~= decimal(b).skip(1));
            }
        } else {
            assert(decimal(a)[0] == digits_a[0]);
            if b < 0 {
                assert(decimal(b)[0] == '-');
            }
        }
    }
}

/// Different jobs have different names: `gha-<run_id>-<job_id>` can be read
/// back in one way only.
pub proof fn lemma_raw_instance_name_is_injective(
    run_id: int,
    job_id: int,
    other_run_id: int,
    other_job_id: int,
)
    requires
        raw_instance_name(run_id, job_id) == raw_instance_name(other_run_id, other_job_id),
    ensures
        run_id == other_run_id,
        job_id == other_job_id,
{
    let name = raw_instance_name(run_id, job_id);
    let other = raw_instance_name(other_run_id, other_job_id);
    let run = decimal(run_id);
    let job = decimal(job_id);
    let other_run = decimal(other_run_id);
    let other_job = decimal(other_job_id);
    lemma_decimal_is_injective(run_id, other_run_id);
    lemma_decimal_is_injective(other_run_id, run_id);
    lemma_decimal_is_injective(job_id, other_job_id);
    assert(name.len() == 4 + run.len() + 1 + job.len());
    assert(other.len() == 4 + other_run.len() + 1 + other_job.len());
    // The hyphen that ends the run id stands where the other name has it too.
    if run.len() < other_run.len() {
        assert(name[4 + run.len() as int] == '-');
        assert(other[4 + run.len() as int] == other_run[run.len() as int]);
        assert(false);
    }
    if other_run.len() < run.len() {
        assert(other[4 + other_run.len() as int] == '-');
        assert(name[4 + other_run.len() as int] == run[other_run.len() as int]);
        assert(false);
    }
    assert(run =~= other_run) by {
        assert forall|i: int| 0 <= i < run.len() implies run[i] == other_run[i] by {
            assert(name[4 + i] == run[i]);
            assert(other[4 + i] == other_run[i]);
        }
    }
    assert(job =~= other_job) by {
        assert forall|i: int| 0 <= i < job.len() implies job[i] == other_job[i] by {
            assert(name[5 + run.len() + i] == job[i]);
            assert(other[5 + run.len() + i] == other_job[i]);
        }
    }
}

/// Jobs and instance names correspond one to one: two jobs with 64-bit ids
/// share an instance name only if they are the same job.
pub proof fn lemma_instance_name_is_injective(
    run_id: i64,
    job_id: i64,
    other_run_id: i64,
    other_job_id: i64,
)
    requires
        instance_name(run_id as int, job_id as int) == instance_name(
            other_run_id as int,
            other_job_id as int,
        ),
    ensures
        run_id == other_run_id,
        job_id == other_job_id,
{
    lemma_raw_instance_name_is_valid(run_id, job_id);
    lemma_raw_instance_name_is_valid(other_run_id, other_job_id);
    lemma_raw_instance_name_is_injective(
        run_id as int,
        job_id as int,
        other_run_id as int,
        other_job_id as int,
    );
}

/// Every job has a valid instance name: at most 63 characters, each of them
/// one of `a`-`z`, `0`-`9` and `-`.
pub proof fn lemma_instance_name_is_valid(run_id: int, job_id: int)
    ensures
        is_valid_name(instance_name(run_id, job_id)),
{
    lemma_retained_is_valid(raw_instance_name(run_id, job_id));
}

fn to_digit_char(d: u8) -> (c: char)
    requires
        d < 10,
    ensures
        c == digit_char(d as int),
{
    (48u8 + d) as char
}

fn push_decimal_digits(out: &mut String, n: u64)
    ensures
        final(out)@ == old(out)@ + decimal_digits(n as nat),
    decreases n,
{
    if n >= 10 {
        push_decimal_digits(out, n / 10);
    }
    out.push(to_digit_char((n % 10) as u8));
    assert(final(out)@ =~= old(out)@ + decimal_digits(n as nat));
}

/// Appends the decimal representation of `n` to `out`.
pub fn push_decimal(out: &mut String, n: i64)
    ensures
        final(out)@ == old(out)@ + decimal(n as int),
{
    if n < 0 {
        out.push('-');
        let magnitude: u64 = (0 - (n as i128)) as u64;
        push_decimal_digits(out, magnitude);
        assert(final(out)@ =~= old(out)@ + decimal(n as int));
    } else {
        push_decimal_digits(out, n as u64);
    }
}

fn is_name_char_exec(c: char) -> (keep: bool)
    ensures
        keep == is_name_char(c),
{
    ('a' <= c && c <= 'z') || ('0' <= c && c <= '9') || c == '-'
}

/// Keeps the name characters of an already lowercased string, in order, and
/// stops after `NAME_LIMIT` of them.
pub fn retain_name_chars(lowered: &str) -> (name: String)
    ensures
        name@ == retained(lowered@),
        is_valid_name(name@),
{
    proof {
        lemma_retained_is_valid(lowered@);
    }
    let ghost keep = |c: char| is_name_char(c);
    let mut name = String::new();
    let mut kept: usize = 0;
    for c in it: lowered.chars()
        invariant
            it.seq() == lowered@,
            keep == (|c: char| is_name_char(c)),
            kept == name@.len(),
            kept <= NAME_LIMIT,
            name@ == truncated(lowered@.take(it.index() as int).filter(keep), NAME_LIMIT as int),
    {
        proof {
            let seen = lowered@.take(it.index() as int);
            assert(lowered@.take(it.index() as int + 1) =~= seen.push(c));
            seen.lemma_filter_push(c, keep);
        }
        if kept < NAME_LIMIT && is_name_char_exec(c) {
            name.push(c);
            kept = kept + 1;
        }
    }
    proof {
        assert(lowered@.take(lowered@.len() as int) =~= lowered@);
    }
    name
}

/// Normalises a raw name: lowercases it, keeps only `a`-`z`, `0`-`9` and `-`,
/// and cuts the result off after `NAME_LIMIT` characters.
pub fn sanitize_instance_name(raw: &str) -> (name: String)
    ensures
        name@ == sanitized(raw@),
        is_valid_name(name@),
{
    let lowered = raw.to_lowercase();
    retain_name_chars(lowered.as_str())
}

fn raw_name_for(run_id: i64, job_id: i64) -> (raw: String)
    ensures
        raw@ == raw_instance_name(run_id as int, job_id as int),
{
    let mut raw = String::new();
    raw.push('g');
    raw.push('h');
    raw.push('a');
    raw.push('-');
    push_decimal(&mut raw, run_id);
    raw.push('-');
    push_decimal(&mut raw, job_id);
    assert(raw@ =~= raw_instance_name(run_id as int, job_id as int));
    raw
}

/// Builds the instance name for the job `(run_id, job_id)`. For ids of
/// this width nothing is ever dropped or cut off: the name is
/// `gha-<run_id>-<job_id>` itself.
pub fn instance_name_for(run_id: i64, job_id: i64) -> (name: String)
    ensures
        name@ == instance_name(run_id as int, job_id as int),
        name@ == raw_instance_name(run_id as int, job_id as int),
        is_valid_name(name@),
{
    let raw = raw_name_for(run_id, job_id);
    proof {
        lemma_raw_instance_name_is_valid(run_id, job_id);
    }
    retain_name_chars(raw.as_str())
}

/// Generates the deterministic instance name of the job a workflow job
/// event is about: `gha-<run_id>-<job_id>`, in lowercase, reduced to
/// `a`-`z`, `0`-`9` and `-`, and cut off after 63 characters. A run id or
/// job id that the event lacks counts as zero.
pub fn make_instance_name(payload: &WorkflowJobWebhookEventPayload) -> (name: String)
    ensures
        name@ == instance_name_of(payload@),
        name@ == raw_instance_name(run_id_of(payload@), job_id_of(payload@)),
        is_valid_name(name@),
{
    let run_id: i64 = match payload.workflow_job.run_id {
        Some(run_id) => run_id,
        None => 0,
    };
    let job_id: i64 = match payload.workflow_job.id {
        Some(id) => id,
        None => 0,
    };
    instance_name_for(run_id, job_id)
}

} // verus!
