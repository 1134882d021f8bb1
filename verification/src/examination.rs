//! Examination numbers. Each category owns a band of 1000 numbers; a
//! number is handed out once, and within a band the numbers go up from the
//! first without a gap.
use vstd::prelude::*;
use crate::error::SubmitError;
use crate::track::lemma_bands_are_disjoint;
use crate::track::FormCategory;
use crate::track::BAND_WIDTH;

verus! {

/// The greatest of the numbers in `issued` that lie in the band of
/// `category`, if there is one.
pub open spec fn band_maximum(issued: Seq<i64>, category: FormCategory) -> Option<i64>
    decreases issued.len(),
{
    if issued.len() == 0 {
        None
    } else {
        let rest = band_maximum(issued.drop_last(), category);
        let last = issued.last();
        if category.band_contains(last as int) && (rest matches Some(m) ==> m < last) {
            Some(last)
        } else {
            rest
        }
    }
}

/// The next free number of a band whose greatest assigned number is
/// `current_max`: the number after it, or the first number of the band
/// where none is assigned. A full band has no next number. A `current_max`
/// outside the band counts as none.
pub open spec fn spec_next_examination_number(
    category: FormCategory,
    current_max: Option<i64>,
) -> Result<i64, SubmitError> {
    let start = category.spec_band_start();
    let base = match current_max {
        Some(m) => if category.band_contains(m as int) {
            m as int
        } else {
            start
        },
        None => start,
    };
    if base >= start + BAND_WIDTH {
        Err(SubmitError::AllocationExhausted)
    } else {
        Ok((base + 1) as i64)
    }
}

/// `band_maximum` is the greatest issued number of the band: it is one of
/// the issued numbers, lies in the band, and no issued number of the band
/// is greater. Where it is `None`, no issued number lies in the band.
pub proof fn lemma_band_maximum_is_greatest(issued: Seq<i64>, category: FormCategory)
    ensures
        match band_maximum(issued, category) {
            Some(m) => issued.contains(m) && category.band_contains(m as int) && forall|i: int|
                0 <= i < issued.len() && category.band_contains(issued[i] as int) ==> issued[i]
                    <= m,
            None => forall|i: int|
                0 <= i < issued.len() ==> !category.band_contains(#[trigger] issued[i] as int),
        },
    decreases issued.len(),
{
    if issued.len() > 0 {
        let front = issued.drop_last();
        lemma_band_maximum_is_greatest(front, category);
        assert(forall|i: int| 0 <= i < front.len() ==> front[i] == issued[i]);
        match band_maximum(issued, category) {
            Some(m) => {
                if m == issued.last() {
                    assert(issued[issued.len() - 1] == m);
                } else {
                    let i = choose|i: int| 0 <= i < front.len() && front[i] == m;
                    assert(issued[i] == m);
                }
            },
            None => {},
        }
    }
}

/// A number outside the band of `category` does not change the greatest
/// number of that band: what is handed out in one band has no effect on
/// the next number of another.
pub proof fn lemma_other_bands_do_not_interfere(
    issued: Seq<i64>,
    number: i64,
    category: FormCategory,
)
    requires
        !category.band_contains(number as int),
    ensures
        band_maximum(issued.push(number), category) == band_maximum(issued, category),
{
    assert(issued.push(number).drop_last() == issued);
}

/// The next number is a number of the band that has not been issued, and
/// after it is issued it is the greatest of its band.
pub proof fn lemma_next_number_is_fresh(issued: Seq<i64>, category: FormCategory)
    ensures
        match spec_next_examination_number(category, band_maximum(issued, category)) {
            Ok(n) => {
                &&& category.band_contains(n as int)
                &&& !issued.contains(n)
                &&& band_maximum(issued.push(n), category) == Some(n)
                &&& n == match band_maximum(issued, category) {
                    Some(m) => m + 1,
                    None => category.spec_band_start() + 1,
                }
            },
            Err(e) => {
                &&& e == SubmitError::AllocationExhausted
                &&& band_maximum(issued, category) == Some(
                    (category.spec_band_start() + BAND_WIDTH) as i64,
                )
            },
        },
{
    lemma_band_maximum_is_greatest(issued, category);
    match spec_next_examination_number(category, band_maximum(issued, category)) {
        Ok(n) => {
            assert(issued.push(n).drop_last() == issued);
            if issued.contains(n) {
                let i = choose|i: int| 0 <= i < issued.len() && issued[i] == n;
                assert(category.band_contains(issued[i] as int));
            }
        },
        Err(e) => {},
    }
}

/// The numbers `start + 1 ..= start + count` of a band, going up.
pub open spec fn band_prefix(category: FormCategory, count: nat) -> Seq<i64> {
    Seq::new(count, |i: int| (category.spec_band_start() + 1 + i) as i64)
}

/// The issued numbers that lie in the band of `category`, in the order of
/// issue.
pub open spec fn numbers_in_band(issued: Seq<i64>, category: FormCategory) -> Seq<i64>
    decreases issued.len(),
{
    if issued.len() == 0 {
        Seq::empty()
    } else {
        let rest = numbers_in_band(issued.drop_last(), category);
        if category.band_contains(issued.last() as int) {
            rest.push(issued.last())
        } else {
            rest
        }
    }
}

/// What has been issued after one allocation for each category of
/// `requests`, in that order, starting from nothing. A request into a full
/// band issues nothing.
pub open spec fn issued_by(requests: Seq<FormCategory>) -> Seq<i64>
    decreases requests.len(),
{
    if requests.len() == 0 {
        Seq::empty()
    } else {
        let before = issued_by(requests.drop_last());
        let category = requests.last();
        match spec_next_examination_number(category, band_maximum(before, category)) {
            Ok(n) => before.push(n),
            Err(_) => before,
        }
    }
}

/// How many of the requests are for `category`.
pub open spec fn requests_for(requests: Seq<FormCategory>, category: FormCategory) -> nat
    decreases requests.len(),
{
    if requests.len() == 0 {
        0
    } else {
        requests_for(requests.drop_last(), category) + if requests.last() == category {
            1nat
        } else {
            0nat
        }
    }
}

/// The smaller of a count of requests and the width of a band.
pub open spec fn capped(count: nat) -> nat {
    if count <= BAND_WIDTH {
        count
    } else {
        BAND_WIDTH as nat
    }
}

/// Where the numbers issued in a band are its first `count` numbers, the
/// greatest of them is the last of these.
proof fn lemma_maximum_of_prefix(issued: Seq<i64>, category: FormCategory, count: nat)
    requires
        numbers_in_band(issued, category) == band_prefix(category, count),
        count <= BAND_WIDTH,
    ensures
        band_maximum(issued, category) == if count == 0 {
            None
        } else {
            Some((category.spec_band_start() + count) as i64)
        },
    decreases issued.len(),
{
    if issued.len() > 0 {
        let front = issued.drop_last();
        let rest = numbers_in_band(front, category);
        if category.band_contains(issued.last() as int) {
            assert(rest.push(issued.last()) == band_prefix(category, count));
            assert(rest.push(issued.last()).len() == count);
            assert(rest.push(issued.last())[count - 1] == issued.last());
            assert(band_prefix(category, count)[count - 1] == category.spec_band_start() + count);
            assert(rest =~= band_prefix(category, (count - 1) as nat)) by {
                assert forall|i: int| 0 <= i < count - 1 implies rest[i] == band_prefix(
                    category,
                    (count - 1) as nat,
                )[i] by {
                    assert(rest.push(issued.last())[i] == band_prefix(category, count)[i]);
                }
            }
            lemma_maximum_of_prefix(front, category, (count - 1) as nat);
        } else {
            lemma_maximum_of_prefix(front, category, count);
        }
    } else {
        assert(band_prefix(category, count).len() == 0);
    }
}

/// However the requests of the categories follow one another, each band is
/// filled from its first number upwards: after any sequence of requests,
/// the numbers issued in a band are exactly its first numbers, as many as
/// there were requests for its category (and no more than the band
/// holds), each once and in rising order.
pub proof fn lemma_allocations_are_gapless(requests: Seq<FormCategory>, category: FormCategory)
    ensures
        numbers_in_band(issued_by(requests), category) == band_prefix(
            category,
            capped(requests_for(requests, category)),
        ),
    decreases requests.len(),
{
    if requests.len() == 0 {
        assert(numbers_in_band(issued_by(requests), category) =~= band_prefix(category, 0));
    } else {
        let front = requests.drop_last();
        let before = issued_by(front);
        let asked = requests.last();
        lemma_allocations_are_gapless(front, category);
        lemma_allocations_are_gapless(front, asked);
        let held = capped(requests_for(front, asked));
        lemma_maximum_of_prefix(before, asked, held);
        match spec_next_examination_number(asked, band_maximum(before, asked)) {
            Ok(n) => {
                assert(before.push(n).drop_last() == before);
                assert(n == asked.spec_band_start() + held + 1);
                if asked == category {
                    assert(numbers_in_band(before.push(n), category) =~= band_prefix(
                        category,
                        held + 1,
                    ));
                } else {
                    lemma_bands_are_disjoint(asked, category, n as int);
                }
            },
            Err(_) => {},
        }
    }
}

/// Requests for one category alone, up to the width of its band, are
/// handed exactly the first numbers of the band; once the band is full
/// nothing more is handed out.
pub proof fn lemma_allocations_fill_band(category: FormCategory, count: nat)
    ensures
        issued_by(Seq::new(count, |i: int| category)) == band_prefix(category, capped(count)),
    decreases count,
{
    let requests = Seq::new(count, |i: int| category);
    if count == 0 {
        assert(issued_by(requests) =~= band_prefix(category, 0));
    } else {
        let fewer = Seq::new((count - 1) as nat, |i: int| category);
        assert(requests.drop_last() =~= fewer);
        lemma_allocations_fill_band(category, (count - 1) as nat);
        let before = issued_by(fewer);
        lemma_next_number_is_fresh(before, category);
        lemma_prefix_is_in_band(category, capped((count - 1) as nat));
        lemma_maximum_of_prefix(before, category, capped((count - 1) as nat));
        if count <= BAND_WIDTH {
            assert(issued_by(requests) =~= band_prefix(category, count));
        }
    }
}

/// The first numbers of a band are all numbers of the band.
proof fn lemma_prefix_is_in_band(category: FormCategory, count: nat)
    requires
        count <= BAND_WIDTH,
    ensures
        numbers_in_band(band_prefix(category, count), category) == band_prefix(category, count),
    decreases count,
{
    let prefix = band_prefix(category, count);
    if count == 0 {
        assert(numbers_in_band(prefix, category) =~= prefix);
    } else {
        assert(prefix.drop_last() =~= band_prefix(category, (count - 1) as nat));
        lemma_prefix_is_in_band(category, (count - 1) as nat);
        assert(numbers_in_band(prefix, category) =~= prefix);
    }
}

/// The next free number of a band, from the greatest number assigned in it
/// so far.
pub fn next_examination_number(category: FormCategory, current_max: Option<i64>) -> (next: Result<
    i64,
    SubmitError,
>)
    ensures
        next == spec_next_examination_number(category, current_max),
{
    let start: i64 = category.band_start();
    let base: i64 = match current_max {
        Some(m) => if start < m && m <= start + BAND_WIDTH {
            m
        } else {
            start
        },
        None => start,
    };
    if base >= start + BAND_WIDTH {
        Err(SubmitError::AllocationExhausted)
    } else {
        Ok(base + 1)
    }
}

/// The greatest of the issued numbers that lie in the band of `category`.
pub fn maximum_in_band(issued: &[i64], category: FormCategory) -> (maximum: Option<i64>)
    ensures
        maximum == band_maximum(issued@, category),
{
    let start: i64 = category.band_start();
    let mut maximum: Option<i64> = None;
    let mut i: usize = 0;
    while i < issued.len()
        invariant
            i <= issued.len(),
            start == category.spec_band_start(),
            maximum == band_maximum(issued@.take(i as int), category),
        decreases issued.len() - i,
    {
        let number: i64 = issued[i];
        proof {
            assert(issued@.take(i + 1).drop_last() == issued@.take(i as int));
        }
        if start < number && number <= start + BAND_WIDTH {
            let greater: bool = match maximum {
                Some(m) => m < number,
                None => true,
            };
            if greater {
                maximum = Some(number);
            }
        }
        i += 1;
    }
    proof {
        assert(issued@.take(issued@.len() as int) == issued@);
    }
    maximum
}

/// The record of every examination number handed out. `allocate` reads the
/// record and adds to it in one step, so no number is handed out twice.
#[derive(Debug)]
pub struct ExaminationLedger {
    pub issued: Vec<i64>,
}

impl ExaminationLedger {
    /// A ledger with nothing handed out.
    pub fn new() -> (ledger: ExaminationLedger)
        ensures
            ledger.issued@ == Seq::<i64>::empty(),
    {
        ExaminationLedger { issued: Vec::new() }
    }

    /// Hands out the next number of the band of `category` and records it.
    /// Where the band is full it fails and records nothing.
    pub fn allocate(&mut self, category: FormCategory) -> (number: Result<i64, SubmitError>)
        ensures
            number == spec_next_examination_number(
                category,
                band_maximum(old(self).issued@, category),
            ),
            match number {
                Ok(n) => {
                    &&& final(self).issued@ == old(self).issued@.push(n)
                    &&& category.band_contains(n as int)
                    &&& !old(self).issued@.contains(n)
                },
                Err(e) => {
                    &&& e == SubmitError::AllocationExhausted
                    &&& final(self).issued@ == old(self).issued@
                },
            },
    {
        proof {
            lemma_next_number_is_fresh(self.issued@, category);
        }
        let maximum = maximum_in_band(self.issued.as_slice(), category);
        match next_examination_number(category, maximum) {
            Ok(n) => {
                self.issued.push(n);
                Ok(n)
            },
            Err(e) => Err(e),
        }
    }
}

} // verus!
