use marust::error::SubmitError;
use marust::examination::maximum_in_band;
use marust::examination::next_examination_number;
use marust::examination::ExaminationLedger;
use marust::track::FormCategory;

#[test]
fn the_first_number_of_each_band() {
    assert_eq!(next_examination_number(FormCategory::Regular, None), Ok(1001));
    assert_eq!(next_examination_number(FormCategory::MeisterTalent, None), Ok(2001));
    assert_eq!(next_examination_number(FormCategory::SocialIntegration, None), Ok(3001));
    assert_eq!(next_examination_number(FormCategory::Supernumerary, None), Ok(4001));
}

#[test]
fn the_number_after_the_greatest() {
    assert_eq!(next_examination_number(FormCategory::Regular, Some(1001)), Ok(1002));
    assert_eq!(next_examination_number(FormCategory::Regular, Some(1500)), Ok(1501));
    assert_eq!(next_examination_number(FormCategory::Regular, Some(1999)), Ok(2000));
    assert_eq!(next_examination_number(FormCategory::Supernumerary, Some(4999)), Ok(5000));
}

#[test]
fn a_full_band_has_no_next_number() {
    assert_eq!(next_examination_number(FormCategory::Regular, Some(2000)), Err(SubmitError::AllocationExhausted));
    assert_eq!(
        next_examination_number(FormCategory::Supernumerary, Some(5000)),
        Err(SubmitError::AllocationExhausted)
    );
}

#[test]
fn a_number_outside_the_band_counts_as_none() {
    assert_eq!(next_examination_number(FormCategory::Regular, Some(1000)), Ok(1001));
    assert_eq!(next_examination_number(FormCategory::Regular, Some(2001)), Ok(1001));
    assert_eq!(next_examination_number(FormCategory::MeisterTalent, Some(2000)), Ok(2001));
    assert_eq!(next_examination_number(FormCategory::Regular, Some(i64::MAX)), Ok(1001));
    assert_eq!(next_examination_number(FormCategory::Regular, Some(i64::MIN)), Ok(1001));
}

#[test]
fn the_greatest_number_of_a_band() {
    let issued = [1001, 2001, 1003, 3500, 1002, 2000, 2002];
    assert_eq!(maximum_in_band(&issued, FormCategory::Regular), Some(2000));
    assert_eq!(maximum_in_band(&issued, FormCategory::MeisterTalent), Some(2002));
    assert_eq!(maximum_in_band(&issued, FormCategory::SocialIntegration), Some(3500));
    assert_eq!(maximum_in_band(&issued, FormCategory::Supernumerary), None);
    assert_eq!(maximum_in_band(&[], FormCategory::Regular), None);
    assert_eq!(maximum_in_band(&[1000, 5001, 0, -1], FormCategory::Regular), None);
}

#[test]
fn allocations_from_an_empty_band_go_up_without_gaps() {
    let mut ledger = ExaminationLedger::new();
    let mut numbers = Vec::new();
    for _ in 0..25 {
        numbers.push(ledger.allocate(FormCategory::Regular).unwrap());
    }
    let expected: Vec<i64> = (1001..=1025).collect();
    assert_eq!(numbers, expected);
    assert_eq!(ledger.issued, expected);
}

#[test]
fn bands_do_not_interfere() {
    let mut ledger = ExaminationLedger::new();
    assert_eq!(ledger.allocate(FormCategory::Regular), Ok(1001));
    assert_eq!(ledger.allocate(FormCategory::MeisterTalent), Ok(2001));
    assert_eq!(ledger.allocate(FormCategory::Regular), Ok(1002));
    assert_eq!(ledger.allocate(FormCategory::Supernumerary), Ok(4001));
    assert_eq!(ledger.allocate(FormCategory::SocialIntegration), Ok(3001));
    assert_eq!(ledger.allocate(FormCategory::MeisterTalent), Ok(2002));
    assert_eq!(ledger.allocate(FormCategory::Regular), Ok(1003));
    assert_eq!(ledger.issued, vec![1001, 2001, 1002, 4001, 3001, 2002, 1003]);
}

#[test]
fn a_band_holds_a_thousand_numbers_and_then_fails() {
    let mut ledger = ExaminationLedger::new();
    for i in 1..=1000 {
        assert_eq!(ledger.allocate(FormCategory::MeisterTalent), Ok(2000 + i));
    }
    assert_eq!(ledger.allocate(FormCategory::MeisterTalent), Err(SubmitError::AllocationExhausted));
    assert_eq!(ledger.allocate(FormCategory::MeisterTalent), Err(SubmitError::AllocationExhausted));
    assert_eq!(ledger.issued.len(), 1000);
    // The next band is untouched.
    assert_eq!(ledger.allocate(FormCategory::SocialIntegration), Ok(3001));
}

#[test]
fn no_number_is_handed_out_twice() {
    let mut ledger = ExaminationLedger::new();
    let categories = [
        FormCategory::Regular,
        FormCategory::Supernumerary,
        FormCategory::Regular,
        FormCategory::SocialIntegration,
        FormCategory::MeisterTalent,
    ];
    for round in 0..40 {
        ledger.allocate(categories[round % categories.len()]).unwrap();
    }
    let mut sorted = ledger.issued.clone();
    sorted.sort();
    sorted.dedup();
    assert_eq!(sorted.len(), 40);
}
