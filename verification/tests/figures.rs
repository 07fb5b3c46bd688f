use kg_rust::stats::{
    count_labels, orders_per_day, orders_per_hour_by_day, slot_of, tally, HourRange,
    MealPeriods, Slot, DAYS, HOURS,
};

#[test]
fn epoch_is_a_thursday_morning_in_kolkata() {
    // 1970-01-01 00:00:00 UTC is 05:30 in Kolkata.
    assert_eq!(slot_of(0), Some(Slot { day: 3, hour: 5 }));
    // 2023-11-14 22:13:20 UTC is 03:43:20 on the next day, a Wednesday.
    assert_eq!(slot_of(1_700_000_000), Some(Slot { day: 2, hour: 3 }));
    // Four hours earlier it is still Tuesday there, in the last hour of the day.
    assert_eq!(slot_of(1_700_000_000 - 4 * 3_600), Some(Slot { day: 1, hour: 23 }));
    // Half an hour before midnight UTC on a Sunday is Monday 05:00 there.
    assert_eq!(slot_of(1_700_000_000 + 5 * 86_400 - 13 * 60 - 20 + 3_600), Some(Slot { day: 0, hour: 4 }));
    assert_eq!(slot_of(i64::MAX), None);
    assert_eq!(slot_of(i64::MIN), None);
}

#[test]
fn slots_are_counted_by_day_and_hour() {
    assert_eq!((DAYS, HOURS), (7, 24));
    let slot = |day: u32, hour: u32| Slot { day, hour };
    let table = tally(&vec![slot(0, 0), slot(6, 23), slot(3, 5), slot(3, 5), slot(0, 0), slot(3, 5)]);
    assert_eq!(table.len(), 168);
    assert_eq!(table[0], 2);
    assert_eq!(table[3 * 24 + 5], 3);
    assert_eq!(table[167], 1);
    assert_eq!(table.iter().sum::<u64>(), 6);
    // Slots outside the week fall on no cell.
    let table = tally(&vec![slot(7, 0), slot(0, 24), slot(1, 1), slot(u32::MAX, u32::MAX)]);
    assert_eq!(table[25], 1);
    assert_eq!(table.iter().sum::<u64>(), 1);
    assert_eq!(tally(&Vec::new()), vec![0u64; 168]);
}

#[test]
fn orders_are_counted_by_kolkata_time() {
    let table = orders_per_hour_by_day(&vec![0, 1_700_000_000, 0, 1_799]).unwrap();
    assert_eq!(table.len(), 168);
    assert_eq!(table[3 * 24 + 5], 3);
    assert_eq!(table[2 * 24 + 3], 1);
    assert_eq!(table.iter().sum::<u64>(), 4);
    // 1800 seconds after the epoch it is 06:00 in Kolkata.
    assert_eq!(orders_per_hour_by_day(&vec![1_800]).unwrap()[3 * 24 + 6], 1);
    assert_eq!(orders_per_hour_by_day(&Vec::new()), Some(vec![0u64; 168]));
    assert_eq!(orders_per_hour_by_day(&vec![0, i64::MAX]), None);
}

#[test]
fn labels_are_counted_once_each() {
    let labels = |texts: &[&str]| texts.iter().map(|t| t.to_string()).collect::<Vec<String>>();
    assert_eq!(
        count_labels(&labels(&["b", "a", "b", "c", "b", "a"])),
        vec![("b".to_string(), 3), ("a".to_string(), 2), ("c".to_string(), 1)]
    );
    assert_eq!(count_labels(&labels(&[])), Vec::<(String, u64)>::new());
    assert_eq!(count_labels(&labels(&["", ""])), vec![(String::new(), 2)]);
}

#[test]
fn orders_are_counted_by_kolkata_date() {
    let late = 1_700_000_000;
    let counts = orders_per_day(&vec![0, late, late - 4 * 3_600, 66_599, 66_600, late + 1]).unwrap();
    assert_eq!(
        counts,
        vec![
            ("1970-01-01".to_string(), 2),
            ("2023-11-15".to_string(), 2),
            ("2023-11-14".to_string(), 1),
            // 18:30 UTC is midnight in Kolkata.
            ("1970-01-02".to_string(), 1),
        ]
    );
    assert_eq!(orders_per_day(&Vec::new()), Some(Vec::new()));
    assert_eq!(orders_per_day(&vec![i64::MIN]), None);
}

#[test]
fn meal_hours() {
    let usual = MealPeriods::usual();
    assert_eq!(usual.hours("breakfast"), Some(HourRange { first: 6, last: 10 }));
    assert_eq!(usual.hours("lunch"), Some(HourRange { first: 11, last: 14 }));
    assert_eq!(usual.hours("dinner"), Some(HourRange { first: 18, last: 21 }));
    assert_eq!(usual.hours("brunch"), None);
    assert_eq!(usual.hours("Lunch"), None);
    assert_eq!(usual.hours(""), None);
    let late = MealPeriods { dinner: HourRange { first: 20, last: 23 }, ..usual };
    assert_eq!(late.hours("dinner"), Some(HourRange { first: 20, last: 23 }));
    assert_eq!(late.hours("lunch"), usual.hours("lunch"));
    let lunch = usual.lunch;
    assert!(!lunch.contains(10));
    assert!(lunch.contains(11));
    assert!(lunch.contains(14));
    assert!(!lunch.contains(15));
}
