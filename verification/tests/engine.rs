use spatialbench::distribution::{Distribution, TextPool};
use spatialbench::random::{
    RandomAlphaNumeric, RandomBoundedInt, RandomBoundedLong, RandomPhoneNumber, RandomString,
    RandomStringSequence, RandomText, RowRandomInt,
};

#[test]
fn raw_generator_sequence() {
    let mut r = RowRandomInt::new(42, 5);
    let expected: [u64; 5] = [705894, 1126542223, 1579310009, 565444343, 807934826];
    for e in expected {
        assert_eq!(r.next_rand(), e);
    }
}

#[test]
fn jump_equals_thousand_steps() {
    let mut jumped = RowRandomInt::new(42, 1);
    jumped.advance_rows(1000);
    let mut walked = RowRandomInt::new(42, 1);
    for _ in 0..1000 {
        walked.row_finished();
    }
    assert_eq!(jumped.next_rand(), 1159677249);
    assert_eq!(walked.next_rand(), 1159677249);
}

#[test]
fn skip_ahead_equivalence() {
    // Jumping straight to row 500 gives the same draw as finishing 499 rows.
    let mut direct = RandomBoundedInt::new(909090, 10, 99);
    direct.advance_rows(499);
    let mut sequential = RandomBoundedInt::new(909090, 10, 99);
    for _ in 0..499 {
        sequential.row_finished();
    }
    let a = direct.next_value();
    let b = sequential.next_value();
    assert_eq!(a, b);
    assert_eq!(a, 15);
}

#[test]
fn bounded_values_stay_in_range() {
    let mut column = RandomBoundedInt::new(7654321, -5, 17);
    for _ in 0..500 {
        let v = column.next_value();
        assert!(-5 <= v && v <= 17);
        column.row_finished();
    }
    let mut wide = RandomBoundedLong::new(13579, true, 1, 5_000_000_000);
    for _ in 0..200 {
        let v = wide.next_value();
        assert!(1 <= v && v <= 5_000_000_000);
        wide.row_finished();
    }
}

#[test]
fn alphanumeric_strings() {
    let mut column = RandomAlphaNumeric::new(706178559, 25);
    let first = column.next_value();
    assert_eq!(
        String::from_utf8(first.bytes.clone()).unwrap(),
        " N kD4on9OM Ipw3,gf0JBoQDd7tgrzrddZ"
    );
    column.row_finished();
    let second = column.next_value();
    assert_eq!(
        String::from_utf8(second.bytes.clone()).unwrap(),
        "89eJ5ksX3ImxJQBvxObC,"
    );
}

#[test]
fn phone_numbers() {
    let mut column = RandomPhoneNumber::new(884434366);
    let phone = column.next_value(17);
    assert_eq!(phone.country_code, 27);
    assert_eq!(phone.local1, 918);
    assert_eq!(phone.local2, 335);
    assert_eq!(phone.local3, 1736);
}

#[test]
fn weighted_pick_boundaries() {
    let values: Vec<String> = vec!["a".to_string(), "b".to_string(), "c".to_string()];
    let weights: Vec<u64> = vec![1, 2, 3];
    let d = Distribution::new(values, weights).unwrap();
    assert_eq!(d.pick_index(0), 0);
    assert_eq!(d.pick_index(1), 1);
    assert_eq!(d.pick_index(2), 1);
    assert_eq!(d.pick_index(3), 2);
    assert_eq!(d.pick_index(5), 2);
    assert_eq!(d.total_weight(), 6);
}

#[test]
fn cumulative_weights_non_decreasing() {
    let values: Vec<String> = (0..20).map(|i| format!("w{i}")).collect();
    let weights: Vec<u64> = (0..20).map(|i| (i * 7 + 1) % 13).collect();
    let d = Distribution::new(values, weights).unwrap();
    for i in 1..d.cumulative.len() {
        assert!(d.cumulative[i - 1] <= d.cumulative[i]);
    }
}

#[test]
fn distribution_rejects_bad_input() {
    assert!(Distribution::new(vec!["x".to_string()], vec![1, 2]).is_none());
    assert!(Distribution::new(Vec::new(), Vec::new()).is_none());
    assert!(Distribution::new(vec!["x".to_string(), "y".to_string()], vec![u64::MAX, 1]).is_none());
}

#[test]
fn text_pool_substrings() {
    let pool = TextPool::new("abcdefghijklmnopqrstuvwxyz".to_string()).unwrap();
    assert_eq!(pool.size(), 26);
    assert_eq!(pool.substring(3, 4), "defg");
    assert!(TextPool::new(String::new()).is_none());
}

#[test]
fn pooled_text_deterministic() {
    let text = "the quick brown fox jumps over the lazy dog again";
    let pool_a = TextPool::new(text.to_string()).unwrap();
    let pool_b = TextPool::new(text.to_string()).unwrap();
    let mut a = RandomText::new(424242, pool_a, 10).unwrap();
    let mut b = RandomText::new(424242, pool_b, 10).unwrap();
    for _ in 0..50 {
        assert_eq!(a.next_value(), b.next_value());
        a.row_finished();
        b.row_finished();
    }
}

#[test]
fn string_sequences_shuffle_the_pool() {
    let names = [
        "almond", "antique", "aquamarine", "azure", "beige", "bisque", "black", "blanched",
        "blue", "blush", "brown", "burlywood", "burnished", "chartreuse", "chiffon", "chocolate",
        "coral", "cornflower", "cornsilk", "cream", "cyan", "dark", "deep", "dim", "dodger",
        "drab", "firebrick", "floral", "forest", "frosted", "gainsboro", "ghost", "goldenrod",
        "green", "grey", "honeydew", "hot", "indian", "ivory", "khaki", "lace", "lavender",
        "lawn", "lemon", "light", "lime", "linen", "magenta", "maroon", "medium", "metallic",
        "midnight", "mint", "misty", "moccasin", "navajo", "navy", "olive", "orange", "orchid",
        "pale", "papaya", "peach", "peru", "pink", "plum", "powder", "puff", "purple", "red",
        "rose", "rosy", "royal", "saddle", "salmon", "sandy", "seashell", "sienna", "sky",
        "slate", "smoke", "snow", "spring", "steel", "tan", "thistle", "tomato", "turquoise",
        "violet", "wheat", "white", "yellow",
    ];
    let values: Vec<String> = names.iter().map(|s| s.to_string()).collect();
    let n = values.len();
    let d = Distribution::new(values, vec![1; n]).unwrap();
    let mut column = RandomStringSequence::new(709314158, 5, d).unwrap();
    let first = column.next_value();
    assert_eq!(first.words.join(" "), "goldenrod lavender spring chocolate lace");
    column.row_finished();
    let second = column.next_value();
    assert_eq!(second.words.join(" "), "blush thistle blue yellow saddle");
}

#[test]
fn weighted_string_column_deterministic() {
    let values: Vec<String> = (0..10).map(|i| format!("v{i}")).collect();
    let d1 = Distribution::new(values.clone(), vec![1; 10]).unwrap();
    let d2 = Distribution::new(values, vec![1; 10]).unwrap();
    let mut a = RandomString::new(5555, d1).unwrap();
    let mut b = RandomString::new(5555, d2).unwrap();
    for _ in 0..30 {
        assert_eq!(a.next_value(), b.next_value());
        a.row_finished();
        b.row_finished();
    }
}

#[test]
fn short_corpus_is_rejected() {
    // A corpus no longer than the largest substring cannot drive the column.
    let pool = TextPool::new("tiny".to_string()).unwrap();
    assert!(RandomText::new(424242, pool, 10).is_none());
    let enough = TextPool::new("a long enough corpus for ten".to_string()).unwrap();
    assert!(RandomText::new(424242, enough, 10).is_some());
}

#[test]
fn zero_weight_pool_is_rejected() {
    let d = Distribution::new(vec!["only".to_string()], vec![0]).unwrap();
    assert!(RandomString::new(5555, d).is_none());
}

#[test]
fn oversized_word_count_is_rejected() {
    // A sequence cannot pick more words than the pool holds.
    let d = Distribution::new(vec!["only".to_string()], vec![1]).unwrap();
    assert!(RandomStringSequence::new(5555, 2, d).is_none());
    let d2 = Distribution::new(vec!["only".to_string()], vec![1]).unwrap();
    assert!(RandomStringSequence::new(5555, 1, d2).is_some());
}
